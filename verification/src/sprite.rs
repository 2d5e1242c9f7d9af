//! Pixel sprites shown through the Kitty graphics protocol.

use vstd::prelude::*;
use crate::kitty::{base64_standard, transmit, transmit_frames};

verus! {

/// An RGBA image: `width` x `height` pixels, four bytes each, row by row.
pub struct Sprite {
    pub width: u16,
    pub height: u16,
    pub rgba: Vec<u8>,
}

/// Whether the pixels of `s` can be base64-encoded within the address
/// range (the encoder refuses longer input).
pub open spec fn encodable(s: Sprite) -> bool {
    4 * ((s.rgba@.len() + 2) / 3) <= usize::MAX
}


/// What sending sprite `s` as image `id` writes.
pub open spec fn sprite_output(id: u32, s: Sprite) -> Seq<char> {
    transmit_frames(id, s.width, s.height, base64_standard(s.rgba@), true)
}

/// What sending the first `n` frames of `frames` as images `id_base`,
/// `id_base + 1`, ... writes.
pub open spec fn frames_transmit(frames: Seq<Sprite>, id_base: u32, n: int) -> Seq<char>
    decreases n,
{
    if n <= 0 {
        Seq::empty()
    } else {
        frames_transmit(frames, id_base, n - 1) + sprite_output((id_base + n - 1) as u32, frames[n - 1])
    }
}

/// What sending every frame of one animation writes.
pub open spec fn animation_transmit(frames: Seq<Sprite>, id_base: u32) -> Seq<char> {
    frames_transmit(frames, id_base, frames.len() as int)
}

/// Whether every frame of `frames` can be sent and its ids, from `id_base`
/// on, fit in a `u32`.
pub open spec fn frames_sendable(frames: Seq<Sprite>, id_base: int) -> bool {
    &&& id_base + frames.len() <= u32::MAX
    &&& forall|i: int| 0 <= i < frames.len() ==> encodable(#[trigger] frames[i])
}

/// Sends every frame of `frames` as images `id_base`, `id_base + 1`, ...
pub fn transmit_animation(out: &mut String, frames: &Vec<Sprite>, id_base: u32)
    requires
        frames_sendable(frames@, id_base as int),
    ensures
        final(out)@ == old(out)@ + animation_transmit(frames@, id_base),
{
    let ghost start = out@;
    let mut i: usize = 0;
    while i < frames.len()
        invariant
            i <= frames@.len(),
            frames_sendable(frames@, id_base as int),
            out@ == start + frames_transmit(frames@, id_base, i as int),
        decreases frames@.len() - i,
    {
        let s = &frames[i];
        assert(encodable(frames@[i as int]));
        transmit(out, id_base + i as u32, s.width, s.height, s.rgba.as_slice());
        proof {
            assert(out@ =~= start + frames_transmit(frames@, id_base, i + 1));
        }
        i = i + 1;
    }
}

} // verus!
