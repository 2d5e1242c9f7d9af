//! Where the cafe's static sprites go (plants, pastries, register, paw
//! print) and which Kitty placements the decor layer sends each frame,
//! including the neon face's bright/dim swap.

use vstd::prelude::*;
use crate::kitty::{base64_standard, delete_placement, delete_placement_seq, place, place_seq, transmit, transmit_frames};
use crate::sprite::{Sprite, animation_transmit, encodable, frames_sendable, sprite_output, transmit_animation};
use crate::layout::{Rect, rect, sat_sub};
use crate::scenes::cafe::components::pastry_case::shelf_rows;
use crate::scenes::cafe::components::signboard::{paw_slot, sign_left, sign_top};
use crate::scenes::cafe::layout::Layout;

verus! {

/// Image id of the bright neon face.
pub const NEON_BRIGHT_ID: u32 = 90;

/// Image id of the dimmed neon face.
pub const NEON_DIM_ID: u32 = 91;

/// Image id of the first static sprite; the others follow consecutively.
pub const STATIC_BASE: u32 = 92;

/// Number of static sprites.
pub const STATIC_COUNT: usize = 10;

/// The cells of each static sprite, in order: the two plants, the shelf
/// plant and sprout, four pastries in the case, the register and the paw
/// print.
pub open spec fn static_slots_spec(l: Layout) -> Seq<Rect> {
    let case = l.pastry_case;
    let upper = (case.y + case.height / 2) as u16;
    let lower = (case.y + case.height - 1) as u16;
    let left_x = (case.x + 2) as u16;
    let right_x = (case.x + case.width / 2 + 1) as u16;
    seq![
        l.plant_left,
        l.plant_right,
        rect(sat_sub(l.shelf_x1, 5), sat_sub(l.shelf_rows@[0], 2), 4, 2),
        rect(sat_sub(l.shelf_x1, 3), sat_sub(l.shelf_rows@[1], 2), 3, 2),
        rect(left_x, sat_sub(upper, 2), 4, 2),
        rect(right_x, sat_sub(upper, 2), 4, 2),
        rect(left_x, sat_sub(lower, 2), 4, 2),
        rect(right_x, sat_sub(lower, 2), 4, 2),
        rect(l.register_x, sat_sub(l.counter_y, 3), 5, 3),
        rect((sign_left(l) + 7) as u16, (sign_top(l) + 6) as u16, 4, 2),
    ]
}

/// What `static_slots` needs of a layout (true of every `Layout::new`).
pub open spec fn slots_ok(l: Layout) -> bool {
    &&& l.pastry_case.valid()
    &&& l.pastry_case.y + l.pastry_case.height >= 1
    &&& l.pastry_case.x + 2 <= u16::MAX
    &&& l.floor_y + 4 <= u16::MAX
}

/// Where each static sprite goes, in cells (same order as the sprites).
pub fn static_slots(l: &Layout) -> (r: [Rect; 10])
    requires
        slots_ok(*l),
    ensures
        r@ == static_slots_spec(*l),
{
    let case = l.pastry_case;
    let rows = shelf_rows(l);
    let upper = rows[0];
    let lower = rows[1];
    let item_w: u16 = 4;
    let left_x = case.x + 2;
    let right_x = case.x + case.width / 2 + 1;
    let r = [
        l.plant_left,
        l.plant_right,
        Rect::new(l.shelf_x1.saturating_sub(5), l.shelf_rows[0].saturating_sub(2), 4, 2),
        Rect::new(l.shelf_x1.saturating_sub(3), l.shelf_rows[1].saturating_sub(2), 3, 2),
        Rect::new(left_x, upper.saturating_sub(2), item_w, 2),
        Rect::new(right_x, upper.saturating_sub(2), item_w, 2),
        Rect::new(left_x, lower.saturating_sub(2), item_w, 2),
        Rect::new(right_x, lower.saturating_sub(2), item_w, 2),
        Rect::new(l.register_x, l.counter_y.saturating_sub(3), 5, 3),
        paw_slot(l),
    ];
    proof {
        assert(r@ =~= static_slots_spec(*l));
    }
    r
}

/// Whether the rectangle `s` lies on a `w` x `h` screen.
pub open spec fn on_screen(s: Rect, w: u16, h: u16) -> bool {
    s.spec_right() <= w && s.spec_bottom() <= h
}

/// What placing static sprite `i` at `s` sends: its old placement is
/// deleted, then it is placed again when it lies on the screen.
pub open spec fn static_output(i: int, s: Rect, l: Layout) -> Seq<char> {
    delete_placement_seq((STATIC_BASE + i) as u32) + (if on_screen(s, l.w, l.h) {
        place_seq((STATIC_BASE + i) as u32, s.x, s.y, s.width, s.height)
    } else {
        Seq::empty()
    })
}

/// What placing the first `n` static sprites sends.
pub open spec fn statics_output(l: Layout, n: int) -> Seq<char>
    decreases n,
{
    if n <= 0 {
        Seq::empty()
    } else {
        statics_output(l, n - 1) + static_output(n - 1, static_slots_spec(l)[n - 1], l)
    }
}

/// What swapping the neon face to its bright or dim image sends: the other
/// image's placement is deleted and the shown one placed when the face
/// lies on the screen.
pub open spec fn neon_output(dim: bool, l: Layout) -> Seq<char> {
    let (show, hide) = if dim { (NEON_DIM_ID, NEON_BRIGHT_ID) } else { (NEON_BRIGHT_ID, NEON_DIM_ID) };
    let f = l.neon_face;
    delete_placement_seq(hide) + (if on_screen(f, l.w, l.h) {
        place_seq(show, f.x, f.y, f.width, f.height)
    } else {
        Seq::empty()
    })
}

/// What a layout must hold for the placements to be sent: every sprite
/// that lies on the screen starts before the last column and row.
pub open spec fn placeable(l: Layout) -> bool {
    &&& slots_ok(l)
    &&& forall|i: int| 0 <= i < STATIC_COUNT ==> {
        let s = #[trigger] static_slots_spec(l)[i];
        on_screen(s, l.w, l.h) ==> s.x < u16::MAX && s.y < u16::MAX
    }
    &&& on_screen(l.neon_face, l.w, l.h) ==> l.neon_face.x < u16::MAX && l.neon_face.y < u16::MAX
}

/// What sending every decor image writes: the bright neon face, the dim
/// one, then the static sprites.
pub open spec fn transmit_output(bright: Sprite, dim: Sprite, statics: Seq<Sprite>) -> Seq<char> {
    sprite_output(NEON_BRIGHT_ID, bright) + sprite_output(NEON_DIM_ID, dim) + animation_transmit(statics, STATIC_BASE)
}

/// What one frame of the decor layer writes, from its state before the
/// frame: the images when they have not been sent since the last resize,
/// the static placements when they have not been made, and the neon face
/// when its bright/dim image changed.
pub open spec fn frame_output(transmitted: bool, placed: bool, last_dim: Option<bool>, dim: bool, l: Layout,
    bright: Sprite, dim_face: Sprite, statics: Seq<Sprite>) -> Seq<char> {
    (if transmitted { Seq::empty() } else { transmit_output(bright, dim_face, statics) })
        + (if placed { Seq::empty() } else { statics_output(l, STATIC_COUNT as int) })
        + (if last_dim == Some(dim) { Seq::empty() } else { neon_output(dim, l) })
}

/// The decor layer's placement state.
pub struct Decor {
    /// The sprite images have been sent since the last resize.
    pub transmitted: bool,
    /// The static sprites have been placed since the last resize.
    pub placed: bool,
    /// The neon sign is momentarily dim.
    pub dim: bool,
    /// Which neon face image is placed, if any.
    pub last_dim: Option<bool>,
}

impl Decor {
    /// Nothing sent or placed yet.
    pub fn new() -> (d: Decor)
        ensures
            !d.transmitted,
            !d.placed,
            !d.dim,
            d.last_dim == None::<bool>,
    {
        Decor { transmitted: false, placed: false, dim: false, last_dim: None }
    }

    /// After a resize: the images must be sent and placed again.
    pub fn init(&mut self)
        ensures
            !final(self).transmitted,
            !final(self).placed,
            final(self).dim == old(self).dim,
            final(self).last_dim == None::<bool>,
    {
        self.placed = false;
        self.last_dim = None;
        self.transmitted = false;
    }

    /// Follows the neon text's flicker.
    pub fn set_dim(&mut self, dim: bool)
        ensures
            final(self).dim == dim,
            final(self).transmitted == old(self).transmitted,
            final(self).placed == old(self).placed,
            final(self).last_dim == old(self).last_dim,
    {
        self.dim = dim;
    }

    /// Sends the placements that changed: all static sprites once after a
    /// resize, and the neon face whenever its bright/dim image changes.
    pub fn place_sprites(&mut self, out: &mut String, l: &Layout)
        requires
            placeable(*l),
        ensures
            final(out)@ == old(out)@ + (if old(self).placed { Seq::empty() } else {
                statics_output(*l, STATIC_COUNT as int)
            }) + (if old(self).last_dim == Some(old(self).dim) { Seq::empty() } else {
                neon_output(old(self).dim, *l)
            }),
            final(self).placed,
            final(self).last_dim == Some(old(self).dim),
            final(self).dim == old(self).dim,
            final(self).transmitted == old(self).transmitted,
    {
        let ghost start = out@;
        if !self.placed {
            let slots = static_slots(l);
            let mut i: usize = 0;
            while i < STATIC_COUNT
                invariant
                    placeable(*l),
                    slots@ == static_slots_spec(*l),
                    i <= STATIC_COUNT,
                    out@ == start + statics_output(*l, i as int),
                decreases STATIC_COUNT - i,
            {
                let slot = slots[i];
                let id = STATIC_BASE + i as u32;
                delete_placement(out, id);
                if slot.right() <= l.w && slot.bottom() <= l.h {
                    proof {
                        assert(on_screen(static_slots_spec(*l)[i as int], l.w, l.h));
                    }
                    place(out, id, slot.x, slot.y, slot.width, slot.height);
                }
                proof {
                    assert(out@ =~= start + statics_output(*l, i + 1));
                }
                i = i + 1;
            }
            self.placed = true;
        }
        let ghost mid = out@;
        if self.last_dim != Some(self.dim) {
            let (show, hide) = if self.dim { (NEON_DIM_ID, NEON_BRIGHT_ID) } else { (NEON_BRIGHT_ID, NEON_DIM_ID) };
            delete_placement(out, hide);
            let f = l.neon_face;
            if f.right() <= l.w && f.bottom() <= l.h {
                place(out, show, f.x, f.y, f.width, f.height);
            }
            self.last_dim = Some(self.dim);
            proof {
                assert(out@ =~= mid + neon_output(old(self).dim, *l));
            }
        }
        proof {
            assert(out@ =~= old(out)@ + (if old(self).placed { Seq::empty() } else {
                statics_output(*l, STATIC_COUNT as int)
            }) + (if old(self).last_dim == Some(old(self).dim) { Seq::empty() } else {
                neon_output(old(self).dim, *l)
            }));
        }
    }

    /// One frame of the decor layer: sends the images once after a resize,
    /// then the placements that changed (see `place_sprites`).
    pub fn post_draw(&mut self, out: &mut String, l: &Layout, bright: &Sprite, dim_face: &Sprite, statics: &Vec<Sprite>)
        requires
            placeable(*l),
            encodable(*bright),
            encodable(*dim_face),
            frames_sendable(statics@, STATIC_BASE as int),
            statics@.len() == STATIC_COUNT,
        ensures
            final(out)@ == old(out)@ + frame_output(old(self).transmitted, old(self).placed, old(self).last_dim,
                old(self).dim, *l, *bright, *dim_face, statics@),
            final(self).transmitted,
            final(self).placed,
            final(self).last_dim == Some(old(self).dim),
            final(self).dim == old(self).dim,
    {
        let ghost start = out@;
        if !self.transmitted {
            transmit(out, NEON_BRIGHT_ID, bright.width, bright.height, bright.rgba.as_slice());
            transmit(out, NEON_DIM_ID, dim_face.width, dim_face.height, dim_face.rgba.as_slice());
            transmit_animation(out, statics, STATIC_BASE);
            self.transmitted = true;
            assert(out@ =~= start + transmit_output(*bright, *dim_face, statics@));
        } else {
            assert(out@ =~= start + Seq::<char>::empty());
        }
        self.place_sprites(out, l);
        assert(out@ =~= old(out)@ + frame_output(old(self).transmitted, old(self).placed, old(self).last_dim,
            old(self).dim, *l, *bright, *dim_face, statics@));
    }
}

/// Law: once a frame of the decor layer has been sent, the next frame
/// sends nothing unless the layer was reset or the neon flicker changed:
/// the images went out once, the statics are placed and the neon face shows
/// the current image.
pub proof fn lemma_decor_quiet(d: Decor, l: Layout, bright: Sprite, dim_face: Sprite, statics: Seq<Sprite>)
    requires
        d.transmitted,
        d.placed,
        d.last_dim == Some(d.dim),
    ensures
        frame_output(d.transmitted, d.placed, d.last_dim, d.dim, l, bright, dim_face, statics) == Seq::<char>::empty(),
{
    assert(Seq::<char>::empty() + Seq::<char>::empty() + Seq::<char>::empty() =~= Seq::<char>::empty());
}

} // verus!
