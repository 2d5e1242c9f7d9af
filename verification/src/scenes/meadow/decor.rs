//! Atmospheric haze for the distant windmill sprite.

use vstd::prelude::*;

verus! {

/// The horizon haze tone the windmill's pixels are pulled toward.
pub open spec fn haze_tone(channel: int) -> u8 {
    if channel == 0 { 176 } else if channel == 1 { 196 } else { 184 }
}

/// A color channel moved 32% of the way from `c` toward `h`, rounded down.
pub open spec fn haze_channel(c: u8, h: u8) -> u8 {
    ((68 * c + 32 * h) / 100) as u8
}

/// The byte at index `i` of the hazed RGBA pixels `rgba`: in every complete
/// 4-byte pixel whose alpha is not zero, the three color channels are hazed;
/// alpha, transparent pixels and a trailing partial pixel are kept.
pub open spec fn hazed_byte(rgba: Seq<u8>, i: int) -> u8 {
    let px = i / 4;
    let ch = i % 4;
    if (px + 1) * 4 <= rgba.len() && ch < 3 && rgba[px * 4 + 3] > 0 {
        haze_channel(rgba[i], haze_tone(ch))
    } else {
        rgba[i]
    }
}

/// Atmospheric perspective for the distant windmill: pull every visible
/// pixel of an RGBA image toward the horizon haze tone so it reads as far
/// away.
pub fn hazed(rgba: Vec<u8>) -> (r: Vec<u8>)
    ensures
        r@.len() == rgba@.len(),
        forall|i: int| 0 <= i < rgba@.len() ==> #[trigger] r@[i] == hazed_byte(rgba@, i),
{
    let mut out = rgba;
    let ghost orig = out@;
    let n = out.len();
    let mut p: usize = 0;
    while 4 <= n - p
        invariant
            n == orig.len(),
            out@.len() == n,
            p % 4 == 0,
            p <= n,
            forall|i: int| 0 <= i < p ==> #[trigger] out@[i] == hazed_byte(orig, i),
            forall|i: int| p <= i < n ==> #[trigger] out@[i] == orig[i],
        decreases n - p,
    {
        if out[p + 3] > 0 {
            let mut ch: usize = 0;
            while ch < 3
                invariant
                    n == orig.len(),
                    out@.len() == n,
                    p % 4 == 0,
                    p + 4 <= n,
                    orig[p + 3] > 0,
                    ch <= 3,
                    forall|i: int| 0 <= i < p ==> #[trigger] out@[i] == hazed_byte(orig, i),
                    forall|i: int| p <= i < p + ch ==> #[trigger] out@[i] == haze_channel(orig[i], haze_tone(i - p)),
                    forall|i: int| p + ch <= i < n ==> #[trigger] out@[i] == orig[i],
                decreases 3 - ch,
            {
                let tone: u32 = if ch == 0 { 176 } else if ch == 1 { 196 } else { 184 };
                let c = out[p + ch] as u32;
                let v = ((68 * c + 32 * tone) / 100) as u8;
                out.set(p + ch, v);
                ch = ch + 1;
            }
        }
        proof {
            assert forall|i: int| p <= i < p + 4 implies #[trigger] out@[i] == hazed_byte(orig, i) by {
                assert((i / 4) == p / 4) by (nonlinear_arith)
                    requires
                        p % 4 == 0,
                        p <= i < p + 4,
                ;
                assert(i % 4 == i - p) by (nonlinear_arith)
                    requires
                        p % 4 == 0,
                        p <= i < p + 4,
                ;
                assert((p / 4) * 4 == p) by (nonlinear_arith)
                    requires
                        p % 4 == 0,
                ;
            }
        }
        p = p + 4;
    }
    proof {
        assert forall|i: int| p <= i < n implies #[trigger] out@[i] == hazed_byte(orig, i) by {
            assert((i / 4 + 1) * 4 > n) by (nonlinear_arith)
                requires
                    p % 4 == 0,
                    p <= i < n,
                    n < p + 4,
            ;
        }
    }
    out
}

} // verus!
