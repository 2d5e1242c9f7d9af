//! Small counter props: the steaming coffee mug. (The billing machine next
//! to the terminal is a sprite.)

use vstd::prelude::*;
use crate::buffer::{Buffer, Grid, put, put_glyph, solid};
use crate::scenes::cafe::layout::Layout;
use crate::scenes::cafe::paint::{fill, glyph_over};
use crate::scenes::cafe::palette::{mug, steam};

verus! {

/// `g` with the mug on the counter at `mug_x` (two solid cells and a `)`
/// handle) and two wisps of steam above it, the lower one shifted right by
/// `sway` and the upper one left.
pub open spec fn mug_spec(g: Grid, l: Layout, sway: u16) -> Grid {
    let x = l.mug_x as int;
    let y = l.counter_y - 1;
    let g1 = put(g, x, y, solid(mug()));
    let g2 = put(g1, x + 1, y, solid(mug()));
    let g3 = put_glyph(g2, x + 2, y, ')', mug());
    let g4 = put_glyph(g3, x + sway, y - 1, '(', steam());
    put_glyph(g4, x + 1 - sway, y - 2, ')', steam())
}

/// Draws the counter props when the counter is at least four rows down.
/// `sway` (0 or 1) is the current phase of the steam, which alternates
/// twice a second.
pub fn draw(buf: &mut Buffer, l: &Layout, sway: u16)
    requires
        old(buf).wf(),
        sway <= 1,
        l.mug_x + 2 <= u16::MAX,
    ensures
        final(buf).wf(),
        final(buf).same_size(&*old(buf)),
        final(buf)@ == (if l.counter_y < 4 { old(buf)@ } else { mug_spec(old(buf)@, *l, sway) }),
{
    if l.counter_y < 4 {
        return;
    }
    draw_mug(buf, l, sway);
}

/// Draws the steaming mug.
fn draw_mug(buf: &mut Buffer, l: &Layout, sway: u16)
    requires
        old(buf).wf(),
        sway <= 1,
        l.counter_y >= 4,
        l.mug_x + 2 <= u16::MAX,
    ensures
        final(buf).wf(),
        final(buf).same_size(&*old(buf)),
        final(buf)@ == mug_spec(old(buf)@, *l, sway),
{
    let x = l.mug_x;
    let y = l.counter_y - 1;
    fill(buf, x, y, mug());
    fill(buf, x + 1, y, mug());
    glyph_over(buf, x + 2, y, ')', mug());
    glyph_over(buf, x + sway, y - 1, '(', steam());
    glyph_over(buf, x + 1 - sway, y - 2, ')', steam());
}

} // verus!
