//! Hanging lamp: cord, shade and bulb. (Its warm glow is blended into the
//! wall in floating point by the caller.)

use vstd::prelude::*;
use crate::buffer::{Buffer, Grid, put_glyph};
use crate::scenes::cafe::layout::Layout;
use crate::scenes::cafe::paint::glyph_over;
use crate::scenes::cafe::palette::{amber, wood_dark};

verus! {

/// Row of the bulb.
pub const BULB_Y: u16 = 4;

/// Whether the lamp is drawn: two columns of room on its right and the
/// counter below the bulb with room to spare.
pub open spec fn lamp_shown(l: Layout) -> bool {
    l.lamp_x + 2 < l.w && l.counter_y > BULB_Y + 2
}

/// `g` with the lamp fixture at column `x`: a cord down to the shade, a
/// three-cell shade and the bulb, drawn over the existing backgrounds.
pub open spec fn fixture_spec(g: Grid, x: int) -> Grid {
    let g1 = put_glyph(put_glyph(put_glyph(g, x, 0, '│', wood_dark()), x, 1, '│', wood_dark()), x, 2, '│', wood_dark());
    let g2 = put_glyph(put_glyph(put_glyph(g1, x - 1, 3, '▄', wood_dark()), x, 3, '▄', wood_dark()), x + 1, 3, '▄',
        wood_dark());
    put_glyph(g2, x, BULB_Y as int, '◉', amber())
}

/// Draws the lamp's cord, shade and bulb when the lamp is shown.
pub fn draw_fixture(buf: &mut Buffer, l: &Layout)
    requires
        old(buf).wf(),
        l.lamp_x + 2 <= u16::MAX,
        lamp_shown(*l) ==> l.lamp_x >= 1,
    ensures
        final(buf).wf(),
        final(buf).same_size(&*old(buf)),
        final(buf)@ == (if lamp_shown(*l) { fixture_spec(old(buf)@, l.lamp_x as int) } else { old(buf)@ }),
{
    let x = l.lamp_x;
    if x + 2 >= l.w || l.counter_y <= BULB_Y + 2 {
        return;
    }
    glyph_over(buf, x, 0, '│', wood_dark());
    glyph_over(buf, x, 1, '│', wood_dark());
    glyph_over(buf, x, 2, '│', wood_dark());
    glyph_over(buf, x - 1, BULB_Y - 1, '▄', wood_dark());
    glyph_over(buf, x, BULB_Y - 1, '▄', wood_dark());
    glyph_over(buf, x + 1, BULB_Y - 1, '▄', wood_dark());
    glyph_over(buf, x, BULB_Y, '◉', amber());
}

} // verus!
