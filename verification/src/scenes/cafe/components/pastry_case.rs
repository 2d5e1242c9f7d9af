//! Pastry display case on the right end of the counter. The case is drawn
//! in characters; the pastries inside are sprites.

use vstd::prelude::*;
use crate::buffer::{Buffer, Cell, Grid, put_box, solid};
use crate::layout::Rect;
use crate::layout::rect;
use crate::scenes::cafe::layout::Layout;
use crate::scenes::cafe::paint::{cell_span, fill_rect};
use crate::scenes::cafe::palette::{glass, wood};
use crate::style::Color;

verus! {

/// Inside of the case.
#[verifier::allow_in_spec]
pub fn interior() -> Color
    returns
        Color::Rgb(48, 32, 22),
{
    Color::Rgb(48, 32, 22)
}

/// Rows of the two glass shelves (the middle and the bottom row of the
/// case); pastry sprites sit right above them.
pub fn shelf_rows(l: &Layout) -> (r: [u16; 2])
    requires
        l.pastry_case.valid(),
        l.pastry_case.y + l.pastry_case.height >= 1,
    ensures
        r@ == seq![(l.pastry_case.y + l.pastry_case.height / 2) as u16, (l.pastry_case.y + l.pastry_case.height - 1) as u16],
{
    let r = l.pastry_case;
    let rows = [r.y + r.height / 2, r.y + r.height - 1];
    proof {
        assert(rows@ =~= seq![(r.y + r.height / 2) as u16, (r.y + r.height - 1) as u16]);
    }
    rows
}

/// `g` with a glass shelf line across the inside of the case on `row`, when
/// that row lies strictly inside the case.
pub open spec fn shelf_line(g: Grid, r: Rect, row: int) -> Grid {
    if r.y < row < r.spec_bottom() {
        put_box(g, r.x + 1, row, r.x + r.width - 1, row + 1, Cell { symbol: '─', fg: glass(), bg: interior() })
    } else {
        g
    }
}

/// `g` with the case drawn: a wooden frame, a dark interior open at the
/// bottom, and the two glass shelf lines.
pub open spec fn case_spec(g: Grid, l: Layout) -> Grid {
    let r = l.pastry_case;
    let inner = rect((r.x + 1) as u16, (r.y + 1) as u16, (r.width - 2) as u16, (r.height - 1) as u16);
    let g1 = put_box(g, r.x as int, r.y as int, r.spec_right() as int, r.spec_bottom() as int, solid(wood()));
    let g2 = put_box(g1, inner.x as int, inner.y as int, inner.spec_right() as int, inner.spec_bottom() as int, solid(interior()));
    let g3 = shelf_line(g2, r, r.y + r.height / 2);
    shelf_line(g3, r, r.y + r.height - 1)
}

/// Draws the pastry case when it is at least 8 x 6.
pub fn draw(buf: &mut Buffer, l: &Layout)
    requires
        old(buf).wf(),
        l.pastry_case.valid(),
    ensures
        final(buf).wf(),
        final(buf).same_size(&*old(buf)),
        final(buf)@ == (if l.pastry_case.width < 8 || l.pastry_case.height < 6 { old(buf)@ } else { case_spec(old(buf)@, *l) }),
{
    let r = l.pastry_case;
    if r.width < 8 || r.height < 6 {
        return;
    }
    fill_rect(buf, r, wood());
    let inner = Rect::new(r.x + 1, r.y + 1, r.width - 2, r.height - 1);
    fill_rect(buf, inner, interior());
    let rows = shelf_rows(l);
    let glass_cell = Cell { symbol: '─', fg: glass(), bg: interior() };
    let mut k: usize = 0;
    while k < 2
        invariant
            buf.wf(),
            buf.same_size(&*old(buf)),
            k <= 2,
            r == l.pastry_case,
            r.valid(),
            r.width >= 8,
            r.height >= 6,
            inner == rect((r.x + 1) as u16, (r.y + 1) as u16, (r.width - 2) as u16, (r.height - 1) as u16),
            rows@ == seq![(r.y + r.height / 2) as u16, (r.y + r.height - 1) as u16],
            glass_cell == (Cell { symbol: '─', fg: glass(), bg: interior() }),
            buf@ == (if k == 0 {
                put_box(put_box(old(buf)@, r.x as int, r.y as int, r.spec_right() as int, r.spec_bottom() as int, solid(wood())),
                    inner.x as int, inner.y as int, inner.spec_right() as int, inner.spec_bottom() as int, solid(interior()))
            } else if k == 1 {
                shelf_line(put_box(put_box(old(buf)@, r.x as int, r.y as int, r.spec_right() as int, r.spec_bottom() as int, solid(wood())),
                    inner.x as int, inner.y as int, inner.spec_right() as int, inner.spec_bottom() as int, solid(interior())), r, r.y + r.height / 2)
            } else {
                case_spec(old(buf)@, *l)
            }),
        decreases 2 - k,
    {
        let row = rows[k];
        if row > r.y && row < r.bottom() {
            cell_span(buf, inner.left(), inner.right(), row, glass_cell);
        }
        k = k + 1;
    }
}

} // verus!
