//! The counter: the base layer the counter props and sprites sit on. (The
//! wall and floor gradients are blended in floating point by the caller.)

use vstd::prelude::*;
use crate::buffer::{Buffer, Cell, Grid, put_box, solid, lemma_put_box_row};
use crate::scenes::cafe::layout::Layout;
use crate::scenes::cafe::paint::cell_span;
use crate::scenes::cafe::palette::{counter_body, counter_shadow, counter_top};

verus! {

/// `g` with the counter painted across the full width: the amber top edge on
/// the counter row, a shadow row below it when the floor is further down,
/// and the brown front panel down to the floor row.
pub open spec fn counter_spec(g: Grid, l: Layout) -> Grid {
    let cy = l.counter_y as int;
    let g1 = put_box(g, 0, cy, l.w as int, cy + 1, solid(counter_top()));
    let g2 = if cy + 1 < l.floor_y { put_box(g1, 0, cy + 1, l.w as int, cy + 2, solid(counter_shadow())) } else { g1 };
    put_box(g2, 0, cy + 2, l.w as int, l.floor_y as int, solid(counter_body()))
}

/// Paints the counter.
pub fn draw_counter(buf: &mut Buffer, l: &Layout)
    requires
        old(buf).wf(),
        l.counter_y + 2 <= u16::MAX,
    ensures
        final(buf).wf(),
        final(buf).same_size(&*old(buf)),
        final(buf)@ == counter_spec(old(buf)@, *l),
{
    let top = Cell { symbol: ' ', fg: counter_top(), bg: counter_top() };
    cell_span(buf, 0, l.w, l.counter_y, top);
    if l.counter_y + 1 < l.floor_y {
        let shadow = Cell { symbol: ' ', fg: counter_shadow(), bg: counter_shadow() };
        cell_span(buf, 0, l.w, l.counter_y + 1, shadow);
    }
    let body = Cell { symbol: ' ', fg: counter_body(), bg: counter_body() };
    let ghost g2 = buf@;
    let y0 = l.counter_y + 2;
    let mut y = y0;
    proof {
        assert(put_box(g2, 0, y0 as int, l.w as int, y0 as int, body) =~= g2);
    }
    while y < l.floor_y
        invariant
            buf.wf(),
            buf.same_size(&*old(buf)),
            y0 <= y,
            y == y0 || y <= l.floor_y,
            buf@ == put_box(g2, 0, y0 as int, l.w as int, y as int, body),
        decreases l.floor_y - y,
    {
        cell_span(buf, 0, l.w, y, body);
        proof {
            lemma_put_box_row(g2, 0, y0 as int, l.w as int, y as int, body);
        }
        y = y + 1;
    }
    proof {
        if l.floor_y < y0 {
            assert(put_box(g2, 0, y0 as int, l.w as int, l.floor_y as int, body) =~= g2);
        }
    }
}

} // verus!
