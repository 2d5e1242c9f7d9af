//! Bar stools in front of the counter.

use vstd::prelude::*;
use crate::buffer::{Buffer, Cell, Grid, put_box, solid, lemma_put_box_row};
use crate::layout::sat_sub;
use crate::scenes::cafe::layout::Layout;
use crate::scenes::cafe::paint::cell_span;
use crate::scenes::cafe::palette::{stool_leg, stool_seat};

verus! {

/// `g` with one stool centered on column `cx`: a 7-wide seat on the stool
/// row, a post down to the floor row (or the last row), and 5-wide feet on
/// the row below the floor.
pub open spec fn stool_spec(g: Grid, l: Layout, cx: u16) -> Grid {
    let sy = l.stool_y as int;
    let post_end: int = if l.floor_y < l.h - 1 { l.floor_y as int } else { l.h - 1 };
    let base_y: int = if l.floor_y + 1 < l.h - 1 { l.floor_y + 1 } else { l.h - 1 };
    let seat_x = sat_sub(cx, 3) as int;
    let feet_x = sat_sub(cx, 2) as int;
    let g1 = put_box(g, seat_x, sy, seat_x + 7, sy + 1, solid(stool_seat()));
    let g2 = put_box(g1, cx as int, sy + 1, cx + 1, post_end + 1, solid(stool_leg()));
    put_box(g2, feet_x, base_y, feet_x + 5, base_y + 1, solid(stool_leg()))
}

/// `g` with the first `n` stools, the `i`-th centered on `w * i / 6`.
pub open spec fn stools_spec(g: Grid, l: Layout, n: nat) -> Grid
    decreases n,
{
    if n == 0 {
        g
    } else {
        stool_spec(stools_spec(g, l, (n - 1) as nat), l, (l.w * n / 6) as u16)
    }
}

/// Whether the stools fit between the counter and the bottom row.
pub open spec fn stools_fit(l: Layout) -> bool {
    l.stool_y + 1 < l.h && l.stool_y > l.counter_y
}

/// Draws one stool.
fn draw_stool(buf: &mut Buffer, l: &Layout, cx: u16)
    requires
        old(buf).wf(),
        stools_fit(*l),
        l.floor_y < u16::MAX,
        cx <= 65535 * 5 / 6,
    ensures
        final(buf).wf(),
        final(buf).same_size(&*old(buf)),
        final(buf)@ == stool_spec(old(buf)@, *l, cx),
{
    let seat = Cell { symbol: ' ', fg: stool_seat(), bg: stool_seat() };
    let leg = Cell { symbol: ' ', fg: stool_leg(), bg: stool_leg() };
    let seat_x = cx.saturating_sub(3);
    cell_span(buf, seat_x, seat_x + 7, l.stool_y, seat);
    let last = if l.floor_y < l.h - 1 { l.floor_y } else { l.h - 1 };
    let ghost g1 = buf@;
    let mut y = l.stool_y + 1;
    proof {
        assert(put_box(g1, cx as int, l.stool_y + 1, cx + 1, y as int, leg) =~= g1);
    }
    while y <= last
        invariant
            buf.wf(),
            buf.same_size(&*old(buf)),
            l.stool_y + 1 <= y,
            y == l.stool_y + 1 || y <= last + 1,
            last < u16::MAX,
            cx <= 65535 * 5 / 6,
            buf@ == put_box(g1, cx as int, l.stool_y + 1, cx + 1, y as int, leg),
        decreases last + 1 - y,
    {
        cell_span(buf, cx, cx + 1, y, leg);
        proof {
            lemma_put_box_row(g1, cx as int, l.stool_y + 1, cx + 1, y as int, leg);
        }
        y = y + 1;
    }
    proof {
        assert(put_box(g1, cx as int, l.stool_y + 1, cx + 1, y as int, leg) =~= put_box(g1, cx as int, l.stool_y + 1, cx + 1, last + 1, leg));
    }
    let base_y = if l.floor_y + 1 < l.h - 1 { l.floor_y + 1 } else { l.h - 1 };
    let feet_x = cx.saturating_sub(2);
    cell_span(buf, feet_x, feet_x + 5, base_y, leg);
}

/// Draws the five bar stools between the counter and the floor, when they fit.
pub fn draw(buf: &mut Buffer, l: &Layout)
    requires
        old(buf).wf(),
        l.stool_y < u16::MAX,
        l.floor_y < u16::MAX,
    ensures
        final(buf).wf(),
        final(buf).same_size(&*old(buf)),
        final(buf)@ == (if stools_fit(*l) { stools_spec(old(buf)@, *l, 5) } else { old(buf)@ }),
{
    if l.stool_y + 1 >= l.h || l.stool_y <= l.counter_y {
        return;
    }
    let xs = l.stool_xs();
    let mut k: usize = 0;
    while k < xs.len()
        invariant
            buf.wf(),
            buf.same_size(&*old(buf)),
            stools_fit(*l),
            l.floor_y < u16::MAX,
            k <= 5,
            xs@.len() == 5,
            forall|i: int| 0 <= i < 5 ==> #[trigger] xs@[i] == (l.w * (i + 1) / 6) as u16,
            buf@ == stools_spec(old(buf)@, *l, k as nat),
        decreases 5 - k,
    {
        let cx = xs[k];
        assert(cx <= 65535 * 5 / 6) by (nonlinear_arith)
            requires
                cx == (l.w * (k + 1) / 6) as u16,
                l.w <= 65535,
                k < 5,
        ;
        draw_stool(buf, l, cx);
        k = k + 1;
    }
}

} // verus!
