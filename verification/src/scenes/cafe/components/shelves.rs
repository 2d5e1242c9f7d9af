//! Wall shelves with coffee jars (top) and mugs (bottom).

use vstd::prelude::*;
use crate::buffer::{Buffer, Cell, Grid, put_box, solid};
use crate::scenes::cafe::layout::Layout;
use crate::scenes::cafe::paint::{fill, glyph, glyph_over};
use crate::scenes::cafe::palette::{cream_dim, jar, jar_lid, wall, wood, wood_dark};
use crate::style::Color;

verus! {

/// `g` with symbol `ch` drawn in `fg` over the existing backgrounds of the
/// cells of row `y` from column `x0` up to `x1`.
pub open spec fn glyph_span(g: Grid, x0: int, x1: int, y: int, ch: char, fg: Color) -> Grid {
    Map::new(
        |p: (int, int)| g.dom().contains(p),
        |p: (int, int)| if x0 <= p.0 < x1 && p.1 == y { Cell { symbol: ch, fg, bg: g[p].bg } } else { g[p] },
    )
}

/// `g` with the shelf board on `row`: solid wood from `x0` up to `x1` and a
/// darker underside drawn on the row below.
pub open spec fn board_spec(g: Grid, x0: int, x1: int, row: int) -> Grid {
    glyph_span(put_box(g, x0, row, x1, row + 1, solid(wood())), x0, x1, row + 1, '▔', wood_dark())
}

/// Whether column `c` is one of the two columns of a jar: jars start every
/// 4 columns from `x0 + 1`, and only those with their start two columns
/// before the free space at the shelf's right end (the last 5 columns).
pub open spec fn in_jar(x0: int, x1: int, c: int) -> bool {
    let k = c - (x0 + 1);
    let start = c - k % 4;
    let limit = if x1 >= 5 { x1 - 5 } else { 0 };
    k >= 0 && k % 4 < 2 && start + 2 < limit
}

/// `g` with the jars on the shelf at row `shelf`: a lid row above a jar row.
pub open spec fn jars_spec(g: Grid, x0: int, x1: int, shelf: int) -> Grid {
    Map::new(
        |p: (int, int)| g.dom().contains(p),
        |p: (int, int)|
            if in_jar(x0, x1, p.0) && p.1 == shelf - 2 {
                Cell { symbol: '▄', fg: jar_lid(), bg: wall() }
            } else if in_jar(x0, x1, p.0) && p.1 == shelf - 1 {
                solid(jar())
            } else {
                g[p]
            },
    )
}

/// The offset of column `c` inside its mug: mugs start every 5 columns from
/// `x0 + 1`, and only those with their start three columns before the free
/// space at the shelf's right end (the last 4 columns); `None` where no mug is.
pub open spec fn mug_part(x0: int, x1: int, c: int) -> Option<int> {
    let k = c - (x0 + 1);
    let start = c - k % 5;
    let limit = if x1 >= 4 { x1 - 4 } else { 0 };
    if k >= 0 && k % 5 < 3 && start + 3 < limit { Some(k % 5) } else { None }
}

/// `g` with the mugs on the shelf at row `shelf`: two solid cells and a
/// handle drawn over the wall.
pub open spec fn mugs_spec(g: Grid, x0: int, x1: int, shelf: int) -> Grid {
    Map::new(
        |p: (int, int)| g.dom().contains(p),
        |p: (int, int)|
            if p.1 == shelf - 1 && mug_part(x0, x1, p.0) == Some(2int) {
                Cell { symbol: ')', fg: cream_dim(), bg: g[p].bg }
            } else if p.1 == shelf - 1 && mug_part(x0, x1, p.0) is Some {
                solid(cream_dim())
            } else {
                g[p]
            },
    )
}

/// `g` with shelf number `i` drawn, when its row lies between row 3 and the
/// counter: the board, then jars on the first shelf and mugs on the second.
pub open spec fn shelf_spec(g: Grid, l: Layout, i: int) -> Grid {
    let row = l.shelf_rows@[i];
    if row < 3 || row >= l.counter_y {
        g
    } else {
        let b = board_spec(g, l.shelf_x0 as int, l.shelf_x1 as int, row as int);
        if i == 0 {
            jars_spec(b, l.shelf_x0 as int, l.shelf_x1 as int, row as int)
        } else {
            mugs_spec(b, l.shelf_x0 as int, l.shelf_x1 as int, row as int)
        }
    }
}

/// `g` with both shelves drawn, when the shelf is wider than 6 columns.
pub open spec fn shelves_spec(g: Grid, l: Layout) -> Grid {
    if l.shelf_x1 <= l.shelf_x0 + 6 {
        g
    } else {
        shelf_spec(shelf_spec(g, l, 0), l, 1)
    }
}

fn draw_board(buf: &mut Buffer, x0: u16, x1: u16, row: u16)
    requires
        old(buf).wf(),
        row < u16::MAX,
    ensures
        final(buf).wf(),
        final(buf).same_size(&*old(buf)),
        final(buf)@ == board_spec(old(buf)@, x0 as int, x1 as int, row as int),
{
    let ghost g0 = buf@;
    let mut x = x0;
    while x < x1
        invariant
            buf.wf(),
            buf.same_size(&*old(buf)),
            g0 == old(buf)@,
            row < u16::MAX,
            x0 <= x,
            x == x0 || x <= x1,
            buf@ == board_spec(g0, x0 as int, x as int, row as int),
        decreases x1 - x,
    {
        fill(buf, x, row, wood());
        glyph_over(buf, x, row + 1, '▔', wood_dark());
        proof {
            assert(buf@ =~= board_spec(g0, x0 as int, x + 1, row as int));
        }
        x = x + 1;
    }
    proof {
        assert(buf@ =~= board_spec(g0, x0 as int, x1 as int, row as int));
    }
}

/// Draws the jars on the shelf at row `shelf`, 2 cells wide and spaced
/// every 4 cells, leaving the shelf's right end free.
pub fn draw_jars(buf: &mut Buffer, x0: u16, x1: u16, shelf: u16)
    requires
        old(buf).wf(),
        shelf >= 2,
        x0 + 3 <= u16::MAX,
    ensures
        final(buf).wf(),
        final(buf).same_size(&*old(buf)),
        final(buf)@ == jars_spec(old(buf)@, x0 as int, x1 as int, shelf as int),
{
    let ghost g0 = buf@;
    let limit = x1.saturating_sub(5);
    let mut x = x0 + 1;
    proof {
        assert(buf@ =~= Map::new(
            |p: (int, int)| g0.dom().contains(p),
            |p: (int, int)|
                if in_jar(x0 as int, x1 as int, p.0) && p.0 < x && p.1 == shelf - 2 {
                    Cell { symbol: '▄', fg: jar_lid(), bg: wall() }
                } else if in_jar(x0 as int, x1 as int, p.0) && p.0 < x && p.1 == shelf - 1 {
                    solid(jar())
                } else {
                    g0[p]
                },
        ));
    }
    while x + 2 < limit
        invariant
            buf.wf(),
            buf.same_size(&*old(buf)),
            g0 == old(buf)@,
            shelf >= 2,
            limit == (if x1 >= 5 { x1 - 5 } else { 0 }),
            x >= x0 + 1,
            (x - (x0 + 1)) % 4 == 0,
            x + 2 <= u16::MAX,
            x <= limit + 4 || x == x0 + 1,
            buf@ == Map::new(
                |p: (int, int)| g0.dom().contains(p),
                |p: (int, int)|
                    if in_jar(x0 as int, x1 as int, p.0) && p.0 < x && p.1 == shelf - 2 {
                        Cell { symbol: '▄', fg: jar_lid(), bg: wall() }
                    } else if in_jar(x0 as int, x1 as int, p.0) && p.0 < x && p.1 == shelf - 1 {
                        solid(jar())
                    } else {
                        g0[p]
                    },
            ),
        decreases limit + 4 - x,
    {
        glyph(buf, x, shelf - 2, '▄', jar_lid(), wall());
        glyph(buf, x + 1, shelf - 2, '▄', jar_lid(), wall());
        fill(buf, x, shelf - 1, jar());
        fill(buf, x + 1, shelf - 1, jar());
        proof {
            assert forall|c: int| x <= c < x + 4 implies #[trigger] in_jar(x0 as int, x1 as int, c) == (c < x + 2) by {
                assert((c - (x0 + 1)) % 4 == c - x);
            }
            assert(buf@ =~= Map::new(
                |p: (int, int)| g0.dom().contains(p),
                |p: (int, int)|
                    if in_jar(x0 as int, x1 as int, p.0) && p.0 < x + 4 && p.1 == shelf - 2 {
                        Cell { symbol: '▄', fg: jar_lid(), bg: wall() }
                    } else if in_jar(x0 as int, x1 as int, p.0) && p.0 < x + 4 && p.1 == shelf - 1 {
                        solid(jar())
                    } else {
                        g0[p]
                    },
            ));
        }
        x = x + 4;
    }
    proof {
        assert forall|c: int| c >= x implies !#[trigger] in_jar(x0 as int, x1 as int, c) by {
            let k = c - (x0 + 1);
            assert(c - k % 4 >= x);
        }
        assert(buf@ =~= jars_spec(g0, x0 as int, x1 as int, shelf as int));
    }
}

/// Draws the mugs on the shelf at row `shelf`, 2 cells wide with a handle
/// and spaced every 5 cells, leaving the shelf's right end free.
pub fn draw_mugs(buf: &mut Buffer, x0: u16, x1: u16, shelf: u16)
    requires
        old(buf).wf(),
        shelf >= 1,
        x0 + 4 <= u16::MAX,
    ensures
        final(buf).wf(),
        final(buf).same_size(&*old(buf)),
        final(buf)@ == mugs_spec(old(buf)@, x0 as int, x1 as int, shelf as int),
{
    let ghost g0 = buf@;
    let limit = x1.saturating_sub(4);
    let mut x = x0 + 1;
    proof {
        assert(buf@ =~= Map::new(
            |p: (int, int)| g0.dom().contains(p),
            |p: (int, int)|
                if p.1 == shelf - 1 && p.0 < x && mug_part(x0 as int, x1 as int, p.0) == Some(2int) {
                    Cell { symbol: ')', fg: cream_dim(), bg: g0[p].bg }
                } else if p.1 == shelf - 1 && p.0 < x && mug_part(x0 as int, x1 as int, p.0) is Some {
                    solid(cream_dim())
                } else {
                    g0[p]
                },
        ));
    }
    while x + 3 < limit
        invariant
            buf.wf(),
            buf.same_size(&*old(buf)),
            g0 == old(buf)@,
            shelf >= 1,
            limit == (if x1 >= 4 { x1 - 4 } else { 0 }),
            x >= x0 + 1,
            (x - (x0 + 1)) % 5 == 0,
            x + 3 <= u16::MAX,
            x <= limit + 5 || x == x0 + 1,
            buf@ == Map::new(
                |p: (int, int)| g0.dom().contains(p),
                |p: (int, int)|
                    if p.1 == shelf - 1 && p.0 < x && mug_part(x0 as int, x1 as int, p.0) == Some(2int) {
                        Cell { symbol: ')', fg: cream_dim(), bg: g0[p].bg }
                    } else if p.1 == shelf - 1 && p.0 < x && mug_part(x0 as int, x1 as int, p.0) is Some {
                        solid(cream_dim())
                    } else {
                        g0[p]
                    },
            ),
        decreases limit + 5 - x,
    {
        fill(buf, x, shelf - 1, cream_dim());
        fill(buf, x + 1, shelf - 1, cream_dim());
        glyph_over(buf, x + 2, shelf - 1, ')', cream_dim());
        proof {
            assert forall|c: int| x <= c < x + 5 implies #[trigger] mug_part(x0 as int, x1 as int, c) == (if c < x + 3 {
                Some(c - x)
            } else {
                None
            }) by {
                assert((c - (x0 + 1)) % 5 == c - x);
            }
            assert(buf@ =~= Map::new(
                |p: (int, int)| g0.dom().contains(p),
                |p: (int, int)|
                    if p.1 == shelf - 1 && p.0 < x + 5 && mug_part(x0 as int, x1 as int, p.0) == Some(2int) {
                        Cell { symbol: ')', fg: cream_dim(), bg: g0[p].bg }
                    } else if p.1 == shelf - 1 && p.0 < x + 5 && mug_part(x0 as int, x1 as int, p.0) is Some {
                        solid(cream_dim())
                    } else {
                        g0[p]
                    },
            ));
        }
        x = x + 5;
    }
    proof {
        assert forall|c: int| c >= x implies #[trigger] mug_part(x0 as int, x1 as int, c) is None by {
            let k = c - (x0 + 1);
            assert(c - k % 5 >= x);
        }
        assert(buf@ =~= mugs_spec(g0, x0 as int, x1 as int, shelf as int));
    }
}

/// Draws the wall shelves: a board on each shelf row that lies between row
/// 3 and the counter, with jars on the first and mugs on the second.
pub fn draw(buf: &mut Buffer, l: &Layout)
    requires
        old(buf).wf(),
        l.shelf_x0 + 6 <= u16::MAX,
    ensures
        final(buf).wf(),
        final(buf).same_size(&*old(buf)),
        final(buf)@ == shelves_spec(old(buf)@, *l),
{
    let x0 = l.shelf_x0;
    let x1 = l.shelf_x1;
    if x1 <= x0 + 6 {
        return;
    }
    let ghost g0 = buf@;
    let mut i: usize = 0;
    while i < 2
        invariant
            buf.wf(),
            buf.same_size(&*old(buf)),
            g0 == old(buf)@,
            x0 == l.shelf_x0,
            x1 == l.shelf_x1,
            x1 > x0 + 6,
            i <= 2,
            buf@ == (if i == 0 { g0 } else if i == 1 { shelf_spec(g0, *l, 0) } else { shelf_spec(shelf_spec(g0, *l, 0), *l, 1) }),
        decreases 2 - i,
    {
        let row = l.shelf_rows[i];
        if row >= 3 && row < l.counter_y {
            draw_board(buf, x0, x1, row);
            if i == 0 {
                draw_jars(buf, x0, x1, row);
            } else {
                draw_mugs(buf, x0, x1, row);
            }
        }
        i = i + 1;
    }
}

} // verus!
