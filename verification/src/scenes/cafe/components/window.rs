//! Window pieces drawn from integers alone: the blocky city silhouette with
//! lit windows and the cross-shaped mullion. (The sky gradient and the rain
//! are blended and animated in floating point by the caller.)

use vstd::prelude::*;
use crate::buffer::{Buffer, Cell, Grid, put_box, solid};
use crate::layout::Rect;
use crate::scenes::cafe::paint::{cell_span, fill, glyph, hash, hash_spec};
use crate::scenes::cafe::palette::{city, city_lit, wood_dark};

verus! {

/// Height of the city block containing column `x` of `inner`: 1 up to a
/// third of the inner height (at least 2), constant over 4-column blocks.
pub open spec fn block_height(inner: Rect, x: int) -> int {
    let max_h: int = if inner.height / 3 > 2 { (inner.height / 3) as int } else { 2 };
    1 + hash_spec(((x - inner.x) / 4) as u32, 0xC17) % (max_h as u32)
}

/// A city cell: solid dark, with a lit window where the cell hash is a
/// multiple of 13.
pub open spec fn city_cell(x: int, y: int) -> Cell {
    if hash_spec(x as u32, y as u32) % 13 == 0 {
        Cell { symbol: '▪', fg: city_lit(), bg: city() }
    } else {
        solid(city())
    }
}

/// `g` with the city silhouette along the bottom of `inner`, columns
/// `inner.x` up to (not including) `x_end`.
pub open spec fn city_upto(g: Grid, inner: Rect, x_end: int) -> Grid {
    Map::new(
        |p: (int, int)| g.dom().contains(p),
        |p: (int, int)|
            if inner.x <= p.0 < x_end && inner.y + inner.height - block_height(inner, p.0) <= p.1 < inner.y + inner.height {
                city_cell(p.0, p.1)
            } else {
                g[p]
            },
    )
}

/// Law: the city in the window is blocky: every column of a 4-column block
/// (counted from the window's left edge) has the same height, between 1 and
/// a third of the inner height (at least 2); so within a block a row is
/// either city in every column or in none.
pub proof fn lemma_city_blocks(inner: Rect, x1: int, x2: int, y: int)
    requires
        inner.x <= x1,
        inner.x <= x2,
        (x1 - inner.x) / 4 == (x2 - inner.x) / 4,
    ensures
        block_height(inner, x1) == block_height(inner, x2),
        1 <= block_height(inner, x1) <= (if inner.height / 3 > 2 { inner.height / 3 } else { 2 }),
        (inner.y + inner.height - block_height(inner, x1) <= y < inner.y + inner.height) == (inner.y + inner.height
            - block_height(inner, x2) <= y < inner.y + inner.height),
{
}

/// Draws the city silhouette along the bottom of the window's inside.
pub fn draw_city(buf: &mut Buffer, inner: Rect)
    requires
        old(buf).wf(),
        inner.valid(),
        inner.height >= 2,
    ensures
        final(buf).wf(),
        final(buf).same_size(&*old(buf)),
        final(buf)@ == city_upto(old(buf)@, inner, inner.x + inner.width),
{
    let ghost g0 = buf@;
    let max_h: u16 = if inner.height / 3 > 2 { inner.height / 3 } else { 2 };
    let bottom = inner.bottom();
    let right = inner.right();
    let mut x = inner.left();
    proof {
        assert(city_upto(g0, inner, inner.x as int) =~= g0);
    }
    while x < right
        invariant
            buf.wf(),
            buf.same_size(&*old(buf)),
            g0 == old(buf)@,
            inner.valid(),
            inner.height >= 2,
            max_h == (if inner.height / 3 > 2 { inner.height / 3 } else { 2 }),
            bottom == inner.y + inner.height,
            right == inner.x + inner.width,
            inner.x <= x <= right,
            buf@ == city_upto(g0, inner, x as int),
        decreases right - x,
    {
        let block = (x - inner.x) as u32 / 4;
        let bh = 1 + hash(block, 0xC17) % (max_h as u32);
        let ghost before = buf@;
        let mut dy: u32 = 0;
        while dy < bh
            invariant
                buf.wf(),
                buf.same_size(&*old(buf)),
                inner.valid(),
                inner.height >= 2,
                bottom == inner.y + inner.height,
                inner.x <= x < right,
                right == inner.x + inner.width,
                bh == block_height(inner, x as int),
                bh <= max_h,
                max_h <= inner.height,
                dy <= bh,
                buf@ == Map::new(
                    |p: (int, int)| before.dom().contains(p),
                    |p: (int, int)| if p.0 == x && bottom - dy <= p.1 < bottom { city_cell(p.0, p.1) } else { before[p] },
                ),
            decreases bh - dy,
        {
            let y = bottom - 1 - dy as u16;
            fill(buf, x, y, city());
            if hash(x as u32, y as u32) % 13 == 0 {
                glyph(buf, x, y, '▪', city_lit(), city());
            }
            proof {
                assert(buf@ =~= Map::new(
                    |p: (int, int)| before.dom().contains(p),
                    |p: (int, int)| if p.0 == x && bottom - (dy + 1) <= p.1 < bottom { city_cell(p.0, p.1) } else { before[p] },
                ));
            }
            dy = dy + 1;
        }
        proof {
            assert(buf@ =~= city_upto(g0, inner, x + 1));
        }
        x = x + 1;
    }
}

/// `g` with the window's mullion: a dark wooden column through the middle
/// of `r` and then a dark wooden row through its middle.
pub open spec fn mullion_spec(g: Grid, r: Rect) -> Grid {
    let mid_x = r.x + r.width / 2;
    let mid_y = r.y + r.height / 2;
    let g1 = put_box(g, mid_x, r.y as int, mid_x + 1, r.spec_bottom() as int, solid(wood_dark()));
    put_box(g1, r.x as int, mid_y, r.spec_right() as int, mid_y + 1, solid(wood_dark()))
}

/// Draws the window's mullion.
pub fn draw_mullion(buf: &mut Buffer, r: Rect)
    requires
        old(buf).wf(),
        r.valid(),
    ensures
        final(buf).wf(),
        final(buf).same_size(&*old(buf)),
        final(buf)@ == mullion_spec(old(buf)@, r),
{
    let mid_x = r.x + r.width / 2;
    let mid_y = r.y + r.height / 2;
    let c = Cell { symbol: ' ', fg: wood_dark(), bg: wood_dark() };
    let ghost g0 = buf@;
    let mut y = r.top();
    let bottom = r.bottom();
    proof {
        assert(put_box(g0, mid_x as int, r.y as int, mid_x + 1, r.y as int, c) =~= g0);
    }
    while y < bottom
        invariant
            buf.wf(),
            buf.same_size(&*old(buf)),
            r.valid(),
            bottom == r.y + r.height,
            r.y <= y <= bottom,
            mid_x == r.x + r.width / 2,
            c == solid(wood_dark()),
            buf@ == put_box(g0, mid_x as int, r.y as int, mid_x + 1, y as int, c),
        decreases bottom - y,
    {
        fill(buf, mid_x, y, wood_dark());
        proof {
            assert(buf@ =~= put_box(g0, mid_x as int, r.y as int, mid_x + 1, y + 1, c));
        }
        y = y + 1;
    }
    cell_span(buf, r.left(), r.right(), mid_y, c);
}

} // verus!
