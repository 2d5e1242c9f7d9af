//! The sakura tree's cell grid. The tree is grown once per terminal size
//! (in floating point, by the caller) into this grid of blossom and wood
//! cells; drawing blits the grid over the scene.

use vstd::prelude::*;
use crate::buffer::{Buffer, Grid};
use crate::scenes::cafe::paint::glyph_over;
use crate::style::Color;

verus! {

/// Darkest trunk tone.
#[verifier::allow_in_spec]
pub fn trunk_d() -> Color
    returns
        Color::Rgb(0x2f, 0x1c, 0x22),
{
    Color::Rgb(0x2f, 0x1c, 0x22)
}

/// Middle trunk tone.
#[verifier::allow_in_spec]
pub fn trunk_m() -> Color
    returns
        Color::Rgb(0x4e, 0x32, 0x38),
{
    Color::Rgb(0x4e, 0x32, 0x38)
}

/// Lightest trunk tone.
#[verifier::allow_in_spec]
pub fn trunk_l() -> Color
    returns
        Color::Rgb(0x70, 0x4c, 0x50),
{
    Color::Rgb(0x70, 0x4c, 0x50)
}

/// Whether `c` is one of the trunk tones.
pub open spec fn is_wood_color(c: Color) -> bool {
    c == trunk_d() || c == trunk_m() || c == trunk_l()
}

/// A `w` x `h` grid of optional tree cells (symbol and color), stored row
/// by row, and the canopy cells petals can fall from.
pub struct Tree {
    pub w: u16,
    pub h: u16,
    pub cells: Vec<Option<(char, Color)>>,
    pub sources: Vec<(u16, u16)>,
}

impl Tree {
    /// The grid's own invariant: one entry per cell.
    pub open spec fn wf(&self) -> bool {
        self.cells@.len() == self.w as int * self.h as int
    }

    /// The entry of cell `(x, y)`.
    pub open spec fn cell(&self, x: int, y: int) -> Option<(char, Color)> {
        self.cells@[y * self.w + x]
    }

    /// An empty grid of no size.
    pub fn new() -> (t: Tree)
        ensures
            t.wf(),
            t.w == 0,
            t.h == 0,
            t.sources@.len() == 0,
    {
        Tree { w: 0, h: 0, cells: Vec::new(), sources: Vec::new() }
    }

    /// Empties the grid and resizes it to `w` x `h`; no sources are left.
    pub fn reset(&mut self, w: u16, h: u16)
        ensures
            final(self).wf(),
            final(self).w == w,
            final(self).h == h,
            final(self).sources@.len() == 0,
            forall|x: int, y: int| 0 <= x < w && 0 <= y < h ==> #[trigger] final(self).cell(x, y)
                == None::<(char, Color)>,
    {
        assert(w as int * h as int <= 0xffff * 0xffff) by (nonlinear_arith)
            requires
                w <= 0xffff,
                h <= 0xffff,
        ;
        let n: usize = w as usize * h as usize;
        let mut cells: Vec<Option<(char, Color)>> = Vec::new();
        let mut i: usize = 0;
        while i < n
            invariant
                i <= n,
                n == w as int * h as int,
                cells@.len() == i,
                forall|k: int| 0 <= k < i ==> #[trigger] cells@[k] == None::<(char, Color)>,
            decreases n - i,
        {
            cells.push(None);
            i = i + 1;
        }
        self.w = w;
        self.h = h;
        self.cells = cells;
        self.sources = Vec::new();
        assert forall|x: int, y: int| 0 <= x < w && 0 <= y < h implies #[trigger] self.cell(x, y)
            == None::<(char, Color)> by {
            assert(0 <= y * w + x < w * h) by (nonlinear_arith)
                requires
                    0 <= x < w,
                    0 <= y < h,
            ;
        }
    }

    /// Sets cell `(x, y)` to `ch` in `color`; positions outside the grid are
    /// ignored.
    pub fn put(&mut self, x: i32, y: i32, ch: char, color: Color)
        requires
            old(self).wf(),
        ensures
            final(self).wf(),
            final(self).w == old(self).w,
            final(self).h == old(self).h,
            final(self).sources@ == old(self).sources@,
            forall|a: int, b: int| 0 <= a < old(self).w && 0 <= b < old(self).h ==> #[trigger] final(self).cell(a, b)
                == (if a == x && b == y { Some((ch, color)) } else { old(self).cell(a, b) }),
    {
        if x < 0 || y < 0 || x >= self.w as i32 || y >= self.h as i32 {
            return;
        }
        let w = self.w as usize;
        let len = self.cells.len();
        assert((y as int) * (w as int) + (x as int) < (w as int) * (self.h as int)) by (nonlinear_arith)
            requires
                0 <= x < w,
                0 <= y < self.h,
        ;
        let idx = y as usize * w + x as usize;
        self.cells.set(idx, Some((ch, color)));
        assert forall|a: int, b: int| 0 <= a < self.w && 0 <= b < self.h implies #[trigger] self.cell(a, b)
            == (if a == x && b == y { Some((ch, color)) } else { old(self).cell(a, b) }) by {
            if b * w + a == y * w + x {
                assert(a == x && b == y) by (nonlinear_arith)
                    requires
                        0 <= a < w,
                        0 <= x < w,
                        b * w + a == y * w + x,
                ;
            }
            assert(0 <= b * w + a < w * self.h) by (nonlinear_arith)
                requires
                    0 <= a < w,
                    0 <= b < self.h,
            ;
        }
    }

    /// True if the tree has a wood cell (trunk or branch) at `(x, y)`.
    pub fn is_wood(&self, x: u16, y: u16) -> (r: bool)
        requires
            self.wf(),
        ensures
            r == (x < self.w && y < self.h && match self.cell(x as int, y as int) {
                Some((_, c)) => is_wood_color(c),
                None => false,
            }),
    {
        if x >= self.w || y >= self.h {
            return false;
        }
        let len = self.cells.len();
        assert((y as int) * (self.w as int) + (x as int) < (self.w as int) * (self.h as int)) by (nonlinear_arith)
            requires
                x < self.w,
                y < self.h,
        ;
        match self.cells[y as usize * self.w as usize + x as usize] {
            Some((_, c)) => c == trunk_d() || c == trunk_m() || c == trunk_l(),
            None => false,
        }
    }

    /// Draws the tree: every filled cell that lies on both the tree's grid
    /// and the buffer is written over the background already there.
    pub fn draw(&self, buf: &mut Buffer)
        requires
            self.wf(),
            old(buf).wf(),
        ensures
            final(buf).wf(),
            final(buf).same_size(&*old(buf)),
            final(buf)@ == tree_over(old(buf)@, *self),
    {
        let w = if self.w < buf.width { self.w } else { buf.width };
        let h = if self.h < buf.height { self.h } else { buf.height };
        let ghost g0 = buf@;
        let mut y: u16 = 0;
        while y < h
            invariant
                self.wf(),
                buf.wf(),
                buf.same_size(&*old(buf)),
                g0 == old(buf)@,
                w <= self.w,
                h <= self.h,
                w == (if self.w < buf.width { self.w } else { buf.width }),
                h == (if self.h < buf.height { self.h } else { buf.height }),
                y <= h,
                buf@ == Map::new(
                    |p: (int, int)| g0.dom().contains(p),
                    |p: (int, int)| tree_cell_over(g0, *self, p, p.1 < y),
                ),
            decreases h - y,
        {
            let mut x: u16 = 0;
            while x < w
                invariant
                    self.wf(),
                    buf.wf(),
                    buf.same_size(&*old(buf)),
                    g0 == old(buf)@,
                    w <= self.w,
                    h <= self.h,
                    w == (if self.w < buf.width { self.w } else { buf.width }),
                    h == (if self.h < buf.height { self.h } else { buf.height }),
                    y < h,
                    x <= w,
                    buf@ == Map::new(
                        |p: (int, int)| g0.dom().contains(p),
                        |p: (int, int)| tree_cell_over(g0, *self, p, p.1 < y || (p.1 == y && p.0 < x)),
                    ),
                decreases w - x,
            {
                assert((y as int) * (self.w as int) + (x as int) < (self.w as int) * (self.h as int)) by (nonlinear_arith)
                    requires
                        x < self.w,
                        y < self.h,
                ;
                let len = self.cells.len();
                let idx = y as usize * self.w as usize + x as usize;
                assert(self.cells@[idx as int] == self.cell(x as int, y as int));
                match self.cells[idx] {
                    Some((ch, color)) => {
                        let ghost before = buf@;
                        assert(before[(x as int, y as int)] == g0[(x as int, y as int)]);
                        glyph_over(buf, x, y, ch, color);
                        assert(buf@[(x as int, y as int)] == tree_cell_over(g0, *self, (x as int, y as int), true));
                    },
                    None => {},
                }
                proof {
                    assert(buf@ =~= Map::new(
                        |p: (int, int)| g0.dom().contains(p),
                        |p: (int, int)| tree_cell_over(g0, *self, p, p.1 < y || (p.1 == y && p.0 < x + 1)),
                    ));
                }
                x = x + 1;
            }
            proof {
                assert(buf@ =~= Map::new(
                    |p: (int, int)| g0.dom().contains(p),
                    |p: (int, int)| tree_cell_over(g0, *self, p, p.1 < y + 1),
                ));
            }
            y = y + 1;
        }
        proof {
            assert(buf@ =~= tree_over(g0, *self));
        }
    }
}

/// The cell of `g` at `p`, with the tree's entry there drawn over it when
/// `drawn` holds and `p` lies on the tree's grid.
pub open spec fn tree_cell_over(g: Grid, t: Tree, p: (int, int), drawn: bool) -> crate::buffer::Cell {
    if drawn && 0 <= p.0 < t.w && 0 <= p.1 < t.h {
        match t.cell(p.0, p.1) {
            Some((ch, color)) => crate::buffer::Cell { symbol: ch, fg: color, bg: g[p].bg },
            None => g[p],
        }
    } else {
        g[p]
    }
}

/// `g` with every filled cell of the tree `t` drawn over it.
pub open spec fn tree_over(g: Grid, t: Tree) -> Grid {
    Map::new(|p: (int, int)| g.dom().contains(p), |p: (int, int)| tree_cell_over(g, t, p, true))
}

} // verus!
