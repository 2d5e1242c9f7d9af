//! The cell grid the scenes paint into: one symbol and two colors per cell.

use vstd::prelude::*;
use crate::style::Color;

verus! {

/// One terminal cell: the symbol shown and its foreground and background.
#[derive(Clone, Copy, PartialEq, Eq, Debug, Structural)]
pub struct Cell {
    pub symbol: char,
    pub fg: Color,
    pub bg: Color,
}

/// The cell every grid starts with: a space in the terminal's default colors.
pub open spec fn blank_cell() -> Cell {
    Cell { symbol: ' ', fg: Color::Reset, bg: Color::Reset }
}

/// A grid of cells as a map from `(column, row)` to the cell there.
pub type Grid = Map<(int, int), Cell>;

/// A `width` x `height` grid of cells, stored row by row.
pub struct Buffer {
    pub width: u16,
    pub height: u16,
    pub cells: Vec<Cell>,
}

/// `g` with the cell at `(x, y)` replaced, if that position is in the grid.
pub open spec fn put(g: Grid, x: int, y: int, c: Cell) -> Grid {
    if g.dom().contains((x, y)) { g.insert((x, y), c) } else { g }
}

/// A solid block of `color`: a space whose foreground and background are both `color`.
pub open spec fn solid(color: Color) -> Cell {
    Cell { symbol: ' ', fg: color, bg: color }
}

/// `g` with symbol `ch` drawn in `fg` at `(x, y)` over the background already
/// there, if that position is in the grid.
pub open spec fn put_glyph(g: Grid, x: int, y: int, ch: char, fg: Color) -> Grid {
    if g.dom().contains((x, y)) {
        g.insert((x, y), Cell { symbol: ch, fg, bg: g[(x, y)].bg })
    } else {
        g
    }
}

/// `g` with every cell inside the half-open box `[x0, x1) x [y0, y1)` made
/// `c`; cells outside the box, and positions outside the grid, are untouched.
pub open spec fn put_box(g: Grid, x0: int, y0: int, x1: int, y1: int, c: Cell) -> Grid {
    Map::new(
        |p: (int, int)| g.dom().contains(p),
        |p: (int, int)| if x0 <= p.0 < x1 && y0 <= p.1 < y1 { c } else { g[p] },
    )
}

/// `g` with every cell of the half-open box `[x0, x1) x [y0, y1)` that lies in
/// the grid replaced by `f(x, y)`.
pub open spec fn put_fn(g: Grid, x0: int, y0: int, x1: int, y1: int, f: spec_fn(int, int) -> Cell) -> Grid {
    Map::new(
        |p: (int, int)| g.dom().contains(p),
        |p: (int, int)| if x0 <= p.0 < x1 && y0 <= p.1 < y1 { f(p.0, p.1) } else { g[p] },
    )
}

/// `g` with the background of every cell of the box `[x0, x1) x [y0, y1)`
/// that lies in the grid set to `bg`; symbols and foregrounds are kept.
pub open spec fn put_bg_box(g: Grid, x0: int, y0: int, x1: int, y1: int, bg: Color) -> Grid {
    Map::new(
        |p: (int, int)| g.dom().contains(p),
        |p: (int, int)| if x0 <= p.0 < x1 && y0 <= p.1 < y1 { Cell { bg, ..g[p] } } else { g[p] },
    )
}

/// Extending a partly painted row by one cell.
pub proof fn lemma_put_fn_cell(g: Grid, x0: int, y: int, x: int, f: spec_fn(int, int) -> Cell)
    requires
        x0 <= x,
    ensures
        put(put_fn(g, x0, y, x, y + 1, f), x, y, f(x, y)) == put_fn(g, x0, y, x + 1, y + 1, f),
{
    assert(put(put_fn(g, x0, y, x, y + 1, f), x, y, f(x, y)) =~= put_fn(g, x0, y, x + 1, y + 1, f));
}

/// A fully painted row joins the box painted above it.
pub proof fn lemma_put_fn_row(g: Grid, x0: int, y0: int, x1: int, y: int, f: spec_fn(int, int) -> Cell)
    requires
        y0 <= y,
    ensures
        put_fn(put_fn(g, x0, y0, x1, y, f), x0, y, x1, y + 1, f) == put_fn(g, x0, y0, x1, y + 1, f),
{
    assert(put_fn(put_fn(g, x0, y0, x1, y, f), x0, y, x1, y + 1, f) =~= put_fn(g, x0, y0, x1, y + 1, f));
}

/// A box of equal cells grows by one row.
pub proof fn lemma_put_box_row(g: Grid, x0: int, y0: int, x1: int, y: int, c: Cell)
    requires
        y0 <= y,
    ensures
        put_box(put_box(g, x0, y0, x1, y, c), x0, y, x1, y + 1, c) == put_box(g, x0, y0, x1, y + 1, c),
{
    assert(put_box(put_box(g, x0, y0, x1, y, c), x0, y, x1, y + 1, c) =~= put_box(g, x0, y0, x1, y + 1, c));
}

/// Painting an empty box changes nothing.
pub proof fn lemma_put_fn_empty(g: Grid, x0: int, y0: int, x1: int, y1: int, f: spec_fn(int, int) -> Cell)
    requires
        x1 <= x0 || y1 <= y0,
    ensures
        put_fn(g, x0, y0, x1, y1, f) == g,
{
    assert(put_fn(g, x0, y0, x1, y1, f) =~= g);
}

/// `u16::saturating_add` of a column and a character index truncated to `u16`
/// (`x.saturating_add(i as u16)`).
pub open spec fn text_column(x: u16, i: int) -> int {
    let d = i % 65536;
    if x + d > u16::MAX { u16::MAX as int } else { x + d }
}

/// `g` with the characters of `s` written left to right from `(x, y)` by
/// `put_glyph` (or, with `Some(bg)`, as whole cells over `bg`), one column per
/// character, the `i`-th at `text_column(x, i)`.
pub open spec fn put_text(g: Grid, x: u16, y: int, s: Seq<char>, fg: Color, bg: Option<Color>) -> Grid
    decreases s.len(),
{
    if s.len() == 0 {
        g
    } else {
        let g1 = put_text(g, x, y, s.drop_last(), fg, bg);
        let col = text_column(x, s.len() - 1);
        match bg {
            Some(b) => put(g1, col, y, Cell { symbol: s.last(), fg, bg: b }),
            None => put_glyph(g1, col, y, s.last(), fg),
        }
    }
}

/// Row-major positions of distinct cells are distinct and lie in the grid.
proof fn lemma_index(w: int, h: int, x1: int, y1: int, x2: int, y2: int)
    requires
        0 <= x1 < w,
        0 <= y1 < h,
        0 <= x2 < w,
        0 <= y2 < h,
    ensures
        0 <= y1 * w + x1 < w * h,
        (y1 * w + x1 == y2 * w + x2) ==> (x1 == x2 && y1 == y2),
{
    assert(0 <= y1 * w + x1 < w * h) by (nonlinear_arith)
        requires
            0 <= x1 < w,
            0 <= y1 < h,
    ;
    if y1 < y2 {
        assert(y1 * w + x1 < y2 * w + x2) by (nonlinear_arith)
            requires
                0 <= x1 < w,
                0 <= x2,
                y1 < y2,
        ;
    } else if y2 < y1 {
        assert(y2 * w + x2 < y1 * w + x1) by (nonlinear_arith)
            requires
                0 <= x2 < w,
                0 <= x1,
                y2 < y1,
        ;
    }
}

impl View for Buffer {
    type V = Grid;

    /// Every position of the grid, mapped to its cell.
    open spec fn view(&self) -> Grid {
        Map::new(
            |p: (int, int)| 0 <= p.0 < self.width && 0 <= p.1 < self.height,
            |p: (int, int)| self.cells@[p.1 * self.width + p.0],
        )
    }
}

impl Buffer {
    /// The grid's own invariant: exactly one cell per position.
    pub open spec fn wf(&self) -> bool {
        self.cells@.len() == self.width as int * self.height as int
    }

    /// Whether `(x, y)` is a position of the grid.
    pub open spec fn contains(&self, x: int, y: int) -> bool {
        0 <= x < self.width && 0 <= y < self.height
    }

    /// Whether `other` has the same size as `self`.
    pub open spec fn same_size(&self, other: &Buffer) -> bool {
        self.width == other.width && self.height == other.height
    }

    /// A grid of blank cells.
    pub fn empty(width: u16, height: u16) -> (b: Buffer)
        ensures
            b.wf(),
            b.width == width,
            b.height == height,
            forall|x: int, y: int| b.contains(x, y) ==> #[trigger] b@[(x, y)] == blank_cell(),
    {
        assert(width as int * height as int <= 0xffff * 0xffff) by (nonlinear_arith)
            requires
                width <= 0xffff,
                height <= 0xffff,
        ;
        let n: usize = width as usize * height as usize;
        let mut cells: Vec<Cell> = Vec::new();
        let mut i: usize = 0;
        while i < n
            invariant
                i <= n,
                n == width as int * height as int,
                cells@.len() == i,
                forall|k: int| 0 <= k < i ==> #[trigger] cells@[k] == blank_cell(),
            decreases n - i,
        {
            cells.push(Cell { symbol: ' ', fg: Color::Reset, bg: Color::Reset });
            i = i + 1;
        }
        let b = Buffer { width, height, cells };
        assert forall|x: int, y: int| b.contains(x, y) implies #[trigger] b@[(x, y)] == blank_cell() by {
            lemma_index(width as int, height as int, x, y, x, y);
        }
        b
    }

    /// The cell at `(x, y)`.
    pub fn get(&self, x: u16, y: u16) -> (c: Cell)
        requires
            self.wf(),
            self.contains(x as int, y as int),
        ensures
            c == self@[(x as int, y as int)],
    {
        let len = self.cells.len();
        proof {
            lemma_index(self.width as int, self.height as int, x as int, y as int, x as int, y as int);
            assert(y as int * self.width as int <= y as int * self.width as int + x as int);
        }
        self.cells[y as usize * self.width as usize + x as usize]
    }

    /// Replaces the cell at `(x, y)`; every other cell is unchanged.
    pub fn set(&mut self, x: u16, y: u16, c: Cell)
        requires
            old(self).wf(),
            old(self).contains(x as int, y as int),
        ensures
            final(self).wf(),
            final(self).same_size(&*old(self)),
            final(self)@ == old(self)@.insert((x as int, y as int), c),
    {
        let len = self.cells.len();
        proof {
            lemma_index(self.width as int, self.height as int, x as int, y as int, x as int, y as int);
            assert(y as int * self.width as int <= y as int * self.width as int + x as int);
        }
        let idx = y as usize * self.width as usize + x as usize;
        self.cells.set(idx, c);
        proof {
            assert forall|p: (int, int)| #[trigger] self@.dom().contains(p) implies self@[p]
                == old(self)@.insert((x as int, y as int), c)[p] by {
                lemma_index(self.width as int, self.height as int, p.0, p.1, x as int, y as int);
            }
            assert(self@ =~= old(self)@.insert((x as int, y as int), c));
        }
    }
}

} // verus!
