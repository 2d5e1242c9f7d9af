//! Rectangles of terminal cells.

use vstd::prelude::*;

verus! {

/// A rectangle of cells: top-left corner `(x, y)` and its size.
/// A rectangle built by `Rect::new` never reaches past column or row 65535.
#[derive(Clone, Copy, PartialEq, Eq, Debug, Structural)]
pub struct Rect {
    pub x: u16,
    pub y: u16,
    pub width: u16,
    pub height: u16,
}

/// `a + b`, clamped to the `u16` range.
pub open spec fn sat_add(a: u16, b: u16) -> u16 {
    if a + b > u16::MAX { u16::MAX } else { (a + b) as u16 }
}

/// `a - b`, clamped at zero.
pub open spec fn sat_sub(a: u16, b: u16) -> u16 {
    if a < b { 0 } else { (a - b) as u16 }
}

/// `p` percent of the width, rounded down.
pub open spec fn pct(w: u16, p: int) -> u16 {
    (w * p / 100) as u16
}

/// The rectangle `Rect::new(x, y, width, height)` builds.
pub open spec fn rect(x: u16, y: u16, width: u16, height: u16) -> Rect {
    Rect {
        x,
        y,
        width: if width > u16::MAX - x { (u16::MAX - x) as u16 } else { width },
        height: if height > u16::MAX - y { (u16::MAX - y) as u16 } else { height },
    }
}

/// The smaller of two numbers.
pub open spec fn min16(a: u16, b: u16) -> u16 {
    if a < b { a } else { b }
}

/// `p` percent of `w`, rounded down.
pub fn pct_of(w: u16, p: u16) -> (r: u16)
    requires
        p <= 100,
    ensures
        r == pct(w, p as int),
{
    assert(w as u32 * p as u32 <= 65535 * 100) by (nonlinear_arith)
        requires
            w <= 65535,
            p <= 100,
    ;
    assert(w as u32 * p as u32 / 100 <= w) by (nonlinear_arith)
        requires
            p <= 100,
    ;
    (w as u32 * p as u32 / 100) as u16
}

impl Rect {
    /// The rectangle at `(x, y)`; width and height are shortened so that the
    /// rectangle ends at column and row 65535 at the latest.
    pub fn new(x: u16, y: u16, width: u16, height: u16) -> (r: Rect)
        ensures
            r.x == x,
            r.y == y,
            r.width == (if width > u16::MAX - x { (u16::MAX - x) as u16 } else { width }),
            r.height == (if height > u16::MAX - y { (u16::MAX - y) as u16 } else { height }),
            r.valid(),
    {
        let max_width = u16::MAX - x;
        let max_height = u16::MAX - y;
        let width = if width > max_width { max_width } else { width };
        let height = if height > max_height { max_height } else { height };
        Rect { x, y, width, height }
    }

    /// The rectangle ends inside the `u16` range (true of every `Rect::new`).
    pub open spec fn valid(self) -> bool {
        self.x + self.width <= u16::MAX && self.y + self.height <= u16::MAX
    }

    pub open spec fn spec_right(self) -> u16 {
        sat_add(self.x, self.width)
    }

    pub open spec fn spec_bottom(self) -> u16 {
        sat_add(self.y, self.height)
    }

    /// The first column of the rectangle.
    pub fn left(&self) -> (r: u16)
        ensures
            r == self.x,
    {
        self.x
    }

    /// The column just past the rectangle (saturating).
    pub fn right(&self) -> (r: u16)
        ensures
            r == self.spec_right(),
    {
        self.x.saturating_add(self.width)
    }

    /// The first row of the rectangle.
    pub fn top(&self) -> (r: u16)
        ensures
            r == self.y,
    {
        self.y
    }

    /// The row just past the rectangle (saturating).
    pub fn bottom(&self) -> (r: u16)
        ensures
            r == self.spec_bottom(),
    {
        self.y.saturating_add(self.height)
    }
}

} // verus!
