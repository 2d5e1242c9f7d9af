//! Sakura layout: every element's position derived from the terminal size.
//!
//! The lake's first row and the grass bank's first row are 52% and 78% of
//! the height as the scene computes them in floating point; they are given.

use vstd::prelude::*;
use crate::layout::{Rect, min16, pct, pct_of, rect, sat_sub};

verus! {

/// Positions of every sakura element for one terminal size.
#[derive(Clone, Copy, Debug)]
pub struct Layout {
    pub w: u16,
    pub h: u16,
    /// First row of the lake (sky and far shore end above it).
    pub horizon_y: u16,
    /// First row of the foreground grass bank.
    pub ground_y: u16,
    pub moon: Rect,
    /// The pagoda's column inside the skyline.
    pub pagoda_x: u16,
    pub torii: Rect,
    pub lantern_x: u16,
    /// Trunk base column of the sakura tree.
    pub tree_cx: u16,
    pub fox_cols: u16,
    pub fox_rows: u16,
    /// Walk range of the fox (min col, max col).
    pub fox_range: (u16, u16),
    pub lantern_left: Rect,
    pub lantern_right: Rect,
}

/// The lake's first row: the given 52% row, but at least 6.
pub open spec fn horizon_of(lake_row: u16) -> u16 {
    if lake_row > 6 { lake_row } else { 6 }
}

/// The grass bank's first row: the given 78% row, clamped to at least two
/// rows below the horizon and at most three rows above the bottom.
pub open spec fn ground_of(h: u16, lake_row: u16, bank_row: u16) -> u16 {
    let lo = horizon_of(lake_row) + 2;
    let hi = sat_sub(h, 3);
    if bank_row < lo { lo as u16 } else if bank_row > hi { hi } else { bank_row }
}

/// Whether the clamp of the bank row has room: the lowest allowed bank row
/// is not below the highest (on a smaller terminal the layout has no room).
pub open spec fn has_room(h: u16, lake_row: u16) -> bool {
    horizon_of(lake_row) + 2 <= sat_sub(h, 3)
}

/// The torii's width: 12, or a ninth of the width when less, but at least 7.
pub open spec fn torii_width(w: u16) -> u16 {
    let a = min16(12, w / 9);
    if a > 7 { a } else { 7 }
}

/// The torii's height: 10, or the bank's depth below the horizon plus 6 when
/// less.
pub open spec fn torii_height(horizon: u16, ground: u16) -> u16 {
    min16(10, (sat_sub(ground, horizon) + 6) as u16)
}

impl Layout {
    /// Lays the lakeside out on a `w` x `h` terminal, given the rows at 52%
    /// (`lake_row`) and 78% (`bank_row`) of the height.
    pub fn new(w: u16, h: u16, lake_row: u16, bank_row: u16) -> (l: Layout)
        requires
            has_room(h, lake_row),
            h + 2 <= u16::MAX,
            (h - ground_of(h, lake_row, bank_row)) * 2 <= u16::MAX,
        ensures
            l.w == w,
            l.h == h,
            l.horizon_y == horizon_of(lake_row),
            l.ground_y == ground_of(h, lake_row, bank_row),
            l.moon == rect(pct(w, 19), 1, 8, 4),
            l.pagoda_x == pct(w, 27),
            l.torii == rect(sat_sub(w, (torii_width(w) + 2) as u16),
                sat_sub((l.ground_y + 2) as u16, torii_height(l.horizon_y, l.ground_y)),
                torii_width(w), torii_height(l.horizon_y, l.ground_y)),
            l.lantern_x == pct(w, 46),
            l.tree_cx == pct(w, 84),
            l.fox_cols == 13,
            l.fox_rows == 6,
            l.fox_range == (pct(w, 48), pct(w, 64)),
            l.lantern_left == rect(pct(w, 8),
                sat_sub((l.ground_y + sat_sub(h, l.ground_y) * 2 / 3) as u16, 4), 8, 4),
            l.lantern_right == rect(sat_sub(pct(w, 84), 13), sat_sub((l.ground_y + 5) as u16, 4), 7, 4),
    {
        let horizon_y = if lake_row > 6 { lake_row } else { 6 };
        let lo = horizon_y + 2;
        let hi = h.saturating_sub(3);
        let ground_y = if bank_row < lo { lo } else if bank_row > hi { hi } else { bank_row };
        let ninth = w / 9;
        let tw0 = if 12 < ninth { 12 } else { ninth };
        let torii_w: u16 = if tw0 > 7 { tw0 } else { 7 };
        let depth = ground_y.saturating_sub(horizon_y) + 6;
        let torii_h: u16 = if 10 < depth { 10 } else { depth };
        let torii = Rect::new(w.saturating_sub(torii_w + 2), (ground_y + 2).saturating_sub(torii_h), torii_w, torii_h);
        let tree_cx = pct_of(w, 84);
        assert(ground_y <= h);
        let bank_h = h.saturating_sub(ground_y);
        assert(bank_h * 2 / 3 <= bank_h) by (nonlinear_arith);
        assert(ground_y + bank_h <= h);
        let lantern_left = Rect::new(pct_of(w, 8), (ground_y + bank_h * 2 / 3).saturating_sub(4), 8, 4);
        let lantern_right = Rect::new(tree_cx.saturating_sub(13), (ground_y + 5).saturating_sub(4), 7, 4);
        Layout {
            w,
            h,
            horizon_y,
            ground_y,
            moon: Rect::new(pct_of(w, 19), 1, 8, 4),
            pagoda_x: pct_of(w, 27),
            torii,
            lantern_x: pct_of(w, 46),
            tree_cx,
            fox_cols: 13,
            fox_rows: 6,
            fox_range: (pct_of(w, 48), pct_of(w, 64)),
            lantern_left,
            lantern_right,
        }
    }
}

} // verus!
