//! Meadow layout: every element's position derived from the terminal size.
//! Shared by the character components and the Kitty sprite layer so
//! characters and pixel sprites always line up.
//!
//! Two values come from outside: the canopy's center row (42% of the horizon
//! row, as the scene computes it in floating point) and the canopy's leaf
//! edge on the branch row (an ellipse evaluated in floating point).

use vstd::prelude::*;
use crate::layout::{Rect, min16, pct, pct_of, rect, sat_sub};

verus! {

/// A wandering critter's home: its walk range (min/max left-edge column)
/// and where it starts.
#[derive(Clone, Copy, Debug)]
pub struct Slot {
    pub range: (u16, u16),
    pub start: u16,
}

impl Default for Slot {
    /// An empty range at column 0.
    fn default() -> (s: Self)
        ensures
            s.range == (0u16, 0u16),
            s.start == 0,
    {
        Slot { range: (0, 0), start: 0 }
    }
}

/// The tree canopy: an ellipse centered over the trunk, and the row of the
/// branch that holds the hive.
#[derive(Clone, Copy, PartialEq, Eq, Debug, Structural)]
pub struct Canopy {
    pub cx: u16,
    pub cy: u16,
    pub rx: u16,
    pub ry: u16,
    pub branch_y: u16,
}

/// Positions of every meadow element for one terminal size.
#[derive(Clone, Copy, Debug)]
pub struct Layout {
    pub w: u16,
    pub h: u16,
    /// First grass row: the sky ends above it.
    pub horizon_y: u16,
    /// Row the animals' feet rest on.
    pub ground_y: u16,
    pub sun: Rect,
    pub trunk: Rect,
    pub canopy_cx: u16,
    pub canopy_cy: u16,
    pub canopy_rx: u16,
    pub canopy_ry: u16,
    pub branch_y: u16,
    pub branch_x_end: u16,
    /// The sunflower patch: `x` is its left, `bottom()` its base row and
    /// `height` the flower height.
    pub sunflowers: Rect,
    pub cabin: Rect,
    pub blanket: Rect,
    pub animal_rows: u16,
    pub capy: Slot,
    pub sloth: Slot,
    pub badger: Slot,
    pub hive: Rect,
    pub hunny: Rect,
    pub book: Rect,
}

/// The horizon: half the height, rounded down.
pub open spec fn horizon_row(h: u16) -> u16 {
    (h / 2) as u16
}

/// The ground row: 80% of the height, rounded down.
pub open spec fn ground_row(h: u16) -> u16 {
    (h * 4 / 5) as u16
}

/// The trunk: 5 columns wide at 4% of the width, from just above the
/// horizon down past the ground row.
pub open spec fn trunk_rect(w: u16, h: u16) -> Rect {
    rect(pct(w, 4), sat_sub(horizon_row(h), 1), 5, (sat_sub(ground_row(h), horizon_row(h)) + 3) as u16)
}

/// The canopy for a `w` x `h` terminal whose center row is `cy`.
pub open spec fn canopy_spec(w: u16, h: u16, cy: u16) -> Canopy {
    let t = trunk_rect(w, h);
    Canopy {
        cx: (t.x + t.width / 2) as u16,
        cy,
        rx: if pct(w, 20) > 12 { pct(w, 20) } else { 12 },
        ry: if horizon_row(h) * 60 / 100 > 4 { (horizon_row(h) * 60 / 100) as u16 } else { 4 },
        branch_y: (horizon_row(h) * 30 / 100) as u16,
    }
}

/// A critter slot at `lo`..`hi` percent of the width, starting at `start`
/// percent.
pub open spec fn slot_spec(w: u16, lo: int, hi: int, start: int) -> Slot {
    Slot { range: (pct(w, lo), pct(w, hi)), start: pct(w, start) }
}

/// The column where the branch ends: four past the leaf edge (or past the
/// canopy's right end when the canopy does not reach the branch row), but
/// at least four columns from the right edge.
pub open spec fn branch_end(w: u16, c: Canopy, leaf_edge: Option<u16>) -> u16 {
    let leaf: int = match leaf_edge {
        Some(e) => e as int,
        None => c.cx + c.rx,
    };
    if leaf + 4 < sat_sub(w, 4) { (leaf + 4) as u16 } else { sat_sub(w, 4) }
}

/// The base row of the sunflower patch.
pub open spec fn sunflower_base(h: u16) -> u16 {
    min16((ground_row(h) + 3) as u16, sat_sub(h, 1))
}

/// The height of the sunflowers: 8, or less where the grass is shallower
/// (but at least 4).
pub open spec fn sunflower_height(h: u16) -> u16 {
    let room = sat_sub(sunflower_base(h), (horizon_row(h) + 1) as u16);
    min16(8, if room > 4 { room } else { 4 })
}

/// `p` percent of `w` for a percentage literal.
fn pw(w: u16, p: u16) -> (r: u16)
    requires
        p <= 100,
    ensures
        r == pct(w, p as int),
        r <= w,
{
    let r = pct_of(w, p);
    assert(w * p / 100 <= w) by (nonlinear_arith)
        requires
            p <= 100,
    ;
    r
}

impl Layout {
    /// The canopy of a `w` x `h` meadow whose center row is `canopy_cy`:
    /// centered over the trunk, a fifth of the width across (at least 12),
    /// 60% of the horizon row tall (at least 4), with the branch at 30% of
    /// the horizon row.
    pub fn canopy(w: u16, h: u16, canopy_cy: u16) -> (c: Canopy)
        ensures
            c == canopy_spec(w, h, canopy_cy),
    {
        let horizon_y = h / 2;
        let ground_y = (h as u32 * 4 / 5) as u16;
        let trunk = Rect::new(pw(w, 4), horizon_y.saturating_sub(1), 5, ground_y.saturating_sub(horizon_y) + 3);
        let p20 = pw(w, 20);
        let ry_raw = (horizon_y as u32 * 60 / 100) as u16;
        Canopy {
            cx: trunk.x + trunk.width / 2,
            cy: canopy_cy,
            rx: if p20 > 12 { p20 } else { 12 },
            ry: if ry_raw > 4 { ry_raw } else { 4 },
            branch_y: (horizon_y as u32 * 30 / 100) as u16,
        }
    }

    /// Lays the meadow out on a `w` x `h` terminal. The horizon is at half
    /// the height and the ground at 80% (both rounded down); the canopy's
    /// center row `canopy_cy` and its rightmost leaf column on the branch
    /// row, `leaf_edge` (`None` where the canopy does not reach that row),
    /// are given.
    pub fn new(w: u16, h: u16, canopy_cy: u16, leaf_edge: Option<u16>) -> (l: Layout)
        requires
            leaf_edge matches Some(e) ==> e + 4 <= u16::MAX,
        ensures
            l.w == w,
            l.h == h,
            l.horizon_y == horizon_row(h),
            l.ground_y == ground_row(h),
            l.sun == rect(pct(w, 80), 2, 6, 3),
            l.trunk == trunk_rect(w, h),
            l.canopy_cx == canopy_spec(w, h, canopy_cy).cx,
            l.canopy_cy == canopy_cy,
            l.canopy_rx == canopy_spec(w, h, canopy_cy).rx,
            l.canopy_ry == canopy_spec(w, h, canopy_cy).ry,
            l.branch_y == canopy_spec(w, h, canopy_cy).branch_y,
            l.branch_x_end == branch_end(w, canopy_spec(w, h, canopy_cy), leaf_edge),
            l.hive == rect(sat_sub(l.branch_x_end, 3), l.branch_y, 6, 3),
            l.sunflowers == rect(pct(w, 11), sat_sub(sunflower_base(h), sunflower_height(h)), 11,
                sunflower_height(h)),
            l.cabin == rect(pct(w, 84), sat_sub(horizon_row(h), 4), 11, 5),
            l.animal_rows == 5,
            l.sloth == slot_spec(w, 44, 48, 46),
            l.badger == slot_spec(w, 26, 38, 32),
            l.capy == slot_spec(w, 64, 76, 70),
            l.hunny == rect((pct(w, 46) + 8) as u16, sat_sub(ground_row(h), 2), 5, 3),
            l.book == rect((pct(w, 46) + 2) as u16, sat_sub(ground_row(h), 1), 5, 2),
            l.blanket == rect((pct(w, 46) + 1) as u16, ground_row(h), min16(15,
                sat_sub(w, (pct(w, 46) + 1) as u16)), 2),
    {
        let horizon_y = h / 2;
        assert(h as u32 * 4 / 5 <= h) by (nonlinear_arith);
        let ground_y = (h as u32 * 4 / 5) as u16;
        let animal_rows: u16 = 5;

        let sun = Rect::new(pw(w, 80), 2, 6, 3);
        let trunk = Rect::new(pw(w, 4), horizon_y.saturating_sub(1), 5, ground_y.saturating_sub(horizon_y) + 3);
        let c = Layout::canopy(w, h, canopy_cy);

        let leaf: u16 = match leaf_edge {
            Some(e) => e,
            None => c.cx + c.rx,
        };
        let right_limit = w.saturating_sub(4);
        let branch_x_end = if leaf + 4 < right_limit { leaf + 4 } else { right_limit };
        let hive = Rect::new(branch_x_end.saturating_sub(3), c.branch_y, 6, 3);

        let g3 = ground_y + 3;
        let h1 = h.saturating_sub(1);
        let sf_base = if g3 < h1 { g3 } else { h1 };
        let room = sf_base.saturating_sub(horizon_y + 1);
        let room4 = if room > 4 { room } else { 4 };
        let sf_h = if 8 < room4 { 8 } else { room4 };
        let sunflowers = Rect::new(pw(w, 11), sf_base.saturating_sub(sf_h), 11, sf_h);

        let cabin = Rect::new(pw(w, 84), horizon_y.saturating_sub(4), 11, 5);

        let sloth = Slot { range: (pw(w, 44), pw(w, 48)), start: pw(w, 46) };
        let badger = Slot { range: (pw(w, 26), pw(w, 38)), start: pw(w, 32) };
        let capy = Slot { range: (pw(w, 64), pw(w, 76)), start: pw(w, 70) };

        let picnic_x = sloth.start;
        let hunny = Rect::new(picnic_x + 8, ground_y.saturating_sub(2), 5, 3);
        let book = Rect::new(picnic_x + 2, ground_y.saturating_sub(1), 5, 2);
        let blanket_x = picnic_x + 1;
        let room_right = w.saturating_sub(blanket_x);
        let blanket = Rect::new(blanket_x, ground_y, if 15 < room_right { 15 } else { room_right }, 2);

        Layout {
            w,
            h,
            horizon_y,
            ground_y,
            sun,
            trunk,
            canopy_cx: c.cx,
            canopy_cy: c.cy,
            canopy_rx: c.rx,
            canopy_ry: c.ry,
            branch_y: c.branch_y,
            branch_x_end,
            sunflowers,
            cabin,
            blanket,
            animal_rows,
            capy,
            sloth,
            badger,
            hive,
            hunny,
            book,
        }
    }

    /// Top row where a ground-standing animal sprite is placed.
    pub fn animal_row(&self) -> (r: u16)
        ensures
            r == sat_sub(self.ground_y, self.animal_rows),
    {
        self.ground_y.saturating_sub(self.animal_rows)
    }
}

} // verus!
