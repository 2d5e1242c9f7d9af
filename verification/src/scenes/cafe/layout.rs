//! Cafe layout: every element's position derived from the terminal size.
//! Shared by the character components (draw) and the Kitty sprite layer
//! (placements) so characters and pixel sprites always line up.

use vstd::prelude::*;
use crate::layout::{Rect, min16, pct, pct_of, rect, sat_sub};

verus! {

/// Number of bar stools.
pub const STOOL_COUNT: u16 = 5;

/// Positions of every cafe element for one terminal size.
#[derive(Clone, Copy, Debug)]
pub struct Layout {
    pub w: u16,
    pub h: u16,
    /// Row of the counter top highlight. Things "on the counter" have their
    /// bottom row at `counter_y - 1`.
    pub counter_y: u16,
    /// Row of the baseboard line where the floor begins.
    pub floor_y: u16,
    /// Sprite cells of the glowing neon cat face.
    pub neon_face: Rect,
    /// First row of the `CAT` / `CAFE` lettering below the face.
    pub neon_text_y: u16,
    pub shelf_x0: u16,
    pub shelf_x1: u16,
    pub shelf_rows: [u16; 2],
    pub menu: Rect,
    pub window: Rect,
    pub lamp_x: u16,
    /// CRT box; its bottom row is `counter_y - 1`.
    pub terminal: Rect,
    pub mug_x: u16,
    pub register_x: u16,
    pub pastry_case: Rect,
    pub plant_left: Rect,
    pub plant_right: Rect,
    pub cat_rows: u16,
    pub cat_cols: u16,
    /// Walk range of the black cat (min col, max col).
    pub black_cat_range: (u16, u16),
    pub white_cat_x: u16,
    pub stool_y: u16,
}

/// Row of the counter top: 60% of the height, rounded down.
pub open spec fn counter_row(h: u16) -> u16 {
    (h * 3 / 5) as u16
}

/// Row where the floor begins: 85% of the height, rounded down.
pub open spec fn floor_row(h: u16) -> u16 {
    (h * 17 / 20) as u16
}

impl Default for Layout {
    /// The layout of an empty terminal: every field zero.
    fn default() -> (l: Self)
        ensures
            l.w == 0,
            l.h == 0,
            l.counter_y == 0,
            l.floor_y == 0,
    {
        let z = Rect { x: 0, y: 0, width: 0, height: 0 };
        Layout {
            w: 0,
            h: 0,
            counter_y: 0,
            floor_y: 0,
            neon_face: z,
            neon_text_y: 0,
            shelf_x0: 0,
            shelf_x1: 0,
            shelf_rows: [0, 0],
            menu: z,
            window: z,
            lamp_x: 0,
            terminal: z,
            mug_x: 0,
            register_x: 0,
            pastry_case: z,
            plant_left: z,
            plant_right: z,
            cat_rows: 0,
            cat_cols: 0,
            black_cat_range: (0, 0),
            white_cat_x: 0,
            stool_y: 0,
        }
    }
}

impl Layout {
    /// Lays the cafe out on a `w` x `h` terminal. The counter top sits at 60%
    /// of the height and the floor at 85% (both rounded down); wall elements
    /// are placed at fixed percentages of the width, counter elements on the
    /// counter row, and the stools halfway between counter and floor.
    pub fn new(w: u16, h: u16) -> (l: Layout)
        ensures
            l.w == w,
            l.h == h,
            l.counter_y == counter_row(h),
            l.floor_y == floor_row(h),
            l.neon_face == rect(pct(w, 3), 2, 10, 5),
            l.neon_text_y == 8,
            l.shelf_x0 == pct(w, 15),
            l.shelf_x1 == (if pct(w, 32) > pct(w, 15) + 8 { pct(w, 32) } else { (pct(w, 15) + 8) as u16 }),
            l.shelf_rows@ == seq![(counter_row(h) * 30 / 100) as u16, (counter_row(h) * 60 / 100) as u16],
            l.menu == rect(sat_sub(pct(w, 40), 9), 2, 19, min16(11, sat_sub(counter_row(h), 4))),
            l.window == rect(pct(w, 56), 2, sat_sub(pct(w, 78), pct(w, 56)), sat_sub(counter_row(h), 5)),
            l.lamp_x == pct(w, 88),
            l.terminal == rect(pct(w, 48), sat_sub(counter_row(h), min16(7, counter_row(h) / 2)),
                min16(24, w / 3), min16(7, counter_row(h) / 2)),
            l.mug_x == pct(w, 32),
            l.register_x == l.terminal.spec_right() + 3,
            l.pastry_case == rect(sat_sub(w, (min16(14, w / 5) + 2) as u16), sat_sub(counter_row(h),
                min16(8, sat_sub(counter_row(h), 2))), min16(14, w / 5), min16(8, sat_sub(counter_row(h), 2))),
            l.plant_left == rect(1, sat_sub(counter_row(h), 5), 9, 5),
            l.plant_right == rect(pct(w, 78), sat_sub(counter_row(h), 3), 6, 3),
            l.cat_rows == 4,
            l.cat_cols == 8,
            l.black_cat_range == (pct(w, 12), pct(w, 40)),
            l.white_cat_x == sat_sub(l.terminal.x, 10),
            l.stool_y == counter_row(h) + sat_sub(floor_row(h), counter_row(h)) / 2 + 1,
    {
        let counter_y = (h as u32 * 3 / 5) as u16;
        let floor_y = (h as u32 * 17 / 20) as u16;

        let neon_face = Rect::new(pct_of(w, 3), 2, 10, 5);
        let neon_text_y = neon_face.bottom() + 1;

        let shelf_x0 = pct_of(w, 15);
        let p32 = pct_of(w, 32);
        let shelf_x1 = if p32 > shelf_x0 + 8 { p32 } else { shelf_x0 + 8 };
        let shelf_rows = [(counter_y as u32 * 30 / 100) as u16, (counter_y as u32 * 60 / 100) as u16];

        let menu_w: u16 = 19;
        let cs4 = counter_y.saturating_sub(4);
        let menu_h: u16 = if 11 < cs4 { 11 } else { cs4 };
        let menu = Rect::new(pct_of(w, 40).saturating_sub(menu_w / 2), 2, menu_w, menu_h);

        let win_x0 = pct_of(w, 56);
        let win_x1 = pct_of(w, 78);
        let window = Rect::new(win_x0, 2, win_x1.saturating_sub(win_x0), counter_y.saturating_sub(5));

        let terminal_w: u16 = if 24 < w / 3 { 24 } else { w / 3 };
        let terminal_h: u16 = if 7 < counter_y / 2 { 7 } else { counter_y / 2 };
        let terminal = Rect::new(pct_of(w, 48), counter_y.saturating_sub(terminal_h), terminal_w, terminal_h);

        let case_w: u16 = if 14 < w / 5 { 14 } else { w / 5 };
        let cs2 = counter_y.saturating_sub(2);
        let case_h: u16 = if 8 < cs2 { 8 } else { cs2 };
        let pastry_case = Rect::new(w.saturating_sub(case_w + 2), counter_y.saturating_sub(case_h), case_w, case_h);

        let cat_rows: u16 = 4;
        let cat_cols: u16 = 8;
        let plant_left = Rect::new(1, counter_y.saturating_sub(5), 9, 5);
        let plant_right = Rect::new(pct_of(w, 78), counter_y.saturating_sub(3), 6, 3);
        let terminal_right = terminal.right();
        assert(terminal_right <= 65535 * 48 / 100 + 24);

        Layout {
            w,
            h,
            counter_y,
            floor_y,
            neon_face,
            neon_text_y,
            shelf_x0,
            shelf_x1,
            shelf_rows,
            menu,
            window,
            lamp_x: pct_of(w, 88),
            terminal,
            mug_x: p32,
            register_x: terminal_right + 3,
            pastry_case,
            plant_left,
            plant_right,
            cat_rows,
            cat_cols,
            black_cat_range: (pct_of(w, 12), pct_of(w, 40)),
            white_cat_x: terminal.left().saturating_sub(cat_cols + 2),
            stool_y: counter_y + (floor_y.saturating_sub(counter_y)) / 2 + 1,
        }
    }

    /// Left edges of the bar stools: the width split evenly into six, the
    /// stools standing at the five inner division points.
    pub fn stool_xs(&self) -> (r: Vec<u16>)
        ensures
            r@.len() == STOOL_COUNT,
            forall|i: int| 0 <= i < STOOL_COUNT ==> #[trigger] r@[i] == (self.w * (i + 1) / 6) as u16,
    {
        let mut r: Vec<u16> = Vec::new();
        let mut i: u16 = 1;
        while i <= STOOL_COUNT
            invariant
                1 <= i <= STOOL_COUNT + 1,
                r@.len() == i - 1,
                forall|k: int| 0 <= k < i - 1 ==> #[trigger] r@[k] == (self.w * (k + 1) / 6) as u16,
            decreases STOOL_COUNT + 1 - i,
        {
            assert(self.w as u32 * i as u32 <= 65535 * 5) by (nonlinear_arith)
                requires
                    self.w <= 65535,
                    i <= 5,
            ;
            r.push((self.w as u32 * i as u32 / (STOOL_COUNT as u32 + 1)) as u16);
            i = i + 1;
        }
        r
    }
}

/// The counter top lies above the floor line, and both lie on the screen
/// (or at its bottom edge when the height is zero).
pub proof fn lemma_rows_ordered(h: u16)
    ensures
        counter_row(h) <= floor_row(h) <= h,
{
}

} // verus!
