//! City scene layers that depend on integers only: the background fill, the
//! tiny-terminal fallback, the street lamps and the rooftop time megaboard.

use vstd::prelude::*;
use crate::buffer::{Buffer, Cell, Grid, put_bg_box, put_fn, put_glyph, put_text, lemma_put_fn_cell,
    lemma_put_fn_row, lemma_put_fn_empty};
use crate::layout::{Rect, sat_sub};
use crate::scenes::city::buildings::BuildingInfo;
use crate::scenes::city::clock::{SimpleTime, date_text, format_date, format_time, time_text};
use crate::scenes::city::utils::{safe_set_string, safe_set_symbol};
use crate::style::Color;
use crate::theme::Theme;

verus! {

/// Paints the background color of every cell of `area` (symbols and
/// foregrounds are kept).
pub fn render_background(buf: &mut Buffer, area: Rect, bg: Color)
    requires
        old(buf).wf(),
    ensures
        final(buf).wf(),
        final(buf).same_size(&*old(buf)),
        final(buf)@ == put_bg_box(old(buf)@, area.x as int, area.y as int, area.spec_right() as int,
            area.spec_bottom() as int, bg),
{
    let ghost g0 = buf@;
    let ghost f = bg_fn(g0, bg);
    let top = area.top();
    let bottom = area.bottom();
    let left = area.left();
    let right = area.right();
    let mut y = top;
    while y < bottom
        invariant
            buf.wf(),
            buf.same_size(&*old(buf)),
            g0 == old(buf)@,
            f == bg_fn(g0, bg),
            y == top || y <= bottom,
            top <= y,
            buf@ == put_fn(g0, left as int, top as int, right as int, y as int, f),
        decreases bottom - y,
    {
        let ghost a = put_fn(g0, left as int, top as int, right as int, y as int, f);
        proof {
            lemma_put_fn_empty(a, left as int, y as int, left as int, y + 1, f);
        }
        let mut x = left;
        while x < right
            invariant
                buf.wf(),
                buf.same_size(&*old(buf)),
                g0 == old(buf)@,
                f == bg_fn(g0, bg),
                top <= y < bottom,
                x == left || x <= right,
                left <= x,
                a == put_fn(g0, left as int, top as int, right as int, y as int, f),
                buf@ == put_fn(a, left as int, y as int, x as int, y + 1, f),
            decreases right - x,
        {
            if x < buf.width && y < buf.height {
                let c = buf.get(x, y);
                proof {
                    lemma_put_fn_cell(a, left as int, y as int, x as int, f);
                    assert(a[(x as int, y as int)] == g0[(x as int, y as int)]);
                }
                buf.set(x, y, Cell { bg, ..c });
            } else {
                proof {
                    assert(put_fn(a, left as int, y as int, x as int, y + 1, f) =~= put_fn(a, left as int, y as int, x + 1, y + 1, f));
                }
            }
            x = x + 1;
        }
        proof {
            if left < right {
                lemma_put_fn_row(g0, left as int, top as int, right as int, y as int, f);
            } else {
                lemma_put_fn_empty(a, left as int, y as int, x as int, y + 1, f);
                assert(put_fn(g0, left as int, top as int, right as int, y + 1, f) =~= put_fn(g0, left as int, top as int, right as int, y as int, f));
            }
        }
        y = y + 1;
    }
    proof {
        assert(put_fn(g0, left as int, top as int, right as int, bottom as int, f) =~= put_bg_box(g0, left as int, top as int, right as int, bottom as int, bg));
    }
}

/// A cell of `g` with its background replaced by `bg`.
spec fn bg_fn(g: Grid, bg: Color) -> spec_fn(int, int) -> Cell {
    |x: int, y: int| Cell { bg, ..g[(x, y)] }
}

/// The tiny-terminal fallback: a single diamond at the center of the area,
/// blinking between the main neon color and grey every 10 frames.
pub open spec fn mini_spec(g: Grid, area: Rect, theme: Theme, frame: u64) -> Grid {
    let color = if frame % 20 < 10 { theme.neon_main } else { Color::Rgb(60, 60, 60) };
    put_glyph(g, area.x + area.width / 2, area.y + area.height / 2, '◆', color)
}

/// Draws the tiny-terminal fallback.
pub fn render_mini(buf: &mut Buffer, area: Rect, theme: &Theme, frame: u64)
    requires
        old(buf).wf(),
        area.x + area.width <= u16::MAX,
        area.y + area.height <= u16::MAX,
    ensures
        final(buf).wf(),
        final(buf).same_size(&*old(buf)),
        final(buf)@ == mini_spec(old(buf)@, area, *theme, frame),
{
    let cx = area.x + area.width / 2;
    let cy = area.y + area.height / 2;
    let color = if frame % 20 < 10 { theme.neon_main } else { Color::Rgb(60, 60, 60) };
    safe_set_symbol(buf, cx, cy, '◆', color);
}

/// Whether column `x` falls within one of the buildings.
pub open spec fn inside_building(bs: Seq<BuildingInfo>, x: int) -> bool {
    exists|j: int| 0 <= j < bs.len() && (#[trigger] bs[j]).x_offset <= x < bs[j].x_offset + bs[j].width
}

/// `g` with a street lamp at column `x_lamp` of the area, unless a building
/// stands there: a three-row post in the ground color and an `(O)` bulb that
/// dims for 2 frames in 40.
pub open spec fn lamp_spec(g: Grid, area: Rect, bs: Seq<BuildingInfo>, theme: Theme, frame: u64, x_lamp: int) -> Grid {
    if inside_building(bs, x_lamp) {
        g
    } else {
        let lx = area.x + x_lamp;
        let gy = area.y + area.height - 3;
        let bulb = if (frame + lx) % 40 < 2 { theme.street_lamp_dim } else { theme.street_lamp_lit };
        let g1 = put_glyph(g, lx, gy, '┃', theme.ground);
        let g2 = put_glyph(g1, lx, sat_sub(gy as u16, 1) as int, '┃', theme.ground);
        let g3 = put_glyph(g2, lx, sat_sub(gy as u16, 2) as int, '┃', theme.ground);
        put_text(g3, sat_sub(lx as u16, 1), sat_sub(gy as u16, 3) as int, "(O)"@, bulb, None)
    }
}

/// `g` with the street lamps at columns 5, 15, 25, ... of the area up to
/// (not including) the `n`-th.
pub open spec fn lamps_spec(g: Grid, area: Rect, bs: Seq<BuildingInfo>, theme: Theme, frame: u64, n: nat) -> Grid
    decreases n,
{
    if n == 0 {
        g
    } else {
        lamp_spec(lamps_spec(g, area, bs, theme, frame, (n - 1) as nat), area, bs, theme, frame, 5 + 10 * (n - 1))
    }
}

/// Number of street lamp slots in the area.
pub open spec fn lamp_count(area: Rect) -> nat {
    if area.width <= 5 { 0 } else { ((area.width - 5 + 9) / 10) as nat }
}

/// Whether column `x` falls within one of the buildings.
fn inside_any(buildings: &Vec<BuildingInfo>, x: u16) -> (r: bool)
    requires
        forall|j: int| 0 <= j < buildings@.len() ==> (#[trigger] buildings@[j]).x_offset + buildings@[j].width <= u16::MAX,
    ensures
        r == inside_building(buildings@, x as int),
{
    let mut j: usize = 0;
    while j < buildings.len()
        invariant
            j <= buildings@.len(),
            forall|k: int| 0 <= k < buildings@.len() ==> (#[trigger] buildings@[k]).x_offset + buildings@[k].width <= u16::MAX,
            forall|k: int| 0 <= k < j ==> !((#[trigger] buildings@[k]).x_offset <= x < buildings@[k].x_offset + buildings@[k].width),
        decreases buildings@.len() - j,
    {
        if buildings[j].contains_x(x) {
            return true;
        }
        j = j + 1;
    }
    false
}

/// Draws the street lamps: one every 10 columns from column 5, skipping
/// those in front of a building.
pub fn render_street_lamps(buf: &mut Buffer, area: Rect, buildings: &Vec<BuildingInfo>, theme: &Theme, frame: u64)
    requires
        old(buf).wf(),
        area.x + area.width <= u16::MAX,
        area.height >= 3,
        area.y + area.height <= u16::MAX,
        frame + area.x + area.width <= u64::MAX,
        forall|j: int| 0 <= j < buildings@.len() ==> (#[trigger] buildings@[j]).x_offset + buildings@[j].width <= u16::MAX,
    ensures
        final(buf).wf(),
        final(buf).same_size(&*old(buf)),
        final(buf)@ == lamps_spec(old(buf)@, area, buildings@, *theme, frame, lamp_count(area)),
{
    let mut x_lamp: u32 = 5;
    let mut k: usize = 0;
    while x_lamp < area.width as u32
        invariant
            buf.wf(),
            buf.same_size(&*old(buf)),
            x_lamp == 5 + 10 * k,
            area.x + area.width <= u16::MAX,
            area.height >= 3,
            area.y + area.height <= u16::MAX,
            frame + area.x + area.width <= u64::MAX,
            forall|j: int| 0 <= j < buildings@.len() ==> (#[trigger] buildings@[j]).x_offset + buildings@[j].width <= u16::MAX,
            x_lamp < area.width ==> k < lamp_count(area),
            x_lamp >= area.width ==> k == lamp_count(area),
            buf@ == lamps_spec(old(buf)@, area, buildings@, *theme, frame, k as nat),
        decreases lamp_count(area) - k,
    {
        let xl = x_lamp as u16;
        if !inside_any(buildings, xl) {
            let lx = area.x + xl;
            let ground_y = area.y + area.height - 3;
            let bulb_c = if (frame + lx as u64) % 40 < 2 { theme.street_lamp_dim } else { theme.street_lamp_lit };
            safe_set_symbol(buf, lx, ground_y, '┃', theme.ground);
            safe_set_symbol(buf, lx, ground_y.saturating_sub(1), '┃', theme.ground);
            safe_set_symbol(buf, lx, ground_y.saturating_sub(2), '┃', theme.ground);
            safe_set_string(buf, lx.saturating_sub(1), ground_y.saturating_sub(3), "(O)", bulb_c);
        }
        x_lamp = x_lamp + 10;
        k = k + 1;
    }
}

/// The first building of `bs` standing in slot `i`.
pub open spec fn first_in_slot(bs: Seq<BuildingInfo>, i: usize) -> Option<BuildingInfo>
    decreases bs.len(),
{
    if bs.len() == 0 {
        None
    } else if bs[0].index == i {
        Some(bs[0])
    } else {
        first_in_slot(bs.skip(1), i)
    }
}

/// `g` with a horizontal run of `ch` in `fg` over the existing backgrounds,
/// on row `y` from column `x0` to before `x1`.
pub open spec fn put_hline(g: Grid, x0: int, x1: int, y: int, ch: char, fg: Color) -> Grid {
    put_fn(g, x0, y, x1, y + 1, hline_fn(g, ch, fg))
}

/// A cell of `g` overwritten by `ch` in `fg`, keeping its background.
pub open spec fn hline_fn(g: Grid, ch: char, fg: Color) -> spec_fn(int, int) -> Cell {
    |x: int, y: int| Cell { symbol: ch, fg, bg: g[(x, y)].bg }
}

/// `g` with the time megaboard drawn on the roof of the building in slot 3
/// (column 60 of the area): two struts, a 26 x 5 frame with corner marks,
/// `TIME HH:MM:SS` (the neon color switching every 30 frames, the colons
/// blinking) and `DATE MM/DD/YYYY`. Without a building in slot 3 nothing is
/// drawn.
pub open spec fn megaboard_spec(
    g: Grid,
    area: Rect,
    bs: Seq<BuildingInfo>,
    theme: Theme,
    frame: u64,
    now: SimpleTime,
    strut_bright: bool,
) -> Grid {
    match first_in_slot(bs, 3) {
        None => g,
        Some(b3) => {
            let gray = Color::Rgb(170, 170, 170);
            let dark = Color::Rgb(85, 85, 85);
            let mb_x: int = area.x + 60;
            let mb_y: int = sat_sub(sat_sub(area.height, 3), b3.height) as int;
            let strut = if strut_bright { gray } else { dark };
            let board_y: int = sat_sub(mb_y as u16, 6) as int;
            let g1 = put_glyph(g, mb_x + 4, sat_sub(mb_y as u16, 1) as int, '╨', strut);
            let g2 = put_glyph(g1, mb_x + 20, sat_sub(mb_y as u16, 1) as int, '╨', strut);
            let g3 = put_hline(g2, mb_x, mb_x + 26, board_y + 4, '─', dark);
            let g4 = put_glyph(g3, mb_x, board_y, '⌜', gray);
            let g5 = put_glyph(g4, mb_x + 25, board_y, '⌝', gray);
            let g6 = put_glyph(g5, mb_x, board_y + 4, '⌞', gray);
            let g7 = put_glyph(g6, mb_x + 25, board_y + 4, '⌟', gray);
            let g8 = put_text(g7, (mb_x + 2) as u16, board_y + 1, "TIME"@, gray, None);
            let time_color = if (frame / 30) % 2 == 0 { theme.neon_main } else { theme.neon_sub1 };
            let g9 = put_text(g8, (mb_x + 7) as u16, board_y + 1, time_text(now), time_color, None);
            let g10 = if frame % 30 < 15 {
                put_glyph(put_glyph(g9, mb_x + 9, board_y + 1, ':', time_color), mb_x + 12, board_y + 1, ':', time_color)
            } else {
                g9
            };
            let g11 = put_text(g10, (mb_x + 2) as u16, board_y + 3, "DATE"@, gray, None);
            put_text(g11, (mb_x + 7) as u16, board_y + 3, date_text(now), Color::White, None)
        },
    }
}

/// The first building standing in slot `i`.
fn find_slot(buildings: &Vec<BuildingInfo>, i: usize) -> (r: Option<BuildingInfo>)
    ensures
        r == first_in_slot(buildings@, i),
{
    let mut j: usize = 0;
    assert(buildings@.skip(0) =~= buildings@);
    while j < buildings.len()
        invariant
            j <= buildings@.len(),
            first_in_slot(buildings@, i) == first_in_slot(buildings@.skip(j as int), i),
        decreases buildings@.len() - j,
    {
        proof {
            let s = buildings@.skip(j as int);
            assert(s[0] == buildings@[j as int]);
            assert(s.skip(1) =~= buildings@.skip(j + 1));
        }
        if buildings[j].index == i {
            return Some(buildings[j]);
        }
        j = j + 1;
    }
    None
}

/// Draws a horizontal run of `ch` in `fg` over the existing backgrounds.
fn draw_hline(buf: &mut Buffer, x0: u16, x1: u16, y: u16, ch: char, fg: Color)
    requires
        old(buf).wf(),
    ensures
        final(buf).wf(),
        final(buf).same_size(&*old(buf)),
        final(buf)@ == put_hline(old(buf)@, x0 as int, x1 as int, y as int, ch, fg),
{
    let ghost g0 = buf@;
    let ghost f = hline_fn(g0, ch, fg);
    proof {
        lemma_put_fn_empty(g0, x0 as int, y as int, x0 as int, y + 1, f);
    }
    let mut x = x0;
    while x < x1
        invariant
            buf.wf(),
            buf.same_size(&*old(buf)),
            g0 == old(buf)@,
            f == hline_fn(g0, ch, fg),
            x == x0 || x <= x1,
            x0 <= x,
            buf@ == put_fn(g0, x0 as int, y as int, x as int, y + 1, f),
        decreases x1 - x,
    {
        proof {
            lemma_put_fn_cell(g0, x0 as int, y as int, x as int, f);
            if buf@.dom().contains((x as int, y as int)) {
                assert(buf@[(x as int, y as int)] == g0[(x as int, y as int)]);
            }
        }
        safe_set_symbol(buf, x, y, ch, fg);
        x = x + 1;
    }
    proof {
        if x1 < x0 {
            lemma_put_fn_empty(g0, x0 as int, y as int, x1 as int, y + 1, f);
        }
    }
}

/// Draws the time megaboard on the roof of the building in slot 3.
/// `strut_bright` is the current phase of the struts' slow pulse.
pub fn render_time_megaboard(
    buf: &mut Buffer,
    area: Rect,
    buildings: &Vec<BuildingInfo>,
    theme: &Theme,
    frame: u64,
    now: &SimpleTime,
    strut_bright: bool,
)
    requires
        old(buf).wf(),
        area.x + 86 <= u16::MAX,
        now.year >= 0,
    ensures
        final(buf).wf(),
        final(buf).same_size(&*old(buf)),
        final(buf)@ == megaboard_spec(old(buf)@, area, buildings@, *theme, frame, *now, strut_bright),
{
    let ground_y = area.height.saturating_sub(3);
    match find_slot(buildings, 3) {
        None => {},
        Some(b3) => {
            let mb_x = area.x + 60;
            let mb_y = ground_y.saturating_sub(b3.height);
            let time_str = format_time(now);
            let date_str = format_date(now);
            let width: u16 = 26;
            let height: u16 = 5;
            let gray = Color::Rgb(170, 170, 170);
            let dark = Color::Rgb(85, 85, 85);
            let strut_color = if strut_bright { gray } else { dark };
            safe_set_symbol(buf, mb_x + 4, mb_y.saturating_sub(1), '╨', strut_color);
            safe_set_symbol(buf, mb_x + 20, mb_y.saturating_sub(1), '╨', strut_color);
            let board_y = mb_y.saturating_sub(6);
            draw_hline(buf, mb_x, mb_x + width, board_y + height - 1, '─', dark);
            safe_set_symbol(buf, mb_x, board_y, '⌜', gray);
            safe_set_symbol(buf, mb_x + width - 1, board_y, '⌝', gray);
            safe_set_symbol(buf, mb_x, board_y + height - 1, '⌞', gray);
            safe_set_symbol(buf, mb_x + width - 1, board_y + height - 1, '⌟', gray);
            safe_set_string(buf, mb_x + 2, board_y + 1, "TIME", gray);
            let time_color = if (frame / 30) % 2 == 0 { theme.neon_main } else { theme.neon_sub1 };
            safe_set_string(buf, mb_x + 7, board_y + 1, time_str.as_str(), time_color);
            if frame % 30 < 15 {
                safe_set_symbol(buf, mb_x + 9, board_y + 1, ':', time_color);
                safe_set_symbol(buf, mb_x + 12, board_y + 1, ':', time_color);
            }
            safe_set_string(buf, mb_x + 2, board_y + 3, "DATE", gray);
            safe_set_string(buf, mb_x + 7, board_y + 3, date_str.as_str(), Color::White);
        },
    }
}

} // verus!
