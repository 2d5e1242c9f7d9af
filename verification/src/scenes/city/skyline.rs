//! The city skyline: dark background silhouettes, the foreground buildings
//! with their windows, doors, the monolith's distro logo, vertical neon
//! signs and rooftop antennas.

use vstd::prelude::*;
use crate::buffer::{Buffer, Cell, Grid, put_box, put_fn, put_glyph, lemma_put_fn_cell,
    lemma_put_fn_row, lemma_put_fn_empty};
use crate::layout::{Rect, sat_add, sat_sub};
use crate::random::{SeededRng, seeded_chance, seeded_draw, seeded_ratio, gen_range_i32, gen_range_u16};
use crate::scenes::city::buildings::{BuildingInfo, draw_neon_sign, neon_sign_spec};
use crate::scenes::city::logos::DistroLogo;
use crate::scenes::city::utils::{darken_color, darken_spec, safe_set_symbol, safe_set_symbol_with_bg,
    safe_set_char_with_bg};
use crate::style::Color;
use crate::theme::Theme;

verus! {

/// The row (relative to the area) the buildings stand on.
pub open spec fn ground_rel(area: Rect) -> u16 {
    sat_sub(area.height, 3)
}

/// Number of background silhouettes: one every 15 columns.
pub open spec fn silhouette_count(area: Rect) -> nat {
    ((area.width + 14) / 15) as nat
}

/// Whether `sizes` are admissible `(width, height)` draws for the background
/// silhouettes: widths 6 to 14, heights from a fifth to below half the area.
pub open spec fn valid_silhouette_sizes(area: Rect, sizes: Seq<(u16, u16)>) -> bool {
    &&& sizes.len() == silhouette_count(area)
    &&& forall|k: int| 0 <= k < sizes.len() ==> {
        &&& 6 <= (#[trigger] sizes[k]).0 < 15
        &&& area.height / 5 <= sizes[k].1 < area.height / 2
    }
}

/// The seed of the generator the background silhouettes are drawn from.
pub const SILHOUETTE_SEED: u64 = 12345;

/// The draws made for the first `k` silhouettes of an area `height` rows
/// high: per silhouette a width from `6..15` (`i32`), then a height from
/// `height / 5 .. height / 2` (`u16`).
pub open spec fn silhouette_history(height: u16, k: nat) -> Seq<(bool, int, int)>
    decreases k,
{
    if k == 0 {
        Seq::empty()
    } else {
        silhouette_history(height, (k - 1) as nat).push((false, 6, 15)).push(
            (true, (height / 5) as int, (height / 2) as int),
        )
    }
}

/// The sizes of the first `k` silhouettes drawn from a generator seeded
/// with `SILHOUETTE_SEED`, in the order of `silhouette_history`.
pub open spec fn seeded_sizes(height: u16, k: nat) -> Seq<(u16, u16)>
    decreases k,
{
    if k == 0 {
        Seq::empty()
    } else {
        let before = silhouette_history(height, (k - 1) as nat);
        let w = seeded_draw(SILHOUETTE_SEED, before, false, 6, 15);
        let h = seeded_draw(SILHOUETTE_SEED, before.push((false, 6, 15)), true, (height / 5) as int,
            (height / 2) as int);
        seeded_sizes(height, (k - 1) as nat).push((w as u16, h as u16))
    }
}

/// The background silhouettes' sizes of `area`: one per 15 columns.
pub open spec fn seeded_silhouettes(area: Rect) -> Seq<(u16, u16)> {
    seeded_sizes(area.height, silhouette_count(area))
}

/// The background silhouettes: for the `k`-th size `(w, h)`, a block of
/// `w` x `h` blank cells over `color`, starting at column `area.x + 15 k`
/// and standing on the ground row, clipped to the area.
pub open spec fn silhouettes_spec(g: Grid, area: Rect, sizes: Seq<(u16, u16)>, color: Color) -> Grid
    decreases sizes.len(),
{
    if sizes.len() == 0 {
        g
    } else {
        let k = sizes.len() - 1;
        let g1 = silhouettes_spec(g, area, sizes.drop_last(), color);
        let sx: int = if area.x + 15 * k > u16::MAX { u16::MAX as int } else { area.x + 15 * k };
        let sy: int = sat_sub(ground_rel(area), sizes.last().1) as int;
        let x1: int = if sx + sizes.last().0 < area.x + area.width { sx + sizes.last().0 } else { area.x + area.width };
        let y1: int = if sy + sizes.last().1 < area.y + area.height { sy + sizes.last().1 } else { area.y + area.height };
        put_box(g1, sx, sy, x1, y1, Cell { symbol: ' ', fg: Color::Reset, bg: color })
    }
}

/// Whether any logo pixel lies in the 3 x 3 neighbourhood of `(x, y)`.
pub open spec fn near_logo(logo: DistroLogo, x: int, y: int) -> bool {
    ||| logo.pixel(x - 1, y - 1) is Some
    ||| logo.pixel(x, y - 1) is Some
    ||| logo.pixel(x + 1, y - 1) is Some
    ||| logo.pixel(x - 1, y) is Some
    ||| logo.pixel(x, y) is Some
    ||| logo.pixel(x + 1, y) is Some
    ||| logo.pixel(x - 1, y + 1) is Some
    ||| logo.pixel(x, y + 1) is Some
    ||| logo.pixel(x + 1, y + 1) is Some
}

/// The seed deciding whether the window at screen cell `(dx, dy)` is lit.
pub open spec fn window_seed_of(dx: u16, dy: u16, window_seed: u64) -> u64 {
    (dx as u64).wrapping_mul(100).wrapping_add(dy as u64).wrapping_add(window_seed)
}

/// The cell of a building facade at `(x_rel, y_rel)` inside the building
/// (screen cell `(dx, dy)`): side edges, a window on every third row (40% of
/// them lit, decided by the window's seed), the door and its status light,
/// and on the monolith (slot 1) the distro logo.
pub open spec fn building_cell(
    i: usize,
    bw: u16,
    bh: u16,
    x_rel: u16,
    y_rel: u16,
    dx: u16,
    dy: u16,
    logo: DistroLogo,
    theme: Theme,
    frame: u64,
    window_seed: u64,
) -> Cell {
    let base = theme.building_base_colors@[1];
    let in_logo_area = i == 1 && y_rel < 20 && x_rel < 32;
    let lp = logo.pixel(x_rel as int, y_rel as int);
    if in_logo_area && lp is Some {
        let px = lp->Some_0;
        Cell {
            symbol: px.ch,
            fg: match theme.logo_override {
                Some(c) => c,
                None => px.color,
            },
            bg: if px.bg == Color::Reset { base } else { px.bg },
        }
    } else if in_logo_area && !logo.is_compact && x_rel > 4 && x_rel < 28 {
        Cell { symbol: ' ', fg: base, bg: base }
    } else {
        let edge = x_rel == 0 || x_rel == sat_sub(bw, 1);
        let has_sign = i % 2 == 1 && bh > 12;
        let is_win_row = y_rel > 2 && y_rel < sat_sub(bh, 4) && y_rel % 3 == 0;
        let clearance = if has_sign { sat_sub(bw, 2) } else { sat_sub(bw, 1) };
        let near = i == 1 && near_logo(logo, x_rel as int, y_rel as int);
        let door_x = bw / 2;
        let door_cols = x_rel >= sat_sub(door_x, 1) && x_rel <= door_x + 1;
        let door_rows = y_rel >= sat_sub(bh, 3);
        let window = !near && is_win_row && x_rel > 0 && x_rel < clearance
            && dx.wrapping_add(dy) % 4 == 0 && !(door_rows && door_cols);
        let lamp = door_rows && x_rel == door_x + 2 && y_rel == sat_sub(bh, 2);
        let symbol = if lamp {
            '·'
        } else if door_rows && door_cols {
            if y_rel == sat_sub(bh, 3) { '━' } else { '░' }
        } else if window {
            '▄'
        } else if edge {
            '┃'
        } else {
            ' '
        };
        let fg = if lamp {
            if frame % 20 < 10 { Color::Red } else { Color::Green }
        } else if door_rows && door_cols {
            if y_rel == sat_sub(bh, 3) {
                if i % 2 == 0 { theme.neon_sub1 } else { theme.neon_main }
            } else {
                theme.window_unlit
            }
        } else if window {
            if seeded_chance(window_seed_of(dx, dy, window_seed), 2, 5) { theme.window_lit } else { theme.window_unlit }
        } else if edge {
            Color::Rgb(30, 30, 50)
        } else {
            base
        };
        Cell { symbol, fg, bg: if window { theme.window_dark } else { base } }
    }
}

/// First column of a building on screen.
pub open spec fn building_x(area: Rect, b: BuildingInfo) -> u16 {
    sat_add(area.x, b.x_offset)
}

/// First row of a building on screen.
pub open spec fn building_y(area: Rect, b: BuildingInfo) -> u16 {
    sat_sub(ground_rel(area), b.height)
}

/// The facade cells of `b`, by screen position.
pub open spec fn body_fn(area: Rect, b: BuildingInfo, logo: DistroLogo, theme: Theme, frame: u64, window_seed: u64) -> spec_fn(int, int) -> Cell {
    let sx = building_x(area, b) as int;
    let sy = building_y(area, b) as int;
    |x: int, y: int| building_cell(b.index, b.width, b.height, (x - sx) as u16, (y - sy) as u16, x as u16,
        y as u16, logo, theme, frame, window_seed)
}

/// Column just past the visible part of `b`.
pub open spec fn body_x1(area: Rect, b: BuildingInfo) -> int {
    let sx = building_x(area, b) as int;
    if sx + b.width < area.x + area.width { sx + b.width } else { area.x + area.width }
}

/// Row just past the visible part of `b`.
pub open spec fn body_y1(area: Rect, b: BuildingInfo) -> int {
    let sy = building_y(area, b) as int;
    if sy + b.height < area.y + area.height { sy + b.height } else { area.y + area.height }
}

/// `g` with the facade of `b` painted, clipped to the area.
pub open spec fn body_spec(g: Grid, area: Rect, b: BuildingInfo, logo: DistroLogo, theme: Theme, frame: u64, window_seed: u64) -> Grid {
    put_fn(g, building_x(area, b) as int, building_y(area, b) as int, body_x1(area, b), body_y1(area, b),
        body_fn(area, b, logo, theme, frame, window_seed))
}

/// The phrases the smaller signs cycle through.
pub open spec fn phrase(k: int) -> Seq<char> {
    if k == 0 { "METROCITY"@ }
    else if k == 1 { "NEO TOKYO"@ }
    else if k == 2 { "CYBERCORP"@ }
    else if k == 3 { "GRID//LINK"@ }
    else if k == 4 { "SYNTH-WAVE"@ }
    else if k == 5 { "DATASTREAM"@ }
    else if k == 6 { "NETRUNNER"@ }
    else { "GRID_RUN"@ }
}

/// Whether building `b` carries a vertical sign (odd slots taller than 12).
pub open spec fn has_sign(b: BuildingInfo) -> bool {
    b.index % 2 == 1 && b.height > 12
}

/// The phrase shown in frame `frame` on the sign of the building in slot
/// `i`: the phrases advance every 120 frames.
pub open spec fn phrase_index(i: usize, frame: u64) -> int {
    ((i / 2).wrapping_add(frame as usize / 120) % 8) as int
}

/// Sign color of the building in slot `i`.
pub open spec fn sign_color(i: usize, theme: Theme) -> Color {
    if i == 1 {
        theme.neon_main
    } else if (i / 2) % 3 == 0 {
        theme.neon_sub1
    } else if (i / 2) % 3 == 1 {
        theme.neon_sub2
    } else {
        theme.neon_sub3
    }
}

/// `g` with the sign of `b` (the monolith shows `sign_text`, the others a
/// cycling phrase) running down its right edge from five rows below its top.
pub open spec fn sign_spec(g: Grid, area: Rect, b: BuildingInfo, theme: Theme, frame: u64, sign_text: Seq<char>) -> Grid {
    if has_sign(b) {
        let text = if b.index == 1 { sign_text } else { phrase(phrase_index(b.index, frame)) };
        neon_sign_spec(g, (building_x(area, b) + sat_sub(b.width, 1)) as u16, sat_add(building_y(area, b), 5),
            text, sign_color(b.index, theme), frame)
    } else {
        g
    }
}

/// `g` with the antenna of `b` (none on slots 1 and 3) on the row above its
/// roof, two columns in: a mast with a blinking beacon, a dish or a stub.
pub open spec fn antenna_spec(g: Grid, area: Rect, b: BuildingInfo, frame: u64) -> Grid {
    let i = b.index;
    let ax = sat_add(building_x(area, b), 2) as int;
    let ay = sat_add(area.y, sat_sub(building_y(area, b), 1)) as int;
    if i != 1 && i != 3 && g.dom().contains((ax, ay)) {
        if i % 3 == 0 {
            let g1 = put_glyph(g, ax, ay, '┷', Color::Rgb(60, 60, 80));
            if ay > area.y {
                let g2 = put_glyph(g1, ax, ay - 1, '┃', Color::Rgb(50, 50, 70));
                if ay > area.y + 1 {
                    put_glyph(g2, ax, ay - 2, '*', if frame % 30 < 15 { Color::Red } else { Color::Rgb(60, 0, 0) })
                } else {
                    g2
                }
            } else {
                g1
            }
        } else if i % 3 == 1 {
            put_glyph(g, ax, ay, '◆', Color::Rgb(100, 100, 120))
        } else {
            put_glyph(g, ax, ay, '▝', Color::Rgb(40, 40, 50))
        }
    } else {
        g
    }
}

/// `g` with the buildings of `bs` drawn one after the other: facade, then
/// sign, then antenna.
pub open spec fn buildings_drawn(
    g: Grid,
    area: Rect,
    bs: Seq<BuildingInfo>,
    logo: DistroLogo,
    theme: Theme,
    frame: u64,
    window_seed: u64,
    sign_text: Seq<char>,
) -> Grid
    decreases bs.len(),
{
    if bs.len() == 0 {
        g
    } else {
        let g1 = buildings_drawn(g, area, bs.drop_last(), logo, theme, frame, window_seed, sign_text);
        let b = bs.last();
        antenna_spec(sign_spec(body_spec(g1, area, b, logo, theme, frame, window_seed), area, b, theme, frame, sign_text),
            area, b, frame)
    }
}

/// What the skyline needs of its inputs to be drawn without overflow: the
/// area ends inside the `u16` range, every building's sign column exists,
/// and the logo covers its 20 x 32 area.
pub open spec fn skyline_ready(area: Rect, buildings: Seq<BuildingInfo>, logo: DistroLogo) -> bool {
    &&& area.x + area.width <= u16::MAX
    &&& area.y + area.height <= u16::MAX
    &&& (area.width == 0 || area.height >= 2)
    &&& logo.wf()
    &&& forall|j: int| 0 <= j < buildings.len() && has_sign(#[trigger] buildings[j]) ==>
        building_x(area, buildings[j]) + sat_sub(buildings[j].width, 1) <= u16::MAX
}

/// Whether the logo has a pixel at `(x, y)`.
fn logo_has(logo: &DistroLogo, x: i32, y: i32) -> (r: bool)
    requires
        logo.wf(),
    ensures
        r == (logo.pixel(x as int, y as int) is Some),
{
    if 0 <= x && x < 32 && 0 <= y && y < 20 {
        logo.pixel_at(x as usize, y as usize).is_some()
    } else {
        false
    }
}

/// Whether a logo pixel lies in the 3 x 3 neighbourhood of `(x, y)`.
fn near_logo_exec(logo: &DistroLogo, x: u16, y: u16) -> (r: bool)
    requires
        logo.wf(),
    ensures
        r == near_logo(*logo, x as int, y as int),
{
    let xi = x as i32;
    let yi = y as i32;
    let mut dy: i32 = -1;
    while dy <= 1
        invariant
            -1 <= dy <= 2,
            logo.wf(),
            xi == x,
            yi == y,
            forall|px: int, py: int| x - 1 <= px <= x + 1 && y - 1 <= py < y + dy ==> !(#[trigger] logo.pixel(px, py) is Some),
        decreases 2 - dy,
    {
        let mut dx: i32 = -1;
        while dx <= 1
            invariant
                -1 <= dx <= 2,
                -1 <= dy <= 1,
                logo.wf(),
                xi == x,
                yi == y,
                forall|px: int, py: int| x - 1 <= px <= x + 1 && y - 1 <= py < y + dy ==> !(#[trigger] logo.pixel(px, py) is Some),
                forall|px: int| x - 1 <= px < x + dx ==> !(#[trigger] logo.pixel(px, y + dy) is Some),
            decreases 2 - dx,
        {
            if logo_has(logo, xi + dx, yi + dy) {
                return true;
            }
            dx = dx + 1;
        }
        dy = dy + 1;
    }
    proof {
        assert(!(logo.pixel(x - 1, y - 1) is Some));
        assert(!(logo.pixel(x as int, y - 1) is Some));
        assert(!(logo.pixel(x + 1, y - 1) is Some));
        assert(!(logo.pixel(x - 1, y as int) is Some));
        assert(!(logo.pixel(x as int, y as int) is Some));
        assert(!(logo.pixel(x + 1, y as int) is Some));
        assert(!(logo.pixel(x - 1, y + 1) is Some));
        assert(!(logo.pixel(x as int, y + 1) is Some));
        assert(!(logo.pixel(x + 1, y + 1) is Some));
    }
    false
}

/// Computes `building_cell` for one facade cell.
fn building_cell_exec(
    b: &BuildingInfo,
    x_rel: u16,
    y_rel: u16,
    dx: u16,
    dy: u16,
    logo: &DistroLogo,
    theme: &Theme,
    frame: u64,
    window_seed: u64,
) -> (c: Cell)
    requires
        logo.wf(),
    ensures
        c == building_cell(b.index, b.width, b.height, x_rel, y_rel, dx, dy, *logo, *theme, frame, window_seed),
{
    let i = b.index;
    let bw = b.width;
    let bh = b.height;
    let base = theme.building_base_colors[1];
    if i == 1 && y_rel < 20 && x_rel < 32 {
        match logo.pixel_at(x_rel as usize, y_rel as usize) {
            Some(pixel) => {
                let logo_bg = if pixel.bg == Color::Reset { base } else { pixel.bg };
                let fg = match theme.logo_override {
                    Some(c) => c,
                    None => pixel.color,
                };
                return Cell { symbol: pixel.ch, fg, bg: logo_bg };
            },
            None => {
                if !logo.is_compact && x_rel > 4 && x_rel < 28 {
                    return Cell { symbol: ' ', fg: base, bg: base };
                }
            },
        }
    }
    let mut symbol = ' ';
    let mut fg = base;
    let mut bg = base;
    if x_rel == 0 || x_rel == bw.saturating_sub(1) {
        symbol = '┃';
        fg = Color::Rgb(30, 30, 50);
    }
    let has_sign = i % 2 == 1 && bh > 12;
    let is_win_row = y_rel > 2 && y_rel < bh.saturating_sub(4) && y_rel % 3 == 0;
    let x_clearance = if has_sign { bw.saturating_sub(2) } else { bw.saturating_sub(1) };
    let near = if i == 1 { near_logo_exec(logo, x_rel, y_rel) } else { false };
    if !near && is_win_row && x_rel > 0 && x_rel < x_clearance && (dx.wrapping_add(dy)) % 4 == 0 {
        let door_x = bw / 2;
        if !(y_rel >= bh.saturating_sub(3) && x_rel >= door_x.saturating_sub(1) && x_rel <= door_x + 1) {
            symbol = '▄';
            let seed = (dx as u64).wrapping_mul(100).wrapping_add(dy as u64).wrapping_add(window_seed);
            fg = if seeded_ratio(seed, 2, 5) { theme.window_lit } else { theme.window_unlit };
            bg = theme.window_dark;
        }
    }
    if y_rel >= bh.saturating_sub(3) {
        let door_x = bw / 2;
        if x_rel >= door_x.saturating_sub(1) && x_rel <= door_x + 1 {
            if y_rel == bh.saturating_sub(3) {
                symbol = '━';
                fg = if i % 2 == 0 { theme.neon_sub1 } else { theme.neon_main };
            } else {
                symbol = '░';
                fg = theme.window_unlit;
            }
        }
        if x_rel == door_x + 2 && y_rel == bh.saturating_sub(2) {
            symbol = '·';
            fg = if frame % 20 < 10 { Color::Red } else { Color::Green };
        }
    }
    Cell { symbol, fg, bg }
}

/// Paints the facade of one building.
fn draw_building_body(
    buf: &mut Buffer,
    area: Rect,
    b: &BuildingInfo,
    logo: &DistroLogo,
    theme: &Theme,
    frame: u64,
    window_seed: u64,
)
    requires
        old(buf).wf(),
        logo.wf(),
        area.x + area.width <= u16::MAX,
        area.y + area.height <= u16::MAX,
    ensures
        final(buf).wf(),
        final(buf).same_size(&*old(buf)),
        final(buf)@ == body_spec(old(buf)@, area, *b, *logo, *theme, frame, window_seed),
{
    let ghost g0 = buf@;
    let ghost f = body_fn(area, *b, *logo, *theme, frame, window_seed);
    let bw = b.width;
    let bh = b.height;
    let sx = area.x.saturating_add(b.x_offset);
    let ground_y = area.height.saturating_sub(3);
    let sy = ground_y.saturating_sub(bh);
    let right = area.x + area.width;
    let bottom = area.y + area.height;
    let ghost x1 = body_x1(area, *b);
    let ghost y1 = body_y1(area, *b);
    let mut y_rel: u16 = 0;
    while y_rel < bh
        invariant
            buf.wf(),
            buf.same_size(&*old(buf)),
            g0 == old(buf)@,
            logo.wf(),
            y_rel <= bh,
            sx == building_x(area, *b),
            sy == building_y(area, *b),
            right == area.x + area.width,
            bottom == area.y + area.height,
            bw == b.width,
            bh == b.height,
            x1 == body_x1(area, *b),
            y1 == body_y1(area, *b),
            f == body_fn(area, *b, *logo, *theme, frame, window_seed),
            buf@ == put_fn(g0, sx as int, sy as int, x1, if sy + y_rel < y1 { sy + y_rel } else { y1 }, f),
        decreases bh - y_rel,
    {
        let ghost row = sy + y_rel;
        let ghost ylim: int = if row < y1 { row } else { y1 };
        let ghost ynext: int = if row + 1 < y1 { row + 1 } else { y1 };
        let ghost a = put_fn(g0, sx as int, sy as int, x1, ylim, f);
        proof {
            lemma_put_fn_empty(a, sx as int, row, sx as int, ynext, f);
        }
        let mut x_rel: u16 = 0;
        while x_rel < bw
            invariant
                buf.wf(),
                buf.same_size(&*old(buf)),
                logo.wf(),
                x_rel <= bw,
                y_rel < bh,
                row == sy + y_rel,
                sx == building_x(area, *b),
                sy == building_y(area, *b),
                right == area.x + area.width,
                bottom == area.y + area.height,
                bw == b.width,
                bh == b.height,
                x1 == body_x1(area, *b),
                y1 == body_y1(area, *b),
                f == body_fn(area, *b, *logo, *theme, frame, window_seed),
                ynext == (if row + 1 < y1 { row + 1 } else { y1 }),
                buf@ == put_fn(a, sx as int, row, if sx + x_rel < x1 { sx + x_rel } else { x1 }, ynext, f),
            decreases bw - x_rel,
        {
            let dx = sx.saturating_add(x_rel);
            let dy = sy.saturating_add(y_rel);
            if dx < right && dy < bottom {
                let c = building_cell_exec(b, x_rel, y_rel, dx, dy, logo, theme, frame, window_seed);
                proof {
                    assert(c == f(dx as int, dy as int));
                    lemma_put_fn_cell(a, sx as int, row, dx as int, f);
                }
                safe_set_symbol_with_bg(buf, dx, dy, c.symbol, c.fg, c.bg);
            } else {
                proof {
                    if dy >= bottom {
                        lemma_put_fn_empty(a, sx as int, row, sx as int + x_rel + 1, ynext, f);
                        lemma_put_fn_empty(a, sx as int, row, sx as int + x_rel, ynext, f);
                    }
                }
            }
            proof {
                let xa: int = if sx + x_rel < x1 { sx + x_rel } else { x1 };
                let xb: int = if sx + x_rel + 1 < x1 { sx + x_rel + 1 } else { x1 };
                if dy < bottom && dx >= right {
                    assert(xa == xb);
                }
            }
            x_rel = x_rel + 1;
        }
        proof {
            if row < y1 {
                lemma_put_fn_row(g0, sx as int, sy as int, x1, row, f);
            } else {
                lemma_put_fn_empty(a, sx as int, row, x1, ynext, f);
            }
        }
        y_rel = y_rel + 1;
    }
}

/// The phrase with index `k`.
fn phrase_exec(k: usize) -> (s: &'static str)
    ensures
        s@ == phrase(k as int),
{
    if k == 0 { "METROCITY" }
    else if k == 1 { "NEO TOKYO" }
    else if k == 2 { "CYBERCORP" }
    else if k == 3 { "GRID//LINK" }
    else if k == 4 { "SYNTH-WAVE" }
    else if k == 5 { "DATASTREAM" }
    else if k == 6 { "NETRUNNER" }
    else { "GRID_RUN" }
}

/// Draws the sign of one building, if it has one.
fn draw_building_sign(
    buf: &mut Buffer,
    area: Rect,
    b: &BuildingInfo,
    theme: &Theme,
    frame: u64,
    sign_text: &str,
)
    requires
        old(buf).wf(),
        has_sign(*b) ==> building_x(area, *b) + sat_sub(b.width, 1) <= u16::MAX,
    ensures
        final(buf).wf(),
        final(buf).same_size(&*old(buf)),
        final(buf)@ == sign_spec(old(buf)@, area, *b, *theme, frame, sign_text@),
{
    let i = b.index;
    let bh = b.height;
    if i % 2 == 1 && bh > 12 {
        let sx = area.x.saturating_add(b.x_offset);
        let sy = area.height.saturating_sub(3).saturating_sub(bh);
        let sign_color = if i == 1 {
            theme.neon_main
        } else if (i / 2) % 3 == 0 {
            theme.neon_sub1
        } else if (i / 2) % 3 == 1 {
            theme.neon_sub2
        } else {
            theme.neon_sub3
        };
        let sign_y = sy.saturating_add(5);
        let sign_x = sx + b.width.saturating_sub(1);
        if i == 1 {
            draw_neon_sign(buf, sign_x, sign_y, sign_text, sign_color, frame);
        } else {
            let idx = ((i / 2).wrapping_add(frame as usize / 120)) % 8;
            draw_neon_sign(buf, sign_x, sign_y, phrase_exec(idx), sign_color, frame);
        }
    }
}

/// Draws the rooftop antenna of one building (none on slots 1 and 3).
fn draw_antenna(buf: &mut Buffer, area: Rect, b: &BuildingInfo, frame: u64)
    requires
        old(buf).wf(),
    ensures
        final(buf).wf(),
        final(buf).same_size(&*old(buf)),
        final(buf)@ == antenna_spec(old(buf)@, area, *b, frame),
{
    let i = b.index;
    if i != 1 && i != 3 {
        let sx = area.x.saturating_add(b.x_offset);
        let sy = area.height.saturating_sub(3).saturating_sub(b.height);
        let ant_x = sx.saturating_add(2);
        if ant_x < buf.width {
            let ant_y = area.y.saturating_add(sy.saturating_sub(1));
            if ant_y < buf.height {
                if i % 3 == 0 {
                    safe_set_symbol(buf, ant_x, ant_y, '┷', Color::Rgb(60, 60, 80));
                    if ant_y > area.y {
                        safe_set_symbol(buf, ant_x, ant_y - 1, '┃', Color::Rgb(50, 50, 70));
                        let beacon_color = if frame % 30 < 15 { Color::Red } else { Color::Rgb(60, 0, 0) };
                        if ant_y > area.y + 1 {
                            safe_set_symbol(buf, ant_x, ant_y - 2, '*', beacon_color);
                        }
                    }
                } else if i % 3 == 1 {
                    safe_set_symbol(buf, ant_x, ant_y, '◆', Color::Rgb(100, 100, 120));
                } else {
                    safe_set_symbol(buf, ant_x, ant_y, '▝', Color::Rgb(40, 40, 50));
                }
            }
        }
    }
}

/// Every silhouette cell: blank over `color`.
spec fn silhouette_fn(color: Color) -> spec_fn(int, int) -> Cell {
    |x: int, y: int| Cell { symbol: ' ', fg: Color::Reset, bg: color }
}

/// Draws the background silhouettes with the given sizes.
fn draw_silhouettes(buf: &mut Buffer, area: Rect, sizes: &Vec<(u16, u16)>, color: Color)
    requires
        old(buf).wf(),
        area.x + area.width <= u16::MAX,
        area.y + area.height <= u16::MAX,
        sizes@.len() <= silhouette_count(area),
    ensures
        final(buf).wf(),
        final(buf).same_size(&*old(buf)),
        final(buf)@ == silhouettes_spec(old(buf)@, area, sizes@, color),
{
    let ground_y = area.height.saturating_sub(3);
    let right = area.x + area.width;
    let bottom = area.y + area.height;
    let mut k: usize = 0;
    while k < sizes.len()
        invariant
            buf.wf(),
            buf.same_size(&*old(buf)),
            k <= sizes@.len(),
            sizes@.len() <= silhouette_count(area),
            ground_y == ground_rel(area),
            right == area.x + area.width,
            bottom == area.y + area.height,
            buf@ == silhouettes_spec(old(buf)@, area, sizes@.take(k as int), color),
        decreases sizes@.len() - k,
    {
        let (bw, bh) = sizes[k];
        let x_bg: u16 = (15 * k) as u16;
        let start_x = area.x.saturating_add(x_bg);
        let start_y = ground_y.saturating_sub(bh);
        let ghost g1 = buf@;
        let ghost x1: int = if start_x + bw < right { start_x + bw } else { right as int };
        let ghost y1: int = if start_y + bh < bottom { start_y + bh } else { bottom as int };
        let ghost cell = Cell { symbol: ' ', fg: Color::Reset, bg: color };
        let ghost f = silhouette_fn(color);
        let mut y_rel: u16 = 0;
        while y_rel < bh
            invariant
                buf.wf(),
                buf.same_size(&*old(buf)),
                y_rel <= bh,
                right == area.x + area.width,
                bottom == area.y + area.height,
                start_y + bh <= u16::MAX,
                x1 == (if start_x + bw < right { start_x + bw } else { right as int }),
                y1 == (if start_y + bh < bottom { start_y + bh } else { bottom as int }),
                f == silhouette_fn(color),
                buf@ == put_fn(g1, start_x as int, start_y as int, x1, if start_y + y_rel < y1 { start_y + y_rel } else { y1 }, f),
            decreases bh - y_rel,
        {
            let ghost row = start_y + y_rel;
            let ghost ylim: int = if row < y1 { row } else { y1 };
            let ghost ynext: int = if row + 1 < y1 { row + 1 } else { y1 };
            let ghost a = put_fn(g1, start_x as int, start_y as int, x1, ylim, f);
            proof {
                lemma_put_fn_empty(a, start_x as int, row, start_x as int, ynext, f);
            }
            let mut x_rel: u16 = 0;
            while x_rel < bw
                invariant
                    buf.wf(),
                    buf.same_size(&*old(buf)),
                    x_rel <= bw,
                    y_rel < bh,
                    row == start_y + y_rel,
                    right == area.x + area.width,
                    bottom == area.y + area.height,
                    ynext == (if row + 1 < y1 { row + 1 } else { y1 }),
                    x1 == (if start_x + bw < right { start_x + bw } else { right as int }),
                    y1 == (if start_y + bh < bottom { start_y + bh } else { bottom as int }),
                    f == silhouette_fn(color),
                    buf@ == put_fn(a, start_x as int, row, if start_x + x_rel < x1 { start_x + x_rel } else { x1 }, ynext, f),
                decreases bw - x_rel,
            {
                let dx = start_x.saturating_add(x_rel);
                let dy = start_y.saturating_add(y_rel);
                if dx < right && dy < bottom {
                    proof {
                        lemma_put_fn_cell(a, start_x as int, row, dx as int, f);
                        assert(f(dx as int, dy as int) == Cell { symbol: ' ', fg: Color::Reset, bg: color });
                    }
                    safe_set_char_with_bg(buf, dx, dy, ' ', Color::Reset, color);
                } else {
                    proof {
                        if dy >= bottom {
                            lemma_put_fn_empty(a, start_x as int, row, start_x as int + x_rel + 1, ynext, f);
                            lemma_put_fn_empty(a, start_x as int, row, start_x as int + x_rel, ynext, f);
                        }
                    }
                }
                x_rel = x_rel + 1;
            }
            proof {
                if row < y1 {
                    lemma_put_fn_row(g1, start_x as int, start_y as int, x1, row, f);
                } else {
                    lemma_put_fn_empty(a, start_x as int, row, x1, ynext, f);
                }
            }
            y_rel = y_rel + 1;
        }
        proof {
            let t = sizes@.take(k + 1);
            assert(t.drop_last() =~= sizes@.take(k as int));
            assert(put_fn(g1, start_x as int, start_y as int, x1, y1, f) =~= put_box(g1, start_x as int, start_y as int, x1, y1, cell));
        }
        k = k + 1;
    }
    proof {
        assert(sizes@.take(sizes@.len() as int) =~= sizes@);
    }
}

/// Draws the sizes of the background silhouettes from a generator seeded
/// with `SILHOUETTE_SEED`: per silhouette a width in `6..15`, then a height
/// in `height / 5 .. height / 2`.
fn silhouette_sizes(area: Rect) -> (r: Vec<(u16, u16)>)
    requires
        area.width == 0 || area.height >= 2,
    ensures
        r@ == seeded_silhouettes(area),
        valid_silhouette_sizes(area, r@),
{
    let mut rng = SeededRng::new(SILHOUETTE_SEED);
    let mut r: Vec<(u16, u16)> = Vec::new();
    let mut x_bg: u32 = 0;
    let mut k: usize = 0;
    while x_bg < area.width as u32
        invariant
            x_bg == 15 * k,
            area.width == 0 || area.height >= 2,
            x_bg < area.width ==> k < silhouette_count(area),
            x_bg >= area.width ==> k == silhouette_count(area),
            rng.seed() == SILHOUETTE_SEED,
            rng.drawn() == silhouette_history(area.height, k as nat),
            r@ == seeded_sizes(area.height, k as nat),
            r@.len() == k,
            forall|j: int| 0 <= j < r@.len() ==> {
                &&& 6 <= (#[trigger] r@[j]).0 < 15
                &&& area.height / 5 <= r@[j].1 < area.height / 2
            },
        decreases silhouette_count(area) - k,
    {
        let bw = gen_range_i32(&mut rng, 6, 15) as u16;
        let bh = gen_range_u16(&mut rng, area.height / 5, area.height / 2);
        r.push((bw, bh));
        x_bg = x_bg + 15;
        k = k + 1;
    }
    r
}

/// Draws the skyline with background silhouettes of the given sizes: the
/// dark silhouettes, then each foreground building's facade, sign and
/// antenna.
pub fn render_skyline_sized(
    buf: &mut Buffer,
    area: Rect,
    sizes: &Vec<(u16, u16)>,
    buildings: &Vec<BuildingInfo>,
    logo: &DistroLogo,
    theme: &Theme,
    frame: u64,
    window_seed: u64,
    sign_text: &str,
)
    requires
        old(buf).wf(),
        skyline_ready(area, buildings@, *logo),
        sizes@.len() <= silhouette_count(area),
    ensures
        final(buf).wf(),
        final(buf).same_size(&*old(buf)),
        final(buf)@ == buildings_drawn(
            silhouettes_spec(old(buf)@, area, sizes@, darken_spec(theme.building_base_colors@[0])),
            area,
            buildings@,
            *logo,
            *theme,
            frame,
            window_seed,
            sign_text@,
        ),
{
    let bg_color = darken_color(theme.building_base_colors[0]);
    draw_silhouettes(buf, area, sizes, bg_color);
    let ghost g1 = buf@;
    let mut k: usize = 0;
    while k < buildings.len()
        invariant
            buf.wf(),
            buf.same_size(&*old(buf)),
            k <= buildings@.len(),
            skyline_ready(area, buildings@, *logo),
            buf@ == buildings_drawn(g1, area, buildings@.take(k as int), *logo, *theme, frame, window_seed, sign_text@),
        decreases buildings@.len() - k,
    {
        let b = &buildings[k];
        draw_building_body(buf, area, b, logo, theme, frame, window_seed);
        proof {
            assert(has_sign(buildings@[k as int]) ==> building_x(area, buildings@[k as int]) + sat_sub(buildings@[k as int].width, 1) <= u16::MAX);
        }
        draw_building_sign(buf, area, b, theme, frame, sign_text);
        draw_antenna(buf, area, b, frame);
        proof {
            let t = buildings@.take(k + 1);
            assert(t.drop_last() =~= buildings@.take(k as int));
        }
        k = k + 1;
    }
    proof {
        assert(buildings@.take(buildings@.len() as int) =~= buildings@);
    }
}

/// Draws the skyline: the background silhouettes, with the sizes drawn
/// from a generator seeded with `SILHOUETTE_SEED` (see `seeded_silhouettes`
/// and `render_skyline_sized`), then the foreground buildings.
pub fn render_skyline(
    buf: &mut Buffer,
    area: Rect,
    buildings: &Vec<BuildingInfo>,
    logo: &DistroLogo,
    theme: &Theme,
    frame: u64,
    window_seed: u64,
    sign_text: &str,
)
    requires
        old(buf).wf(),
        skyline_ready(area, buildings@, *logo),
    ensures
        final(buf).wf(),
        final(buf).same_size(&*old(buf)),
        valid_silhouette_sizes(area, seeded_silhouettes(area)),
        final(buf)@ == buildings_drawn(
            silhouettes_spec(old(buf)@, area, seeded_silhouettes(area), darken_spec(theme.building_base_colors@[0])),
            area,
            buildings@,
            *logo,
            *theme,
            frame,
            window_seed,
            sign_text@,
        ),
{
    let sizes = silhouette_sizes(area);
    render_skyline_sized(buf, area, &sizes, buildings, logo, theme, frame, window_seed, sign_text);
}

/// Law: the smaller signs cycle through the eight phrases, one step every
/// 120 frames: the phrase of slot `i` at frame `frame` is number
/// `(i / 2 + frame / 120) mod 8`, and 120 frames later the sign shows the
/// next phrase. (Frame counts beyond the platform's `usize` are outside the
/// statement.)
pub proof fn lemma_sign_phrases_cycle(i: usize, frame: u64)
    requires
        frame + 120 <= usize::MAX,
    ensures
        0 <= phrase_index(i, frame) < 8,
        phrase_index(i, frame) == (i / 2 + frame / 120) % 8,
        phrase_index(i, (frame + 120) as u64) == (phrase_index(i, frame) + 1) % 8,
{
    let a = (i / 2) as int;
    let b = (frame / 120) as int;
    assert(((frame + 120) as u64) / 120 == b + 1);
    assert((usize::MAX as int + 1) % 8 == 0) by {
        assert(usize::MAX == 0xffff_ffff || usize::MAX == 0xffff_ffff_ffff_ffff);
    }
    assert forall|c: int| 0 <= c <= usize::MAX && #[trigger] (a + c) > usize::MAX implies
        (a + c - (usize::MAX + 1)) % 8 == (a + c) % 8 by {
        let m = usize::MAX as int + 1;
        assert(m % 8 == 0);
        assert((a + c - m) % 8 == (a + c) % 8) by (nonlinear_arith)
            requires m % 8 == 0;
    }
    assert((a + b + 1) % 8 == ((a + b) % 8 + 1) % 8) by (nonlinear_arith);
}

/// Law: a building with a sign other than the monolith shows phrase number
/// `(slot / 2 + frame / 120) mod 8` down its right edge, and the monolith
/// (slot 1) shows the configured sign text whatever the frame.
pub proof fn lemma_sign_text_shown(g: Grid, area: Rect, b: BuildingInfo, theme: Theme, frame: u64, sign_text: Seq<char>)
    requires
        has_sign(b),
        frame + 120 <= usize::MAX,
    ensures
        ({
            let x = (building_x(area, b) + sat_sub(b.width, 1)) as u16;
            let y = sat_add(building_y(area, b), 5);
            let text = if b.index == 1 { sign_text } else { phrase((b.index / 2 + frame / 120) % 8) };
            sign_spec(g, area, b, theme, frame, sign_text) == neon_sign_spec(g, x, y, text, sign_color(b.index, theme),
                frame)
        }),
{
    lemma_sign_phrases_cycle(b.index, frame);
}

} // verus!
