//! Weather modes of the city scene.

use vstd::prelude::*;
use crate::buffer::{Buffer, Cell, Grid, put_glyph};
use crate::layout::Rect;
use crate::scenes::city::utils::{darken_color, darken_spec, safe_get_bg, safe_get_fg, safe_get_symbol,
    safe_set_symbol, safe_set_symbol_with_bg};
use crate::style::Color;
use crate::text::{all_ascii, ascii_lowercase, lowercase, str_eq, to_lowercase};
use crate::theme::Theme;

verus! {

/// What falls from the city sky.
#[derive(Clone, Copy, PartialEq, Eq, Debug, Structural)]
pub enum Weather {
    Clear,
    Rain,
    Snow,
}

/// A raindrop hitting the ground, shown for a few frames.
#[derive(Clone, Copy, PartialEq, Eq, Debug, Structural)]
pub struct Splash {
    pub x: u16,
    pub y: u16,
    pub frame: u8,
}

/// The splashes after one more frame: each is a frame older, and those
/// that reach their fourth frame are gone; the order is kept.
pub open spec fn aged(s: Seq<Splash>) -> Seq<Splash>
    decreases s.len(),
{
    if s.len() == 0 {
        Seq::empty()
    } else {
        let last = s.last();
        aged(s.drop_last()) + (if last.frame + 1 < 4 {
            seq![Splash { x: last.x, y: last.y, frame: (last.frame + 1) as u8 }]
        } else {
            Seq::empty()
        })
    }
}

/// Ages the splashes by one frame (see `aged`).
pub fn age_splashes(splashes: &mut Vec<Splash>)
    requires
        forall|i: int| 0 <= i < old(splashes)@.len() ==> (#[trigger] old(splashes)@[i]).frame < 255,
    ensures
        final(splashes)@ == aged(old(splashes)@),
{
    let mut kept: Vec<Splash> = Vec::new();
    let mut i: usize = 0;
    while i < splashes.len()
        invariant
            splashes@ == old(splashes)@,
            i <= splashes@.len(),
            forall|j: int| 0 <= j < splashes@.len() ==> (#[trigger] splashes@[j]).frame < 255,
            kept@ == aged(splashes@.take(i as int)),
        decreases splashes@.len() - i,
    {
        let s = splashes[i];
        proof {
            assert(splashes@.take(i + 1).drop_last() =~= splashes@.take(i as int));
        }
        if s.frame + 1 < 4 {
            kept.push(Splash { x: s.x, y: s.y, frame: s.frame + 1 });
            proof {
                assert(kept@ =~= aged(splashes@.take(i + 1)));
            }
        } else {
            proof {
                assert(kept@ =~= aged(splashes@.take(i + 1)));
            }
        }
        i = i + 1;
    }
    proof {
        assert(splashes@.take(splashes@.len() as int) =~= splashes@);
    }
    *splashes = kept;
}

/// Law: a splash lasts at most four frames: after one more frame every
/// remaining splash is on its first to third frame after the one it
/// started on.
pub proof fn lemma_splashes_fade(s: Seq<Splash>)
    ensures
        aged(s).len() <= s.len(),
        forall|i: int| 0 <= i < aged(s).len() ==> 1 <= (#[trigger] aged(s)[i]).frame < 4,
    decreases s.len(),
{
    if s.len() > 0 {
        lemma_splashes_fade(s.drop_last());
        let a = aged(s.drop_last());
        let last = s.last();
        let t: Seq<Splash> = if last.frame + 1 < 4 {
            seq![Splash { x: last.x, y: last.y, frame: (last.frame + 1) as u8 }]
        } else {
            Seq::empty()
        };
        assert forall|i: int| 0 <= i < aged(s).len() implies 1 <= (#[trigger] aged(s)[i]).frame < 4 by {
            if i < a.len() {
                assert(aged(s)[i] == a[i]);
            } else {
                assert(aged(s)[i] == t[i - a.len()]);
            }
        }
    }
}

/// The weather a lowercase name selects: `rain`, `snow`, anything else clear.
pub open spec fn weather_of(lower: Seq<char>) -> Weather {
    if lower == "rain"@ {
        Weather::Rain
    } else if lower == "snow"@ {
        Weather::Snow
    } else {
        Weather::Clear
    }
}

/// The weather selected by an already lowercased name.
pub fn weather_from_lowercase(lower: &str) -> (w: Weather)
    ensures
        w == weather_of(lower@),
{
    if str_eq(lower, "rain") {
        Weather::Rain
    } else if str_eq(lower, "snow") {
        Weather::Snow
    } else {
        Weather::Clear
    }
}

/// The weather a configured name selects, ignoring case: `rain`, `snow`,
/// anything else clear. For an ASCII name, ignoring case means mapping
/// `A`..`Z` to `a`..`z`.
pub fn resolve_weather(name: &str) -> (w: Weather)
    ensures
        w == weather_of(lowercase(name@)),
        all_ascii(name@) ==> w == weather_of(ascii_lowercase(name@)),
{
    let lower = to_lowercase(name);
    weather_from_lowercase(lower.as_str())
}

/// A falling raindrop or snowflake as the screen sees it this frame: its
/// column (the position truncated, so at least 0), its row, and whether it
/// is in the near layer.
#[derive(Clone, Copy, PartialEq, Eq, Debug, Structural)]
pub struct Drop {
    pub x: u64,
    pub y: u16,
    pub near: bool,
}

/// The screen column of a drop at column `x` of the area starting at
/// `area_x` (the column saturates at 65535 before the offset is added).
pub open spec fn drop_column(area_x: u16, x: u64) -> int {
    area_x + (if x > 65535 { 65535 } else { x as int })
}

/// The snowflake glyph a flake at column `x` shows on frame `frame`: a star,
/// a dot or a crystal, cycling every 30 frames.
pub open spec fn flake_glyph(frame: u64, x: u64) -> char {
    let v = (frame + x) % 30;
    if v <= 10 { '*' } else if v <= 20 { '·' } else { '❄' }
}

/// `g` with the first `n` drops drawn over the backgrounds: rain as `|`
/// (near, in the rain color) or `:` (far, in the background rain color);
/// snow as flakes, near ones in the snow color and far ones darkened.
pub open spec fn drops_spec(g: Grid, area: Rect, weather: Weather, drops: Seq<Drop>, frame: u64, theme: Theme, n: int) -> Grid
    decreases n,
{
    if n <= 0 {
        g
    } else {
        let g1 = drops_spec(g, area, weather, drops, frame, theme, n - 1);
        let d = drops[n - 1];
        let x = drop_column(area.x, d.x);
        let y = area.y + d.y;
        if weather == Weather::Rain {
            put_glyph(g1, x, y, if d.near { '|' } else { ':' }, if d.near { theme.rain } else { theme.rain_bg })
        } else {
            put_glyph(g1, x, y, flake_glyph(frame, d.x), if d.near { theme.snow } else { darken_spec(theme.snow) })
        }
    }
}

/// `g` with the snow cover on the last two rows of the area: a solid row
/// under a row with a few dips that drift every 100 frames.
pub open spec fn snow_ground_spec(g: Grid, area: Rect, frame: u64, theme: Theme) -> Grid {
    let top = area.y + area.height - 2;
    Map::new(
        |p: (int, int)| g.dom().contains(p),
        |p: (int, int)|
            if area.x <= p.0 < area.x + area.width && p.1 == top {
                Cell { symbol: if (p.0 + frame / 100) % 7 == 0 { '▆' } else { '█' }, fg: theme.snow, bg: g[p].bg }
            } else if area.x <= p.0 < area.x + area.width && p.1 == top + 1 {
                Cell { symbol: '█', fg: theme.snow, bg: g[p].bg }
            } else {
                g[p]
            },
    )
}

/// `g` with the weather behind the foreground: the drops, and for snow the
/// snow cover; nothing in clear weather.
pub open spec fn weather_bg_spec(g: Grid, area: Rect, weather: Weather, drops: Seq<Drop>, frame: u64, theme: Theme) -> Grid {
    if weather == Weather::Clear {
        g
    } else {
        let g1 = drops_spec(g, area, weather, drops, frame, theme, drops.len() as int);
        if weather == Weather::Snow { snow_ground_spec(g1, area, frame, theme) } else { g1 }
    }
}

/// What drawing the weather needs: every drop's screen position fits the
/// `u16` range, a flake's glyph index does not overflow, and in snow the
/// area is at least three rows down from the top of the screen.
pub open spec fn weather_ready(area: Rect, weather: Weather, drops: Seq<Drop>, frame: u64) -> bool {
    &&& area.valid()
    &&& forall|i: int| 0 <= i < drops.len() ==> {
        &&& drop_column(area.x, (#[trigger] drops[i]).x) <= u16::MAX
        &&& area.y + drops[i].y <= u16::MAX
        &&& (weather == Weather::Snow ==> frame + drops[i].x <= u64::MAX)
    }
    &&& (weather == Weather::Snow ==> area.y + area.height >= 3)
}

/// Draws the falling rain or snow, and in snow the snow cover on the ground.
pub fn render_weather_bg(buf: &mut Buffer, area: Rect, weather: Weather, drops: &Vec<Drop>, frame: u64, theme: &Theme)
    requires
        old(buf).wf(),
        weather_ready(area, weather, drops@, frame),
    ensures
        final(buf).wf(),
        final(buf).same_size(&*old(buf)),
        final(buf)@ == weather_bg_spec(old(buf)@, area, weather, drops@, frame, *theme),
{
    if weather == Weather::Clear {
        return;
    }
    let ghost g0 = buf@;
    let mut i: usize = 0;
    while i < drops.len()
        invariant
            buf.wf(),
            buf.same_size(&*old(buf)),
            g0 == old(buf)@,
            weather != Weather::Clear,
            weather_ready(area, weather, drops@, frame),
            i <= drops@.len(),
            buf@ == drops_spec(g0, area, weather, drops@, frame, *theme, i as int),
        decreases drops@.len() - i,
    {
        let d = drops[i];
        let col: u16 = if d.x > 65535 { 65535 } else { d.x as u16 };
        let rx = area.x + col;
        let ry = area.y + d.y;
        if weather == Weather::Rain {
            let sym = if d.near { '|' } else { ':' };
            let color = if d.near { theme.rain } else { theme.rain_bg };
            safe_set_symbol(buf, rx, ry, sym, color);
        } else {
            let v = (frame + d.x) % 30;
            let sym = if v <= 10 { '*' } else if v <= 20 { '·' } else { '❄' };
            let color = if d.near { theme.snow } else { darken_color(theme.snow) };
            safe_set_symbol(buf, rx, ry, sym, color);
        }
        i = i + 1;
    }
    if weather == Weather::Snow {
        let ghost g1 = buf@;
        let top = area.y + area.height - 2;
        let mut rx: u16 = 0;
        while rx < area.width
            invariant
                buf.wf(),
                buf.same_size(&*old(buf)),
                area.valid(),
                area.y + area.height >= 3,
                top == area.y + area.height - 2,
                rx <= area.width,
                buf@ == snow_ground_spec(g1, Rect { x: area.x, y: area.y, width: rx, height: area.height }, frame, *theme),
            decreases area.width - rx,
        {
            let dx = area.x + rx;
            let sym = if (dx as u64 + frame / 100) % 7 == 0 { '▆' } else { '█' };
            safe_set_symbol(buf, dx, top, sym, theme.snow);
            safe_set_symbol(buf, dx, top + 1, '█', theme.snow);
            proof {
                assert(buf@ =~= snow_ground_spec(g1, Rect { x: area.x, y: area.y, width: (rx + 1) as u16, height: area.height }, frame, *theme));
            }
            rx = rx + 1;
        }
        proof {
            assert(Rect { x: area.x, y: area.y, width: rx, height: area.height } == area);
        }
    }
}

/// The glyph of a reflection `dist` rows below the ground line: solid,
/// then dense, then light shade.
pub open spec fn ripple_glyph(dist: int) -> char {
    if dist == 1 { '█' } else if dist == 2 { '▓' } else { '▒' }
}

/// The column a reflected cell is taken from: shifted by the row's ripple
/// and kept inside the area.
pub open spec fn source_column(area: Rect, rx: int, ripple: int) -> int {
    let s = area.x + rx + ripple;
    let hi = area.x + area.width - 1;
    if s < area.x { area.x as int } else if s > hi { hi } else { s }
}

/// The wet street under rain: each of the rows below the ground line
/// mirrors the row as far above it, shifted by that row's ripple, in
/// darkened colors; blank cells (a space in the default color) are not
/// mirrored. `g` is the picture the mirror reads from.
pub open spec fn reflection_spec(g: Grid, area: Rect, ripples: Seq<i16>) -> Grid {
    let ground = area.y + (if area.height < 3 { 0 } else { area.height - 3 });
    Map::new(
        |p: (int, int)| g.dom().contains(p),
        |p: (int, int)| {
            let dist = p.1 - ground;
            let sy = if ground < dist { 0 } else { ground - dist };
            let sx = source_column(area, p.0 - area.x, ripples[dist - 1] as int);
            let src = if g.dom().contains((sx, sy)) { g[(sx, sy)] } else { Cell { symbol: ' ', fg: Color::Reset, bg: Color::Reset } };
            if area.x <= p.0 < area.x + area.width && ground < p.1 < area.y + area.height
                && (src.symbol != ' ' || src.fg != Color::Reset) {
                Cell { symbol: ripple_glyph(dist), fg: darken_spec(src.fg), bg: darken_spec(src.bg) }
            } else {
                g[p]
            }
        },
    )
}

/// Draws the rain's reflections on the street: under rain, each row below
/// the ground line (three rows above the area's bottom) mirrors the scene
/// above the line with the given per-row ripple shift; other weather leaves
/// the street as it is. `ripples` holds one shift per mirrored row, top row
/// first; each is -1, 0 or 1 (a rounded swing of the water).
pub fn render_weather_fg(buf: &mut Buffer, area: Rect, weather: Weather, ripples: &Vec<i16>)
    requires
        old(buf).wf(),
        area.valid(),
        area.x + area.width <= 0x7ffe,
        !(area.height < 3 && area.y == u16::MAX),
        ripples@.len() >= 2,
        forall|i: int| 0 <= i < ripples@.len() ==> -1 <= #[trigger] ripples@[i] <= 1,
    ensures
        final(buf).wf(),
        final(buf).same_size(&*old(buf)),
        final(buf)@ == (if weather == Weather::Rain { reflection_spec(old(buf)@, area, ripples@) } else { old(buf)@ }),
{
    if weather != Weather::Rain {
        return;
    }
    let ghost g0 = buf@;
    let ground = area.y + area.height.saturating_sub(3);
    let bottom = area.y + area.height;
    let mut ry = ground + 1;
    proof {
        assert(buf@ =~= Map::new(
            |p: (int, int)| g0.dom().contains(p),
            |p: (int, int)| if p.1 < ry { reflection_spec(g0, area, ripples@)[p] } else { g0[p] },
        ));
    }
    while ry < bottom
        invariant
            buf.wf(),
            buf.same_size(&*old(buf)),
            g0 == old(buf)@,
            area.valid(),
            area.x + area.width <= 0x7ffe,
            ripples@.len() >= 2,
            forall|i: int| 0 <= i < ripples@.len() ==> -1 <= #[trigger] ripples@[i] <= 1,
            ground == area.y + (if area.height < 3 { 0 } else { area.height - 3 }),
            bottom == area.y + area.height,
            ground < ry,
            ry <= bottom || ry == ground + 1,
            buf@ == Map::new(
                |p: (int, int)| g0.dom().contains(p),
                |p: (int, int)| if p.1 < ry { reflection_spec(g0, area, ripples@)[p] } else { g0[p] },
            ),
        decreases bottom - ry,
    {
        let dist = ry - ground;
        let sy = ground.saturating_sub(dist);
        let ripple = ripples[(dist - 1) as usize];
        let ghost row_start = buf@;
        let mut rx: u16 = 0;
        while rx < area.width
            invariant
                buf.wf(),
                buf.same_size(&*old(buf)),
                g0 == old(buf)@,
                area.valid(),
                area.x + area.width <= 0x7ffe,
                -1 <= ripple <= 1,
                ground == area.y + (if area.height < 3 { 0 } else { area.height - 3 }),
                bottom == area.y + area.height,
                ground < ry < bottom,
                dist == ry - ground,
                1 <= dist <= 2,
                sy == (if ground < dist { 0 } else { ground - dist }),
                ripple == ripples@[dist - 1],
                rx <= area.width,
                buf@ == Map::new(
                    |p: (int, int)| g0.dom().contains(p),
                    |p: (int, int)| if p.1 < ry || (p.1 == ry && p.0 < area.x + rx) {
                        reflection_spec(g0, area, ripples@)[p]
                    } else {
                        g0[p]
                    },
                ),
            decreases area.width - rx,
        {
            let target_x = area.x + rx;
            let shifted = area.x as i32 + rx as i32 + ripple as i32;
            let hi = (area.x + area.width - 1) as i32;
            let sx: u16 = if shifted < area.x as i32 { area.x } else if shifted > hi { hi as u16 } else { shifted as u16 };
            proof {
                assert(sy < ry);
                assert(buf@[(sx as int, sy as int)] == g0[(sx as int, sy as int)] || !g0.dom().contains((sx as int, sy as int)));
            }
            let s_fg = safe_get_fg(buf, sx, sy);
            let s_bg = safe_get_bg(buf, sx, sy);
            let s_sym = safe_get_symbol(buf, sx, sy);
            if s_sym != ' ' || s_fg != Color::Reset {
                let sym = if dist == 1 { '█' } else if dist == 2 { '▓' } else { '▒' };
                safe_set_symbol_with_bg(buf, target_x, ry, sym, darken_color(s_fg), darken_color(s_bg));
            }
            proof {
                assert(buf@ =~= Map::new(
                    |p: (int, int)| g0.dom().contains(p),
                    |p: (int, int)| if p.1 < ry || (p.1 == ry && p.0 < area.x + rx + 1) {
                        reflection_spec(g0, area, ripples@)[p]
                    } else {
                        g0[p]
                    },
                ));
            }
            rx = rx + 1;
        }
        proof {
            assert(buf@ =~= Map::new(
                |p: (int, int)| g0.dom().contains(p),
                |p: (int, int)| if p.1 < ry + 1 { reflection_spec(g0, area, ripples@)[p] } else { g0[p] },
            ));
        }
        ry = ry + 1;
    }
    proof {
        assert(buf@ =~= reflection_spec(g0, area, ripples@));
    }
}

/// Where drop `d` shows on the screen of `area`.
pub open spec fn drop_pos(area: Rect, d: Drop) -> (int, int) {
    (drop_column(area.x, d.x), area.y + d.y)
}

/// The glyph and color a drop shows (see `lemma_weather_drop_look`).
spec fn drop_look(weather: Weather, d: Drop, frame: u64, theme: Theme) -> (char, Color) {
    if weather == Weather::Rain {
        if d.near { ('|', theme.rain) } else { (':', theme.rain_bg) }
    } else if d.near {
        (flake_glyph(frame, d.x), theme.snow)
    } else {
        (flake_glyph(frame, d.x), darken_spec(theme.snow))
    }
}

/// Each drop's cell shows that drop's look, unless a later drop falls on
/// the same cell; drops never change a cell's background.
proof fn lemma_drops_shown(g: Grid, area: Rect, weather: Weather, drops: Seq<Drop>, frame: u64, theme: Theme, n: int, k: int)
    requires
        0 <= k < n <= drops.len(),
        g.dom().contains(drop_pos(area, drops[k])),
        forall|j: int| k < j < n ==> drop_pos(area, #[trigger] drops[j]) != drop_pos(area, drops[k]),
        weather != Weather::Clear,
    ensures
        drops_spec(g, area, weather, drops, frame, theme, n).dom() == g.dom(),
        drops_spec(g, area, weather, drops, frame, theme, n)[drop_pos(area, drops[k])].symbol == drop_look(weather,
            drops[k], frame, theme).0,
        drops_spec(g, area, weather, drops, frame, theme, n)[drop_pos(area, drops[k])].fg == drop_look(weather,
            drops[k], frame, theme).1,
    decreases n,
{
    lemma_drops_dom(g, area, weather, drops, frame, theme, n - 1);
    if k < n - 1 {
        lemma_drops_shown(g, area, weather, drops, frame, theme, n - 1, k);
    }
}

proof fn lemma_drops_dom(g: Grid, area: Rect, weather: Weather, drops: Seq<Drop>, frame: u64, theme: Theme, n: int)
    ensures
        drops_spec(g, area, weather, drops, frame, theme, n).dom() == g.dom(),
    decreases n,
{
    if n > 0 {
        lemma_drops_dom(g, area, weather, drops, frame, theme, n - 1);
    }
}

/// Law: in rain or snow, every drop that no later drop covers shows at its
/// cell as follows: rain near as `|` in the rain color and far as `:` in
/// the background rain color; snow as a star, dot or crystal (the frame's
/// flake), near in the snow color and far in the darkened snow color, so
/// that far flakes read as further away. In snow this holds above the two
/// rows of snow cover.
pub proof fn lemma_weather_drop_look(g: Grid, area: Rect, weather: Weather, drops: Seq<Drop>, frame: u64, theme: Theme, k: int)
    requires
        0 <= k < drops.len(),
        g.dom().contains(drop_pos(area, drops[k])),
        forall|j: int| k < j < drops.len() ==> drop_pos(area, #[trigger] drops[j]) != drop_pos(area, drops[k]),
        weather != Weather::Clear,
        weather == Weather::Snow ==> drop_pos(area, drops[k]).1 < area.y + area.height - 2,
    ensures
        ({
            let c = weather_bg_spec(g, area, weather, drops, frame, theme)[drop_pos(area, drops[k])];
            let d = drops[k];
            &&& weather == Weather::Rain && d.near ==> c.symbol == '|' && c.fg == theme.rain
            &&& weather == Weather::Rain && !d.near ==> c.symbol == ':' && c.fg == theme.rain_bg
            &&& weather == Weather::Snow ==> c.symbol == flake_glyph(frame, d.x)
            &&& weather == Weather::Snow ==> (c.symbol == '*' || c.symbol == '·' || c.symbol == '❄')
            &&& weather == Weather::Snow && d.near ==> c.fg == theme.snow
            &&& weather == Weather::Snow && !d.near ==> c.fg == darken_spec(theme.snow)
        }),
{
    lemma_drops_shown(g, area, weather, drops, frame, theme, drops.len() as int, k);
}

/// Law: a snowflake's glyph cycles every 30 frames, and the flakes drift
/// through the cycle across the columns: the flake one column to the right
/// shows what this one shows a frame later. Over a cycle each glyph shows:
/// a star for 11 frames, a dot for 10 and a crystal for 9.
pub proof fn lemma_flake_cycle(frame: u64, x: u64)
    requires
        frame + x + 30 <= u64::MAX,
    ensures
        flake_glyph((frame + 30) as u64, x) == flake_glyph(frame, x),
        flake_glyph(frame, (x + 1) as u64) == flake_glyph((frame + 1) as u64, x),
        (frame + x) % 30 <= 10 ==> flake_glyph(frame, x) == '*',
        10 < (frame + x) % 30 <= 20 ==> flake_glyph(frame, x) == '·',
        20 < (frame + x) % 30 ==> flake_glyph(frame, x) == '❄',
{
    assert((frame + 30 + x) % 30 == (frame + x) % 30) by (nonlinear_arith);
}

} // verus!
