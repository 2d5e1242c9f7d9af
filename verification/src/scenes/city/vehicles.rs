//! Sky traffic: the kinds of flying vehicles and how one is drawn over the
//! scene. A vehicle's position is tracked in floating point by the caller,
//! which hands over the columns its cells fall on this frame.

use vstd::prelude::*;
use crate::buffer::{Buffer, Cell, Grid};
use crate::layout::Rect;
use crate::scenes::city::utils::{safe_get_bg, safe_get_fg, safe_get_symbol, safe_set_char_with_bg};
use crate::style::Color;
use crate::theme::Theme;

verus! {

/// The kinds of flying vehicles.
#[derive(Clone, Copy, PartialEq, Eq, Debug, Structural)]
pub enum VehicleType {
    Spinner,
    Shuttle,
    Police,
}

/// Where a vehicle's cells fall this frame.
pub struct VehicleCells {
    /// The row the vehicle flies on.
    pub row: u16,
    /// The column of each body cell, left to right.
    pub body: Vec<u16>,
    /// The columns of the police lights (blue, red), above the body.
    pub lights: (u16, u16),
    /// The column just left of the vehicle, when that is not left of the
    /// area.
    pub tail: Option<u16>,
    /// The column two left of the vehicle, when that is not left of the
    /// area.
    pub tail2: Option<u16>,
}

/// The body of a vehicle, left to right: a spinner and a police car are
/// three cells; a shuttle of length `length` is a rear block, solid blocks
/// and a nose (at least two cells).
pub open spec fn body_chars(kind: VehicleType, length: u16) -> Seq<char> {
    match kind {
        VehicleType::Spinner => seq!['◢', '■', '◣'],
        VehicleType::Police => seq!['◤', '█', '◥'],
        VehicleType::Shuttle => seq!['▓'] + Seq::new(
            (if length < 2 { 0 } else { length - 2 }) as nat,
            |i: int| '█',
        ) + seq!['▶'],
    }
}

/// The color of body cell `off`: a police car is white with a dark middle;
/// other vehicles are their own color.
pub open spec fn body_fg(kind: VehicleType, color: Color, off: int) -> Color {
    if kind == VehicleType::Police {
        if off == 1 { Color::Rgb(60, 60, 70) } else { Color::White }
    } else {
        color
    }
}

/// Whether a cell shows a block glyph, whose foreground is what the eye sees
/// as its background.
pub open spec fn is_block(c: char) -> bool {
    c == '█' || c == '▓' || c == '▆' || c == '▄'
}

/// The background a vehicle cell takes over `c`: the block's color when `c`
/// is a block glyph, else its background.
pub open spec fn seen_bg(c: Cell) -> Color {
    if is_block(c.symbol) { c.fg } else { c.bg }
}

/// `g` with `ch` in `fg` drawn at `(x, y)` over what is seen there.
pub open spec fn over(g: Grid, x: int, y: int, ch: char, fg: Color) -> Grid {
    if g.dom().contains((x, y)) {
        g.insert((x, y), Cell { symbol: ch, fg, bg: seen_bg(g[(x, y)]) })
    } else {
        g
    }
}

/// `g` with the first `n` body cells drawn on row `row`, skipping those at
/// or right of column `right`.
pub open spec fn body_spec(g: Grid, cols: Seq<u16>, row: int, right: int, kind: VehicleType, length: u16,
    color: Color, n: int) -> Grid
    decreases n,
{
    if n <= 0 {
        g
    } else {
        let g1 = body_spec(g, cols, row, right, kind, length, color, n - 1);
        let x = cols[n - 1] as int;
        if x < right { over(g1, x, row, body_chars(kind, length)[n - 1], body_fg(kind, color, n - 1)) } else { g1 }
    }
}

/// `g` with the police lights above the body: blue and red `═` bars that
/// take turns every two frames (the unlit one dark).
pub open spec fn lights_spec(g: Grid, area: Rect, cells: VehicleCells, theme: Theme, frame: u64) -> Grid {
    let right = area.x + area.width;
    let sy = cells.row - 1;
    let flash = (frame / 2) % 2 == 0;
    let off = Color::Rgb(40, 40, 60);
    let g1 = if cells.lights.0 < right {
        over(g, cells.lights.0 as int, sy, '═', if flash { theme.police_blue } else { off })
    } else {
        g
    };
    if cells.lights.1 < right { over(g1, cells.lights.1 as int, sy, '═', if !flash { theme.police_red } else { off }) } else { g1 }
}

/// `g` with the vehicle's trail: a shuttle leaves `:` and `·` in the neon
/// color, a spinner `·` in police red and a cyan `·` behind it; police cars
/// leave none.
pub open spec fn tail_spec(g: Grid, area: Rect, kind: VehicleType, cells: VehicleCells, theme: Theme) -> Grid {
    let right = area.x + area.width;
    let row = cells.row as int;
    match cells.tail {
        Some(tx) => if kind == VehicleType::Police || tx >= right {
            g
        } else if kind == VehicleType::Shuttle {
            let g1 = over(g, tx as int, row, ':', theme.neon_main);
            if tx > area.x { over(g1, tx - 1, row, '·', theme.neon_main) } else { g1 }
        } else {
            let g1 = over(g, tx as int, row, '·', theme.police_red);
            match cells.tail2 {
                Some(t2) => if t2 < right { over(g1, t2 as int, row, '·', Color::Rgb(85, 255, 255)) } else { g1 },
                None => g1,
            }
        },
        None => g,
    }
}

/// `g` with one vehicle drawn: nothing when its row lies below the area;
/// else its body, the lights of a police car not on the area's top row, and
/// its trail.
pub open spec fn vehicle_spec(g: Grid, area: Rect, kind: VehicleType, length: u16, color: Color,
    cells: VehicleCells, theme: Theme, frame: u64) -> Grid {
    if cells.row >= area.y + area.height {
        g
    } else {
        let right = area.x + area.width;
        let g1 = body_spec(g, cells.body@, cells.row as int, right, kind, length, color, cells.body@.len() as int);
        let g2 = if kind == VehicleType::Police && cells.row > area.y {
            lights_spec(g1, area, cells, theme, frame)
        } else {
            g1
        };
        tail_spec(g2, area, kind, cells, theme)
    }
}

/// The body characters of a vehicle.
pub fn body_of(kind: VehicleType, length: u16) -> (v: Vec<char>)
    ensures
        v@ == body_chars(kind, length),
{
    let mut v: Vec<char> = Vec::new();
    match kind {
        VehicleType::Spinner => {
            v.push('◢');
            v.push('■');
            v.push('◣');
        },
        VehicleType::Police => {
            v.push('◤');
            v.push('█');
            v.push('◥');
        },
        VehicleType::Shuttle => {
            v.push('▓');
            let n = length.saturating_sub(2);
            let mut i: u16 = 0;
            while i < n
                invariant
                    i <= n,
                    v@ == seq!['▓'] + Seq::new(i as nat, |k: int| '█'),
                decreases n - i,
            {
                v.push('█');
                proof {
                    assert(v@ =~= seq!['▓'] + Seq::new((i + 1) as nat, |k: int| '█'));
                }
                i = i + 1;
            }
            v.push('▶');
        },
    }
    proof {
        assert(v@ =~= body_chars(kind, length));
    }
    v
}

/// Draws `ch` in `fg` at `(x, y)` over what is seen there.
fn draw_over(buf: &mut Buffer, x: u16, y: u16, ch: char, fg: Color)
    requires
        old(buf).wf(),
    ensures
        final(buf).wf(),
        final(buf).same_size(&*old(buf)),
        final(buf)@ == over(old(buf)@, x as int, y as int, ch, fg),
{
    let sym = safe_get_symbol(buf, x, y);
    let bg = if sym == '█' || sym == '▓' || sym == '▆' || sym == '▄' {
        safe_get_fg(buf, x, y)
    } else {
        safe_get_bg(buf, x, y)
    };
    safe_set_char_with_bg(buf, x, y, ch, fg, bg);
}

/// Draws one vehicle of kind `kind` (a shuttle `length` cells long) in
/// `color` at the cells `cells`: its body, a police car's flashing lights
/// and the trail, each cell taking on the color seen behind it.
pub fn render_vehicle(
    buf: &mut Buffer,
    area: Rect,
    kind: VehicleType,
    length: u16,
    color: Color,
    cells: &VehicleCells,
    theme: &Theme,
    frame: u64,
)
    requires
        old(buf).wf(),
        area.valid(),
        cells.body@.len() == body_chars(kind, length).len(),
    ensures
        final(buf).wf(),
        final(buf).same_size(&*old(buf)),
        final(buf)@ == vehicle_spec(old(buf)@, area, kind, length, color, *cells, *theme, frame),
{
    let vy = cells.row;
    if vy >= area.y + area.height {
        return;
    }
    let right = area.x + area.width;
    let body = body_of(kind, length);
    let ghost g0 = buf@;
    let mut off: usize = 0;
    while off < body.len()
        invariant
            buf.wf(),
            buf.same_size(&*old(buf)),
            g0 == old(buf)@,
            body@ == body_chars(kind, length),
            cells.body@.len() == body@.len(),
            right == area.x + area.width,
            off <= body@.len(),
            buf@ == body_spec(g0, cells.body@, vy as int, right as int, kind, length, color, off as int),
        decreases body@.len() - off,
    {
        let dx = cells.body[off];
        if dx < right {
            let fg = if kind == VehicleType::Police {
                if off == 1 { Color::Rgb(60, 60, 70) } else { Color::White }
            } else {
                color
            };
            draw_over(buf, dx, vy, body[off], fg);
        }
        off = off + 1;
    }
    if kind == VehicleType::Police && vy > area.y {
        let sy = vy - 1;
        let flash = (frame / 2) % 2 == 0;
        let dark = Color::Rgb(40, 40, 60);
        if cells.lights.0 < right {
            draw_over(buf, cells.lights.0, sy, '═', if flash { theme.police_blue } else { dark });
        }
        if cells.lights.1 < right {
            draw_over(buf, cells.lights.1, sy, '═', if !flash { theme.police_red } else { dark });
        }
    }
    if kind != VehicleType::Police {
        if let Some(tx) = cells.tail {
            if tx < right {
                if kind == VehicleType::Shuttle {
                    draw_over(buf, tx, vy, ':', theme.neon_main);
                    if tx > area.x {
                        draw_over(buf, tx - 1, vy, '·', theme.neon_main);
                    }
                } else {
                    draw_over(buf, tx, vy, '·', theme.police_red);
                    if let Some(t2) = cells.tail2 {
                        if t2 < right {
                            draw_over(buf, t2, vy, '·', Color::Rgb(85, 255, 255));
                        }
                    }
                }
            }
        }
    }
}

/// Whether a vehicle of kind `kind` and length `length` is a mega shuttle:
/// a shuttle longer than 9 cells.
pub open spec fn is_mega(v: (VehicleType, u16)) -> bool {
    v.0 == VehicleType::Shuttle && v.1 > 9
}

/// How many mega shuttles are in `fleet` (kinds and lengths).
pub open spec fn mega_count_spec(fleet: Seq<(VehicleType, u16)>) -> nat
    decreases fleet.len(),
{
    if fleet.len() == 0 {
        0
    } else {
        mega_count_spec(fleet.drop_last()) + (if is_mega(fleet.last()) { 1nat } else { 0nat })
    }
}

/// Counts the mega shuttles in the sky.
pub fn mega_count(fleet: &Vec<(VehicleType, u16)>) -> (n: usize)
    ensures
        n == mega_count_spec(fleet@),
{
    let mut n: usize = 0;
    let mut i: usize = 0;
    while i < fleet.len()
        invariant
            i <= fleet@.len(),
            n == mega_count_spec(fleet@.take(i as int)),
            n <= i,
        decreases fleet@.len() - i,
    {
        proof {
            assert(fleet@.take(i + 1).drop_last() =~= fleet@.take(i as int));
        }
        let (kind, length) = fleet[i];
        if kind == VehicleType::Shuttle && length > 9 {
            n = n + 1;
        }
        i = i + 1;
    }
    proof {
        assert(fleet@.take(fleet@.len() as int) =~= fleet@);
    }
    n
}

/// A new shuttle's length: the drawn length plus the disk bonus, at most 25.
pub open spec fn shuttle_length(length: u16, disk_bonus: u16) -> u16 {
    if length + disk_bonus < 25 { (length + disk_bonus) as u16 } else { 25 }
}

/// Whether a new shuttle of the drawn length may take off: short ones
/// always, a mega shuttle only while none is in the sky. Returns its length.
pub fn admit_shuttle(length: u16, disk_bonus: u16, mega: usize) -> (r: Option<u16>)
    ensures
        r == (if shuttle_length(length, disk_bonus) <= 9 || mega == 0 {
            Some(shuttle_length(length, disk_bonus))
        } else {
            None
        }),
{
    let adj = if length.saturating_add(disk_bonus) < 25 { length.saturating_add(disk_bonus) } else { 25 };
    if adj <= 9 || mega == 0 {
        Some(adj)
    } else {
        None
    }
}

/// Which of the theme's three shuttle colors a shuttle of length `length`
/// wears: up to 6 cells the first, up to 9 the second, else the third.
pub fn shuttle_shade(length: u16) -> (i: usize)
    ensures
        i == (if length <= 6 { 0usize } else if length <= 9 { 1usize } else { 2usize }),
{
    if length <= 6 {
        0
    } else if length <= 9 {
        1
    } else {
        2
    }
}

/// The chase cooldown one step later: it counts down to 0.
pub fn tick_cooldown(c: u32) -> (r: u32)
    ensures
        r == (if c > 0 { c - 1 } else { 0 }),
{
    if c > 0 {
        c - 1
    } else {
        0
    }
}

/// Removing vehicles never adds mega shuttles.
proof fn lemma_mega_count_filter(fleet: Seq<(VehicleType, u16)>, keep: spec_fn((VehicleType, u16)) -> bool)
    ensures
        mega_count_spec(fleet.filter(keep)) <= mega_count_spec(fleet),
    decreases fleet.len(),
{
    reveal_with_fuel(Seq::filter, 1);
    if fleet.len() > 0 {
        lemma_mega_count_filter(fleet.drop_last(), keep);
        if keep(fleet.last()) {
            assert(fleet.filter(keep).drop_last() =~= fleet.drop_last().filter(keep));
        } else {
            assert(fleet.filter(keep) =~= fleet.drop_last().filter(keep));
        }
    }
}

/// Law: at most one mega shuttle is ever in the sky. Starting from a fleet
/// with at most one, a shuttle admitted by `admit_shuttle` (or any vehicle
/// that is not a mega shuttle) keeps it so, and so does removing vehicles
/// that left the area.
pub proof fn lemma_one_mega_shuttle(
    fleet: Seq<(VehicleType, u16)>,
    length: u16,
    disk_bonus: u16,
    other: (VehicleType, u16),
    keep: spec_fn((VehicleType, u16)) -> bool,
)
    requires
        mega_count_spec(fleet) <= 1,
    ensures
        (shuttle_length(length, disk_bonus) <= 9 || mega_count_spec(fleet) == 0) ==> mega_count_spec(
            fleet.push((VehicleType::Shuttle, shuttle_length(length, disk_bonus))),
        ) <= 1,
        !is_mega(other) ==> mega_count_spec(fleet.push(other)) <= 1,
        mega_count_spec(fleet.filter(keep)) <= 1,
{
    assert(fleet.push((VehicleType::Shuttle, shuttle_length(length, disk_bonus))).drop_last() =~= fleet);
    assert(fleet.push(other).drop_last() =~= fleet);
    lemma_mega_count_filter(fleet, keep);
}

} // verus!
