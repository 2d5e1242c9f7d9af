//! Foreground building layout of the city skyline.

use vstd::prelude::*;
use crate::buffer::{Buffer, Grid, put_glyph, text_column};
use crate::scenes::city::utils::safe_set_char;
use crate::style::Color;
use crate::text::str_chars;

verus! {

/// One foreground building of the skyline.
#[derive(Clone, Copy, PartialEq, Eq, Debug, Structural)]
pub struct BuildingInfo {
    /// Left edge relative to the area (a multiple of 20).
    pub x_offset: u16,
    pub width: u16,
    pub height: u16,
    /// Index of the 20-column slot the building starts in.
    pub index: usize,
    /// Door column relative to the area (`x_offset + width / 2`).
    pub door_x: u16,
    /// Whether the building also covers the next slot (slots 1 and 3).
    pub spans_two: bool,
}

impl BuildingInfo {
    /// Whether column `x` (relative to the area) falls within this building.
    pub fn contains_x(&self, x: u16) -> (r: bool)
        requires
            self.x_offset + self.width <= u16::MAX,
        ensures
            r == (self.x_offset <= x < self.x_offset + self.width),
    {
        x >= self.x_offset && x < self.x_offset + self.width
    }
}

/// The row the buildings stand on.
pub open spec fn ground_row(area_height: u16) -> int {
    if area_height < 3 { 0 } else { area_height - 3 }
}

/// The building that starts in slot `i` (columns `20 * i ..`): the monolith
/// in slot 1 is 32 wide and reaches 8 rows below the top, the one in slot 3
/// is 28 wide, the others are 8 to 14 wide; no building is taller than the
/// ground row.
pub open spec fn building_at(i: nat, area_height: u16) -> BuildingInfo {
    let x: int = 20 * (i as int);
    let bw: int = if i == 1 { 32 } else if i == 3 { 28 } else { 8 + x % 7 };
    let bh0: int = if i == 1 {
        if area_height < 8 { 0 } else { area_height - 8 }
    } else {
        area_height / 3 + x % 11
    };
    let bh: int = if bh0 > ground_row(area_height) { ground_row(area_height) } else { bh0 };
    BuildingInfo {
        x_offset: x as u16,
        width: bw as u16,
        height: bh as u16,
        index: i as usize,
        door_x: (x + bw / 2) as u16,
        spans_two: i == 1 || i == 3,
    }
}

/// Number of 20-column slots that start inside the area.
pub open spec fn slot_count(area_width: u16) -> nat {
    ((area_width + 19) / 20) as nat
}

/// How many buildings the first `i` slots produce: slots 2 and 4 are taken
/// by the wide buildings of slots 1 and 3.
pub open spec fn buildings_before(i: nat) -> nat {
    (i - (if i > 2 { 1int } else { 0 }) - (if i > 4 { 1int } else { 0 })) as nat
}

/// The slot of the `j`-th building.
pub open spec fn slot_of(j: nat) -> nat {
    if j < 2 { j } else if j == 2 { 3 } else { j + 2 }
}

/// The buildings of an `area_width` x `area_height` area, left to right.
pub open spec fn buildings_spec(area_width: u16, area_height: u16) -> Seq<BuildingInfo> {
    Seq::new(buildings_before(slot_count(area_width)), |j: int| building_at(slot_of(j as nat), area_height))
}

/// Lays out the foreground buildings: one per 20-column slot, except that
/// the buildings of slots 1 and 3 are wide and take the following slot too.
/// The result is ordered left to right, no two buildings overlap, each starts
/// inside the area, stands no taller than the ground row, and has its door
/// inside it.
pub fn compute_buildings(area_width: u16, area_height: u16) -> (r: Vec<BuildingInfo>)
    ensures
        r@ == buildings_spec(area_width, area_height),
        forall|j: int, k: int|
            0 <= j < k < r@.len() ==> (#[trigger] r@[j]).x_offset + r@[j].width <= (#[trigger] r@[k]).x_offset,
        forall|j: int|
            0 <= j < r@.len() ==> {
                &&& (#[trigger] r@[j]).x_offset < area_width
                &&& r@[j].height <= ground_row(area_height)
                &&& r@[j].x_offset <= r@[j].door_x < r@[j].x_offset + r@[j].width
                &&& r@[j].x_offset + r@[j].width <= u16::MAX
            },
{
    let mut buildings: Vec<BuildingInfo> = Vec::new();
    let mut skip_next = false;
    let ground_y = area_height.saturating_sub(3);
    let mut x_base: u32 = 0;
    let mut i: usize = 0;
    while x_base < area_width as u32
        invariant
            x_base == 20 * i,
            i <= slot_count(area_width),
            x_base < area_width as u32 ==> i < slot_count(area_width),
            x_base >= area_width as u32 ==> i == slot_count(area_width),
            ground_y == ground_row(area_height),
            skip_next == (i == 2 || i == 4),
            buildings@ == Seq::new(buildings_before(i as nat), |j: int| building_at(slot_of(j as nat), area_height)),
        decreases slot_count(area_width) - i,
    {
        if skip_next {
            skip_next = false;
        } else {
            let xb = x_base as u16;
            let mut bw: u16 = 8 + xb % 7;
            let mut bh: u16 = area_height / 3 + xb % 11;
            let mut spans_two = false;
            if i == 1 {
                bw = 32;
                bh = area_height.saturating_sub(8);
                spans_two = true;
                skip_next = true;
            }
            if i == 3 {
                bw = 28;
                spans_two = true;
                skip_next = true;
            }
            if bh > ground_y {
                bh = ground_y;
            }
            let b = BuildingInfo {
                x_offset: xb,
                width: bw,
                height: bh,
                index: i,
                door_x: xb + bw / 2,
                spans_two,
            };
            proof {
                assert(b == building_at(i as nat, area_height));
                assert(slot_of(buildings_before(i as nat)) == i);
            }
            buildings.push(b);
        }
        proof {
            assert(buildings@ =~= Seq::new(buildings_before((i + 1) as nat), |j: int| building_at(slot_of(j as nat), area_height)));
        }
        x_base = x_base + 20;
        i = i + 1;
    }
    proof {
        assert forall|j: int, k: int| 0 <= j < k < buildings@.len() implies (#[trigger] buildings@[j]).x_offset
            + buildings@[j].width <= (#[trigger] buildings@[k]).x_offset by {
            assert(slot_of(j as nat) < slot_of(k as nat));
        }
    }
    buildings
}

/// Whether the `i`-th letter of a sign at column `x` is lit in frame
/// `frame`: a multiplicative hash of the half-rate frame counter, the letter
/// and the column flickers one letter in twenty off.
pub open spec fn sign_letter_lit(frame: u64, i: int, x: u16) -> bool {
    let seed = (frame / 2).wrapping_add(i as u64).wrapping_add(x as u64);
    let noise = seed.wrapping_mul(11400714819323198485u64);
    noise % 100 < 95
}

/// `g` with the letters of `text` written top to bottom in column `x` from
/// row `y`, each in `color` or, when flickering off, in a dark blue-grey.
pub open spec fn neon_sign_spec(g: Grid, x: u16, y: u16, text: Seq<char>, color: Color, frame: u64) -> Grid
    decreases text.len(),
{
    if text.len() == 0 {
        g
    } else {
        let i = text.len() - 1;
        let g1 = neon_sign_spec(g, x, y, text.drop_last(), color, frame);
        let c = if sign_letter_lit(frame, i, x) { color } else { Color::Rgb(30, 30, 45) };
        put_glyph(g1, x as int, text_column(y, i), text.last(), c)
    }
}

/// Draws a vertical neon sign: one letter per row going down from `(x, y)`,
/// with the occasional letter flickering dark.
pub fn draw_neon_sign(buf: &mut Buffer, x: u16, y: u16, text: &str, color: Color, frame: u64)
    requires
        old(buf).wf(),
    ensures
        final(buf).wf(),
        final(buf).same_size(&*old(buf)),
        final(buf)@ == neon_sign_spec(old(buf)@, x, y, text@, color, frame),
{
    if x >= buf.width {
        proof {
            lemma_sign_off_grid(buf@, x, y, text@, color, frame);
        }
        return;
    }
    let chars = str_chars(text);
    let mut i: usize = 0;
    while i < chars.len()
        invariant
            buf.wf(),
            buf.same_size(&*old(buf)),
            i <= chars@.len(),
            chars@ == text@,
            buf@ == neon_sign_spec(old(buf)@, x, y, text@.take(i as int), color, frame),
        decreases chars@.len() - i,
    {
        let dy = y.saturating_add((i % 65536) as u16);
        if dy < buf.height {
            let seed = (frame / 2).wrapping_add(i as u64).wrapping_add(x as u64);
            let noise = seed.wrapping_mul(11400714819323198485);
            let final_color = if (noise % 100) < 95 { color } else { Color::Rgb(30, 30, 45) };
            safe_set_char(buf, x, dy, chars[i], final_color);
        }
        proof {
            let t = text@.take(i + 1);
            assert(t.drop_last() =~= text@.take(i as int));
            assert(dy == text_column(y, i as int));
        }
        i = i + 1;
    }
    proof {
        assert(text@.take(chars@.len() as int) =~= text@);
    }
}

/// A sign in a column outside the grid changes nothing.
proof fn lemma_sign_off_grid(g: Grid, x: u16, y: u16, text: Seq<char>, color: Color, frame: u64)
    requires
        forall|p: (int, int)| g.dom().contains(p) ==> p.0 < x,
    ensures
        neon_sign_spec(g, x, y, text, color, frame) == g,
    decreases text.len(),
{
    if text.len() > 0 {
        lemma_sign_off_grid(g, x, y, text.drop_last(), color, frame);
    }
}

} // verus!
