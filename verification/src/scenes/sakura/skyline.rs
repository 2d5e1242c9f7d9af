//! Distant city skyline along the far shore: dark building blocks with
//! scattered windows, a string of shore lights at the waterline, and the
//! columns whose lights the lake mirrors.

use vstd::prelude::*;
use crate::scenes::cafe::paint::{hash, hash_spec};
use crate::scenes::sakura::layout::Layout;

verus! {

/// One block of the skyline: left column, width, height in rows, and how
/// far its body is shaded from the base tone toward the lit tone, in halves
/// (0, 1 or 2).
#[derive(Clone, Copy, PartialEq, Eq, Debug, Structural)]
pub struct Building {
    pub x: u16,
    pub w: u16,
    pub h: u16,
    pub shade_halves: u8,
}

/// The width of the `i`-th building: 3 to 7 columns.
pub open spec fn block_width(i: u32) -> int {
    3 + (hash_spec(i, 0xB1) % 5) as int
}

/// The gap after the `i`-th building: one column one time in three.
pub open spec fn block_gap(i: u32) -> int {
    if hash_spec(i, 0xB3) % 3 == 0 { 1 } else { 0 }
}

/// The `i`-th building, standing at column `x`.
pub open spec fn building_spec(x: int, i: u32) -> Building {
    let tall: int = if hash_spec(i, 0xB5) % 5 == 0 { 2 } else { 0 };
    Building {
        x: x as u16,
        w: block_width(i) as u16,
        h: (2 + hash_spec(i, 0xB2) % 4 + tall) as u16,
        shade_halves: (hash_spec(i, 0xB4) % 3) as u8,
    }
}

/// The column after the `i`-th building (standing at `x`): its width on,
/// plus a one-column gap one time in three.
pub open spec fn next_x(x: int, i: u32) -> int {
    x + block_width(i) + block_gap(i)
}

/// The buildings from column `x` on, the first of them the `i`-th, up to a
/// shore `width` columns wide.
pub open spec fn buildings_from(width: int, x: int, i: u32) -> Seq<Building>
    decreases (if x < width { width - x } else { 0 }),
{
    if x >= width || i == u32::MAX {
        Seq::empty()
    } else {
        seq![building_spec(x, i)] + buildings_from(width, next_x(x, i), (i + 1) as u32)
    }
}

/// The skyline's buildings, left to right, packed from column 0 across the
/// whole width.
pub fn buildings(l: &Layout) -> (v: Vec<Building>)
    requires
        l.w + 8 <= u16::MAX,
    ensures
        v@ == buildings_from(l.w as int, 0, 0),
{
    let mut v: Vec<Building> = Vec::new();
    let mut x: u16 = 0;
    let mut i: u32 = 0;
    while x < l.w
        invariant
            l.w + 8 <= u16::MAX,
            i <= x,
            v@ + buildings_from(l.w as int, x as int, i) == buildings_from(l.w as int, 0, 0),
        decreases (if x < l.w { l.w - x } else { 0 }),
    {
        let w = 3 + (hash(i, 0xB1) % 5) as u16;
        let mut h = 2 + (hash(i, 0xB2) % 4) as u16;
        if hash(i, 0xB5) % 5 == 0 {
            h = h + 2;
        }
        let b = Building { x, w, h, shade_halves: (hash(i, 0xB4) % 3) as u8 };
        let gap: u16 = if hash(i, 0xB3) % 3 == 0 { 1 } else { 0 };
        proof {
            assert(b == building_spec(x as int, i));
            let rest = buildings_from(l.w as int, next_x(x as int, i), (i + 1) as u32);
            assert(buildings_from(l.w as int, x as int, i) == seq![b] + rest);
            assert(v@.push(b) + rest =~= v@ + (seq![b] + rest));
        }
        v.push(b);
        x = x + w + gap;
        i = i + 1;
    }
    proof {
        assert(v@ + buildings_from(l.w as int, x as int, i) =~= v@);
    }
    v
}

/// Window grid slot: every other row and column.
pub fn window_slot(xx: u16, dy: u16) -> (r: bool)
    ensures
        r == (dy % 2 == 1 && xx % 2 == 0),
{
    dy % 2 == 1 && xx % 2 == 0
}

/// Whether a window slot is lit for the scene's seed (about 40% are).
pub fn window_lit(xx: u16, dy: u16, seed: u32) -> (r: bool)
    ensures
        r == (hash_spec(xx as u32 ^ seed, (dy as u32).wrapping_mul(0x51)) % 100 < 40),
{
    hash(xx as u32 ^ seed, (dy as u32).wrapping_mul(0x51)) % 100 < 40
}

/// Shoreline lamp columns (the string of lights at the waterline).
pub fn shore_light_at(x: u16) -> (r: bool)
    ensures
        r == (hash_spec(x as u32, 0x5407) % 9 == 0),
{
    hash(x as u32, 0x5407) % 9 == 0
}

/// The buildings from column `x` on stand left to right without
/// overlapping, each starting inside the shore and 3 to 7 columns wide.
pub proof fn lemma_buildings_disjoint(width: int, x: int, i: u32)
    requires
        0 <= x,
        width + 8 <= u16::MAX,
    ensures
        forall|k: int| 0 <= k < buildings_from(width, x, i).len() ==> {
            let b = #[trigger] buildings_from(width, x, i)[k];
            &&& x <= b.x < width
            &&& 3 <= b.w <= 7
        },
        forall|j: int, k: int| 0 <= j < k < buildings_from(width, x, i).len() ==>
            #[trigger] buildings_from(width, x, i)[j].x + buildings_from(width, x, i)[j].w
                <= #[trigger] buildings_from(width, x, i)[k].x,
    decreases (if x < width { width - x } else { 0 }),
{
    if x >= width || i == u32::MAX {
    } else {
        let nx = next_x(x, i);
        lemma_buildings_disjoint(width, nx, (i + 1) as u32);
        let rest = buildings_from(width, nx, (i + 1) as u32);
        let all = buildings_from(width, x, i);
        assert(all == seq![building_spec(x, i)] + rest);
        assert forall|k: int| 0 < k < all.len() implies #[trigger] all[k] == rest[k - 1] by {}
    }
}

/// Whether column `x` lies inside one of the first `n` buildings of `bs`.
pub open spec fn covered_by(bs: Seq<Building>, n: int, x: int) -> bool {
    exists|k: int| #![trigger bs[k]] 0 <= k < n && bs[k].x <= x < bs[k].x + bs[k].w
}

/// Whether column `x` lies inside one of the buildings `bs`.
pub open spec fn covered(bs: Seq<Building>, x: int) -> bool {
    covered_by(bs, bs.len() as int, x)
}

/// The window right above the waterline at column `x` reflects: it is a lit
/// window slot of a building, and one of every two such columns.
pub open spec fn window_reflects(l: Layout, seed: u32, x: int) -> bool {
    &&& covered(buildings_from(l.w as int, 0, 0), x)
    &&& x % 2 == 0
    &&& hash_spec(x as u32 ^ seed, 0x51) % 100 < 40
    &&& hash_spec(x as u32, 0x2EF) % 2 == 0
}

/// The shore lamp at column `x` reflects: two of every three lamps do.
pub open spec fn lamp_reflects(x: int) -> bool {
    hash_spec(x as u32, 0x5407) % 9 == 0 && hash_spec(x as u32, 0x3A5) % 3 != 0
}

/// The glow the lake mirrors at column `x`, in hundredths: the pagoda's
/// column glows fully; elsewhere a reflecting window gives 45 and a
/// reflecting lamp 65.
pub open spec fn glow(l: Layout, seed: u32, x: int) -> int {
    if x == l.pagoda_x {
        100
    } else {
        (if window_reflects(l, seed, x) { 45int } else { 0 }) + (if lamp_reflects(x) { 65int } else { 0 })
    }
}

/// The reflected columns among the first `n`, left to right: each column
/// whose glow is at least 40 hundredths, with its glow capped at 100.
pub open spec fn lights_upto(l: Layout, seed: u32, n: int) -> Seq<(u16, u8)>
    decreases n,
{
    if n <= 0 {
        Seq::empty()
    } else {
        let x = n - 1;
        let g = glow(l, seed, x);
        let rest = lights_upto(l, seed, x);
        if g >= 40 {
            rest.push((x as u16, (if g > 100 { 100 } else { g }) as u8))
        } else {
            rest
        }
    }
}

/// The columns that cast a warm reflection on the lake, left to right, each
/// with its strength in hundredths (40 to 100).
pub fn lights(l: &Layout, seed: u32) -> (r: Vec<(u16, u8)>)
    requires
        l.w + 8 <= u16::MAX,
    ensures
        r@ == lights_upto(*l, seed, l.w as int),
{
    let bs = buildings(l);
    proof {
        lemma_buildings_disjoint(l.w as int, 0, 0);
    }
    let ghost all = bs@;
    let mut cols: Vec<u8> = Vec::new();
    let mut x: u16 = 0;
    while x < l.w
        invariant
            cols@.len() == x,
            x <= l.w,
            forall|c: int| 0 <= c < x ==> #[trigger] cols@[c] == 0,
        decreases l.w - x,
    {
        cols.push(0);
        x = x + 1;
    }
    let mut j: usize = 0;
    while j < bs.len()
        invariant
            bs@ == all,
            all == buildings_from(l.w as int, 0, 0),
            l.w + 8 <= u16::MAX,
            j <= all.len(),
            cols@.len() == l.w,
            forall|k: int| 0 <= k < all.len() ==> {
                let b = #[trigger] all[k];
                &&& 0 <= b.x < l.w
                &&& 3 <= b.w <= 7
            },
            forall|a: int, k: int| 0 <= a < k < all.len() ==> #[trigger] all[a].x + all[a].w <= #[trigger] all[k].x,
            forall|c: int| 0 <= c < l.w ==> #[trigger] cols@[c] == (if covered_by(all, j as int, c) && c % 2 == 0
                && hash_spec(c as u32 ^ seed, 0x51) % 100 < 40 && hash_spec(c as u32, 0x2EF) % 2 == 0 {
                45u8
            } else {
                0u8
            }),
        decreases all.len() - j,
    {
        let b = bs[j];
        let end0 = b.x + b.w;
        let end = if end0 < l.w { end0 } else { l.w };
        let mut xx = b.x;
        while xx < end
            invariant
                bs@ == all,
                j < all.len(),
                b == all[j as int],
                end <= l.w,
                end <= b.x + b.w,
                b.x <= xx,
                xx <= end || xx == b.x,
                cols@.len() == l.w,
                forall|k: int| 0 <= k < all.len() ==> {
                    let bb = #[trigger] all[k];
                    &&& 0 <= bb.x < l.w
                    &&& 3 <= bb.w <= 7
                },
                forall|a: int, k: int| 0 <= a < k < all.len() ==> #[trigger] all[a].x + all[a].w <= #[trigger] all[k].x,
                forall|c: int| 0 <= c < l.w ==> #[trigger] cols@[c] == (if (covered_by(all, j as int, c) || (b.x <= c < xx)) && c % 2 == 0
                    && hash_spec(c as u32 ^ seed, 0x51) % 100 < 40 && hash_spec(c as u32, 0x2EF) % 2 == 0 {
                    45u8
                } else {
                    0u8
                }),
            decreases end - xx,
        {
            if window_slot(xx, 1) && window_lit(xx, 1, seed) && hash(xx as u32, 0x2EF) % 2 == 0 {
                proof {
                    assert(cols@[xx as int] == 0u8) by {
                        if covered_by(all, j as int, xx as int) {
                            let k = choose|k: int| #![trigger all[k]] 0 <= k < j && all[k].x <= xx < all[k].x + all[k].w;
                            assert(all[k].x + all[k].w <= all[j as int].x);
                        }
                    }
                    assert((1u32).wrapping_mul(0x51) == 0x51) by (bit_vector);
                }
                cols.set(xx as usize, 45);
            }
            proof {
                assert((1u32).wrapping_mul(0x51) == 0x51) by (bit_vector);
            }
            xx = xx + 1;
        }
        proof {
            assert forall|c: int| 0 <= c < l.w implies (#[trigger] covered_by(all, j + 1, c)
                <==> (covered_by(all, j as int, c) || (b.x <= c < xx))) by {
                if covered_by(all, j + 1, c) {
                    let k = choose|k: int| #![trigger all[k]] 0 <= k < j + 1 && all[k].x <= c < all[k].x + all[k].w;
                    if k == j {
                        assert(b.x <= c < xx);
                    }
                }
                if b.x <= c < xx {
                    assert(all[j as int].x <= c < all[j as int].x + all[j as int].w);
                }
            }
        }
        j = j + 1;
    }
    let mut x: u16 = 0;
    while x < l.w
        invariant
            cols@.len() == l.w,
            x <= l.w,
            j == all.len(),
            all == buildings_from(l.w as int, 0, 0),
            forall|c: int| 0 <= c < l.w ==> #[trigger] cols@[c] == (if window_reflects(*l, seed, c) { 45int } else { 0 })
                + (if c < x && lamp_reflects(c) { 65int } else { 0 }),
        decreases l.w - x,
    {
        if shore_light_at(x) && hash(x as u32, 0x3A5) % 3 != 0 {
            cols.set(x as usize, cols[x as usize] + 65);
        }
        x = x + 1;
    }
    if l.pagoda_x < l.w {
        cols.set(l.pagoda_x as usize, 100);
    }
    let mut r: Vec<(u16, u8)> = Vec::new();
    let mut x: u16 = 0;
    while x < l.w
        invariant
            cols@.len() == l.w,
            x <= l.w,
            forall|c: int| 0 <= c < l.w ==> #[trigger] cols@[c] == glow(*l, seed, c),
            r@ == lights_upto(*l, seed, x as int),
        decreases l.w - x,
    {
        let s = cols[x as usize];
        if s >= 40 {
            r.push((x, if s > 100 { 100 } else { s }));
        }
        x = x + 1;
    }
    r
}

} // verus!
