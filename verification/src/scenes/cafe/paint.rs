//! Low-level cell painting helpers shared by the cafe components.

use vstd::prelude::*;
use crate::buffer::{Buffer, Cell, put, put_box, put_glyph, put_text, solid, text_column};
use crate::layout::Rect;
use crate::style::Color;
use crate::text::str_chars;

verus! {

/// Fills one cell with a solid color (space char, fg == bg).
pub fn fill(buf: &mut Buffer, x: u16, y: u16, color: Color)
    requires
        old(buf).wf(),
    ensures
        final(buf).wf(),
        final(buf).same_size(&*old(buf)),
        final(buf)@ == put(old(buf)@, x as int, y as int, solid(color)),
{
    if x < buf.width && y < buf.height {
        buf.set(x, y, Cell { symbol: ' ', fg: color, bg: color });
    }
}

/// Fills every cell of `rect` with a solid color.
pub fn fill_rect(buf: &mut Buffer, rect: Rect, color: Color)
    requires
        old(buf).wf(),
    ensures
        final(buf).wf(),
        final(buf).same_size(&*old(buf)),
        final(buf)@ == put_box(old(buf)@, rect.x as int, rect.y as int, rect.spec_right() as int,
            rect.spec_bottom() as int, solid(color)),
{
    let ghost g0 = buf@;
    let top = rect.top();
    let bottom = rect.bottom();
    let left = rect.left();
    let right = rect.right();
    let mut y = top;
    while y < bottom
        invariant
            buf.wf(),
            buf.same_size(&*old(buf)),
            g0 == old(buf)@,
            y == top || y <= bottom,
            top <= y,
            buf@ == put_box(g0, left as int, top as int, right as int, y as int, solid(color)),
        decreases bottom - y,
    {
        let mut x = left;
        while x < right
            invariant
                buf.wf(),
                buf.same_size(&*old(buf)),
                g0 == old(buf)@,
                top <= y < bottom,
                x == left || x <= right,
                left <= x,
                buf@ == Map::new(
                    |p: (int, int)| g0.dom().contains(p),
                    |p: (int, int)|
                        if (left <= p.0 < right && top <= p.1 < y) || (left <= p.0 < x && p.1 == y) {
                            solid(color)
                        } else {
                            g0[p]
                        },
                ),
            decreases right - x,
        {
            fill(buf, x, y, color);
            proof {
                assert(buf@ =~= Map::new(
                    |p: (int, int)| g0.dom().contains(p),
                    |p: (int, int)|
                        if (left <= p.0 < right && top <= p.1 < y) || (left <= p.0 < x + 1 && p.1 == y) {
                            solid(color)
                        } else {
                            g0[p]
                        },
                ));
            }
            x = x + 1;
        }
        proof {
            assert(buf@ =~= put_box(g0, left as int, top as int, right as int, y + 1, solid(color)));
        }
        y = y + 1;
    }
    proof {
        assert(buf@ =~= put_box(g0, left as int, top as int, right as int, bottom as int, solid(color)));
    }
}

/// Puts the cell `c` on row `y` from column `x0` to before `x1`.
pub fn cell_span(buf: &mut Buffer, x0: u16, x1: u16, y: u16, c: Cell)
    requires
        old(buf).wf(),
    ensures
        final(buf).wf(),
        final(buf).same_size(&*old(buf)),
        final(buf)@ == put_box(old(buf)@, x0 as int, y as int, x1 as int, y + 1, c),
{
    let ghost g0 = buf@;
    let mut x = x0;
    while x < x1
        invariant
            buf.wf(),
            buf.same_size(&*old(buf)),
            g0 == old(buf)@,
            x == x0 || x <= x1,
            x0 <= x,
            buf@ == put_box(g0, x0 as int, y as int, x as int, y + 1, c),
        decreases x1 - x,
    {
        if x < buf.width && y < buf.height {
            buf.set(x, y, c);
        }
        proof {
            assert(buf@ =~= put_box(g0, x0 as int, y as int, x + 1, y + 1, c));
        }
        x = x + 1;
    }
    proof {
        assert(buf@ =~= put_box(g0, x0 as int, y as int, x1 as int, y + 1, c));
    }
}

/// Sets a char with fg over an explicit bg.
pub fn glyph(buf: &mut Buffer, x: u16, y: u16, ch: char, fg: Color, bg: Color)
    requires
        old(buf).wf(),
    ensures
        final(buf).wf(),
        final(buf).same_size(&*old(buf)),
        final(buf)@ == put(old(buf)@, x as int, y as int, Cell { symbol: ch, fg, bg }),
{
    if x < buf.width && y < buf.height {
        buf.set(x, y, Cell { symbol: ch, fg, bg });
    }
}

/// Sets a char with fg, keeping whatever bg the cell already has.
pub fn glyph_over(buf: &mut Buffer, x: u16, y: u16, ch: char, fg: Color)
    requires
        old(buf).wf(),
    ensures
        final(buf).wf(),
        final(buf).same_size(&*old(buf)),
        final(buf)@ == put_glyph(old(buf)@, x as int, y as int, ch, fg),
{
    if x < buf.width && y < buf.height {
        let c = buf.get(x, y);
        buf.set(x, y, Cell { symbol: ch, fg, bg: c.bg });
    }
}

/// Writes a string with fg over an explicit bg, one character per column.
pub fn text(buf: &mut Buffer, x: u16, y: u16, s: &str, fg: Color, bg: Color)
    requires
        old(buf).wf(),
    ensures
        final(buf).wf(),
        final(buf).same_size(&*old(buf)),
        final(buf)@ == put_text(old(buf)@, x, y as int, s@, fg, Some(bg)),
{
    let chars = str_chars(s);
    let mut i: usize = 0;
    while i < chars.len()
        invariant
            buf.wf(),
            buf.same_size(&*old(buf)),
            i <= chars@.len(),
            chars@ == s@,
            buf@ == put_text(old(buf)@, x, y as int, s@.take(i as int), fg, Some(bg)),
        decreases chars@.len() - i,
    {
        let dx = x.saturating_add((i % 65536) as u16);
        glyph(buf, dx, y, chars[i], fg, bg);
        proof {
            let t = s@.take(i + 1);
            assert(t.drop_last() =~= s@.take(i as int));
            assert(dx == text_column(x, i as int));
        }
        i = i + 1;
    }
    proof {
        assert(s@.take(chars@.len() as int) =~= s@);
    }
}

/// The red, green and blue components of an RGB color; other colors count
/// as black.
pub fn rgb(c: Color) -> (r: (u8, u8, u8))
    ensures
        r == (match c {
            Color::Rgb(r, g, b) => (r, g, b),
            _ => (0u8, 0u8, 0u8),
        }),
{
    match c {
        Color::Rgb(r, g, b) => (r, g, b),
        _ => (0, 0, 0),
    }
}

/// The mixing function of `hash`, stated with wrapping 32-bit arithmetic.
#[verifier::opaque]
pub open spec fn hash_spec(a: u32, b: u32) -> u32 {
    let h0 = a.wrapping_mul(0x9E37_79B9) ^ b.wrapping_mul(0x85EB_CA6B);
    let h1 = h0 ^ (h0 >> 13u32);
    let h2 = h1.wrapping_mul(0xC2B2_AE35);
    h2 ^ (h2 >> 16u32)
}

/// Small deterministic hash for animation jitter (stable per frame/key).
pub fn hash(a: u32, b: u32) -> (h: u32)
    ensures
        h == hash_spec(a, b),
{
    proof {
        reveal(hash_spec);
    }
    let mut h = a.wrapping_mul(0x9E37_79B9) ^ b.wrapping_mul(0x85EB_CA6B);
    h ^= h >> 13;
    h = h.wrapping_mul(0xC2B2_AE35);
    h ^ (h >> 16)
}

/// Multiplying by `k` and then by `k_inv` gives back `x` when the two are
/// inverses modulo 2^32.
proof fn lemma_mul_inverse(x: u32, k: u32, k_inv: u32)
    requires
        (k as int * k_inv as int) % 0x1_0000_0000 == 1,
    ensures
        x.wrapping_mul(k).wrapping_mul(k_inv) == x,
{
    let m: int = 0x1_0000_0000;
    let xk: int = (x as int * k as int) % m;
    vstd::arithmetic::div_mod::lemma_mul_mod_noop_left(x as int * k as int, k_inv as int, m);
    vstd::arithmetic::mul::lemma_mul_is_associative(x as int, k as int, k_inv as int);
    vstd::arithmetic::div_mod::lemma_mul_mod_noop_right(x as int, k as int * k_inv as int, m);
    vstd::arithmetic::div_mod::lemma_small_mod(x as nat, m as nat);
    assert(xk * k_inv % m == x);
}

/// Undoes `h ^ (h >> 16)` on 32 bits.
pub open spec fn unshift16(h: u32) -> u32 {
    h ^ (h >> 16u32)
}

/// Undoes `h ^ (h >> 13)` on 32 bits.
pub open spec fn unshift13(h: u32) -> u32 {
    h ^ (h >> 13u32) ^ (h >> 26u32)
}

/// The first argument of `hash` recovered from its result and the second.
pub open spec fn recover_first(h: u32, b: u32) -> u32 {
    (unshift13(unshift16(h).wrapping_mul(0x7ED1_B41D)) ^ b.wrapping_mul(0x85EB_CA6B)).wrapping_mul(0x144C_BC89)
}

/// The second argument of `hash` recovered from its result and the first.
pub open spec fn recover_second(h: u32, a: u32) -> u32 {
    (unshift13(unshift16(h).wrapping_mul(0x7ED1_B41D)) ^ a.wrapping_mul(0x9E37_79B9)).wrapping_mul(0xA5CB_9243)
}

/// The mixing core of `hash`, before its last two steps are undone: every
/// step of the hash can be reversed.
proof fn lemma_hash_core(a: u32, b: u32)
    ensures
        unshift13(unshift16(hash_spec(a, b)).wrapping_mul(0x7ED1_B41D)) == a.wrapping_mul(0x9E37_79B9)
            ^ b.wrapping_mul(0x85EB_CA6B),
{
    reveal(hash_spec);
    let h0 = a.wrapping_mul(0x9E37_79B9) ^ b.wrapping_mul(0x85EB_CA6B);
    let h1 = h0 ^ (h0 >> 13u32);
    let h2 = h1.wrapping_mul(0xC2B2_AE35);
    let h = h2 ^ (h2 >> 16u32);
    assert(h == hash_spec(a, b));
    assert((h2 ^ (h2 >> 16u32)) ^ ((h2 ^ (h2 >> 16u32)) >> 16u32) == h2) by (bit_vector);
    lemma_mul_inverse(h1, 0xC2B2_AE35, 0x7ED1_B41D);
    assert((h0 ^ (h0 >> 13u32)) ^ ((h0 ^ (h0 >> 13u32)) >> 13u32) ^ ((h0 ^ (h0 >> 13u32)) >> 26u32) == h0)
        by (bit_vector);
}

/// Law: `hash` loses nothing of either argument; for a fixed second
/// argument it tells every first argument apart, and for a fixed first
/// argument every second.
pub proof fn lemma_hash_injective(a1: u32, a2: u32, b1: u32, b2: u32)
    ensures
        hash_spec(a1, b1) == hash_spec(a2, b1) ==> a1 == a2,
        hash_spec(a1, b1) == hash_spec(a1, b2) ==> b1 == b2,
{
    lemma_hash_recover(a1, b1);
    lemma_hash_recover(a2, b1);
    lemma_hash_recover(a1, b2);
}

/// Each argument of `hash` can be recovered from its result and the other.
pub proof fn lemma_hash_recover(a: u32, b: u32)
    ensures
        recover_first(hash_spec(a, b), b) == a,
        recover_second(hash_spec(a, b), a) == b,
{
    lemma_hash_core(a, b);
    let p = a.wrapping_mul(0x9E37_79B9);
    let q = b.wrapping_mul(0x85EB_CA6B);
    assert((p ^ q) ^ q == p) by (bit_vector);
    assert((p ^ q) ^ p == q) by (bit_vector);
    lemma_mul_inverse(a, 0x9E37_79B9, 0x144C_BC89);
    lemma_mul_inverse(b, 0x85EB_CA6B, 0xA5CB_9243);
}

} // verus!
