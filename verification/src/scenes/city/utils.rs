//! Bounds-checked cell access used by the city renderers.

use vstd::prelude::*;
use crate::buffer::{Buffer, Cell, put, put_glyph, put_text, text_column};
use crate::scenes::cafe::paint::{glyph, glyph_over};
use crate::style::Color;
use crate::text::str_chars;

verus! {

/// The dimmed version of a color: an RGB color at a third of its intensity,
/// fixed dark shades for the basic named colors, and a near-black blue for
/// every other color.
pub open spec fn darken_spec(c: Color) -> Color {
    match c {
        Color::Rgb(r, g, b) => Color::Rgb(r / 3, g / 3, b / 3),
        Color::Red => Color::Rgb(100, 0, 0),
        Color::Green => Color::Rgb(0, 100, 0),
        Color::Blue => Color::Rgb(0, 0, 100),
        Color::Yellow => Color::Rgb(100, 100, 0),
        Color::Cyan => Color::Rgb(0, 100, 100),
        Color::Magenta => Color::Rgb(100, 0, 100),
        Color::White => Color::Rgb(100, 100, 100),
        _ => Color::Rgb(10, 10, 20),
    }
}

/// Dims a color for reflections, shadows and background silhouettes.
pub fn darken_color(c: Color) -> (r: Color)
    ensures
        r == darken_spec(c),
{
    match c {
        Color::Rgb(r, g, b) => Color::Rgb(r / 3, g / 3, b / 3),
        Color::Red => Color::Rgb(100, 0, 0),
        Color::Green => Color::Rgb(0, 100, 0),
        Color::Blue => Color::Rgb(0, 0, 100),
        Color::Yellow => Color::Rgb(100, 100, 0),
        Color::Cyan => Color::Rgb(0, 100, 100),
        Color::Magenta => Color::Rgb(100, 0, 100),
        Color::White => Color::Rgb(100, 100, 100),
        _ => Color::Rgb(10, 10, 20),
    }
}

/// Sets the character and foreground at `(x, y)` if it is on the grid,
/// keeping the background.
pub fn safe_set_char(buf: &mut Buffer, x: u16, y: u16, ch: char, fg: Color)
    requires
        old(buf).wf(),
    ensures
        final(buf).wf(),
        final(buf).same_size(&*old(buf)),
        final(buf)@ == put_glyph(old(buf)@, x as int, y as int, ch, fg),
{
    glyph_over(buf, x, y, ch, fg);
}

/// Sets the character, foreground and background at `(x, y)` if it is on
/// the grid.
pub fn safe_set_char_with_bg(buf: &mut Buffer, x: u16, y: u16, ch: char, fg: Color, bg: Color)
    requires
        old(buf).wf(),
    ensures
        final(buf).wf(),
        final(buf).same_size(&*old(buf)),
        final(buf)@ == put(old(buf)@, x as int, y as int, Cell { symbol: ch, fg, bg }),
{
    glyph(buf, x, y, ch, fg, bg);
}

/// Sets the symbol and foreground at `(x, y)` if it is on the grid, keeping
/// the background.
pub fn safe_set_symbol(buf: &mut Buffer, x: u16, y: u16, sym: char, fg: Color)
    requires
        old(buf).wf(),
    ensures
        final(buf).wf(),
        final(buf).same_size(&*old(buf)),
        final(buf)@ == put_glyph(old(buf)@, x as int, y as int, sym, fg),
{
    glyph_over(buf, x, y, sym, fg);
}

/// Sets the symbol, foreground and background at `(x, y)` if it is on the
/// grid.
pub fn safe_set_symbol_with_bg(buf: &mut Buffer, x: u16, y: u16, sym: char, fg: Color, bg: Color)
    requires
        old(buf).wf(),
    ensures
        final(buf).wf(),
        final(buf).same_size(&*old(buf)),
        final(buf)@ == put(old(buf)@, x as int, y as int, Cell { symbol: sym, fg, bg }),
{
    glyph(buf, x, y, sym, fg, bg);
}

/// Writes `s` left to right from `(x, y)` in `fg`, keeping each cell's
/// background; characters that fall off the grid are dropped.
pub fn safe_set_string(buf: &mut Buffer, x: u16, y: u16, s: &str, fg: Color)
    requires
        old(buf).wf(),
    ensures
        final(buf).wf(),
        final(buf).same_size(&*old(buf)),
        final(buf)@ == put_text(old(buf)@, x, y as int, s@, fg, None),
{
    let chars = str_chars(s);
    if y < buf.height {
        let mut i: usize = 0;
        while i < chars.len()
            invariant
                buf.wf(),
                buf.same_size(&*old(buf)),
                y < buf.height,
                i <= chars@.len(),
                chars@ == s@,
                buf@ == put_text(old(buf)@, x, y as int, s@.take(i as int), fg, None),
            decreases chars@.len() - i,
        {
            let dx = x.saturating_add((i % 65536) as u16);
            if dx < buf.width {
                let c = buf.get(dx, y);
                buf.set(dx, y, Cell { symbol: chars[i], fg, bg: c.bg });
            }
            proof {
                let t = s@.take(i + 1);
                assert(t.drop_last() =~= s@.take(i as int));
                assert(dx == text_column(x, i as int));
            }
            i = i + 1;
        }
        proof {
            assert(s@.take(chars@.len() as int) =~= s@);
        }
    } else {
        proof {
            lemma_text_off_grid(old(buf)@, x, y as int, s@, fg);
        }
    }
}

/// Text written on a row outside the grid changes nothing.
proof fn lemma_text_off_grid(g: crate::buffer::Grid, x: u16, y: int, s: Seq<char>, fg: Color)
    requires
        forall|p: (int, int)| g.dom().contains(p) ==> p.1 != y,
    ensures
        put_text(g, x, y, s, fg, None) == g,
    decreases s.len(),
{
    if s.len() > 0 {
        lemma_text_off_grid(g, x, y, s.drop_last(), fg);
    }
}

/// The foreground at `(x, y)`, or `Reset` off the grid.
pub fn safe_get_fg(buf: &Buffer, x: u16, y: u16) -> (c: Color)
    requires
        buf.wf(),
    ensures
        c == (if buf.contains(x as int, y as int) { buf@[(x as int, y as int)].fg } else { Color::Reset }),
{
    if x < buf.width && y < buf.height {
        buf.get(x, y).fg
    } else {
        Color::Reset
    }
}

/// The background at `(x, y)`, or `Reset` off the grid.
pub fn safe_get_bg(buf: &Buffer, x: u16, y: u16) -> (c: Color)
    requires
        buf.wf(),
    ensures
        c == (if buf.contains(x as int, y as int) { buf@[(x as int, y as int)].bg } else { Color::Reset }),
{
    if x < buf.width && y < buf.height {
        buf.get(x, y).bg
    } else {
        Color::Reset
    }
}

/// The symbol at `(x, y)`, or a space off the grid.
pub fn safe_get_symbol(buf: &Buffer, x: u16, y: u16) -> (c: char)
    requires
        buf.wf(),
    ensures
        c == (if buf.contains(x as int, y as int) { buf@[(x as int, y as int)].symbol } else { ' ' }),
{
    if x < buf.width && y < buf.height {
        buf.get(x, y).symbol
    } else {
        ' '
    }
}

} // verus!
