//! Retro CRT terminal sitting on the counter, with a blinking cursor.

use vstd::prelude::*;
use crate::buffer::{Buffer, Cell, Grid, put, put_box, put_text, solid};
use crate::layout::Rect;
use crate::layout::rect;
use crate::scenes::cafe::layout::Layout;
use crate::scenes::cafe::paint::{fill_rect, glyph, text};
use crate::scenes::cafe::palette::{crt_bezel, crt_bg, crt_green};

verus! {

/// The text lines on the screen.
pub open spec fn crt_line(i: int) -> Seq<char> {
    if i == 0 { "WELCOME TO"@ } else if i == 1 { "CAT CAFE TERMINAL"@ } else { "> ORDER"@ }
}

/// The screen inside the bezel.
pub open spec fn screen_of(r: Rect) -> Rect {
    rect((r.x + 1) as u16, (r.y + 1) as u16, (r.width - 2) as u16, (r.height - 2) as u16)
}

/// `g` with line `i` written on the screen, if that row is on the screen.
pub open spec fn crt_text(g: Grid, s: Rect, i: int) -> Grid {
    if s.y + i < s.spec_bottom() {
        put_text(g, (s.x + 1) as u16, s.y + i, crt_line(i), crt_green(), Some(crt_bg()))
    } else {
        g
    }
}

/// `g` with the terminal drawn: bezel, dark screen, three green lines and,
/// when `cursor_on`, a block cursor on the row below them.
pub open spec fn terminal_spec(g: Grid, l: Layout, cursor_on: bool) -> Grid {
    let r = l.terminal;
    let s = screen_of(r);
    let g1 = put_box(g, r.x as int, r.y as int, r.spec_right() as int, r.spec_bottom() as int, solid(crt_bezel()));
    let g2 = put_box(g1, s.x as int, s.y as int, s.spec_right() as int, s.spec_bottom() as int, solid(crt_bg()));
    let g5 = crt_text(crt_text(crt_text(g2, s, 0), s, 1), s, 2);
    if cursor_on && s.y + 3 < s.spec_bottom() {
        put(g5, s.x + 1, s.y + 3, Cell { symbol: '▉', fg: crt_green(), bg: crt_bg() })
    } else {
        g5
    }
}

/// The text line with index `i`.
fn crt_line_exec(i: usize) -> (s: &'static str)
    ensures
        s@ == crt_line(i as int),
{
    if i == 0 { "WELCOME TO" } else if i == 1 { "CAT CAFE TERMINAL" } else { "> ORDER" }
}

/// Draws the terminal when it is at least 21 x 6. `cursor_on` is the
/// current phase of the cursor blink (on 60% of every second).
pub fn draw(buf: &mut Buffer, l: &Layout, cursor_on: bool)
    requires
        old(buf).wf(),
        l.terminal.valid(),
    ensures
        final(buf).wf(),
        final(buf).same_size(&*old(buf)),
        final(buf)@ == (if l.terminal.width < 21 || l.terminal.height < 6 { old(buf)@ } else { terminal_spec(old(buf)@, *l, cursor_on) }),
{
    let r = l.terminal;
    if r.width < 21 || r.height < 6 {
        return;
    }
    fill_rect(buf, r, crt_bezel());
    let screen = Rect::new(r.x + 1, r.y + 1, r.width - 2, r.height - 2);
    fill_rect(buf, screen, crt_bg());
    let ghost g2 = buf@;
    let mut i: usize = 0;
    while i < 3
        invariant
            buf.wf(),
            buf.same_size(&*old(buf)),
            i <= 3,
            r == l.terminal,
            r.valid(),
            r.width >= 21,
            r.height >= 6,
            screen == screen_of(r),
            buf@ == (if i == 0 { g2 } else if i == 1 { crt_text(g2, screen, 0) } else if i == 2 {
                crt_text(crt_text(g2, screen, 0), screen, 1)
            } else {
                crt_text(crt_text(crt_text(g2, screen, 0), screen, 1), screen, 2)
            }),
        decreases 3 - i,
    {
        let y = screen.y + i as u16;
        if y < screen.bottom() {
            text(buf, screen.x + 1, y, crt_line_exec(i), crt_green(), crt_bg());
        }
        i = i + 1;
    }
    if cursor_on {
        let y = screen.y + 3;
        if y < screen.bottom() {
            glyph(buf, screen.x + 1, y, '▉', crt_green(), crt_bg());
        }
    }
}

} // verus!
