//! The sidewalk signboard: two parallelogram boards on legs (a dark one
//! behind, a bright one in front) reading "FREE MEOW-FI", with a slot for
//! the paw-print sprite.

use vstd::prelude::*;
use crate::buffer::{Buffer, Cell, Grid, put_text};
use crate::layout::{Rect, rect, sat_sub};
use crate::scenes::cafe::layout::Layout;
use crate::scenes::cafe::paint::text;
use crate::style::Color;

verus! {

/// Height of a sign board in rows.
pub const SIGN_H: u16 = 10;

/// Board face of the front sign.
#[verifier::allow_in_spec]
pub fn sign_bg() -> Color
    returns
        Color::Rgb(25, 20, 18),
{
    Color::Rgb(25, 20, 18)
}

/// Frame of the front sign.
#[verifier::allow_in_spec]
pub fn sign_frame() -> Color
    returns
        Color::Rgb(100, 55, 28),
{
    Color::Rgb(100, 55, 28)
}

/// Board face of the back sign.
#[verifier::allow_in_spec]
pub fn sign_bg_dark() -> Color
    returns
        Color::Rgb(15, 12, 10),
{
    Color::Rgb(15, 12, 10)
}

/// Frame of the back sign and shade of the legs.
#[verifier::allow_in_spec]
pub fn sign_frame_dark() -> Color
    returns
        Color::Rgb(54, 29, 21),
{
    Color::Rgb(54, 29, 21)
}

/// Lettering on the front sign.
#[verifier::allow_in_spec]
pub fn sign_text() -> Color
    returns
        Color::Rgb(220, 180, 120),
{
    Color::Rgb(220, 180, 120)
}

/// Left column of the signs: 24 columns from the right edge.
pub open spec fn sign_left(l: Layout) -> u16 {
    sat_sub(l.w, 24)
}

/// Top row of the signs: the legs end 4 rows below the floor line.
pub open spec fn sign_top(l: Layout) -> u16 {
    sat_sub((l.floor_y + 4) as u16, SIGN_H)
}

/// Cells on the front sign's face where the paw-print sprite sits,
/// centered under the lettering.
pub fn paw_slot(l: &Layout) -> (r: Rect)
    requires
        l.floor_y + 4 <= u16::MAX,
    ensures
        r == rect((sign_left(*l) + 7) as u16, (sign_top(*l) + 6) as u16, 4, 2),
{
    let sx = l.w.saturating_sub(24);
    let sy = (l.floor_y + 4).saturating_sub(SIGN_H);
    Rect::new(sx + 7, sy + 6, 4, 2)
}

/// How far row `row` of a board is shifted right: the back board leans one
/// way (`row / 2`) and the front board the other (`(9 - row) / 2`).
pub open spec fn lean(front: bool, row: int) -> int {
    if front { (SIGN_H - 1 - row) / 2 } else { row / 2 }
}

/// `g` with a board `w` columns wide at column `sx` and row `sy`: each of
/// its rows shifted by `lean`, framed in `frame` with `bg` inside; each
/// cell becomes a space with that background, keeping its foreground. The
/// board is drawn only when its unshifted box fits the `width` x `height`
/// grid; columns shifted past the right edge are dropped.
pub open spec fn sign_spec(g: Grid, width: int, height: int, sx: int, sy: int, bg: Color, frame: Color, w: int, front: bool) -> Grid {
    if sx + w > width || sy + SIGN_H > height {
        g
    } else {
        Map::new(
            |p: (int, int)| g.dom().contains(p),
            |p: (int, int)| {
                let row = p.1 - sy;
                let col = p.0 - sx - lean(front, row);
                if 0 <= row < SIGN_H && 0 <= col < w {
                    let c = if row == 0 || row == SIGN_H - 1 || col == 0 || col == w - 1 { frame } else { bg };
                    Cell { symbol: ' ', fg: g[p].fg, bg: c }
                } else {
                    g[p]
                }
            },
        )
    }
}

/// `g` with a one-cell leg at `(x, y)`: a space with background `color`,
/// keeping its foreground.
pub open spec fn leg_spec(g: Grid, x: int, y: int, color: Color) -> Grid {
    if g.dom().contains((x, y)) {
        g.insert((x, y), Cell { symbol: ' ', fg: g[(x, y)].fg, bg: color })
    } else {
        g
    }
}

fn draw_sign(buf: &mut Buffer, sx: u16, sy: u16, bg: Color, frame: Color, w: u16, x_off: u16, front: bool)
    requires
        old(buf).wf(),
        sx + x_off + w + 4 <= u16::MAX,
        sy + SIGN_H <= u16::MAX,
        w >= 1,
    ensures
        final(buf).wf(),
        final(buf).same_size(&*old(buf)),
        final(buf)@ == sign_spec(old(buf)@, old(buf).width as int, old(buf).height as int, sx + x_off,
            sy as int, bg, frame, w as int, front),
{
    let sx = sx + x_off;
    if sx + w > buf.width || sy + SIGN_H > buf.height {
        return;
    }
    let ghost g0 = buf@;
    let mut row: u16 = 0;
    while row < SIGN_H
        invariant
            buf.wf(),
            buf.same_size(&*old(buf)),
            g0 == old(buf)@,
            sx + w <= buf.width,
            sx + w + 4 <= u16::MAX,
            sy + SIGN_H <= buf.height,
            w >= 1,
            row <= SIGN_H,
            buf@ == Map::new(
                |p: (int, int)| g0.dom().contains(p),
                |p: (int, int)| {
                    let r = p.1 - sy;
                    let col = p.0 - sx - lean(front, r);
                    if 0 <= r < row && 0 <= col < w {
                        let c = if r == 0 || r == SIGN_H - 1 || col == 0 || col == w - 1 { frame } else { bg };
                        Cell { symbol: ' ', fg: g0[p].fg, bg: c }
                    } else {
                        g0[p]
                    }
                },
            ),
        decreases SIGN_H - row,
    {
        let abs_y = sy + row;
        let shift = if front { (SIGN_H - 1 - row) / 2 } else { row / 2 };
        let ghost before = buf@;
        let mut col: u16 = 0;
        while col < w
            invariant
                buf.wf(),
                buf.same_size(&*old(buf)),
                sx + w <= buf.width,
                sx + w + 4 <= u16::MAX,
                abs_y == sy + row,
                abs_y < buf.height,
                row < SIGN_H,
                shift == lean(front, row as int),
                shift <= 4,
                col <= w,
                w >= 1,
                buf@ == Map::new(
                    |p: (int, int)| before.dom().contains(p),
                    |p: (int, int)| {
                        let c = p.0 - sx - shift;
                        if p.1 == abs_y && 0 <= c < col {
                            let k = if row == 0 || row == SIGN_H - 1 || c == 0 || c == w - 1 { frame } else { bg };
                            Cell { symbol: ' ', fg: before[p].fg, bg: k }
                        } else {
                            before[p]
                        }
                    },
                ),
            ensures
                buf.wf(),
                buf.same_size(&*old(buf)),
                buf@ == Map::new(
                    |p: (int, int)| before.dom().contains(p),
                    |p: (int, int)| {
                        let c = p.0 - sx - shift;
                        if p.1 == abs_y && 0 <= c < w {
                            let k = if row == 0 || row == SIGN_H - 1 || c == 0 || c == w - 1 { frame } else { bg };
                            Cell { symbol: ' ', fg: before[p].fg, bg: k }
                        } else {
                            before[p]
                        }
                    },
                ),
            decreases w - col,
        {
            let abs_x = sx + col + shift;
            if abs_x >= buf.width {
                proof {
                    assert(buf@ =~= Map::new(
                        |p: (int, int)| before.dom().contains(p),
                        |p: (int, int)| {
                            let c = p.0 - sx - shift;
                            if p.1 == abs_y && 0 <= c < w {
                                let k = if row == 0 || row == SIGN_H - 1 || c == 0 || c == w - 1 { frame } else { bg };
                                Cell { symbol: ' ', fg: before[p].fg, bg: k }
                            } else {
                                before[p]
                            }
                        },
                    ));
                }
                break;
            }
            let color = if row == 0 || row == SIGN_H - 1 || col == 0 || col == w - 1 { frame } else { bg };
            let old_cell = buf.get(abs_x, abs_y);
            buf.set(abs_x, abs_y, Cell { symbol: ' ', fg: old_cell.fg, bg: color });
            proof {
                assert(buf@ =~= Map::new(
                    |p: (int, int)| before.dom().contains(p),
                    |p: (int, int)| {
                        let c = p.0 - sx - shift;
                        if p.1 == abs_y && 0 <= c < col + 1 {
                            let k = if row == 0 || row == SIGN_H - 1 || c == 0 || c == w - 1 { frame } else { bg };
                            Cell { symbol: ' ', fg: before[p].fg, bg: k }
                        } else {
                            before[p]
                        }
                    },
                ));
            }
            col = col + 1;
        }
        proof {
            assert(buf@ =~= Map::new(
                |p: (int, int)| g0.dom().contains(p),
                |p: (int, int)| {
                    let r = p.1 - sy;
                    let col = p.0 - sx - lean(front, r);
                    if 0 <= r < row + 1 && 0 <= col < w {
                        let c = if r == 0 || r == SIGN_H - 1 || col == 0 || col == w - 1 { frame } else { bg };
                        Cell { symbol: ' ', fg: g0[p].fg, bg: c }
                    } else {
                        g0[p]
                    }
                },
            ));
        }
        row = row + 1;
    }
    proof {
        assert(buf@ =~= sign_spec(g0, old(buf).width as int, old(buf).height as int, sx as int, sy as int, bg,
            frame, w as int, front));
    }
}

fn draw_leg(buf: &mut Buffer, sx: u16, sy: u16, color: Color, x_off: u16, leg_col: u16)
    requires
        old(buf).wf(),
        sx + x_off + leg_col <= u16::MAX,
        sy + SIGN_H <= u16::MAX,
    ensures
        final(buf).wf(),
        final(buf).same_size(&*old(buf)),
        final(buf)@ == leg_spec(old(buf)@, sx + x_off + leg_col, sy + SIGN_H, color),
{
    let abs_x = sx + x_off + leg_col;
    let leg_y = sy + SIGN_H;
    if leg_y < buf.height && abs_x < buf.width {
        let c = buf.get(abs_x, leg_y);
        buf.set(abs_x, leg_y, Cell { symbol: ' ', fg: c.fg, bg: color });
    }
}

/// `g` with "FREE" and "MEOW-FI" centered on the front board (`w` columns
/// at `sx + x_off`), on its third and fifth rows.
pub open spec fn logo_spec(g: Grid, sx: int, sy: int, w: int, x_off: int) -> Grid {
    let g1 = put_text(g, (sx + x_off + (w - 4) / 2) as u16, sy + 2, "FREE"@, sign_text(), Some(sign_bg()));
    put_text(g1, (sx + x_off + (w - 7) / 2) as u16, sy + 4, "MEOW-FI"@, sign_text(), Some(sign_bg()))
}

fn draw_logo(buf: &mut Buffer, sx: u16, sy: u16, w: u16, x_off: u16)
    requires
        old(buf).wf(),
        w >= 7,
        sx + x_off + w <= u16::MAX,
        sy + 4 <= u16::MAX,
    ensures
        final(buf).wf(),
        final(buf).same_size(&*old(buf)),
        final(buf)@ == logo_spec(old(buf)@, sx as int, sy as int, w as int, x_off as int),
{
    let sign_sx = sx + x_off;
    proof {
        reveal_strlit("FREE");
        reveal_strlit("MEOW-FI");
    }
    text(buf, sign_sx + (w - 4) / 2, sy + 2, "FREE", sign_text(), sign_bg());
    text(buf, sign_sx + (w - 7) / 2, sy + 4, "MEOW-FI", sign_text(), sign_bg());
}

/// `g` with the whole signboard: the back board and its legs, the front
/// board and its legs, and the lettering. `width` and `height` are the
/// grid's size.
pub open spec fn signboard_spec(g: Grid, width: int, height: int, l: Layout) -> Grid {
    let sx = sign_left(l) as int;
    let sy = sign_top(l) as int;
    let g1 = sign_spec(g, width, height, sx + 4, sy, sign_bg_dark(), sign_frame_dark(), 15, false);
    let g2 = leg_spec(g1, sx + 4, sy + SIGN_H, sign_frame_dark());
    let g3 = leg_spec(g2, sx + 22, sy + SIGN_H, sign_frame_dark());
    let g4 = sign_spec(g3, width, height, sx, sy, sign_bg(), sign_frame(), 16, true);
    let g5 = leg_spec(g4, sx, sy + SIGN_H, sign_frame());
    let g6 = leg_spec(g5, sx + 1, sy + SIGN_H, sign_frame_dark());
    let g7 = leg_spec(g6, sx + 15, sy + SIGN_H, sign_frame());
    let g8 = leg_spec(g7, sx + 16, sy + SIGN_H, sign_frame_dark());
    logo_spec(g8, sx, sy, 16, 2)
}

/// Whether the lettering can be drawn: each line's row lies in the grid,
/// or its first column lies right of it (the terminal refuses a line that
/// starts inside the grid on a row past its bottom).
pub open spec fn logo_fits(l: Layout, width: int, height: int) -> bool {
    let sx = sign_left(l) as int;
    let sy = sign_top(l) as int;
    &&& (sy + 2 < height || sx + 8 >= width)
    &&& (sy + 4 < height || sx + 6 >= width)
}

/// Draws both parallelogram signs (dark behind, bright on top), their legs
/// and the "FREE MEOW-FI" lettering.
pub fn draw(buf: &mut Buffer, l: &Layout)
    requires
        old(buf).wf(),
        l.floor_y + 4 <= u16::MAX,
        logo_fits(*l, old(buf).width as int, old(buf).height as int),
    ensures
        final(buf).wf(),
        final(buf).same_size(&*old(buf)),
        final(buf)@ == signboard_spec(old(buf)@, old(buf).width as int, old(buf).height as int, *l),
{
    let base_sx = l.w.saturating_sub(24);
    let sy = (l.floor_y + 4).saturating_sub(SIGN_H);
    draw_sign(buf, base_sx, sy, sign_bg_dark(), sign_frame_dark(), 15, 4, false);
    draw_leg(buf, base_sx, sy, sign_frame_dark(), 4, 0);
    draw_leg(buf, base_sx, sy, sign_frame_dark(), 4, 18);
    draw_sign(buf, base_sx, sy, sign_bg(), sign_frame(), 16, 0, true);
    draw_leg(buf, base_sx, sy, sign_frame(), 0, 0);
    draw_leg(buf, base_sx, sy, sign_frame_dark(), 0, 1);
    draw_leg(buf, base_sx, sy, sign_frame(), 0, 15);
    draw_leg(buf, base_sx, sy, sign_frame_dark(), 0, 16);
    draw_logo(buf, base_sx, sy, 16, 2);
}

} // verus!
