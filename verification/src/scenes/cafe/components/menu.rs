//! Menu board: wooden frame, dark board, item list with dot leaders.

use vstd::prelude::*;
use crate::buffer::{Buffer, Grid, put_box, put_text, solid};
use crate::layout::{Rect, rect, sat_sub};
use crate::scenes::cafe::layout::Layout;
use crate::scenes::cafe::paint::{fill_rect, text};
use crate::scenes::cafe::palette::{board_bg, cream, cream_dim, wood};

verus! {

/// Number of menu items.
pub const ITEM_COUNT: usize = 5;

/// The name of menu item `i`.
pub open spec fn item_name(i: int) -> Seq<char> {
    if i == 0 {
        "COFFEE"@
    } else if i == 1 {
        "LATTE"@
    } else if i == 2 {
        "MOCHA"@
    } else if i == 3 {
        "TEA"@
    } else {
        "PAWTISSERIE"@
    }
}

/// The price of menu item `i`, one digit.
pub open spec fn item_price(i: int) -> char {
    if i == 0 || i == 3 {
        '3'
    } else if i == 2 {
        '5'
    } else {
        '4'
    }
}

/// The name, then dots up to column `line_w - 1` (none when the name
/// reaches that far), then the price text.
pub open spec fn dotted_line(name: Seq<char>, price: Seq<char>, line_w: int) -> Seq<char> {
    let dots: int = if line_w - 1 > name.len() { line_w - 1 - name.len() } else { 0 };
    name + Seq::new(dots as nat, |k: int| '.') + price
}

/// A menu line `line_w` characters wide: the name, dots, and the price in
/// the last column (a name too long for dots is followed by the price).
pub open spec fn menu_line(name: Seq<char>, price: char, line_w: int) -> Seq<char> {
    dotted_line(name, seq![price], line_w)
}

/// A menu line whose name leaves room for the price is exactly `line_w`
/// characters wide, with the price in its last column.
pub proof fn lemma_menu_line_width(name: Seq<char>, price: char, line_w: int)
    requires
        name.len() + 1 <= line_w,
    ensures
        menu_line(name, price, line_w).len() == line_w,
        menu_line(name, price, line_w)[line_w - 1] == price,
{
}

/// `g` with the first `n` menu lines written on the board `inner`, from its
/// fourth row down, in cream over the board.
pub open spec fn items_spec(g: Grid, inner: Rect, n: int) -> Grid
    decreases n,
{
    if n <= 0 {
        g
    } else {
        let i = n - 1;
        put_text(items_spec(g, inner, i), (inner.x + 1) as u16, inner.y + 3 + i,
            menu_line(item_name(i), item_price(i), sat_sub(inner.width, 2) as int), cream_dim(), Some(board_bg()))
    }
}

/// How many menu lines fit on the board `inner`: those above its bottom row.
pub open spec fn lines_shown(inner: Rect) -> int {
    let room = inner.spec_bottom() - (inner.y + 3);
    if room < 0 { 0 } else if room > 5 { 5 } else { room }
}

/// The board inside the frame of the menu rectangle `r`.
pub open spec fn board_rect(r: Rect) -> Rect {
    rect((r.x + 1) as u16, (r.y + 1) as u16, (r.width - 2) as u16, (r.height - 2) as u16)
}

/// `g` with the menu board drawn, when the menu is at least 17 x 9: the
/// wooden frame, the dark board, the centered title and the item lines.
pub open spec fn menu_spec(g: Grid, l: Layout) -> Grid {
    let r = l.menu;
    if r.width < 17 || r.height < 9 {
        g
    } else {
        let inner = board_rect(r);
        let g1 = put_box(g, r.x as int, r.y as int, r.spec_right() as int, r.spec_bottom() as int, solid(wood()));
        let g2 = put_box(g1, inner.x as int, inner.y as int, inner.spec_right() as int, inner.spec_bottom() as int,
            solid(board_bg()));
        let title_x = (inner.x + sat_sub(inner.width, 4) / 2) as u16;
        let g3 = put_text(g2, title_x, inner.y + 1, "MENU"@, cream(), Some(board_bg()));
        items_spec(g3, inner, lines_shown(inner))
    }
}

/// Menu item `i`: its name and its price.
fn item(i: usize) -> (r: (&'static str, &'static str))
    requires
        i < ITEM_COUNT,
    ensures
        r.0@ == item_name(i as int),
        r.1@ == seq![item_price(i as int)],
{
    proof {
        reveal_strlit("3");
        reveal_strlit("4");
        reveal_strlit("5");
    }
    if i == 0 {
        ("COFFEE", "3")
    } else if i == 1 {
        ("LATTE", "4")
    } else if i == 2 {
        ("MOCHA", "5")
    } else if i == 3 {
        ("TEA", "3")
    } else {
        ("PAWTISSERIE", "4")
    }
}

/// The menu line for `name` and `price`: the name, dots up to column
/// `line_w - 1`, then the price.
pub fn build_line(name: &str, price: &str, line_w: usize) -> (line: String)
    ensures
        line@ == dotted_line(name@, price@, line_w as int),
{
    let mut line = String::from_str(name);
    let mut count = name.unicode_len();
    proof {
        reveal_strlit(".");
        assert(line@ =~= name@ + Seq::new(0, |k: int| '.'));
    }
    while line_w > 0 && count < line_w - 1
        invariant
            count >= name@.len(),
            line@ == name@ + Seq::new((count - name@.len()) as nat, |k: int| '.'),
            line_w - 1 > name@.len() ==> count <= line_w - 1,
            line_w - 1 <= name@.len() ==> count == name@.len(),
        decreases line_w - count,
    {
        line.append(".");
        proof {
            reveal_strlit(".");
            assert(line@ =~= name@ + Seq::new((count + 1 - name@.len()) as nat, |k: int| '.'));
        }
        count = count + 1;
    }
    line.append(price);
    line
}

/// Draws the menu board: wooden frame, dark board, the title centered on
/// its second row and one dot-leader line per item from its fourth row, as
/// many as fit.
pub fn draw(buf: &mut Buffer, l: &Layout)
    requires
        old(buf).wf(),
        l.menu.valid(),
    ensures
        final(buf).wf(),
        final(buf).same_size(&*old(buf)),
        final(buf)@ == menu_spec(old(buf)@, *l),
{
    let r = l.menu;
    if r.width < 17 || r.height < 9 {
        return;
    }
    fill_rect(buf, r, wood());
    let inner = Rect::new(r.x + 1, r.y + 1, r.width - 2, r.height - 2);
    fill_rect(buf, inner, board_bg());
    let title_x = inner.x + (inner.width.saturating_sub(4)) / 2;
    proof {
        reveal_strlit("MENU");
    }
    text(buf, title_x, inner.y + 1, "MENU", cream(), board_bg());
    let ghost g3 = buf@;
    let line_w = inner.width.saturating_sub(2) as usize;
    let bottom = inner.bottom();
    let mut i: usize = 0;
    while i < ITEM_COUNT
        invariant
            buf.wf(),
            buf.same_size(&*old(buf)),
            inner == board_rect(r),
            r.width >= 17,
            r.height >= 9,
            r.valid(),
            bottom == inner.spec_bottom(),
            line_w == sat_sub(inner.width, 2),
            i <= ITEM_COUNT,
            i <= lines_shown(inner),
            buf@ == items_spec(g3, inner, i as int),
        ensures
            buf.wf(),
            buf.same_size(&*old(buf)),
            buf@ == items_spec(g3, inner, lines_shown(inner)),
        decreases ITEM_COUNT - i,
    {
        let y = inner.y + 3 + i as u16;
        if y >= bottom {
            break;
        }
        let (name, price) = item(i);
        let line = build_line(name, price, line_w);
        text(buf, inner.x + 1, y, line.as_str(), cream_dim(), board_bg());
        i = i + 1;
    }
}

} // verus!
