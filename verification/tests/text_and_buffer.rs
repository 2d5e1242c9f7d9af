use metrocity::buffer::{Buffer, Cell};
use metrocity::layout::Rect;
use metrocity::scenes::cafe::background::draw_counter;
use metrocity::scenes::cafe::components::{counter_props, pastry_case, terminal};
use metrocity::scenes::cafe::layout::Layout;
use metrocity::scenes::cafe::palette::{counter_body, counter_shadow, counter_top, crt_bg, crt_green, glass, mug, steam};
use metrocity::style::Color;
use metrocity::text::{contains, decimal_len, digit_str, push_decimal, push_zero_padded, str_chars, str_eq};

#[test]
fn decimal_text() {
    let mut s = String::new();
    push_decimal(&mut s, 0);
    s.push(' ');
    push_decimal(&mut s, 12345);
    s.push(' ');
    push_decimal(&mut s, u64::MAX);
    assert_eq!(s, "0 12345 18446744073709551615");
    assert_eq!(decimal_len(0), 1);
    assert_eq!(decimal_len(9), 1);
    assert_eq!(decimal_len(10), 2);
    assert_eq!(decimal_len(u64::MAX), 20);
    assert_eq!(digit_str(7), "7");
}

#[test]
fn zero_padding() {
    let mut s = String::new();
    push_zero_padded(&mut s, 7, 2);
    s.push('|');
    push_zero_padded(&mut s, 123, 2);
    s.push('|');
    push_zero_padded(&mut s, 5, 0);
    s.push('|');
    push_zero_padded(&mut s, 42, 4);
    assert_eq!(s, "07|123|5|0042");
}

#[test]
fn substring_search_and_equality() {
    assert!(contains("xterm-kitty", "kitty"));
    assert!(contains("kitty", "kitty"));
    assert!(contains("abc", ""));
    assert!(!contains("kit", "kitty"));
    assert!(!contains("xterm", "kitty"));
    assert!(str_eq("abc", "abc"));
    assert!(!str_eq("abc", "abd"));
    assert!(!str_eq("abc", "ab"));
    assert_eq!(str_chars("héllo"), vec!['h', 'é', 'l', 'l', 'o']);
}

#[test]
fn buffer_get_after_set() {
    let mut b = Buffer::empty(3, 2);
    assert_eq!(b.cells.len(), 6);
    let c = Cell { symbol: 'x', fg: Color::Red, bg: Color::Blue };
    b.set(2, 1, c);
    assert_eq!(b.get(2, 1), c);
    assert_eq!(b.cells[5], c);
    assert_eq!(b.get(1, 1), Cell { symbol: ' ', fg: Color::Reset, bg: Color::Reset });
}

#[test]
fn rect_edges_saturate() {
    let r = Rect::new(65530, 10, 20, 5);
    assert_eq!(r.width, 5);
    assert_eq!(r.right(), 65535);
    assert_eq!(r.bottom(), 15);
    assert_eq!((r.left(), r.top()), (65530, 10));
}

#[test]
fn counter_spans_the_width() {
    let l = Layout::new(40, 20);
    let mut buf = Buffer::empty(40, 20);
    draw_counter(&mut buf, &l);
    assert_eq!(buf.get(0, 12).bg, counter_top());
    assert_eq!(buf.get(39, 13).bg, counter_shadow());
    assert_eq!(buf.get(20, 16).bg, counter_body());
    assert_eq!(buf.get(20, 17).bg, Color::Reset);
}

#[test]
fn steaming_mug_sways() {
    let l = Layout::new(120, 40);
    let mut buf = Buffer::empty(120, 40);
    counter_props::draw(&mut buf, &l, 1);
    let (x, y) = (l.mug_x, l.counter_y - 1);
    assert_eq!(buf.get(x, y).bg, mug());
    assert_eq!(buf.get(x + 2, y).symbol, ')');
    assert_eq!(buf.get(x + 1, y - 1), Cell { symbol: '(', fg: steam(), bg: Color::Reset });
    assert_eq!(buf.get(x, y - 2).symbol, ')');
}

#[test]
fn crt_terminal_lines_and_cursor() {
    let l = Layout::new(120, 40);
    let mut buf = Buffer::empty(120, 40);
    terminal::draw(&mut buf, &l, true);
    let s = Rect::new(l.terminal.x + 1, l.terminal.y + 1, l.terminal.width - 2, l.terminal.height - 2);
    let line = |y: u16, n: u16| -> String { (s.x + 1..s.x + 1 + n).map(|x| buf.get(x, y).symbol).collect() };
    assert_eq!(line(s.y, 10), "WELCOME TO");
    assert_eq!(line(s.y + 1, 17), "CAT CAFE TERMINAL");
    assert_eq!(line(s.y + 2, 7), "> ORDER");
    assert_eq!(buf.get(s.x + 1, s.y + 3), Cell { symbol: '▉', fg: crt_green(), bg: crt_bg() });
    let mut off = Buffer::empty(120, 40);
    terminal::draw(&mut off, &l, false);
    assert_eq!(off.get(s.x + 1, s.y + 3), Cell { symbol: ' ', fg: crt_bg(), bg: crt_bg() });
}

#[test]
fn pastry_case_has_two_glass_shelves() {
    let l = Layout::new(120, 40);
    let mut buf = Buffer::empty(120, 40);
    pastry_case::draw(&mut buf, &l);
    let r = l.pastry_case;
    assert_eq!(buf.get(r.x + 1, r.y + r.height / 2), Cell { symbol: '─', fg: glass(), bg: pastry_case::interior() });
    assert_eq!(buf.get(r.x + 1, r.y + r.height - 1).symbol, '─');
    assert_eq!(buf.get(r.x, r.y).symbol, ' ');
}
