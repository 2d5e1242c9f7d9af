use metrocity::buffer::{Buffer, Cell};
use metrocity::scenes::sakura::tree::{trunk_d, trunk_l, trunk_m, Tree};
use metrocity::style::Color;

#[test]
fn reset_gives_an_empty_grid() {
    let mut t = Tree::new();
    assert_eq!((t.w, t.h), (0, 0));
    t.sources.push((1, 1));
    t.reset(4, 3);
    assert_eq!(t.cells.len(), 12);
    assert!(t.cells.iter().all(|c| c.is_none()));
    assert!(t.sources.is_empty());
}

#[test]
fn put_ignores_cells_off_the_grid() {
    let mut t = Tree::new();
    t.reset(4, 3);
    t.put(-1, 0, 'x', Color::Red);
    t.put(0, -1, 'x', Color::Red);
    t.put(4, 0, 'x', Color::Red);
    t.put(0, 3, 'x', Color::Red);
    assert!(t.cells.iter().all(|c| c.is_none()));
    t.put(2, 1, '█', trunk_m());
    assert_eq!(t.cells[6], Some(('█', trunk_m())));
}

#[test]
fn wood_is_any_trunk_tone() {
    let mut t = Tree::new();
    t.reset(5, 2);
    t.put(0, 0, '█', trunk_d());
    t.put(1, 0, '▓', trunk_l());
    t.put(2, 0, '❀', Color::Rgb(0xfc, 0xd9, 0xea));
    assert!(t.is_wood(0, 0));
    assert!(t.is_wood(1, 0));
    assert!(!t.is_wood(2, 0));
    assert!(!t.is_wood(3, 0));
    assert!(!t.is_wood(9, 9));
}

#[test]
fn draw_blits_filled_cells_over_the_background() {
    let mut t = Tree::new();
    t.reset(3, 2);
    t.put(1, 0, '❀', Color::Magenta);
    t.put(2, 1, '█', trunk_d());
    let mut buf = Buffer::empty(2, 2);
    buf.set(1, 0, Cell { symbol: ' ', fg: Color::Reset, bg: Color::Blue });
    t.draw(&mut buf);
    assert_eq!(buf.get(1, 0), Cell { symbol: '❀', fg: Color::Magenta, bg: Color::Blue });
    // (2, 1) lies right of the buffer
    assert_eq!(buf.get(0, 0).symbol, ' ');
    assert_eq!(buf.get(1, 1).symbol, ' ');
}
