use metrocity::buffer::{Buffer, Cell};
use metrocity::kitty::{delete_placement, place, transmit};
use metrocity::layout::Rect;
use metrocity::scenes::cafe::components::lamp::draw_fixture;
use metrocity::scenes::cafe::components::menu::{self, build_line};
use metrocity::scenes::cafe::components::pastry_case::shelf_rows;
use metrocity::scenes::cafe::components::shelves::{self, draw_jars, draw_mugs};
use metrocity::scenes::cafe::components::signboard::{self, paw_slot};
use metrocity::scenes::cafe::components::stools;
use metrocity::scenes::cafe::components::window::{draw_city, draw_mullion};
use metrocity::scenes::cafe::decor::{static_slots, Decor, NEON_BRIGHT_ID, NEON_DIM_ID, STATIC_BASE};
use metrocity::scenes::cafe::layout::Layout;
use metrocity::scenes::cafe::paint::{fill, fill_rect, glyph, glyph_over, hash, rgb, text};
use metrocity::scenes::cafe::palette::{board_bg, cream, cream_dim, jar, jar_lid, wall, wood, wood_dark};
use metrocity::sprite::Sprite;
use metrocity::style::Color;

fn row_text(buf: &Buffer, y: u16, x0: u16, x1: u16) -> String {
    (x0..x1).map(|x| buf.get(x, y).symbol).collect()
}

#[test]
fn hash_known_values() {
    assert_eq!(hash(0, 0), 0);
    assert_eq!(hash(1, 0), 3_699_398_890);
    assert_eq!(hash(0, 1), 1_364_076_727);
    assert_eq!(hash(1, 2), 699_680_316);
    assert_eq!(hash(123, 456), 2_734_232_813);
    assert_eq!(hash(u32::MAX, 7), 2_031_940_958);
    assert_eq!(hash(42, 0xC17), 609_369_583);
}

#[test]
fn layout_rows_equal_the_float_fractions_for_every_height() {
    for h in 0..=u16::MAX {
        let l = Layout::new(80, h);
        assert_eq!(l.counter_y, (h as f32 * 0.60) as u16, "h = {}", h);
        assert_eq!(l.floor_y, (h as f32 * 0.85) as u16, "h = {}", h);
    }
}

#[test]
fn layout_for_a_typical_terminal() {
    let l = Layout::new(120, 40);
    assert_eq!(l.counter_y, 24);
    assert_eq!(l.floor_y, 34);
    assert_eq!(l.neon_face, Rect { x: 3, y: 2, width: 10, height: 5 });
    assert_eq!(l.neon_text_y, 8);
    assert_eq!(l.shelf_x0, 18);
    assert_eq!(l.shelf_x1, 38);
    assert_eq!(l.shelf_rows, [7, 14]);
    assert_eq!(l.menu, Rect { x: 39, y: 2, width: 19, height: 11 });
    assert_eq!(l.window, Rect { x: 67, y: 2, width: 26, height: 19 });
    assert_eq!(l.lamp_x, 105);
    assert_eq!(l.terminal, Rect { x: 57, y: 17, width: 24, height: 7 });
    assert_eq!(l.mug_x, 38);
    assert_eq!(l.register_x, 84);
    assert_eq!(l.pastry_case, Rect { x: 104, y: 16, width: 14, height: 8 });
    assert_eq!(l.plant_left, Rect { x: 1, y: 19, width: 9, height: 5 });
    assert_eq!(l.plant_right, Rect { x: 93, y: 21, width: 6, height: 3 });
    assert_eq!((l.cat_rows, l.cat_cols), (4, 8));
    assert_eq!(l.black_cat_range, (14, 48));
    assert_eq!(l.white_cat_x, 47);
    assert_eq!(l.stool_y, 30);
    assert_eq!(l.stool_xs(), vec![20, 40, 60, 80, 100]);
}

#[test]
fn layout_of_an_empty_terminal_is_all_zero() {
    let l = Layout::new(0, 0);
    assert_eq!(l.counter_y, 0);
    assert_eq!(l.menu.height, 0);
    assert_eq!(l.stool_xs(), vec![0, 0, 0, 0, 0]);
}

#[test]
fn paint_helpers_clip_to_the_grid() {
    let mut buf = Buffer::empty(3, 2);
    fill(&mut buf, 5, 0, Color::Red);
    glyph(&mut buf, 0, 9, 'x', Color::Red, Color::Blue);
    assert!(buf.cells.iter().all(|c| *c == Cell { symbol: ' ', fg: Color::Reset, bg: Color::Reset }));
    fill_rect(&mut buf, Rect::new(1, 0, 10, 10), Color::Green);
    assert_eq!(buf.get(0, 0).bg, Color::Reset);
    assert_eq!(buf.get(2, 1), Cell { symbol: ' ', fg: Color::Green, bg: Color::Green });
    glyph_over(&mut buf, 1, 1, '#', Color::White);
    assert_eq!(buf.get(1, 1), Cell { symbol: '#', fg: Color::White, bg: Color::Green });
    text(&mut buf, 1, 0, "abc", Color::Black, Color::Yellow);
    assert_eq!(row_text(&buf, 0, 0, 3), " ab");
    assert_eq!(buf.get(2, 0).bg, Color::Yellow);
}

#[test]
fn rgb_of_named_color_is_black() {
    assert_eq!(rgb(Color::Rgb(1, 2, 3)), (1, 2, 3));
    assert_eq!(rgb(Color::Cyan), (0, 0, 0));
}

#[test]
fn menu_lines_have_dot_leaders() {
    assert_eq!(build_line("COFFEE", "3", 15), "COFFEE........3");
    assert_eq!(build_line("PAWTISSERIE", "4", 15), "PAWTISSERIE...4");
    assert_eq!(build_line("PAWTISSERIE", "4", 5), "PAWTISSERIE4");
    assert_eq!(build_line("TEA", "3", 0), "TEA3");
}

#[test]
fn menu_board_lists_all_items_when_tall_enough() {
    let l = Layout::new(120, 40);
    let mut buf = Buffer::empty(120, 40);
    menu::draw(&mut buf, &l);
    let r = l.menu;
    assert_eq!(buf.get(r.x, r.y).bg, wood());
    assert_eq!(buf.get(r.x + 1, r.y + 1).bg, board_bg());
    assert_eq!(row_text(&buf, r.y + 2, r.x + 7, r.x + 11), "MENU");
    assert_eq!(buf.get(r.x + 7, r.y + 2).fg, cream());
    assert_eq!(row_text(&buf, r.y + 4, r.x + 2, r.x + 17), "COFFEE........3");
    assert_eq!(row_text(&buf, r.y + 8, r.x + 2, r.x + 17), "PAWTISSERIE...4");
    assert_eq!(buf.get(r.x + 2, r.y + 8).fg, cream_dim());
}

#[test]
fn menu_board_too_small_draws_nothing() {
    let l = Layout::new(120, 20);
    assert!(l.menu.height < 9);
    let mut buf = Buffer::empty(120, 20);
    menu::draw(&mut buf, &l);
    assert!(buf.cells.iter().all(|c| c.bg == Color::Reset));
}

#[test]
fn jars_every_four_columns_leaving_the_end_free() {
    let mut buf = Buffer::empty(30, 10);
    draw_jars(&mut buf, 2, 20, 6);
    let lids: Vec<u16> = (0..30).filter(|&x| buf.get(x, 4).symbol == '▄').collect();
    assert_eq!(lids, vec![3, 4, 7, 8, 11, 12]);
    assert_eq!(buf.get(3, 4), Cell { symbol: '▄', fg: jar_lid(), bg: wall() });
    assert_eq!(buf.get(4, 5), Cell { symbol: ' ', fg: jar(), bg: jar() });
    assert_eq!(buf.get(15, 5).bg, Color::Reset);
}

#[test]
fn mugs_every_five_columns_with_handles() {
    let mut buf = Buffer::empty(30, 10);
    draw_mugs(&mut buf, 0, 20, 3);
    let row: String = (0..20).map(|x| buf.get(x, 2).symbol).collect();
    assert_eq!(row, "   )    )    )      ");
    assert_eq!(buf.get(1, 2).bg, cream_dim());
    assert_eq!(buf.get(3, 2), Cell { symbol: ')', fg: cream_dim(), bg: Color::Reset });
}

#[test]
fn shelves_draw_boards_with_dark_undersides() {
    let l = Layout::new(120, 40);
    let mut buf = Buffer::empty(120, 40);
    shelves::draw(&mut buf, &l);
    let [top, bottom] = l.shelf_rows;
    assert_eq!(buf.get(l.shelf_x0, top).bg, wood());
    assert_eq!(buf.get(l.shelf_x1 - 1, bottom).bg, wood());
    assert_eq!(buf.get(l.shelf_x1, bottom).bg, Color::Reset);
    assert_eq!(buf.get(l.shelf_x0 + 3, top + 1), Cell { symbol: '▔', fg: wood_dark(), bg: Color::Reset });
    assert_eq!(buf.get(l.shelf_x0 + 1, top - 2).symbol, '▄');
    assert_eq!(buf.get(l.shelf_x0 + 3, bottom - 1).symbol, ')');
}

#[test]
fn stools_stand_between_counter_and_floor() {
    let l = Layout::new(120, 40);
    let mut buf = Buffer::empty(120, 40);
    stools::draw(&mut buf, &l);
    let xs = l.stool_xs();
    for x in xs {
        assert_ne!(buf.get(x, l.stool_y).bg, Color::Reset);
    }
}

#[test]
fn window_city_and_mullion() {
    let mut buf = Buffer::empty(20, 12);
    let inner = Rect::new(1, 1, 18, 10);
    draw_city(&mut buf, inner);
    for x in 1..19u16 {
        // every column has at least one city cell on the bottom row
        assert_ne!(buf.get(x, 10).bg, Color::Reset);
        // and none above a third of the height (at least 2)
        assert_eq!(buf.get(x, 1).bg, Color::Reset);
    }
    let r = Rect::new(0, 0, 20, 12);
    draw_mullion(&mut buf, r);
    for y in 0..12u16 {
        assert_eq!(buf.get(10, y), Cell { symbol: ' ', fg: wood_dark(), bg: wood_dark() });
    }
    for x in 0..20u16 {
        assert_eq!(buf.get(x, 6), Cell { symbol: ' ', fg: wood_dark(), bg: wood_dark() });
    }
}

#[test]
fn lamp_fixture_hangs_from_the_ceiling() {
    let l = Layout::new(120, 40);
    let mut buf = Buffer::empty(120, 40);
    draw_fixture(&mut buf, &l);
    let x = l.lamp_x;
    assert_eq!(buf.get(x, 0).symbol, '│');
    assert_eq!(buf.get(x, 2).symbol, '│');
    assert_eq!(row_text(&buf, 3, x - 1, x + 2), "▄▄▄");
    assert_eq!(buf.get(x, 4).symbol, '◉');
    let tiny = Layout::new(120, 8);
    let mut buf2 = Buffer::empty(120, 8);
    draw_fixture(&mut buf2, &tiny);
    assert!(buf2.cells.iter().all(|c| c.symbol == ' '));
}

#[test]
fn signboard_reads_free_meow_fi() {
    let l = Layout::new(120, 40);
    let mut buf = Buffer::empty(120, 40);
    signboard::draw(&mut buf, &l);
    let sx = 120 - 24;
    let sy = l.floor_y + 4 - 10;
    assert_eq!(row_text(&buf, sy + 2, sx + 8, sx + 12), "FREE");
    assert_eq!(row_text(&buf, sy + 4, sx + 6, sx + 13), "MEOW-FI");
    assert_eq!(buf.get(sx + 8, sy + 2).fg, Color::Rgb(220, 180, 120));
    // front board: top row shifted by 4, framed
    assert_eq!(buf.get(sx + 4, sy).bg, Color::Rgb(100, 55, 28));
    // legs below the boards
    assert_eq!(buf.get(sx, sy + 10).bg, Color::Rgb(100, 55, 28));
    assert_eq!(buf.get(sx + 1, sy + 10).bg, Color::Rgb(54, 29, 21));
    assert_eq!(buf.get(sx + 22, sy + 10).bg, Color::Rgb(54, 29, 21));
    assert_eq!(paw_slot(&l), Rect { x: sx + 7, y: sy + 6, width: 4, height: 2 });
}

#[test]
fn pastry_shelves_and_static_slots() {
    let l = Layout::new(120, 40);
    assert_eq!(shelf_rows(&l), [20, 23]);
    let s = static_slots(&l);
    assert_eq!(s[0], l.plant_left);
    assert_eq!(s[1], l.plant_right);
    assert_eq!(s[2], Rect { x: 33, y: 5, width: 4, height: 2 });
    assert_eq!(s[3], Rect { x: 35, y: 12, width: 3, height: 2 });
    assert_eq!(s[4], Rect { x: 106, y: 18, width: 4, height: 2 });
    assert_eq!(s[5], Rect { x: 112, y: 18, width: 4, height: 2 });
    assert_eq!(s[6], Rect { x: 106, y: 21, width: 4, height: 2 });
    assert_eq!(s[7], Rect { x: 112, y: 21, width: 4, height: 2 });
    assert_eq!(s[8], Rect { x: 84, y: 21, width: 5, height: 3 });
    assert_eq!(s[9], paw_slot(&l));
}

#[test]
fn decor_places_statics_once_and_swaps_the_neon_face() {
    let l = Layout::new(120, 40);
    let mut d = Decor::new();
    let mut out = String::new();
    d.place_sprites(&mut out, &l);
    let mut expected = String::new();
    for (i, s) in static_slots(&l).iter().enumerate() {
        delete_placement(&mut expected, STATIC_BASE + i as u32);
        place(&mut expected, STATIC_BASE + i as u32, s.x, s.y, s.width, s.height);
    }
    delete_placement(&mut expected, NEON_DIM_ID);
    let f = l.neon_face;
    place(&mut expected, NEON_BRIGHT_ID, f.x, f.y, f.width, f.height);
    assert_eq!(out, expected);

    let mut quiet = String::new();
    d.place_sprites(&mut quiet, &l);
    assert_eq!(quiet, "");

    d.set_dim(true);
    let mut flicker = String::new();
    d.place_sprites(&mut flicker, &l);
    let mut expected = String::new();
    delete_placement(&mut expected, NEON_BRIGHT_ID);
    place(&mut expected, NEON_DIM_ID, f.x, f.y, f.width, f.height);
    assert_eq!(flicker, expected);

    d.init();
    assert!(!d.placed && !d.transmitted && d.last_dim.is_none());
}

#[test]
fn decor_skips_sprites_off_screen() {
    let l = Layout::new(20, 10);
    let mut d = Decor::new();
    let mut out = String::new();
    d.place_sprites(&mut out, &l);
    // every static is deleted; only those that fit are placed again
    let deletes = out.matches("a=d,q=2,d=i").count();
    assert_eq!(deletes, 11);
    let places = out.matches("a=p,").count();
    let fitting = static_slots(&l).iter().filter(|s| s.x + s.width <= 20 && s.y + s.height <= 10).count()
        + usize::from(l.neon_face.x + l.neon_face.width <= 20 && l.neon_face.y + l.neon_face.height <= 10);
    assert_eq!(places, fitting);
}

fn sprite(width: u16, height: u16, byte: u8) -> Sprite {
    Sprite { width, height, rgba: vec![byte; width as usize * height as usize * 4] }
}

#[test]
fn decor_sends_images_once_then_stays_quiet() {
    let l = Layout::new(120, 40);
    let bright = sprite(2, 1, 200);
    let dim = sprite(2, 1, 40);
    let statics: Vec<Sprite> = (0..10u8).map(|i| sprite(1, 1, i)).collect();
    let mut d = Decor::new();
    let mut out = String::new();
    d.post_draw(&mut out, &l, &bright, &dim, &statics);

    let mut expected = String::new();
    transmit(&mut expected, NEON_BRIGHT_ID, 2, 1, &bright.rgba);
    transmit(&mut expected, NEON_DIM_ID, 2, 1, &dim.rgba);
    for (i, s) in statics.iter().enumerate() {
        transmit(&mut expected, STATIC_BASE + i as u32, 1, 1, &s.rgba);
    }
    let mut fresh = Decor::new();
    fresh.transmitted = true;
    fresh.place_sprites(&mut expected, &l);
    assert_eq!(out, expected);
    assert!(out.contains("yMjIyMjIyMg="));

    let mut quiet = String::new();
    d.post_draw(&mut quiet, &l, &bright, &dim, &statics);
    assert_eq!(quiet, "");

    d.init();
    let mut again = String::new();
    d.post_draw(&mut again, &l, &bright, &dim, &statics);
    assert_eq!(again, out);
}
