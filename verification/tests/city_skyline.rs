use rand::{Rng, SeedableRng};
use metrocity::buffer::Buffer;
use metrocity::layout::Rect;
use metrocity::scenes::city::buildings::{compute_buildings, draw_neon_sign};
use metrocity::scenes::city::clock::SimpleTime;
use metrocity::scenes::city::logos::DistroLogo;
use metrocity::scenes::city::render::{render_mini, render_street_lamps, render_time_megaboard};
use metrocity::scenes::city::skyline::{render_skyline, render_skyline_sized};
use metrocity::style::Color;
use metrocity::theme::Theme;

fn theme() -> Theme {
    Theme {
        building_base_colors: [Color::Rgb(10, 10, 20), Color::Rgb(20, 20, 30), Color::Rgb(30, 30, 40), Color::Rgb(40, 40, 50)],
        window_lit: Color::Yellow,
        window_unlit: Color::DarkGray,
        window_dark: Color::Black,
        neon_main: Color::Magenta,
        neon_sub1: Color::Cyan,
        neon_sub2: Color::LightRed,
        neon_sub3: Color::LightGreen,
        street_lamp_lit: Color::LightYellow,
        street_lamp_dim: Color::Yellow,
        rain: Color::LightBlue,
        rain_bg: Color::Blue,
        snow: Color::White,
        pedestrian: Color::Gray,
        ground: Color::Rgb(5, 5, 5),
        vehicle_colors: [Color::Red, Color::Green, Color::Blue, Color::Yellow, Color::Cyan],
        shuttle_colors: [Color::Gray, Color::LightBlue, Color::LightRed],
        police_red: Color::Red,
        police_blue: Color::Blue,
        logo_override: None,
    }
}

fn text_at(buf: &Buffer, x: u16, y: u16, n: u16) -> String {
    (x..x + n).map(|c| buf.get(c, y).symbol).collect()
}

#[test]
fn neon_sign_runs_down_a_column() {
    let mut buf = Buffer::empty(5, 8);
    draw_neon_sign(&mut buf, 2, 1, "NEON", Color::Cyan, 0);
    let col: String = (1..5).map(|y| buf.get(2, y).symbol).collect();
    assert_eq!(col, "NEON");
    assert_eq!(buf.get(2, 0).symbol, ' ');
    let mut off = Buffer::empty(5, 8);
    draw_neon_sign(&mut off, 9, 1, "NEON", Color::Cyan, 0);
    assert!(off.cells.iter().all(|c| c.symbol == ' '));
}

#[test]
fn skyline_shows_the_monolith_sign() {
    let area = Rect::new(0, 0, 100, 30);
    let buildings = compute_buildings(100, 30);
    let logo = DistroLogo { grid: vec![vec![None; 32]; 20], is_compact: false, display_name: String::from("ARCH") };
    let mut buf = Buffer::empty(100, 30);
    render_skyline(&mut buf, area, &buildings, &logo, &theme(), 0, 7, "ARCH CORP");
    let sign: String = (10..19).map(|y| buf.get(51, y).symbol).collect();
    assert_eq!(sign, "ARCH CORP");
    // the monolith's body covers its columns down to the ground
    assert_ne!(buf.get(30, 26).bg, Color::Reset);
}

#[test]
fn street_lamps_stand_between_buildings() {
    let area = Rect::new(0, 0, 100, 30);
    let buildings = compute_buildings(100, 30);
    let mut buf = Buffer::empty(100, 30);
    render_street_lamps(&mut buf, area, &buildings, &theme(), 0);
    let lamp_columns: Vec<u16> = (0..100).filter(|&x| buf.get(x, 27).symbol == '┃').collect();
    assert_eq!(lamp_columns, vec![15, 55, 95]);
    for x in [15u16, 55, 95] {
        assert_eq!(buf.get(x, 26).symbol, '┃');
        assert_eq!(buf.get(x, 25).fg, Color::Rgb(5, 5, 5));
        assert_eq!(text_at(&buf, x - 1, 24, 3), "(O)");
    }
    assert_eq!(buf.get(15, 24).fg, Color::LightYellow);
    // every 40 frames the bulb dims for 2
    let mut dim = Buffer::empty(100, 30);
    render_street_lamps(&mut dim, area, &buildings, &theme(), 25);
    assert_eq!(dim.get(15, 24).fg, Color::Yellow);
}

#[test]
fn megaboard_shows_time_and_date() {
    let area = Rect::new(0, 0, 100, 30);
    let buildings = compute_buildings(100, 30);
    let now = SimpleTime { hour: 7, minute: 5, second: 9, day: 3, month: 4, year: 2025 };
    let mut buf = Buffer::empty(100, 30);
    render_time_megaboard(&mut buf, area, &buildings, &theme(), 0, &now, true);
    assert_eq!(text_at(&buf, 62, 7, 4), "TIME");
    assert_eq!(text_at(&buf, 67, 7, 8), "07:05:09");
    assert_eq!(buf.get(67, 7).fg, Color::Magenta);
    assert_eq!(text_at(&buf, 62, 9, 4), "DATE");
    assert_eq!(text_at(&buf, 67, 9, 10), "04/03/2025");
    assert_eq!(buf.get(67, 9).fg, Color::White);
    assert_eq!(buf.get(60, 6).symbol, '⌜');
    assert_eq!(buf.get(85, 10).symbol, '⌟');
    assert_eq!(buf.get(64, 11), buf.get(80, 11));
    assert_eq!(buf.get(64, 11).symbol, '╨');
    assert_eq!(buf.get(64, 11).fg, Color::Rgb(170, 170, 170));
}

#[test]
fn megaboard_needs_the_slot_three_building() {
    let area = Rect::new(0, 0, 50, 30);
    let buildings = compute_buildings(50, 30);
    let now = SimpleTime { hour: 1, minute: 2, second: 3, day: 4, month: 5, year: 2006 };
    let mut buf = Buffer::empty(50, 30);
    render_time_megaboard(&mut buf, area, &buildings, &theme(), 0, &now, false);
    assert!(buf.cells.iter().all(|c| c.symbol == ' '));
}

#[test]
fn mini_display_blinks_a_diamond() {
    let mut buf = Buffer::empty(20, 10);
    render_mini(&mut buf, Rect::new(0, 0, 20, 10), &theme(), 0);
    assert_eq!(buf.get(10, 5).symbol, '◆');
    assert_eq!(buf.get(10, 5).fg, Color::Magenta);
    let mut later = Buffer::empty(20, 10);
    render_mini(&mut later, Rect::new(0, 0, 20, 10), &theme(), 10);
    assert_eq!(later.get(10, 5).fg, Color::Rgb(60, 60, 60));
}

#[test]
fn building_edges_windows_and_doors() {
    let area = Rect::new(0, 0, 100, 30);
    let buildings = compute_buildings(100, 30);
    let logo = DistroLogo { grid: vec![vec![None; 32]; 20], is_compact: false, display_name: String::from("ARCH") };
    let mut buf = Buffer::empty(100, 30);
    render_skyline(&mut buf, area, &buildings, &logo, &theme(), 0, 7, "ARCH CORP");
    // slot 0: columns 0..8, rows 17..27
    let edge = buf.get(0, 20);
    assert_eq!(edge.symbol, '┃');
    assert_eq!(edge.fg, Color::Rgb(30, 30, 50));
    assert_eq!(edge.bg, Color::Rgb(20, 20, 30));
    let window = buf.get(4, 20);
    assert_eq!(window.symbol, '▄');
    assert_eq!(window.bg, Color::Black);
    assert!(window.fg == Color::Yellow || window.fg == Color::DarkGray);
    // the door's lintel, three rows above the ground, in the even slot's color
    assert_eq!(buf.get(4, 24).symbol, '━');
    assert_eq!(buf.get(4, 24).fg, Color::Cyan);
}

#[test]
fn silhouettes_of_given_sizes_stand_on_the_ground() {
    let area = Rect::new(0, 0, 30, 20);
    let logo = DistroLogo { grid: vec![vec![None; 32]; 20], is_compact: false, display_name: String::from("ARCH") };
    let mut buf = Buffer::empty(30, 20);
    render_skyline_sized(&mut buf, area, &vec![(6, 10), (14, 8)], &vec![], &logo, &theme(), 0, 7, "");
    let shade = buf.get(0, 7).bg;
    assert_ne!(shade, Color::Reset);
    assert_eq!(buf.get(0, 7).symbol, ' ');
    assert_eq!(buf.get(5, 16).bg, shade);
    assert_eq!(buf.get(6, 16).bg, Color::Reset);
    assert_eq!(buf.get(0, 6).bg, Color::Reset);
    assert_eq!(buf.get(0, 17).bg, Color::Reset);
    assert_eq!(buf.get(15, 9).bg, shade);
    assert_eq!(buf.get(15, 8).bg, Color::Reset);
    assert_eq!(buf.get(28, 16).bg, shade);
    assert_eq!(buf.get(29, 16).bg, Color::Reset);
}

#[test]
fn seeded_silhouettes_stay_in_their_ranges() {
    let area = Rect::new(0, 0, 30, 20);
    let logo = DistroLogo { grid: vec![vec![None; 32]; 20], is_compact: false, display_name: String::from("ARCH") };
    let mut buf = Buffer::empty(30, 20);
    render_skyline(&mut buf, area, &vec![], &logo, &theme(), 0, 7, "");
    // every silhouette is 6 to 14 wide and 4 to 9 high, standing on row 17
    for x0 in [0u16, 15] {
        for x in x0..x0 + 6 {
            for y in 13..17 {
                assert_ne!(buf.get(x, y).bg, Color::Reset);
            }
            assert_eq!(buf.get(x, 7).bg, Color::Reset);
            assert_eq!(buf.get(x, 17).bg, Color::Reset);
        }
    }
}

#[test]
fn silhouettes_follow_the_generator_seeded_with_12345() {
    let area = Rect::new(0, 0, 61, 24);
    let buildings = compute_buildings(61, 24);
    let logo = DistroLogo { grid: vec![vec![None; 32]; 20], is_compact: false, display_name: String::from("ARCH") };
    let mut rng = rand::rngs::StdRng::seed_from_u64(12345);
    let mut sizes = Vec::new();
    for _ in 0..5 {
        let w = rng.gen_range(6i32..15) as u16;
        let h = rng.gen_range(24u16 / 5..24 / 2);
        sizes.push((w, h));
    }
    let mut seeded = Buffer::empty(61, 24);
    render_skyline(&mut seeded, area, &buildings, &logo, &theme(), 3, 7, "ARCH CORP");
    let mut given = Buffer::empty(61, 24);
    render_skyline_sized(&mut given, area, &sizes, &buildings, &logo, &theme(), 3, 7, "ARCH CORP");
    assert!(seeded.cells == given.cells);
    let mut other = Buffer::empty(61, 24);
    let flat: Vec<(u16, u16)> = sizes.iter().map(|&(w, _)| (w, 4)).collect();
    render_skyline_sized(&mut other, area, &flat, &vec![], &logo, &theme(), 3, 7, "");
    let mut seeded_bare = Buffer::empty(61, 24);
    render_skyline(&mut seeded_bare, area, &vec![], &logo, &theme(), 3, 7, "");
    assert_eq!(seeded_bare.cells == other.cells, sizes.iter().all(|&(_, h)| h == 4));
}
