use metrocity::buffer::{Buffer, Cell};
use metrocity::layout::Rect;
use metrocity::scenes::city::buildings::compute_buildings;
use metrocity::scenes::city::scene::{draw_mode, step, BuildingCache, DrawMode};
use metrocity::scenes::city::vehicles::{body_of, render_vehicle, VehicleCells, VehicleType};
use metrocity::scenes::city::weather::{render_weather_bg, render_weather_fg, Drop, Weather};
use metrocity::style::Color;
use metrocity::theme::Theme;

fn theme() -> Theme {
    Theme {
        building_base_colors: [Color::Rgb(10, 10, 20), Color::Rgb(20, 20, 30), Color::Rgb(30, 30, 40), Color::Rgb(40, 40, 50)],
        window_lit: Color::Yellow,
        window_unlit: Color::DarkGray,
        window_dark: Color::Black,
        neon_main: Color::Magenta,
        neon_sub1: Color::Cyan,
        neon_sub2: Color::LightRed,
        neon_sub3: Color::LightGreen,
        street_lamp_lit: Color::LightYellow,
        street_lamp_dim: Color::Yellow,
        rain: Color::LightBlue,
        rain_bg: Color::Blue,
        snow: Color::Rgb(240, 240, 240),
        pedestrian: Color::Gray,
        ground: Color::Black,
        vehicle_colors: [Color::Red, Color::Green, Color::Blue, Color::Yellow, Color::Cyan],
        shuttle_colors: [Color::Gray, Color::LightBlue, Color::LightRed],
        police_red: Color::Red,
        police_blue: Color::Blue,
        logo_override: None,
    }
}

fn row(buf: &Buffer, y: u16) -> String {
    (0..buf.width).map(|x| buf.get(x, y).symbol).collect()
}

#[test]
fn draw_mode_by_terminal_size() {
    assert_eq!(draw_mode(Rect::new(0, 0, 0, 30)), DrawMode::Nothing);
    assert_eq!(draw_mode(Rect::new(0, 0, 11, 30)), DrawMode::Background);
    assert_eq!(draw_mode(Rect::new(0, 0, 80, 2)), DrawMode::Background);
    assert_eq!(draw_mode(Rect::new(0, 0, 44, 30)), DrawMode::Mini);
    assert_eq!(draw_mode(Rect::new(0, 0, 80, 14)), DrawMode::Mini);
    assert_eq!(draw_mode(Rect::new(0, 0, 45, 15)), DrawMode::Full);
}

#[test]
fn simulation_steps_only_on_a_big_enough_area() {
    assert_eq!(step(7, Rect::new(0, 0, 0, 10)), (7, false));
    assert_eq!(step(7, Rect::new(0, 0, 20, 10)), (8, false));
    assert_eq!(step(7, Rect::new(0, 0, 32, 12)), (8, true));
    assert_eq!(step(u64::MAX, Rect::new(0, 0, 80, 24)), (0, true));
}

#[test]
fn building_cache_recomputes_on_resize_only() {
    let mut c = BuildingCache::new();
    c.rebuild_if_needed(Rect::new(0, 0, 100, 30));
    assert_eq!(c.buildings, compute_buildings(100, 30));
    c.buildings.clear();
    c.rebuild_if_needed(Rect::new(0, 0, 100, 30));
    assert!(c.buildings.is_empty());
    c.rebuild_if_needed(Rect::new(0, 0, 200, 30));
    assert_eq!(c.buildings, compute_buildings(200, 30));
    assert_eq!((c.width, c.height), (200, 30));
}

#[test]
fn vehicle_bodies() {
    assert_eq!(body_of(VehicleType::Spinner, 3), vec!['◢', '■', '◣']);
    assert_eq!(body_of(VehicleType::Police, 3), vec!['◤', '█', '◥']);
    assert_eq!(body_of(VehicleType::Shuttle, 5), vec!['▓', '█', '█', '█', '▶']);
    assert_eq!(body_of(VehicleType::Shuttle, 1), vec!['▓', '▶']);
}

#[test]
fn spinner_with_trail() {
    let mut buf = Buffer::empty(12, 4);
    let cells = VehicleCells { row: 2, body: vec![4, 5, 6], lights: (4, 6), tail: Some(3), tail2: Some(2) };
    render_vehicle(&mut buf, Rect::new(0, 0, 12, 4), VehicleType::Spinner, 3, Color::Green, &cells, &theme(), 0);
    assert_eq!(row(&buf, 2), "  ··◢■◣     ");
    assert_eq!(buf.get(4, 2).fg, Color::Green);
    assert_eq!(buf.get(3, 2).fg, Color::Red);
    assert_eq!(buf.get(2, 2).fg, Color::Rgb(85, 255, 255));
    assert_eq!(row(&buf, 1), "            ");
}

#[test]
fn shuttle_trail_and_block_backgrounds() {
    let mut buf = Buffer::empty(12, 3);
    // a building block glyph behind the nose: its color shows as background
    buf.set(7, 1, Cell { symbol: '█', fg: Color::Rgb(9, 9, 9), bg: Color::Black });
    buf.set(3, 1, Cell { symbol: 'x', fg: Color::White, bg: Color::Rgb(1, 2, 3) });
    let cells = VehicleCells { row: 1, body: vec![4, 5, 6, 7], lights: (4, 6), tail: Some(3), tail2: Some(2) };
    render_vehicle(&mut buf, Rect::new(0, 0, 12, 3), VehicleType::Shuttle, 4, Color::Yellow, &cells, &theme(), 0);
    assert_eq!(row(&buf, 1), "  ·:▓██▶    ");
    assert_eq!(buf.get(7, 1), Cell { symbol: '▶', fg: Color::Yellow, bg: Color::Rgb(9, 9, 9) });
    assert_eq!(buf.get(3, 1), Cell { symbol: ':', fg: Color::Magenta, bg: Color::Rgb(1, 2, 3) });
}

#[test]
fn police_car_lights_alternate() {
    let area = Rect::new(0, 0, 12, 4);
    let cells = VehicleCells { row: 2, body: vec![4, 5, 6], lights: (4, 6), tail: Some(3), tail2: Some(2) };
    let mut even = Buffer::empty(12, 4);
    render_vehicle(&mut even, area, VehicleType::Police, 3, Color::White, &cells, &theme(), 0);
    assert_eq!(row(&even, 2), "    ◤█◥     ");
    assert_eq!(even.get(5, 2).fg, Color::Rgb(60, 60, 70));
    assert_eq!(even.get(4, 1), Cell { symbol: '═', fg: Color::Blue, bg: Color::Reset });
    assert_eq!(even.get(6, 1).fg, Color::Rgb(40, 40, 60));
    let mut odd = Buffer::empty(12, 4);
    render_vehicle(&mut odd, area, VehicleType::Police, 3, Color::White, &cells, &theme(), 2);
    assert_eq!(odd.get(4, 1).fg, Color::Rgb(40, 40, 60));
    assert_eq!(odd.get(6, 1).fg, Color::Red);
}

#[test]
fn vehicles_clip_at_the_right_edge_and_below_the_area() {
    let area = Rect::new(0, 0, 6, 3);
    let cells = VehicleCells { row: 0, body: vec![4, 5, 6], lights: (4, 6), tail: None, tail2: None };
    let mut buf = Buffer::empty(6, 3);
    render_vehicle(&mut buf, area, VehicleType::Police, 3, Color::White, &cells, &theme(), 0);
    assert_eq!(row(&buf, 0), "    ◤█");
    let low = VehicleCells { row: 3, body: vec![1, 2, 3], lights: (1, 3), tail: Some(0), tail2: None };
    let mut buf2 = Buffer::empty(6, 3);
    render_vehicle(&mut buf2, area, VehicleType::Spinner, 3, Color::White, &low, &theme(), 0);
    assert!(buf2.cells.iter().all(|c| c.symbol == ' '));
}

#[test]
fn rain_drops_near_and_far() {
    let mut buf = Buffer::empty(8, 6);
    let drops = vec![Drop { x: 1, y: 0, near: true }, Drop { x: 3, y: 2, near: false }, Drop { x: 99, y: 1, near: true }];
    render_weather_bg(&mut buf, Rect::new(0, 0, 8, 6), Weather::Rain, &drops, 0, &theme());
    assert_eq!(buf.get(1, 0), Cell { symbol: '|', fg: Color::LightBlue, bg: Color::Reset });
    assert_eq!(buf.get(3, 2), Cell { symbol: ':', fg: Color::Blue, bg: Color::Reset });
    assert_eq!(row(&buf, 5), "        ");
}

#[test]
fn snow_flakes_and_cover() {
    let mut buf = Buffer::empty(8, 6);
    let drops = vec![Drop { x: 0, y: 0, near: true }, Drop { x: 15, y: 1, near: false }, Drop { x: 25, y: 2, near: true }];
    render_weather_bg(&mut buf, Rect::new(0, 0, 8, 6), Weather::Snow, &drops, 0, &theme());
    // every drop column saturates only past 65535; these are off the grid or on it
    assert_eq!(buf.get(0, 0), Cell { symbol: '*', fg: Color::Rgb(240, 240, 240), bg: Color::Reset });
    assert_eq!(row(&buf, 4), "▆██████▆");
    assert_eq!(row(&buf, 5), "████████");
    let mut later = Buffer::empty(8, 6);
    render_weather_bg(&mut later, Rect::new(0, 0, 8, 6), Weather::Snow, &vec![], 300, &theme());
    assert_eq!(row(&later, 4), "████▆███");
}

#[test]
fn snowflake_glyph_cycles_every_thirty_frames() {
    for (frame, glyph) in [(0u64, '*'), (10, '*'), (11, '·'), (20, '·'), (21, '❄'), (29, '❄'), (30, '*')] {
        let mut buf = Buffer::empty(4, 4);
        render_weather_bg(&mut buf, Rect::new(0, 0, 4, 4), Weather::Snow, &vec![Drop { x: 0, y: 0, near: true }], frame, &theme());
        assert_eq!(buf.get(0, 0).symbol, glyph, "frame {}", frame);
    }
}

#[test]
fn clear_weather_draws_nothing() {
    let mut buf = Buffer::empty(4, 4);
    render_weather_bg(&mut buf, Rect::new(0, 0, 4, 4), Weather::Clear, &vec![Drop { x: 0, y: 0, near: true }], 0, &theme());
    assert!(buf.cells.iter().all(|c| c.symbol == ' '));
}

#[test]
fn rain_reflects_the_street_in_darker_colors() {
    let mut buf = Buffer::empty(5, 6);
    // ground line is row 3; row 2 is mirrored to row 4, row 1 to row 5
    buf.set(1, 2, Cell { symbol: 'a', fg: Color::Rgb(90, 90, 90), bg: Color::Rgb(30, 30, 30) });
    buf.set(2, 1, Cell { symbol: 'b', fg: Color::Red, bg: Color::Reset });
    render_weather_fg(&mut buf, Rect::new(0, 0, 5, 6), Weather::Rain, &vec![0, 1]);
    assert_eq!(buf.get(1, 4), Cell { symbol: '█', fg: Color::Rgb(30, 30, 30), bg: Color::Rgb(10, 10, 10) });
    // row 5 is shifted one column: column 1 reads column 2
    assert_eq!(buf.get(1, 5), Cell { symbol: '▓', fg: Color::Rgb(100, 0, 0), bg: Color::Rgb(10, 10, 20) });
    assert_eq!(buf.get(0, 4).symbol, ' ');
    let mut dry = Buffer::empty(5, 6);
    dry.set(1, 2, Cell { symbol: 'a', fg: Color::White, bg: Color::Black });
    render_weather_fg(&mut dry, Rect::new(0, 0, 5, 6), Weather::Snow, &vec![0, 0]);
    assert_eq!(dry.get(1, 4).symbol, ' ');
}
