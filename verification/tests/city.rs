use metrocity::buffer::{Buffer, Cell};
use metrocity::layout::Rect;
use metrocity::scenes::city::buildings::{compute_buildings, BuildingInfo};
use metrocity::scenes::city::clock::{format_date, format_time, is_leap, time_from_unix_secs, SimpleTime};
use metrocity::scenes::city::distro::{corp_sign, distro_from_os_release, monolith_sign_text};
use metrocity::scenes::city::render::render_background;
use metrocity::scenes::city::utils::{
    darken_color, safe_get_bg, safe_get_fg, safe_get_symbol, safe_set_char, safe_set_char_with_bg,
    safe_set_string, safe_set_symbol_with_bg,
};
use metrocity::scenes::city::weather::{resolve_weather, weather_from_lowercase, Weather};
use metrocity::style::Color;

fn t(hour: u32, minute: u32, second: u32, day: u32, month: u32, year: i64) -> SimpleTime {
    SimpleTime { hour, minute, second, day, month, year }
}

#[test]
fn compute_buildings_on_a_100_by_30_area() {
    let b = compute_buildings(100, 30);
    assert_eq!(b.len(), 3);
    assert_eq!(
        b[0],
        BuildingInfo { x_offset: 0, width: 8, height: 10, index: 0, door_x: 4, spans_two: false }
    );
    assert_eq!(
        b[1],
        BuildingInfo { x_offset: 20, width: 32, height: 22, index: 1, door_x: 36, spans_two: true }
    );
    assert_eq!(
        b[2],
        BuildingInfo { x_offset: 60, width: 28, height: 15, index: 3, door_x: 74, spans_two: true }
    );
}

#[test]
fn compute_buildings_on_a_wide_area_resumes_one_per_slot() {
    let b = compute_buildings(200, 60);
    let xs: Vec<u16> = b.iter().map(|b| b.x_offset).collect();
    assert_eq!(xs, vec![0, 20, 60, 100, 120, 140, 160, 180]);
    // slot 5 (x = 100): width 8 + 100 % 7, height 60 / 3 + 100 % 11
    assert_eq!(b[3].width, 10);
    assert_eq!(b[3].height, 21);
    assert_eq!(b[3].index, 5);
}

#[test]
fn compute_buildings_clamps_height_to_the_ground() {
    let b = compute_buildings(40, 6);
    assert_eq!(b.len(), 2);
    assert_eq!(b[0].height, 2);
    assert_eq!(b[1].height, 0);
}

#[test]
fn compute_buildings_on_empty_area_is_empty() {
    assert!(compute_buildings(0, 40).is_empty());
}

#[test]
fn compute_buildings_never_overlap() {
    for w in [1u16, 19, 20, 21, 79, 80, 81, 333, 1000] {
        let b = compute_buildings(w, 50);
        for pair in b.windows(2) {
            assert!(pair[0].x_offset + pair[0].width <= pair[1].x_offset);
        }
        for x in &b {
            assert!(x.x_offset < w);
        }
    }
}

#[test]
fn contains_x_is_half_open() {
    let b = BuildingInfo { x_offset: 20, width: 32, height: 5, index: 1, door_x: 36, spans_two: true };
    assert!(!b.contains_x(19));
    assert!(b.contains_x(20));
    assert!(b.contains_x(51));
    assert!(!b.contains_x(52));
}

#[test]
fn leap_years_follow_the_gregorian_rule() {
    assert!(is_leap(2024));
    assert!(!is_leap(2023));
    assert!(!is_leap(1900));
    assert!(is_leap(2000));
}

#[test]
fn unix_epoch_is_new_year_1970() {
    assert_eq!(time_from_unix_secs(0), t(0, 0, 0, 1, 1, 1970));
}

#[test]
fn calendar_handles_leap_days() {
    assert_eq!(time_from_unix_secs(951_782_400), t(0, 0, 0, 29, 2, 2000));
    assert_eq!(time_from_unix_secs(951_868_800), t(0, 0, 0, 1, 3, 2000));
    assert_eq!(time_from_unix_secs(1_709_251_199), t(23, 59, 59, 29, 2, 2024));
    assert_eq!(time_from_unix_secs(4_107_542_400), t(0, 0, 0, 1, 3, 2100));
}

#[test]
fn calendar_on_known_timestamps() {
    assert_eq!(time_from_unix_secs(1_234_567_890), t(23, 31, 30, 13, 2, 2009));
    assert_eq!(time_from_unix_secs(86_399), t(23, 59, 59, 1, 1, 1970));
    assert_eq!(time_from_unix_secs(1_704_067_199), t(23, 59, 59, 31, 12, 2023));
}

#[test]
fn time_and_date_are_zero_padded() {
    let now = t(7, 5, 9, 3, 4, 2025);
    assert_eq!(format_time(&now), "07:05:09");
    assert_eq!(format_date(&now), "04/03/2025");
    assert_eq!(format_date(&t(0, 0, 0, 1, 1, 812)), "01/01/0812");
    assert_eq!(format_time(&t(23, 59, 59, 1, 1, 1970)), "23:59:59");
}

#[test]
fn distro_is_the_first_id_line_without_quotes() {
    let arch = "NAME=\"Arch Linux\"\nPRETTY_NAME=\"Arch Linux\"\nID=arch\nBUILD_ID=rolling\n";
    assert_eq!(distro_from_os_release(arch), "arch");
    let ubuntu = "VERSION_ID=\"22.04\"\nID=\"ubuntu\"\nID_LIKE=debian\n";
    assert_eq!(distro_from_os_release(ubuntu), "ubuntu");
    assert_eq!(distro_from_os_release("ID=fedora"), "fedora");
    assert_eq!(distro_from_os_release("ID=first\nID=second\n"), "first");
}

#[test]
fn distro_without_id_line_is_linux() {
    assert_eq!(distro_from_os_release(""), "linux");
    assert_eq!(distro_from_os_release("NAME=Foo\nVERSION_ID=1\n"), "linux");
    assert_eq!(distro_from_os_release(" ID=indented\n"), "linux");
}

#[test]
fn distro_with_crlf_lines() {
    assert_eq!(distro_from_os_release("NAME=x\r\nID=debian\r\n"), "debian");
}

#[test]
fn monolith_sign_defaults_to_upper_case_distro() {
    assert_eq!(corp_sign("ARCH"), "ARCH CORP");
    assert_eq!(monolith_sign_text("", "arch"), "ARCH CORP");
    assert_eq!(monolith_sign_text("HELLO", "arch"), "HELLO");
}

#[test]
fn weather_names_ignore_case() {
    assert_eq!(resolve_weather("rain"), Weather::Rain);
    assert_eq!(resolve_weather("RAIN"), Weather::Rain);
    assert_eq!(resolve_weather("Snow"), Weather::Snow);
    assert_eq!(resolve_weather("clear"), Weather::Clear);
    assert_eq!(resolve_weather("fog"), Weather::Clear);
    assert_eq!(weather_from_lowercase("snow"), Weather::Snow);
    assert_eq!(weather_from_lowercase("SNOW"), Weather::Clear);
}

#[test]
fn darken_divides_rgb_and_maps_named_colors() {
    assert_eq!(darken_color(Color::Rgb(90, 31, 255)), Color::Rgb(30, 10, 85));
    assert_eq!(darken_color(Color::Red), Color::Rgb(100, 0, 0));
    assert_eq!(darken_color(Color::White), Color::Rgb(100, 100, 100));
    assert_eq!(darken_color(Color::Reset), Color::Rgb(10, 10, 20));
    assert_eq!(darken_color(Color::Gray), Color::Rgb(10, 10, 20));
}

#[test]
fn safe_setters_ignore_cells_off_the_grid() {
    let mut buf = Buffer::empty(4, 3);
    let before = buf.cells.clone();
    safe_set_char(&mut buf, 4, 0, 'x', Color::Red);
    safe_set_char(&mut buf, 0, 3, 'x', Color::Red);
    assert_eq!(buf.cells, before);
    safe_set_char_with_bg(&mut buf, 1, 1, 'a', Color::Red, Color::Blue);
    assert_eq!(buf.get(1, 1), Cell { symbol: 'a', fg: Color::Red, bg: Color::Blue });
    safe_set_char(&mut buf, 1, 1, 'b', Color::Green);
    assert_eq!(buf.get(1, 1), Cell { symbol: 'b', fg: Color::Green, bg: Color::Blue });
    safe_set_symbol_with_bg(&mut buf, 3, 2, '█', Color::White, Color::Black);
    assert_eq!(safe_get_symbol(&buf, 3, 2), '█');
    assert_eq!(safe_get_fg(&buf, 3, 2), Color::White);
    assert_eq!(safe_get_bg(&buf, 3, 2), Color::Black);
    assert_eq!(safe_get_symbol(&buf, 9, 9), ' ');
    assert_eq!(safe_get_fg(&buf, 9, 9), Color::Reset);
    assert_eq!(safe_get_bg(&buf, 9, 9), Color::Reset);
}

#[test]
fn safe_set_string_clips_at_the_right_edge() {
    let mut buf = Buffer::empty(5, 1);
    safe_set_char_with_bg(&mut buf, 3, 0, ' ', Color::Reset, Color::Blue);
    safe_set_string(&mut buf, 2, 0, "HELLO", Color::Yellow);
    let row: String = (0..5).map(|x| buf.get(x, 0).symbol).collect();
    assert_eq!(row, "  HEL");
    assert_eq!(buf.get(3, 0), Cell { symbol: 'E', fg: Color::Yellow, bg: Color::Blue });
}

#[test]
fn background_fills_the_area_only() {
    let mut buf = Buffer::empty(6, 4);
    render_background(&mut buf, Rect::new(1, 1, 3, 2), Color::Rgb(1, 2, 3));
    for y in 0..4u16 {
        for x in 0..6u16 {
            let inside = (1..4).contains(&x) && (1..3).contains(&y);
            let c = buf.get(x, y);
            if inside {
                assert_eq!(c.bg, Color::Rgb(1, 2, 3));
            } else {
                assert_eq!(c, Cell { symbol: ' ', fg: Color::Reset, bg: Color::Reset });
            }
        }
    }
}
