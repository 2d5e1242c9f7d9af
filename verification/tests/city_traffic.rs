use metrocity::scenes::city::vehicles::{admit_shuttle, mega_count, shuttle_shade, tick_cooldown, VehicleType};
use metrocity::scenes::city::weather::{age_splashes, Splash};

#[test]
fn chase_cooldown_counts_down_to_zero() {
    assert_eq!(tick_cooldown(1200), 1199);
    assert_eq!(tick_cooldown(1), 0);
    assert_eq!(tick_cooldown(0), 0);
}

#[test]
fn mega_shuttles_are_shuttles_longer_than_nine() {
    let fleet = vec![
        (VehicleType::Shuttle, 10),
        (VehicleType::Shuttle, 9),
        (VehicleType::Spinner, 30),
        (VehicleType::Police, 12),
        (VehicleType::Shuttle, 25),
    ];
    assert_eq!(mega_count(&fleet), 2);
    assert_eq!(mega_count(&vec![]), 0);
}

#[test]
fn only_one_mega_shuttle_takes_off() {
    assert_eq!(admit_shuttle(11, 0, 0), Some(11));
    assert_eq!(admit_shuttle(11, 0, 1), None);
    assert_eq!(admit_shuttle(8, 0, 1), Some(8));
    assert_eq!(admit_shuttle(8, 2, 1), None);
    assert_eq!(admit_shuttle(11, 40, 0), Some(25));
    assert_eq!(admit_shuttle(u16::MAX, 5, 0), Some(25));
}

#[test]
fn shuttle_colors_by_length() {
    assert_eq!(shuttle_shade(4), 0);
    assert_eq!(shuttle_shade(6), 0);
    assert_eq!(shuttle_shade(7), 1);
    assert_eq!(shuttle_shade(9), 1);
    assert_eq!(shuttle_shade(10), 2);
    assert_eq!(shuttle_shade(25), 2);
}

#[test]
fn splashes_age_and_vanish_after_their_third_frame() {
    let mut s = vec![
        Splash { x: 1, y: 9, frame: 0 },
        Splash { x: 2, y: 9, frame: 3 },
        Splash { x: 3, y: 9, frame: 2 },
    ];
    age_splashes(&mut s);
    assert_eq!(s, vec![Splash { x: 1, y: 9, frame: 1 }, Splash { x: 3, y: 9, frame: 3 }]);
    age_splashes(&mut s);
    assert_eq!(s, vec![Splash { x: 1, y: 9, frame: 2 }]);
    age_splashes(&mut s);
    age_splashes(&mut s);
    assert!(s.is_empty());
}
