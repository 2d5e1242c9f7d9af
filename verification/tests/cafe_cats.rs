use metrocity::kitty::{delete_placement, place, transmit};
use metrocity::scenes::cafe::cats::{
    cat_row, frame_id, next_state, transmit_sheets, CatSheets, CatState, CatsLayer, BLACK_BASE, WHITE_BASE,
};
use metrocity::sprite::Sprite;
use metrocity::scenes::cafe::layout::Layout;

#[test]
fn cats_sleep_wake_and_walk_in_turn() {
    assert_eq!(next_state(CatState::Asleep), CatState::Idle);
    assert_eq!(next_state(CatState::Idle), CatState::Walking);
    assert_eq!(next_state(CatState::Walking), CatState::Asleep);
    let mut s = CatState::Idle;
    for _ in 0..3 {
        s = next_state(s);
    }
    assert_eq!(s, CatState::Idle);
}

#[test]
fn frame_ids_per_animation() {
    assert_eq!(frame_id(BLACK_BASE, CatState::Asleep, true, true, 0, 4), 10);
    assert_eq!(frame_id(BLACK_BASE, CatState::Idle, true, true, 5, 4), 21);
    assert_eq!(frame_id(BLACK_BASE, CatState::Walking, true, true, 2, 6), 32);
    assert_eq!(frame_id(BLACK_BASE, CatState::Walking, false, true, 2, 6), 42);
    assert_eq!(frame_id(WHITE_BASE, CatState::Walking, true, false, 7, 6), 81);
    assert_eq!(frame_id(WHITE_BASE, CatState::Walking, false, false, 7, 6), 71);
}

#[test]
fn cats_sit_on_the_counter() {
    let l = Layout::new(120, 40);
    assert_eq!(cat_row(&l), Some(20));
    assert_eq!(cat_row(&Layout::new(0, 40)), None);
    assert_eq!(cat_row(&Layout::new(120, 5)), None);
}

fn frames(n: u8, byte: u8) -> Vec<Sprite> {
    (0..n).map(|i| Sprite { width: 1, height: 1, rgba: vec![byte.wrapping_add(i); 4] }).collect()
}

fn sheets(byte: u8) -> CatSheets {
    CatSheets { asleep: frames(2, byte), idle: frames(3, byte), walk: frames(2, byte), walk_flip: frames(2, byte) }
}

#[test]
fn cat_sheets_go_out_in_animation_order() {
    let s = sheets(7);
    let mut out = String::new();
    transmit_sheets(&mut out, &s, BLACK_BASE);
    let mut expected = String::new();
    for (frames, base) in [(&s.asleep, 10), (&s.idle, 20), (&s.walk, 30), (&s.walk_flip, 40)] {
        for (i, f) in frames.iter().enumerate() {
            transmit(&mut expected, base + i as u32, 1, 1, &f.rgba);
        }
    }
    assert_eq!(out, expected);
    assert!(out.contains("i=22,"));
    assert!(!out.contains("i=12,"));
}

#[test]
fn cats_layer_sends_frames_once_and_moves_only_what_changed() {
    let l = Layout::new(120, 40);
    let row = cat_row(&l).unwrap();
    let black = sheets(1);
    let white = sheets(100);
    let mut c = CatsLayer::new();
    let mut out = String::new();
    c.post_draw(&mut out, &l, &black, &white, 20, 30, 50, 70);
    let mut expected = String::new();
    transmit_sheets(&mut expected, &black, BLACK_BASE);
    transmit_sheets(&mut expected, &white, WHITE_BASE);
    place(&mut expected, 20, 30, row, l.cat_cols, l.cat_rows);
    place(&mut expected, 50, 70, row, l.cat_cols, l.cat_rows);
    assert_eq!(out, expected);

    let mut quiet = String::new();
    c.post_draw(&mut quiet, &l, &black, &white, 20, 30, 50, 70);
    assert_eq!(quiet, "");

    // the black cat changes frame and steps; the white one stays put
    let mut step = String::new();
    c.post_draw(&mut step, &l, &black, &white, 21, 31, 50, 70);
    let mut expected = String::new();
    delete_placement(&mut expected, 20);
    place(&mut expected, 21, 31, row, l.cat_cols, l.cat_rows);
    assert_eq!(step, expected);

    // after a resize both cats are placed again, nothing is re-sent
    c.init();
    let mut again = String::new();
    c.post_draw(&mut again, &l, &black, &white, 21, 31, 50, 70);
    let mut expected = String::new();
    place(&mut expected, 21, 31, row, l.cat_cols, l.cat_rows);
    place(&mut expected, 50, 70, row, l.cat_cols, l.cat_rows);
    assert_eq!(again, expected);
}

#[test]
fn cats_layer_is_silent_without_a_row() {
    let l = Layout::new(0, 0);
    let mut c = CatsLayer::new();
    let mut out = String::new();
    c.post_draw(&mut out, &l, &sheets(1), &sheets(2), 20, 0, 50, 0);
    assert_eq!(out, "");
    assert!(!c.transmitted);
}
