use metrocity::kitty::{delete_placement, place};
use metrocity::scenes::meadow::animals::{
    critter_frame_id, critter_next, transmit_critter, AnimalsLayer, CritterSheets, CritterShots, CritterState,
    BADGER_BASE, CAPY_BASE, SLOTH_BASE,
};
use metrocity::scenes::meadow::layout::Layout;
use metrocity::sprite::Sprite;

fn frames(n: u8, byte: u8) -> Vec<Sprite> {
    (0..n).map(|i| Sprite { width: 2, height: 1, rgba: vec![byte.wrapping_add(i); 8] }).collect()
}

fn wanderer(byte: u8) -> CritterSheets {
    CritterSheets { asleep: frames(2, byte), idle: frames(2, byte), walk: frames(3, byte), walk_flip: frames(3, byte), eat: vec![] }
}

fn sloth() -> CritterSheets {
    CritterSheets { asleep: frames(2, 9), idle: frames(2, 9), walk: vec![], walk_flip: vec![], eat: frames(4, 9) }
}

#[test]
fn animals_wake_then_eat_or_wander_then_sleep() {
    assert_eq!(critter_next(CritterState::Asleep, false), CritterState::Idle);
    assert_eq!(critter_next(CritterState::Idle, false), CritterState::Walking);
    assert_eq!(critter_next(CritterState::Idle, true), CritterState::Eating);
    assert_eq!(critter_next(CritterState::Walking, true), CritterState::Asleep);
    assert_eq!(critter_next(CritterState::Eating, true), CritterState::Asleep);
}

#[test]
fn critter_frame_ids() {
    assert_eq!(critter_frame_id(SLOTH_BASE, CritterState::Eating, true, true, 5, 4), 241);
    assert_eq!(critter_frame_id(CAPY_BASE, CritterState::Walking, false, true, 4, 3), 131);
    assert_eq!(critter_frame_id(CAPY_BASE, CritterState::Walking, true, true, 4, 3), 121);
    // an empty animation counts as one image
    assert_eq!(critter_frame_id(SLOTH_BASE, CritterState::Walking, true, true, 7, 0), 220);
}

#[test]
fn animals_layer_sends_once_then_moves_what_changed() {
    let l = Layout::new(100, 40, 8, None);
    let row = l.animal_row();
    let (capy, sl, badger) = (wanderer(1), sloth(), wanderer(200));
    let shots = CritterShots { capy: (110, 20), sloth: (200, 40), badger: (320, 60) };
    let mut a = AnimalsLayer::new();
    let mut out = String::new();
    a.post_draw(&mut out, &l, &capy, &sl, &badger, shots);
    let mut expected = String::new();
    transmit_critter(&mut expected, &capy, CAPY_BASE);
    transmit_critter(&mut expected, &sl, SLOTH_BASE);
    transmit_critter(&mut expected, &badger, BADGER_BASE);
    place(&mut expected, 320, 60, row, 10, 5);
    place(&mut expected, 110, 20, row, 10, 5);
    place(&mut expected, 200, 40, row, 10, 5);
    assert_eq!(out, expected);
    assert!(out.contains("i=243,"));
    assert!(!out.contains("i=220,"));

    let mut quiet = String::new();
    a.post_draw(&mut quiet, &l, &capy, &sl, &badger, CritterShots { capy: (110, 20), sloth: (200, 40), badger: (320, 60) });
    assert_eq!(quiet, "");

    let mut step = String::new();
    a.post_draw(&mut step, &l, &capy, &sl, &badger, CritterShots { capy: (111, 20), sloth: (200, 40), badger: (320, 61) });
    let mut expected = String::new();
    place(&mut expected, 320, 61, row, 10, 5);
    delete_placement(&mut expected, 110);
    place(&mut expected, 111, 20, row, 10, 5);
    assert_eq!(step, expected);

    // a resize drops the images: they are sent again
    a.init();
    let mut again = String::new();
    a.post_draw(&mut again, &l, &capy, &sl, &badger, shots);
    assert_eq!(again, out);
}
