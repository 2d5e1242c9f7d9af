use metrocity::kitty::{delete_all, delete_placement, place, supported, transmit, Placement};

use base64::engine::general_purpose::STANDARD;
use base64::Engine;

#[test]
fn place_writes_one_based_position_wrapped_in_cursor_save_restore() {
    let mut out = String::new();
    place(&mut out, 7, 3, 5, 2, 1);
    assert_eq!(out, "\x1b7\x1b[6;4H\x1b_Ga=p,q=2,i=7,p=1,c=2,r=1,C=1\x1b\\\x1b8");
}

#[test]
fn place_appends_to_existing_output() {
    let mut out = String::from("x");
    place(&mut out, 123, 0, 0, 10, 4);
    assert_eq!(out, "x\x1b7\x1b[1;1H\x1b_Ga=p,q=2,i=123,p=1,c=10,r=4,C=1\x1b\\\x1b8");
}

#[test]
fn delete_placement_targets_one_image() {
    let mut out = String::new();
    delete_placement(&mut out, 91);
    assert_eq!(out, "\x1b_Ga=d,q=2,d=i,i=91;\x1b\\");
}

#[test]
fn delete_all_clears_everything() {
    let mut out = String::new();
    delete_all(&mut out);
    assert_eq!(out, "\x1b_Ga=d,q=2,d=A;\x1b\\");
}

#[test]
fn transmit_small_image_is_one_chunk() {
    let rgba = [255u8, 0, 0, 255];
    let mut out = String::new();
    transmit(&mut out, 5, 1, 1, &rgba);
    assert_eq!(out, "\x1b_Ga=t,q=2,f=32,i=5,s=1,v=1,m=0;/wAA/w==\x1b\\");
}

#[test]
fn transmit_large_image_splits_payload_in_4096_byte_chunks() {
    let rgba: Vec<u8> = (0..4000u32).map(|i| (i % 251) as u8).collect();
    let payload = STANDARD.encode(&rgba);
    assert_eq!(payload.len(), 5336);
    let mut out = String::new();
    transmit(&mut out, 12, 25, 40, &rgba);
    let expected = format!(
        "\x1b_Ga=t,q=2,f=32,i=12,s=25,v=40,m=1;{}\x1b\\\x1b_Gm=0;{}\x1b\\",
        &payload[..4096],
        &payload[4096..]
    );
    assert_eq!(out, expected);
}

#[test]
fn transmit_chunks_reassemble_to_the_payload() {
    let rgba: Vec<u8> = (0..9000u32).map(|i| (i * 7 % 256) as u8).collect();
    let mut out = String::new();
    transmit(&mut out, 1, 30, 75, &rgba);
    let mut joined = String::new();
    let mut count = 0;
    for frame in out.split("\x1b_G").skip(1) {
        let body = frame.strip_suffix("\x1b\\").unwrap();
        let (_, data) = body.split_once(';').unwrap();
        assert!(data.len() <= 4096);
        joined.push_str(data);
        count += 1;
    }
    assert_eq!(count, 3);
    assert_eq!(joined, STANDARD.encode(&rgba));
    assert_eq!(STANDARD.decode(joined).unwrap(), rgba);
}

#[test]
fn transmit_empty_image_writes_nothing() {
    let mut out = String::new();
    transmit(&mut out, 1, 0, 0, &[]);
    assert_eq!(out, "");
}

#[test]
fn supported_detects_kitty_window_and_terminal_names() {
    assert!(supported(true, None));
    assert!(supported(true, Some("xterm")));
    assert!(supported(false, Some("xterm-kitty")));
    assert!(supported(false, Some("xterm-ghostty")));
    assert!(supported(false, Some("wezterm")));
    assert!(!supported(false, Some("xterm-256color")));
    assert!(!supported(false, None));
}

#[test]
fn placement_sends_only_changes() {
    let mut p = Placement::new();
    assert_eq!(p.last(), None);
    let mut out = String::new();
    p.update(&mut out, 10, 4, 2, 8, 4);
    assert_eq!(out, "\x1b7\x1b[3;5H\x1b_Ga=p,q=2,i=10,p=1,c=8,r=4,C=1\x1b\\\x1b8");
    assert_eq!(p.last(), Some((10, 4, 2)));

    let mut again = String::new();
    p.update(&mut again, 10, 4, 2, 8, 4);
    assert_eq!(again, "");

    let mut moved = String::new();
    p.update(&mut moved, 10, 5, 2, 8, 4);
    assert_eq!(moved, "\x1b7\x1b[3;6H\x1b_Ga=p,q=2,i=10,p=1,c=8,r=4,C=1\x1b\\\x1b8");

    let mut next_frame = String::new();
    p.update(&mut next_frame, 11, 5, 2, 8, 4);
    assert_eq!(
        next_frame,
        "\x1b_Ga=d,q=2,d=i,i=10;\x1b\\\x1b7\x1b[3;6H\x1b_Ga=p,q=2,i=11,p=1,c=8,r=4,C=1\x1b\\\x1b8"
    );

    p.reset();
    assert_eq!(p.last(), None);
    let mut after_reset = String::new();
    p.update(&mut after_reset, 11, 5, 2, 8, 4);
    assert_eq!(after_reset, "\x1b7\x1b[3;6H\x1b_Ga=p,q=2,i=11,p=1,c=8,r=4,C=1\x1b\\\x1b8");
}
