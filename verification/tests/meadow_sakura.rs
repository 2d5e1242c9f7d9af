use metrocity::layout::Rect;
use metrocity::scenes::meadow::decor::hazed;
use metrocity::scenes::meadow::layout::{Canopy, Layout as MeadowLayout, Slot};
use metrocity::scenes::meadow::paint as meadow_paint;
use metrocity::scenes::sakura::layout::Layout as SakuraLayout;
use metrocity::scenes::sakura::skyline::{buildings, lights, shore_light_at, window_lit, window_slot, Building};

#[test]
fn meadow_hash_matches_the_cafe_hash() {
    assert_eq!(meadow_paint::hash(1, 2), 699_680_316);
    assert_eq!(meadow_paint::hash(123, 456), 2_734_232_813);
}

#[test]
fn hazed_matches_the_float_blend_for_every_channel_value() {
    let haze = [176u8, 196, 184];
    for c in 0..=255u8 {
        let rgba = vec![c, c, c, 255];
        let out = hazed(rgba);
        for (k, h) in haze.iter().enumerate() {
            let expected = (f32::from(c) + (f32::from(*h) - f32::from(c)) * 0.32) as u8;
            assert_eq!(out[k], expected, "c = {}, channel {}", c, k);
        }
        assert_eq!(out[3], 255);
    }
}

#[test]
fn hazed_keeps_transparent_pixels_and_partial_tails() {
    let rgba = vec![10, 20, 30, 0, 100, 100, 100, 1, 7, 8];
    let out = hazed(rgba);
    assert_eq!(out, vec![10, 20, 30, 0, 124, 130, 126, 1, 7, 8]);
}

#[test]
fn meadow_rows_equal_the_float_fractions_for_every_height() {
    for h in 0..=u16::MAX {
        let l = MeadowLayout::new(100, h, 0, None);
        assert_eq!(l.horizon_y, (h as f32 * 0.50) as u16, "h = {}", h);
        assert_eq!(l.ground_y, (h as f32 * 0.80) as u16, "h = {}", h);
        let hy = l.horizon_y;
        assert_eq!(l.canopy_ry, (f32::from(hy) * 0.60).max(4.0) as u16, "h = {}", h);
        assert_eq!(l.branch_y, (f32::from(hy) * 0.30) as u16, "h = {}", h);
    }
}

#[test]
fn meadow_layout_for_a_typical_terminal() {
    let c = MeadowLayout::canopy(100, 40, 8);
    assert_eq!(c, Canopy { cx: 6, cy: 8, rx: 20, ry: 12, branch_y: 6 });
    let l = MeadowLayout::new(100, 40, 8, Some(24));
    assert_eq!((l.horizon_y, l.ground_y), (20, 32));
    assert_eq!(l.sun, Rect { x: 80, y: 2, width: 6, height: 3 });
    assert_eq!(l.trunk, Rect { x: 4, y: 19, width: 5, height: 15 });
    assert_eq!(l.branch_x_end, 28);
    assert_eq!(l.hive, Rect { x: 25, y: 6, width: 6, height: 3 });
    assert_eq!(l.sunflowers, Rect { x: 11, y: 27, width: 11, height: 8 });
    assert_eq!(l.cabin, Rect { x: 84, y: 16, width: 11, height: 5 });
    let s: Slot = l.sloth;
    assert_eq!((s.range, s.start), ((44, 48), 46));
    assert_eq!((l.badger.range, l.badger.start), ((26, 38), 32));
    assert_eq!((l.capy.range, l.capy.start), ((64, 76), 70));
    assert_eq!(l.hunny, Rect { x: 54, y: 30, width: 5, height: 3 });
    assert_eq!(l.book, Rect { x: 48, y: 31, width: 5, height: 2 });
    assert_eq!(l.blanket, Rect { x: 47, y: 32, width: 15, height: 2 });
    assert_eq!(l.animal_rows, 5);
    assert_eq!(l.animal_row(), 27);
}

#[test]
fn meadow_branch_without_leaf_edge_reaches_past_the_canopy() {
    let l = MeadowLayout::new(100, 40, 8, None);
    // canopy right end 6 + 20, plus 4
    assert_eq!(l.branch_x_end, 30);
    let narrow = MeadowLayout::new(20, 40, 8, None);
    assert_eq!(narrow.branch_x_end, 16);
    assert_eq!(MeadowLayout::new(0, 0, 0, None).animal_row(), 0);
}

#[test]
fn sakura_layout_for_a_typical_terminal() {
    let h: u16 = 30;
    let lake = (h as f32 * 0.52) as u16;
    let bank = (h as f32 * 0.78) as u16;
    let l = SakuraLayout::new(90, h, lake, bank);
    assert_eq!((l.horizon_y, l.ground_y), (15, 23));
    assert_eq!(l.moon, Rect { x: 17, y: 1, width: 8, height: 4 });
    assert_eq!(l.pagoda_x, 24);
    assert_eq!(l.torii, Rect { x: 78, y: 15, width: 10, height: 10 });
    assert_eq!(l.lantern_x, 41);
    assert_eq!(l.tree_cx, 75);
    assert_eq!((l.fox_cols, l.fox_rows), (13, 6));
    assert_eq!(l.fox_range, (43, 57));
    assert_eq!(l.lantern_left, Rect { x: 7, y: 23, width: 8, height: 4 });
    assert_eq!(l.lantern_right, Rect { x: 62, y: 24, width: 7, height: 4 });
}

#[test]
fn sakura_bank_is_clamped_below_the_horizon() {
    let l = SakuraLayout::new(50, 20, 3, 7);
    assert_eq!(l.horizon_y, 6);
    assert_eq!(l.ground_y, 8);
    let deep = SakuraLayout::new(50, 20, 10, 19);
    assert_eq!(deep.ground_y, 17);
}

fn lake_layout(w: u16) -> SakuraLayout {
    SakuraLayout::new(w, 30, 15, 23)
}

#[test]
fn skyline_buildings_pack_the_shore() {
    let b = buildings(&lake_layout(20));
    assert_eq!(
        b,
        vec![
            Building { x: 0, w: 5, h: 5, shade_halves: 2 },
            Building { x: 5, w: 5, h: 2, shade_halves: 2 },
            Building { x: 10, w: 3, h: 3, shade_halves: 2 },
            Building { x: 13, w: 5, h: 3, shade_halves: 0 },
            Building { x: 18, w: 3, h: 4, shade_halves: 1 },
        ]
    );
    assert!(buildings(&lake_layout(0)).is_empty());
}

#[test]
fn window_slots_and_shore_lights() {
    assert!(window_slot(0, 1));
    assert!(window_slot(4, 3));
    assert!(!window_slot(1, 1));
    assert!(!window_slot(2, 2));
    let shore: Vec<u16> = (0..40).filter(|&x| shore_light_at(x)).collect();
    assert_eq!(shore, vec![1, 8, 27, 32]);
    let lit = (0..1000u16).filter(|&x| window_lit(x, 1, 7)).count();
    assert_eq!(lit, 386);
    let first: Vec<u16> = (0..12).filter(|&x| window_lit(x, 1, 7)).collect();
    assert_eq!(first, vec![6, 7]);
}

#[test]
fn lake_reflections() {
    let l = lake_layout(40);
    assert_eq!(l.pagoda_x, 10);
    assert_eq!(lights(&l, 7), vec![(1, 65), (6, 45), (10, 100), (22, 45), (24, 45), (32, 65)]);
}
