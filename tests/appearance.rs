use rig_control::led::{
    adjust_brightness, adjust_hue, default_led, led_state_or_default, mode_from_name, scale_channel,
    strip_fill, Led, LedMode,
};
use rig_control::presets::{
    merge_preset_ids, other_presets, pick_rotation_target, poll_rotation, rotation_due, target_from_draw,
};

#[test]
fn brightness_clamps_at_both_ends() {
    assert_eq!(adjust_brightness(50, true), 60);
    assert_eq!(adjust_brightness(50, false), 40);
    assert_eq!(adjust_brightness(95, true), 100);
    assert_eq!(adjust_brightness(100, true), 100);
    assert_eq!(adjust_brightness(5, false), 0);
    assert_eq!(adjust_brightness(0, false), 0);
    assert_eq!(adjust_brightness(250, false), 100);
}

#[test]
fn brightness_stays_in_range_over_sequences() {
    let mut b = 37u8;
    let ops = [true, true, true, true, true, true, true, true, false, true, false, false, false, false,
        false, false, false, false, false, false, false, true];
    for up in ops {
        b = adjust_brightness(b, up);
        assert!(b <= 100);
    }
    assert_eq!(b, 10);
}

#[test]
fn hue_wraps_around_the_circle() {
    assert_eq!(adjust_hue(120, true), 130);
    assert_eq!(adjust_hue(120, false), 110);
    assert_eq!(adjust_hue(355, true), 5);
    assert_eq!(adjust_hue(350, true), 0);
    assert_eq!(adjust_hue(5, false), 355);
    assert_eq!(adjust_hue(0, false), 350);
}

#[test]
fn hue_full_turn_returns_to_start() {
    for start in [0u16, 7, 180, 359] {
        let mut h = start;
        for _ in 0..36 {
            h = adjust_hue(h, true);
        }
        assert_eq!(h, start);
    }
}

#[test]
fn channel_scaling_rounds_to_nearest() {
    assert_eq!(scale_channel(255, 100), 255);
    assert_eq!(scale_channel(255, 0), 0);
    assert_eq!(scale_channel(255, 50), 128);
    assert_eq!(scale_channel(255, 10), 26);
    assert_eq!(scale_channel(3, 10), 0);
    assert_eq!(scale_channel(5, 10), 1);
}

#[test]
fn strip_fill_only_for_solid_mode() {
    assert_eq!(mode_from_name("solid"), LedMode::Solid);
    assert_eq!(mode_from_name("Solid"), LedMode::Unsupported);
    assert_eq!(mode_from_name("solids"), LedMode::Unsupported);
    assert_eq!(mode_from_name(""), LedMode::Unsupported);
    assert_eq!(mode_from_name("rainbow"), LedMode::Unsupported);
    assert_eq!(strip_fill(LedMode::Solid, Some([255, 100, 0]), Some(50)), Some([128, 50, 0]));
    assert_eq!(strip_fill(LedMode::Solid, Some([255, 100, 0]), None), Some([255, 100, 0]));
    assert_eq!(strip_fill(LedMode::Solid, None, Some(50)), None);
    assert_eq!(strip_fill(LedMode::Unsupported, Some([1, 2, 3]), Some(50)), None);
}

#[test]
fn missing_led_record_falls_back_to_default() {
    let l = led_state_or_default(Vec::new(), 0);
    assert_eq!(l.color, "ff0000");
    assert_eq!(l.brightness, 10);
    assert_eq!(l.mode, "solid");
    assert_eq!(l.associated_preset, Some(0));
    let d = default_led(4);
    assert_eq!(d.associated_preset, Some(4));
    assert_eq!(d.id, 0);
}

#[test]
fn stored_led_record_is_used_first() {
    let first = Led {
        id: 3,
        color: "00ff00".to_string(),
        brightness: 70,
        mode: "solid".to_string(),
        associated_preset: Some(2),
    };
    let second = Led { id: 4, color: "0000ff".to_string(), ..first.clone() };
    let l = led_state_or_default(vec![first, second], 2);
    assert_eq!(l.id, 3);
    assert_eq!(l.color, "00ff00");
    assert_eq!(l.brightness, 70);
}

#[test]
fn presets_merge_sorted_without_duplicates() {
    assert_eq!(merge_preset_ids(vec![2, 5], vec![5, 7]), vec![2, 5, 7]);
    assert_eq!(merge_preset_ids(vec![9, 1, 9, 3], vec![3, 2, 1]), vec![1, 2, 3, 9]);
    assert_eq!(merge_preset_ids(vec![], vec![]), Vec::<i32>::new());
    assert_eq!(merge_preset_ids(vec![], vec![-1, 4]), vec![-1, 4]);
}

#[test]
fn rotation_due_after_delay() {
    assert!(!rotation_due(false, 0, 600));
    assert!(rotation_due(true, 0, 60));
    assert!(!rotation_due(true, 0, 59));
    assert!(!rotation_due(true, 5, 359));
    assert!(rotation_due(true, 5, 360));
    assert!(rotation_due(true, -1, 0));
}

#[test]
fn rotation_never_picks_active_preset() {
    let presets = vec![1, 2, 3];
    for _ in 0..200 {
        let t = poll_rotation(true, 0, 61, &presets, 1).unwrap();
        assert!(t == 2 || t == 3);
    }
    assert_eq!(poll_rotation(true, 0, 30, &presets, 1), None);
    assert_eq!(poll_rotation(false, 0, 6000, &presets, 1), None);
}

#[test]
fn rotation_reaches_every_other_preset() {
    let presets = vec![1, 2, 3, 4];
    let mut seen = [false; 5];
    for _ in 0..500 {
        let t = pick_rotation_target(&presets, 3).unwrap();
        seen[t as usize] = true;
    }
    assert_eq!(seen, [false, true, true, false, true]);
}

#[test]
fn rotation_without_other_preset_stays() {
    assert_eq!(pick_rotation_target(&vec![1], 1), None);
    assert_eq!(pick_rotation_target(&vec![], 1), None);
    assert_eq!(poll_rotation(true, 0, 600, &vec![2, 2], 2), None);
}

#[test]
fn rotation_draw_indexes_other_presets() {
    let presets = vec![1, 2, 3];
    assert_eq!(other_presets(&presets, 1), vec![2, 3]);
    assert_eq!(target_from_draw(&presets, 1, 0), Some(2));
    assert_eq!(target_from_draw(&presets, 1, 1), Some(3));
    assert_eq!(target_from_draw(&presets, 1, 5), Some(3));
    assert_eq!(target_from_draw(&vec![1], 1, 0), None);
}
