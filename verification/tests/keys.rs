use umlautkey::de::methods::IncrementalBuffer;
use umlautkey::de::rules::get_default_rules;
use umlautkey::platform::macos::{
    flags_contain, handle_key_down, handle_tap_event, TapEvent, has_command_like_modifier, macos_keycode_to_char,
    should_clear_tracker_keycode, FLAG_MASK_ALPHA_SHIFT, FLAG_MASK_ALTERNATE, FLAG_MASK_COMMAND,
    FLAG_MASK_CONTROL, FLAG_MASK_SHIFT, KC_1, KC_4, KC_A, KC_B, KC_BACKSPACE, KC_E, KC_ENTER,
    KC_ESCAPE, KC_QUOTE, KC_SPACE, KC_TAB,
};
use umlautkey::platform::tracker::{clear_tracker, handle_backspace, handle_transform, KeyOutcome};
use umlautkey::platform::windows;

#[test]
fn test_keycode_conversion() {
    assert_eq!(macos_keycode_to_char(KC_A, false, false), Some('a'));
    assert_eq!(macos_keycode_to_char(KC_A, true, false), Some('A'));
    assert_eq!(macos_keycode_to_char(KC_1, true, false), Some('!'));
    assert_eq!(macos_keycode_to_char(KC_SPACE, false, false), Some(' '));
}

#[test]
fn test_should_clear_tracker() {
    assert!(should_clear_tracker_keycode(KC_ENTER, 0));

    assert!(should_clear_tracker_keycode(KC_BACKSPACE, FLAG_MASK_COMMAND));

    assert!(!should_clear_tracker_keycode(KC_BACKSPACE, 0));
}

#[test]
fn test_handle_backspace_logic() {
    let mut raw_tracker = String::from("hello");
    handle_backspace(&mut raw_tracker);
    assert_eq!(raw_tracker, "hell");
}

#[test]
fn test_handle_key_down_tracking() {
    let rules = get_default_rules();
    let mut buffer = IncrementalBuffer::new(&rules);
    let mut raw_tracker = String::new();
    let mut logs: Vec<String> = Vec::new();
    let mut record = |outcome: KeyOutcome| {
        if let KeyOutcome::Replace { delete_count, text } = outcome {
            logs.push(format!("DELETE_{}", delete_count));
            logs.push(text);
        }
    };

    record(handle_key_down(&mut buffer, &mut raw_tracker, KC_A, 0));
    assert_eq!(raw_tracker, "a");

    record(handle_key_down(&mut buffer, &mut raw_tracker, KC_B, 0));
    assert_eq!(raw_tracker, "ab");

    record(handle_key_down(&mut buffer, &mut raw_tracker, KC_SPACE, 0));
    record(handle_key_down(&mut buffer, &mut raw_tracker, KC_A, 0));
    record(handle_key_down(&mut buffer, &mut raw_tracker, KC_E, 0));
    assert_eq!(raw_tracker, "ae".to_string());
    assert_eq!(logs[0], "DELETE_2");
    assert_eq!(logs[1], "ä".to_string());
}

#[test]
fn keycode_case_follows_shift_xor_caps() {
    assert_eq!(macos_keycode_to_char(KC_A, false, true), Some('A'));
    assert_eq!(macos_keycode_to_char(KC_A, true, true), Some('a'));
    // Digits ignore caps lock.
    assert_eq!(macos_keycode_to_char(KC_1, false, true), Some('1'));
    assert_eq!(macos_keycode_to_char(KC_4, true, false), Some('$'));
    assert_eq!(macos_keycode_to_char(KC_QUOTE, true, false), Some('"'));
    assert_eq!(macos_keycode_to_char(KC_ENTER, false, false), Some('\n'));
    assert_eq!(macos_keycode_to_char(KC_TAB, true, false), Some('\t'));
    assert_eq!(macos_keycode_to_char(KC_ESCAPE, false, false), None);
    assert_eq!(macos_keycode_to_char(10, false, false), None);
}

#[test]
fn modifier_flags() {
    assert!(flags_contain(FLAG_MASK_SHIFT | FLAG_MASK_COMMAND, FLAG_MASK_COMMAND));
    assert!(!flags_contain(FLAG_MASK_SHIFT, FLAG_MASK_COMMAND));
    assert!(flags_contain(0, 0));
    assert!(has_command_like_modifier(FLAG_MASK_CONTROL));
    assert!(has_command_like_modifier(FLAG_MASK_ALTERNATE | FLAG_MASK_SHIFT));
    assert!(!has_command_like_modifier(FLAG_MASK_SHIFT | FLAG_MASK_ALPHA_SHIFT));
}

#[test]
fn mac_shortcuts_and_keys_without_text() {
    let rules = get_default_rules();
    let mut buffer = IncrementalBuffer::new(&rules);
    let mut tracker = String::from("ab");
    let outcome = handle_key_down(&mut buffer, &mut tracker, KC_A, FLAG_MASK_COMMAND);
    assert!(matches!(outcome, KeyOutcome::Pass));
    assert_eq!(tracker, "");

    tracker.push_str("xy");
    let outcome = handle_key_down(&mut buffer, &mut tracker, KC_ESCAPE, 0);
    assert!(matches!(outcome, KeyOutcome::Pass));
    assert_eq!(tracker, "");

    tracker.push_str("xy");
    let outcome = handle_key_down(&mut buffer, &mut tracker, 10, 0);
    assert!(matches!(outcome, KeyOutcome::Pass));
    assert_eq!(tracker, "xy");

    let outcome = handle_key_down(&mut buffer, &mut tracker, KC_BACKSPACE, 0);
    assert!(matches!(outcome, KeyOutcome::Pass));
    assert_eq!(tracker, "x");

    let outcome = handle_key_down(&mut buffer, &mut tracker, KC_BACKSPACE, FLAG_MASK_COMMAND);
    assert!(matches!(outcome, KeyOutcome::Pass));
    assert_eq!(tracker, "");
}

#[test]
fn mac_shift_4_types_euro() {
    let rules = get_default_rules();
    let mut buffer = IncrementalBuffer::new(&rules);
    let mut tracker = String::new();
    match handle_key_down(&mut buffer, &mut tracker, KC_4, FLAG_MASK_SHIFT) {
        KeyOutcome::Replace { delete_count, text } => {
            assert_eq!(delete_count, 1);
            assert_eq!(text, "€");
        }
        _ => panic!("expected a replacement"),
    }
    assert_eq!(tracker, "$");
    assert_eq!(buffer.view(), "");
}

#[test]
fn mac_caps_lock_umlaut() {
    let rules = get_default_rules();
    let mut buffer = IncrementalBuffer::new(&rules);
    let mut tracker = String::new();
    let _ = handle_key_down(&mut buffer, &mut tracker, KC_A, FLAG_MASK_ALPHA_SHIFT);
    match handle_key_down(&mut buffer, &mut tracker, KC_E, FLAG_MASK_ALPHA_SHIFT) {
        KeyOutcome::Replace { delete_count, text } => {
            assert_eq!(delete_count, 2);
            assert_eq!(text, "Ä");
        }
        _ => panic!("expected a replacement"),
    }
    assert_eq!(tracker, "AE");
}

#[test]
fn transform_empties_the_buffer() {
    let rules = get_default_rules();
    let mut buffer = IncrementalBuffer::new(&rules);
    assert_eq!(handle_transform(&mut buffer, "Strasse"), "Straße");
    assert_eq!(buffer.view(), "");
    // A buffer that held text composes on top of it.
    buffer.push('a');
    assert_eq!(handle_transform(&mut buffer, "e"), "ä");
    assert_eq!(buffer.view(), "");
}

#[test]
fn tracker_clear_and_backspace() {
    let mut tracker = String::from("ä");
    handle_backspace(&mut tracker);
    assert_eq!(tracker, "");
    handle_backspace(&mut tracker);
    assert_eq!(tracker, "");
    tracker.push_str("abc");
    clear_tracker(&mut tracker);
    assert_eq!(tracker, "");
}

#[test]
fn windows_keys() {
    assert_eq!(windows::win_vk_to_char(windows::VK_A, false, false), Some('a'));
    assert_eq!(windows::win_vk_to_char(windows::VK_Z, true, false), Some('Z'));
    assert_eq!(windows::win_vk_to_char(windows::VK_E, false, true), Some('E'));
    assert_eq!(windows::win_vk_to_char(windows::VK_4, true, false), Some('$'));
    assert_eq!(windows::win_vk_to_char(windows::VK_OEM_3, true, false), Some('~'));
    assert_eq!(windows::win_vk_to_char(windows::VK_OEM_3, false, false), Some('`'));
    assert_eq!(windows::win_vk_to_char(windows::VK_RETURN, false, false), Some('\n'));
    assert_eq!(windows::win_vk_to_char(windows::VK_ESCAPE, false, false), None);
    assert!(windows::should_clear_tracker_win(windows::VK_RETURN));
    assert!(windows::should_clear_tracker_win(windows::VK_LEFT));
    assert!(!windows::should_clear_tracker_win(windows::VK_SPACE));
    assert!(windows::is_toggle_shortcut(windows::VK_Z, true, true));
    assert!(!windows::is_toggle_shortcut(windows::VK_Z, true, false));
    assert!(!windows::is_toggle_shortcut(windows::VK_A, true, true));
}

#[test]
fn windows_key_down() {
    let rules = get_default_rules();
    let mut buffer = IncrementalBuffer::new(&rules);
    let mut tracker = String::new();
    let first = windows::handle_key_down(&mut buffer, &mut tracker, windows::VK_A, false, false);
    assert!(matches!(first, KeyOutcome::Pass));
    match windows::handle_key_down(&mut buffer, &mut tracker, windows::VK_E, false, false) {
        KeyOutcome::Replace { delete_count, text } => {
            // Only the composed word on screen before the key is erased.
            assert_eq!(delete_count, 1);
            assert_eq!(text, "ä");
        }
        _ => panic!("expected a replacement"),
    }
    match windows::handle_key_down(&mut buffer, &mut tracker, windows::VK_E, false, false) {
        KeyOutcome::Replace { delete_count, text } => {
            assert_eq!(delete_count, 1);
            assert_eq!(text, "ae");
        }
        _ => panic!("expected a replacement"),
    }
    assert_eq!(tracker, "aee");
    // Space is text on Windows: it does not clear the tracker.
    let _ = windows::handle_key_down(&mut buffer, &mut tracker, windows::VK_SPACE, false, false);
    assert_eq!(tracker, "aee ");
    let _ = windows::handle_key_down(&mut buffer, &mut tracker, windows::VK_BACK, false, false);
    assert_eq!(tracker, "aee");
    let _ = windows::handle_key_down(&mut buffer, &mut tracker, windows::VK_TAB, false, false);
    assert_eq!(tracker, "");
    let _ = windows::handle_key_down(&mut buffer, &mut tracker, windows::VK_SHIFT, true, false);
    assert_eq!(tracker, "");
    assert_eq!(buffer.view(), "");
}

#[test]
fn mac_tap_events() {
    let rules = get_default_rules();
    let mut buffer = IncrementalBuffer::new(&rules);
    let mut tracker = String::from("a");
    let key_e = || TapEvent::KeyDown { source_state_id: 1, keycode: KC_E, flags: 0 };

    // While the replacement is being typed, everything is swallowed.
    let outcome = handle_tap_event(&mut buffer, &mut tracker, true, true, key_e());
    assert!(matches!(outcome, KeyOutcome::Block));
    assert_eq!(tracker, "a");

    // Events from other sources pass untouched.
    let synthetic = TapEvent::KeyDown { source_state_id: 0, keycode: KC_E, flags: 0 };
    let outcome = handle_tap_event(&mut buffer, &mut tracker, true, false, synthetic);
    assert!(matches!(outcome, KeyOutcome::Pass));
    assert_eq!(tracker, "a");

    // Other events pass.
    let outcome = handle_tap_event(&mut buffer, &mut tracker, true, false, TapEvent::Other);
    assert!(matches!(outcome, KeyOutcome::Pass));
    assert_eq!(tracker, "a");

    // A hardware key-down is composed.
    match handle_tap_event(&mut buffer, &mut tracker, true, false, key_e()) {
        KeyOutcome::Replace { delete_count, text } => {
            assert_eq!(delete_count, 2);
            assert_eq!(text, "ä");
        }
        _ => panic!("expected a replacement"),
    }

    // A click empties the tracker.
    let outcome = handle_tap_event(&mut buffer, &mut tracker, true, false, TapEvent::MouseDown);
    assert!(matches!(outcome, KeyOutcome::Pass));
    assert_eq!(tracker, "");
}

#[test]
fn mac_disabled_engine_passes_keys() {
    let rules = get_default_rules();
    let mut buffer = IncrementalBuffer::new(&rules);
    let mut tracker = String::from("a");
    let key_e = TapEvent::KeyDown { source_state_id: 1, keycode: KC_E, flags: 0 };
    let outcome = handle_tap_event(&mut buffer, &mut tracker, false, false, key_e);
    assert!(matches!(outcome, KeyOutcome::Pass));
    assert_eq!(tracker, "");
    assert_eq!(buffer.view(), "");
}

#[test]
fn windows_hook_events() {
    let rules = get_default_rules();
    let mut buffer = IncrementalBuffer::new(&rules);
    let mut tracker = String::from("a");

    // Own events and the replacement window pass untouched.
    let outcome = windows::handle_hook_event(
        &mut buffer, &mut tracker, true, true, false, windows::VK_E, false, false, false,
    );
    assert!(matches!(outcome, KeyOutcome::Pass));
    let outcome = windows::handle_hook_event(
        &mut buffer, &mut tracker, true, false, true, windows::VK_E, false, false, false,
    );
    assert!(matches!(outcome, KeyOutcome::Pass));
    assert_eq!(tracker, "a");

    // Control + shift + Z toggles, whether the engine is on or off.
    let outcome = windows::handle_hook_event(
        &mut buffer, &mut tracker, true, false, false, windows::VK_Z, true, true, false,
    );
    assert!(matches!(outcome, KeyOutcome::ToggleEngine));
    let outcome = windows::handle_hook_event(
        &mut buffer, &mut tracker, false, false, false, windows::VK_Z, true, true, false,
    );
    assert!(matches!(outcome, KeyOutcome::ToggleEngine));
    assert_eq!(tracker, "a");

    // Enabled: composed.
    match windows::handle_hook_event(
        &mut buffer, &mut tracker, true, false, false, windows::VK_E, false, false, false,
    ) {
        KeyOutcome::Replace { delete_count, text } => {
            assert_eq!(delete_count, 1);
            assert_eq!(text, "ä");
        }
        _ => panic!("expected a replacement"),
    }

    // Disabled: keys pass and the tracker is emptied.
    let outcome = windows::handle_hook_event(
        &mut buffer, &mut tracker, false, false, false, windows::VK_E, false, false, false,
    );
    assert!(matches!(outcome, KeyOutcome::Pass));
    assert_eq!(tracker, "");
}
