use voice_prompt::config::HotkeyConfig;
use voice_prompt::hotkey::capture::{ComboCapture, CAPTURE_TIMEOUT_MS};
use voice_prompt::hotkey::linux;
use voice_prompt::hotkey::listener::{HotkeyListener, KeyEvent, DEBOUNCE_MS};
use voice_prompt::hotkey::macos;
use voice_prompt::hotkey::macos::{Key, TapEvent};
use voice_prompt::hotkey::names::{build_display_name, contains_text, key_name, trigger_name, Platform};

fn ctrl_space() -> HotkeyConfig {
    HotkeyConfig::default()
}

#[test]
fn modifiers_are_the_eight_control_shift_alt_and_meta_keys() {
    let modifiers: [u16; 8] = [29, 97, 42, 54, 56, 100, 125, 126];
    let mut code: u32 = 0;
    while code <= 0xFFFF {
        let c = code as u16;
        assert_eq!(linux::is_modifier(c), modifiers.contains(&c));
        assert_eq!(macos::is_modifier(c), modifiers.contains(&c));
        code += 1;
    }
}

#[test]
fn modifier_names_differ_by_platform_for_meta_only() {
    assert_eq!(linux::key_name(29), "Ctrl");
    assert_eq!(linux::key_name(97), "Ctrl");
    assert_eq!(linux::key_name(42), "Shift");
    assert_eq!(linux::key_name(54), "Shift");
    assert_eq!(linux::key_name(56), "Alt");
    assert_eq!(linux::key_name(100), "Alt");
    assert_eq!(linux::key_name(125), "Super");
    assert_eq!(linux::key_name(126), "Super");
    assert_eq!(linux::key_name(30), "");
    assert_eq!(macos::key_name(29), "Ctrl");
    assert_eq!(macos::key_name(54), "Shift");
    assert_eq!(macos::key_name(100), "Alt");
    assert_eq!(macos::key_name(125), "Cmd");
    assert_eq!(macos::key_name(126), "Cmd");
    assert_eq!(macos::key_name(57), "");
    assert_eq!(key_name(Platform::Linux, 125), "Super");
    assert_eq!(key_name(Platform::MacOs, 125), "Cmd");
}

#[test]
fn linux_trigger_names_come_from_the_kernel_names() {
    assert_eq!(linux::trigger_name(1), "Esc");
    assert_eq!(linux::trigger_name(14), "Backspace");
    assert_eq!(linux::trigger_name(15), "Tab");
    assert_eq!(linux::trigger_name(28), "Enter");
    assert_eq!(linux::trigger_name(57), "Space");
    assert_eq!(linux::trigger_name(30), "A");
    assert_eq!(linux::trigger_name(59), "F1");
    assert_eq!(linux::trigger_name(2), "1");
    assert_eq!(linux::trigger_name(0x110), "BTN_LEFT");
    assert_eq!(linux::trigger_name(0x2ff), "unknown key: 767");
    assert_eq!(trigger_name(Platform::Linux, 44), "Z");
}

#[test]
fn key_prefix_is_stripped_from_kernel_names_only() {
    assert_eq!(linux::strip_key_prefix("KEY_A"), "A");
    assert_eq!(linux::strip_key_prefix("KEY_LEFTBRACE"), "LEFTBRACE");
    assert_eq!(linux::strip_key_prefix("KEY_"), "");
    assert_eq!(linux::strip_key_prefix("BTN_LEFT"), "BTN_LEFT");
    assert_eq!(linux::strip_key_prefix("unknown key: 9"), "unknown key: 9");
    assert_eq!(linux::strip_key_prefix(""), "");
    assert_eq!(linux::strip_key_prefix("XKEY_A"), "XKEY_A");
}

#[test]
fn macos_trigger_names_come_from_the_table() {
    assert_eq!(macos::trigger_name(1), "Esc");
    assert_eq!(macos::trigger_name(57), "Space");
    assert_eq!(macos::trigger_name(30), "A");
    assert_eq!(macos::trigger_name(44), "Z");
    assert_eq!(macos::trigger_name(50), "M");
    assert_eq!(macos::trigger_name(59), "Key59");
    assert_eq!(macos::trigger_name(0), "Key0");
    assert_eq!(macos::trigger_name(65535), "Key65535");
    assert_eq!(trigger_name(Platform::MacOs, 2), "Key2");
}

#[test]
fn display_names_list_each_modifier_name_once() {
    assert_eq!(linux::build_display_name(&[29], 57), "Ctrl+Space");
    assert_eq!(linux::build_display_name(&[29, 97], 57), "Ctrl+Space");
    assert_eq!(linux::build_display_name(&[29, 42, 97, 54], 30), "Ctrl+Shift+A");
    assert_eq!(linux::build_display_name(&[42, 29], 30), "Shift+Ctrl+A");
    assert_eq!(linux::build_display_name(&[125], 15), "Super+Tab");
    assert_eq!(linux::build_display_name(&[], 30), "A");
    assert_eq!(linux::build_display_name(&[30, 29], 31), "Ctrl+S");
    assert_eq!(macos::build_display_name(&[125, 56], 57), "Cmd+Alt+Space");
    assert_eq!(macos::build_display_name(&[126, 125], 60), "Cmd+Key60");
    assert_eq!(build_display_name(Platform::MacOs, &[29], 1), "Ctrl+Esc");
}

#[test]
fn contains_text_finds_equal_strings() {
    let parts = vec!["Ctrl".to_string(), "Alt".to_string()];
    assert!(contains_text(&parts, "Alt"));
    assert!(!contains_text(&parts, "Shift"));
    assert!(!contains_text(&vec![], "Ctrl"));
}

#[test]
fn event_tap_keys_map_to_input_layer_codes() {
    assert_eq!(macos::rdev_key_to_code(Key::ControlLeft), 29);
    assert_eq!(macos::rdev_key_to_code(Key::ControlRight), 97);
    assert_eq!(macos::rdev_key_to_code(Key::ShiftLeft), 42);
    assert_eq!(macos::rdev_key_to_code(Key::ShiftRight), 54);
    assert_eq!(macos::rdev_key_to_code(Key::Alt), 56);
    assert_eq!(macos::rdev_key_to_code(Key::AltGr), 100);
    assert_eq!(macos::rdev_key_to_code(Key::MetaLeft), 125);
    assert_eq!(macos::rdev_key_to_code(Key::MetaRight), 126);
    assert_eq!(macos::rdev_key_to_code(Key::Escape), 1);
    assert_eq!(macos::rdev_key_to_code(Key::BackSpace), 14);
    assert_eq!(macos::rdev_key_to_code(Key::Tab), 15);
    assert_eq!(macos::rdev_key_to_code(Key::Return), 28);
    assert_eq!(macos::rdev_key_to_code(Key::Space), 57);
    assert_eq!(macos::rdev_key_to_code(Key::KeyA), 30);
    assert_eq!(macos::rdev_key_to_code(Key::KeyM), 50);
    assert_eq!(macos::rdev_key_to_code(Key::KeyZ), 44);
    assert_eq!(macos::rdev_key_to_code(Key::Num0), 11);
    assert_eq!(macos::rdev_key_to_code(Key::Num1), 2);
    assert_eq!(macos::rdev_key_to_code(Key::Num9), 10);
    assert_eq!(macos::rdev_key_to_code(Key::F1), 59);
    assert_eq!(macos::rdev_key_to_code(Key::F10), 68);
    assert_eq!(macos::rdev_key_to_code(Key::F11), 87);
    assert_eq!(macos::rdev_key_to_code(Key::F12), 88);
    assert_eq!(macos::rdev_key_to_code(Key::Unknown(300)), 300);
    assert_eq!(macos::rdev_key_to_code(Key::Unknown(65536 + 7)), 7);
    assert_eq!(macos::rdev_key_to_code(Key::Other), 0);
}

#[test]
fn letters_named_by_both_tables_agree() {
    let keys = [Key::KeyA, Key::KeyB, Key::KeyQ, Key::KeyZ, Key::KeyM];
    for key in keys {
        let code = macos::rdev_key_to_code(key);
        assert_eq!(macos::trigger_name(code), linux::trigger_name(code));
    }
}

#[test]
fn listener_fires_once_the_whole_combination_is_held() {
    let hotkey = ctrl_space();
    let mut listener = HotkeyListener::new();
    assert!(!listener.matches(&hotkey));
    assert!(!listener.on_key_event(KeyEvent::Press(57), &hotkey, 0));
    assert!(listener.holds(57));
    assert!(!listener.on_key_event(KeyEvent::Release(57), &hotkey, 10));
    assert!(!listener.holds(57));
    assert!(!listener.on_key_event(KeyEvent::Press(29), &hotkey, 20));
    assert!(listener.on_key_event(KeyEvent::Press(57), &hotkey, 30));
    assert_eq!(listener.last_trigger(), Some(30));
    assert!(listener.matches(&hotkey));
}

#[test]
fn debounce_drops_a_second_match_within_half_a_second() {
    let hotkey = ctrl_space();
    let mut listener = HotkeyListener::new();
    listener.apply(KeyEvent::Press(29));
    listener.apply(KeyEvent::Press(57));
    let mut fired = 0;
    if listener.poll(&hotkey, 1000) {
        fired += 1;
    }
    if listener.poll(&hotkey, 1000 + DEBOUNCE_MS - 1) {
        fired += 1;
    }
    assert_eq!(fired, 1);
    assert_eq!(listener.last_trigger(), Some(1000));
}

#[test]
fn debounce_lets_a_second_match_pass_after_half_a_second() {
    let hotkey = ctrl_space();
    let mut listener = HotkeyListener::new();
    listener.apply(KeyEvent::Press(29));
    listener.apply(KeyEvent::Press(57));
    let mut fired = 0;
    if listener.poll(&hotkey, 1000) {
        fired += 1;
    }
    if listener.poll(&hotkey, 1000 + DEBOUNCE_MS) {
        fired += 1;
    }
    assert_eq!(fired, 2);
    assert_eq!(listener.last_trigger(), Some(1500));
}

#[test]
fn a_clock_that_ran_backwards_does_not_fire() {
    let hotkey = ctrl_space();
    let mut listener = HotkeyListener::new();
    listener.apply(KeyEvent::Press(29));
    listener.apply(KeyEvent::Press(57));
    assert!(listener.poll(&hotkey, 5000));
    assert!(!listener.poll(&hotkey, 100));
    assert_eq!(listener.last_trigger(), Some(5000));
}

#[test]
fn releases_and_repeats_never_fire() {
    let hotkey = ctrl_space();
    let mut listener = HotkeyListener::new();
    listener.apply(KeyEvent::Press(29));
    listener.apply(KeyEvent::Press(57));
    assert!(!listener.on_key_event(KeyEvent::Other, &hotkey, 0));
    assert!(!listener.on_key_event(KeyEvent::Release(42), &hotkey, 0));
    assert_eq!(listener.last_trigger(), None);
    assert!(listener.on_key_event(KeyEvent::Press(42), &hotkey, 0));
}

#[test]
fn listener_follows_a_changed_combination() {
    let mut listener = HotkeyListener::new();
    listener.apply(KeyEvent::Press(56));
    listener.apply(KeyEvent::Press(42));
    listener.apply(KeyEvent::Press(30));
    assert!(!listener.poll(&ctrl_space(), 0));
    let other = HotkeyConfig { modifiers: vec![56, 42], trigger: 30, display_name: "Alt+Shift+A".to_string() };
    assert!(listener.poll(&other, 1));
    let bare = HotkeyConfig { modifiers: vec![], trigger: 30, display_name: "A".to_string() };
    assert!(!listener.poll(&bare, 2));
    assert!(listener.poll(&bare, 501));
}

#[test]
fn capture_returns_the_first_key_pressed_with_a_modifier() {
    let mut capture = ComboCapture::new(Platform::Linux, 0);
    assert_eq!(capture.on_key_event(KeyEvent::Press(30)), None);
    assert_eq!(capture.on_key_event(KeyEvent::Release(30)), None);
    assert_eq!(capture.on_key_event(KeyEvent::Press(42)), None);
    assert_eq!(capture.on_key_event(KeyEvent::Press(29)), None);
    assert_eq!(capture.on_key_event(KeyEvent::Other), None);
    assert_eq!(
        capture.on_key_event(KeyEvent::Press(30)),
        Some(HotkeyConfig {
            modifiers: vec![29, 42],
            trigger: 30,
            display_name: "Ctrl+Shift+A".to_string(),
        })
    );
}

#[test]
fn capture_forgets_released_modifiers() {
    let mut capture = ComboCapture::new(Platform::MacOs, 0);
    assert_eq!(capture.on_key_event(KeyEvent::Press(125)), None);
    assert_eq!(capture.on_key_event(KeyEvent::Release(125)), None);
    assert_eq!(capture.on_key_event(KeyEvent::Press(57)), None);
    assert_eq!(capture.on_key_event(KeyEvent::Press(126)), None);
    assert_eq!(
        capture.on_key_event(KeyEvent::Press(31)),
        Some(HotkeyConfig { modifiers: vec![126], trigger: 31, display_name: "Cmd+S".to_string() })
    );
}

#[test]
fn capture_runs_out_after_ten_seconds() {
    let capture = ComboCapture::new(Platform::Linux, 1_000);
    assert!(!capture.expired(1_000));
    assert!(!capture.expired(1_000 + CAPTURE_TIMEOUT_MS));
    assert!(capture.expired(1_001 + CAPTURE_TIMEOUT_MS));
    assert!(!capture.expired(0));
}

#[test]
fn input_layer_values_are_down_up_and_repeat() {
    assert_eq!(linux::key_event(30, 1), KeyEvent::Press(30));
    assert_eq!(linux::key_event(30, 0), KeyEvent::Release(30));
    assert_eq!(linux::key_event(30, 2), KeyEvent::Other);
    assert_eq!(linux::key_event(30, -1), KeyEvent::Other);
}

#[test]
fn keyboards_are_event_devices_with_the_key_a() {
    assert!(linux::is_event_node("event0"));
    assert!(linux::is_event_node("event17"));
    assert!(!linux::is_event_node("mouse0"));
    assert!(!linux::is_event_node("by-id"));
    assert!(!linux::is_event_node("even"));
    assert!(linux::looks_like_keyboard(true, true));
    assert!(!linux::looks_like_keyboard(true, false));
    assert!(!linux::looks_like_keyboard(false, true));
    assert!(!linux::looks_like_keyboard(false, false));
}

#[test]
fn event_tap_events_carry_the_key_code() {
    assert_eq!(macos::key_event(TapEvent::KeyPress(Key::Space)), KeyEvent::Press(57));
    assert_eq!(macos::key_event(TapEvent::KeyRelease(Key::MetaLeft)), KeyEvent::Release(125));
    assert_eq!(macos::key_event(TapEvent::KeyPress(Key::Unknown(200))), KeyEvent::Press(200));
    assert_eq!(macos::key_event(TapEvent::Other), KeyEvent::Other);
}
