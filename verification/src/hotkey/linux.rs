//! Key names where events come from the Linux input layer.
use crate::hotkey::listener::KeyEvent;
use crate::hotkey::names::{build_display_name as build_name, display_name_text, is_modifier_code, Platform};
use crate::text::{has_prefix, starts_with};
use vstd::prelude::*;
use vstd::string::*;

verus! {

/// Whether a file of the input directory is an event device, by its name.
pub fn is_event_node(name: &str) -> (b: bool)
    ensures
        b == has_prefix(name@, "event"@),
{
    starts_with(name, "event")
}

/// Whether an event device is taken for a keyboard: it reports key events
/// and has the key `A`.
pub fn looks_like_keyboard(reports_keys: bool, has_key_a: bool) -> (b: bool)
    ensures
        b == (reports_keys && has_key_a),
{
    reports_keys && has_key_a
}

/// What a key event of the input layer means: the value 1 is a key that
/// goes down, 0 one that goes up, any other the repeat of a held key.
pub open spec fn key_event_of(code: u16, value: i32) -> KeyEvent {
    if value == 1 {
        KeyEvent::Press(code)
    } else if value == 0 {
        KeyEvent::Release(code)
    } else {
        KeyEvent::Other
    }
}

/// Reads a key event of the input layer.
pub fn key_event(code: u16, value: i32) -> (event: KeyEvent)
    ensures
        event == key_event_of(code, value),
{
    if value == 1 {
        KeyEvent::Press(code)
    } else if value == 0 {
        KeyEvent::Release(code)
    } else {
        KeyEvent::Other
    }
}

/// Whether `code` is a modifier key: control, shift, alt or meta, left or right.
pub fn is_modifier(code: u16) -> (b: bool)
    ensures
        b == is_modifier_code(code),
{
    matches!(code, 29 | 97 | 42 | 54 | 56 | 100 | 125 | 126)
}

/// The name of a modifier key; empty for any other key.
pub open spec fn key_name_text(code: u16) -> Seq<char> {
    if code == 29 || code == 97 {
        "Ctrl"@
    } else if code == 42 || code == 54 {
        "Shift"@
    } else if code == 56 || code == 100 {
        "Alt"@
    } else if code == 125 || code == 126 {
        "Super"@
    } else {
        ""@
    }
}

/// The name of a modifier key; empty for any other key.
pub fn key_name(code: u16) -> (name: &'static str)
    ensures
        name@ == key_name_text(code),
{
    if code == 29 || code == 97 {
        "Ctrl"
    } else if code == 42 || code == 54 {
        "Shift"
    } else if code == 56 || code == 100 {
        "Alt"
    } else if code == 125 || code == 126 {
        "Super"
    } else {
        ""
    }
}

/// How `evdev` prints the key code `code` for debugging: the kernel's name
/// of the key, such as `KEY_A`, or a remark that the key is unknown.
pub uninterp spec fn evdev_key_debug(code: u16) -> Seq<char>;

/// The `Debug` output of `evdev::KeyCode` for `code`.
#[verifier::external_body]
pub(crate) fn key_debug(code: u16) -> (text: String)
    ensures
        text@ == evdev_key_debug(code),
{
    format!("{:?}", evdev::KeyCode(code))
}

/// `debug` without a leading `KEY_`.
pub open spec fn without_key_prefix(debug: Seq<char>) -> Seq<char> {
    if has_prefix(debug, "KEY_"@) {
        debug.subrange("KEY_"@.len() as int, debug.len() as int)
    } else {
        debug
    }
}

/// Strips the prefix `KEY_` from a key's kernel name; any other text is kept
/// as it is.
pub fn strip_key_prefix(debug: &str) -> (name: String)
    ensures
        name@ == without_key_prefix(debug@),
{
    if starts_with(debug, "KEY_") {
        let from = "KEY_".unicode_len();
        let to = debug.unicode_len();
        String::from_str(debug.substring_char(from, to))
    } else {
        String::from_str(debug)
    }
}

/// The name of a trigger key: a short name for the common keys, else the
/// kernel's name of the key without `KEY_`.
pub open spec fn trigger_name_text(code: u16) -> Seq<char> {
    if code == 1 {
        "Esc"@
    } else if code == 14 {
        "Backspace"@
    } else if code == 15 {
        "Tab"@
    } else if code == 28 {
        "Enter"@
    } else if code == 57 {
        "Space"@
    } else {
        without_key_prefix(evdev_key_debug(code))
    }
}

/// The name of a trigger key.
pub fn trigger_name(code: u16) -> (name: String)
    ensures
        name@ == trigger_name_text(code),
{
    if code == 1 {
        String::from_str("Esc")
    } else if code == 14 {
        String::from_str("Backspace")
    } else if code == 15 {
        String::from_str("Tab")
    } else if code == 28 {
        String::from_str("Enter")
    } else if code == 57 {
        String::from_str("Space")
    } else {
        let debug = key_debug(code);
        strip_key_prefix(debug.as_str())
    }
}

/// The combination as shown to the user, such as "Ctrl+Space".
pub fn build_display_name(modifiers: &[u16], trigger: u16) -> (name: String)
    ensures
        name@ == display_name_text(Platform::Linux, modifiers@, trigger),
{
    build_name(Platform::Linux, modifiers, trigger)
}

} // verus!
