//! Key names and key codes where events come from the macOS event tap.
use crate::hotkey::listener::KeyEvent;
use crate::hotkey::names::{build_display_name as build_name, display_name_text, is_modifier_code, Platform};
use crate::text::{decimal, push_decimal};
use vstd::prelude::*;
use vstd::string::*;

verus! {

/// A key as the event tap reports it.
#[derive(Debug, Clone, Copy, PartialEq, Eq, Structural)]
pub enum Key {
    ControlLeft,
    ControlRight,
    ShiftLeft,
    ShiftRight,
    Alt,
    AltGr,
    MetaLeft,
    MetaRight,
    Escape,
    BackSpace,
    Tab,
    Return,
    Space,
    KeyA,
    KeyB,
    KeyC,
    KeyD,
    KeyE,
    KeyF,
    KeyG,
    KeyH,
    KeyI,
    KeyJ,
    KeyK,
    KeyL,
    KeyM,
    KeyN,
    KeyO,
    KeyP,
    KeyQ,
    KeyR,
    KeyS,
    KeyT,
    KeyU,
    KeyV,
    KeyW,
    KeyX,
    KeyY,
    KeyZ,
    Num0,
    Num1,
    Num2,
    Num3,
    Num4,
    Num5,
    Num6,
    Num7,
    Num8,
    Num9,
    F1,
    F2,
    F3,
    F4,
    F5,
    F6,
    F7,
    F8,
    F9,
    F10,
    F11,
    F12,
    /// A key that the event tap knows by a number of its own only.
    Unknown(u32),
    /// Any key that has no code in this table.
    Other,
}

/// The code of a key: the one that the Linux input layer gives the same
/// key, so that a stored combination means the same on both platforms.
/// A key known by number keeps the low 16 bits of its number; a key
/// without a code is 0.
pub open spec fn key_code(key: Key) -> u16 {
    match key {
        Key::ControlLeft => 29u16,
        Key::ControlRight => 97u16,
        Key::ShiftLeft => 42u16,
        Key::ShiftRight => 54u16,
        Key::Alt => 56u16,
        Key::AltGr => 100u16,
        Key::MetaLeft => 125u16,
        Key::MetaRight => 126u16,
        Key::Escape => 1u16,
        Key::BackSpace => 14u16,
        Key::Tab => 15u16,
        Key::Return => 28u16,
        Key::Space => 57u16,
        Key::KeyA => 30u16,
        Key::KeyB => 48u16,
        Key::KeyC => 46u16,
        Key::KeyD => 32u16,
        Key::KeyE => 18u16,
        Key::KeyF => 33u16,
        Key::KeyG => 34u16,
        Key::KeyH => 35u16,
        Key::KeyI => 23u16,
        Key::KeyJ => 36u16,
        Key::KeyK => 37u16,
        Key::KeyL => 38u16,
        Key::KeyM => 50u16,
        Key::KeyN => 49u16,
        Key::KeyO => 24u16,
        Key::KeyP => 25u16,
        Key::KeyQ => 16u16,
        Key::KeyR => 19u16,
        Key::KeyS => 31u16,
        Key::KeyT => 20u16,
        Key::KeyU => 22u16,
        Key::KeyV => 47u16,
        Key::KeyW => 17u16,
        Key::KeyX => 45u16,
        Key::KeyY => 21u16,
        Key::KeyZ => 44u16,
        Key::Num0 => 11u16,
        Key::Num1 => 2u16,
        Key::Num2 => 3u16,
        Key::Num3 => 4u16,
        Key::Num4 => 5u16,
        Key::Num5 => 6u16,
        Key::Num6 => 7u16,
        Key::Num7 => 8u16,
        Key::Num8 => 9u16,
        Key::Num9 => 10u16,
        Key::F1 => 59u16,
        Key::F2 => 60u16,
        Key::F3 => 61u16,
        Key::F4 => 62u16,
        Key::F5 => 63u16,
        Key::F6 => 64u16,
        Key::F7 => 65u16,
        Key::F8 => 66u16,
        Key::F9 => 67u16,
        Key::F10 => 68u16,
        Key::F11 => 87u16,
        Key::F12 => 88u16,
        Key::Unknown(n) => (n % 0x1_0000) as u16,
        Key::Other => 0u16,
    }
}

/// Maps a key of the event tap to its code.
pub fn rdev_key_to_code(key: Key) -> (code: u16)
    ensures
        code == key_code(key),
{
    match key {
        Key::ControlLeft => 29,
        Key::ControlRight => 97,
        Key::ShiftLeft => 42,
        Key::ShiftRight => 54,
        Key::Alt => 56,
        Key::AltGr => 100,
        Key::MetaLeft => 125,
        Key::MetaRight => 126,
        Key::Escape => 1,
        Key::BackSpace => 14,
        Key::Tab => 15,
        Key::Return => 28,
        Key::Space => 57,
        Key::KeyA => 30,
        Key::KeyB => 48,
        Key::KeyC => 46,
        Key::KeyD => 32,
        Key::KeyE => 18,
        Key::KeyF => 33,
        Key::KeyG => 34,
        Key::KeyH => 35,
        Key::KeyI => 23,
        Key::KeyJ => 36,
        Key::KeyK => 37,
        Key::KeyL => 38,
        Key::KeyM => 50,
        Key::KeyN => 49,
        Key::KeyO => 24,
        Key::KeyP => 25,
        Key::KeyQ => 16,
        Key::KeyR => 19,
        Key::KeyS => 31,
        Key::KeyT => 20,
        Key::KeyU => 22,
        Key::KeyV => 47,
        Key::KeyW => 17,
        Key::KeyX => 45,
        Key::KeyY => 21,
        Key::KeyZ => 44,
        Key::Num0 => 11,
        Key::Num1 => 2,
        Key::Num2 => 3,
        Key::Num3 => 4,
        Key::Num4 => 5,
        Key::Num5 => 6,
        Key::Num6 => 7,
        Key::Num7 => 8,
        Key::Num8 => 9,
        Key::Num9 => 10,
        Key::F1 => 59,
        Key::F2 => 60,
        Key::F3 => 61,
        Key::F4 => 62,
        Key::F5 => 63,
        Key::F6 => 64,
        Key::F7 => 65,
        Key::F8 => 66,
        Key::F9 => 67,
        Key::F10 => 68,
        Key::F11 => 87,
        Key::F12 => 88,
        Key::Unknown(n) => (n % 0x1_0000) as u16,
        Key::Other => 0,
    }
}

/// An event of the event tap.
#[derive(Debug, Clone, Copy, PartialEq, Eq, Structural)]
pub enum TapEvent {
    KeyPress(Key),
    KeyRelease(Key),
    /// A button, a move of the pointer or a turn of the wheel.
    Other,
}

/// What an event of the event tap means for the keys.
pub open spec fn key_event_of(event: TapEvent) -> KeyEvent {
    match event {
        TapEvent::KeyPress(key) => KeyEvent::Press(key_code(key)),
        TapEvent::KeyRelease(key) => KeyEvent::Release(key_code(key)),
        TapEvent::Other => KeyEvent::Other,
    }
}

/// Reads an event of the event tap.
pub fn key_event(event: TapEvent) -> (read: KeyEvent)
    ensures
        read == key_event_of(event),
{
    match event {
        TapEvent::KeyPress(key) => KeyEvent::Press(rdev_key_to_code(key)),
        TapEvent::KeyRelease(key) => KeyEvent::Release(rdev_key_to_code(key)),
        TapEvent::Other => KeyEvent::Other,
    }
}

/// Whether `code` is a modifier key: control, shift, alt or meta, left or right.
pub fn is_modifier(code: u16) -> (b: bool)
    ensures
        b == is_modifier_code(code),
{
    matches!(code, 29 | 97 | 42 | 54 | 56 | 100 | 125 | 126)
}

/// The name of a modifier key; empty for any other key.
pub open spec fn key_name_text(code: u16) -> Seq<char> {
    if code == 29 || code == 97 {
        "Ctrl"@
    } else if code == 42 || code == 54 {
        "Shift"@
    } else if code == 56 || code == 100 {
        "Alt"@
    } else if code == 125 || code == 126 {
        "Cmd"@
    } else {
        ""@
    }
}

/// The name of a modifier key; empty for any other key.
pub fn key_name(code: u16) -> (name: &'static str)
    ensures
        name@ == key_name_text(code),
{
    if code == 29 || code == 97 {
        "Ctrl"
    } else if code == 42 || code == 54 {
        "Shift"
    } else if code == 56 || code == 100 {
        "Alt"
    } else if code == 125 || code == 126 {
        "Cmd"
    } else {
        ""
    }
}

/// The name of a trigger key: a short name for the common keys and the
/// letters, else `Key` and the code in decimal.
pub open spec fn trigger_name_text(code: u16) -> Seq<char> {
    if code == 1 {
        "Esc"@
    }     else if code == 14 {
        "Backspace"@
    }     else if code == 15 {
        "Tab"@
    }     else if code == 28 {
        "Enter"@
    }     else if code == 57 {
        "Space"@
    }     else if code == 30 {
        "A"@
    }     else if code == 48 {
        "B"@
    }     else if code == 46 {
        "C"@
    }     else if code == 32 {
        "D"@
    }     else if code == 18 {
        "E"@
    }     else if code == 33 {
        "F"@
    }     else if code == 34 {
        "G"@
    }     else if code == 35 {
        "H"@
    }     else if code == 23 {
        "I"@
    }     else if code == 36 {
        "J"@
    }     else if code == 37 {
        "K"@
    }     else if code == 38 {
        "L"@
    }     else if code == 50 {
        "M"@
    }     else if code == 49 {
        "N"@
    }     else if code == 24 {
        "O"@
    }     else if code == 25 {
        "P"@
    }     else if code == 16 {
        "Q"@
    }     else if code == 19 {
        "R"@
    }     else if code == 31 {
        "S"@
    }     else if code == 20 {
        "T"@
    }     else if code == 22 {
        "U"@
    }     else if code == 47 {
        "V"@
    }     else if code == 17 {
        "W"@
    }     else if code == 45 {
        "X"@
    }     else if code == 21 {
        "Y"@
    }     else if code == 44 {
        "Z"@
    } else {
        "Key"@ + decimal(code as nat)
    }
}

/// The name of a trigger key.
pub fn trigger_name(code: u16) -> (name: String)
    ensures
        name@ == trigger_name_text(code),
{
    if code == 1 {
        String::from_str("Esc")
    }     else if code == 14 {
        String::from_str("Backspace")
    }     else if code == 15 {
        String::from_str("Tab")
    }     else if code == 28 {
        String::from_str("Enter")
    }     else if code == 57 {
        String::from_str("Space")
    }     else if code == 30 {
        String::from_str("A")
    }     else if code == 48 {
        String::from_str("B")
    }     else if code == 46 {
        String::from_str("C")
    }     else if code == 32 {
        String::from_str("D")
    }     else if code == 18 {
        String::from_str("E")
    }     else if code == 33 {
        String::from_str("F")
    }     else if code == 34 {
        String::from_str("G")
    }     else if code == 35 {
        String::from_str("H")
    }     else if code == 23 {
        String::from_str("I")
    }     else if code == 36 {
        String::from_str("J")
    }     else if code == 37 {
        String::from_str("K")
    }     else if code == 38 {
        String::from_str("L")
    }     else if code == 50 {
        String::from_str("M")
    }     else if code == 49 {
        String::from_str("N")
    }     else if code == 24 {
        String::from_str("O")
    }     else if code == 25 {
        String::from_str("P")
    }     else if code == 16 {
        String::from_str("Q")
    }     else if code == 19 {
        String::from_str("R")
    }     else if code == 31 {
        String::from_str("S")
    }     else if code == 20 {
        String::from_str("T")
    }     else if code == 22 {
        String::from_str("U")
    }     else if code == 47 {
        String::from_str("V")
    }     else if code == 17 {
        String::from_str("W")
    }     else if code == 45 {
        String::from_str("X")
    }     else if code == 21 {
        String::from_str("Y")
    }     else if code == 44 {
        String::from_str("Z")
    } else {
        let mut name = String::from_str("Key");
        push_decimal(&mut name, code as u64);
        name
    }
}

/// The combination as shown to the user, such as "Cmd+Space".
pub fn build_display_name(modifiers: &[u16], trigger: u16) -> (name: String)
    ensures
        name@ == display_name_text(Platform::MacOs, modifiers@, trigger),
{
    build_name(Platform::MacOs, modifiers, trigger)
}

} // verus!
