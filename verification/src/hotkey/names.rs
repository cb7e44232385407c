//! Names of key combinations, shared by the platforms.
use crate::hotkey::linux;
use crate::hotkey::macos;
use crate::text::{join, joined, same_text, texts};
use vstd::prelude::*;
use vstd::string::*;

verus! {

/// The source of key events, which decides how some keys are named.
#[derive(Debug, Clone, Copy, PartialEq, Eq, Structural)]
pub enum Platform {
    Linux,
    MacOs,
}

/// The codes of the modifier keys: control, shift, alt and meta, left and right.
pub open spec fn is_modifier_code(code: u16) -> bool {
    code == 29 || code == 97 || code == 42 || code == 54 || code == 56 || code == 100 || code
        == 125 || code == 126
}

/// Whether `code` is a modifier key: control, shift, alt or meta, left or right.
pub fn is_modifier(code: u16) -> (b: bool)
    ensures
        b == is_modifier_code(code),
{
    code == 29 || code == 97 || code == 42 || code == 54 || code == 56 || code == 100 || code
        == 125 || code == 126
}

/// The name of a modifier key on a platform; empty for any other key.
pub open spec fn key_name_text(platform: Platform, code: u16) -> Seq<char> {
    match platform {
        Platform::Linux => linux::key_name_text(code),
        Platform::MacOs => macos::key_name_text(code),
    }
}

/// The name of a trigger key on a platform.
pub open spec fn trigger_name_text(platform: Platform, code: u16) -> Seq<char> {
    match platform {
        Platform::Linux => linux::trigger_name_text(code),
        Platform::MacOs => macos::trigger_name_text(code),
    }
}

/// The names of the modifiers among `codes`, in order, each name once: left
/// and right control are both "Ctrl".
pub open spec fn modifier_names(platform: Platform, codes: Seq<u16>) -> Seq<Seq<char>>
    decreases codes.len(),
{
    if codes.len() == 0 {
        Seq::empty()
    } else {
        let before = modifier_names(platform, codes.drop_last());
        let name = key_name_text(platform, codes.last());
        if is_modifier_code(codes.last()) && !before.contains(name) {
            before.push(name)
        } else {
            before
        }
    }
}

/// A combination as shown to the user: the modifier names and the trigger's
/// name, joined by `+`.
pub open spec fn display_name_text(platform: Platform, modifiers: Seq<u16>, trigger: u16) -> Seq<
    char,
> {
    joined(
        modifier_names(platform, modifiers).push(trigger_name_text(platform, trigger)),
        "+"@,
    )
}

/// The name of a modifier key on `platform`; empty for any other key.
pub fn key_name(platform: Platform, code: u16) -> (name: &'static str)
    ensures
        name@ == key_name_text(platform, code),
{
    match platform {
        Platform::Linux => linux::key_name(code),
        Platform::MacOs => macos::key_name(code),
    }
}

/// The name of a trigger key on `platform`.
pub fn trigger_name(platform: Platform, code: u16) -> (name: String)
    ensures
        name@ == trigger_name_text(platform, code),
{
    match platform {
        Platform::Linux => linux::trigger_name(code),
        Platform::MacOs => macos::trigger_name(code),
    }
}

/// Whether one of `parts` reads `name`.
pub fn contains_text(parts: &Vec<String>, name: &str) -> (found: bool)
    ensures
        found == texts(parts@).contains(name@),
{
    let mut i: usize = 0;
    while i < parts.len()
        invariant
            i <= parts.len(),
            forall|j: int| 0 <= j < i ==> texts(parts@)[j] != name@,
        decreases parts.len() - i,
    {
        if same_text(parts[i].as_str(), name) {
            proof {
                assert(texts(parts@)[i as int] == name@);
            }
            return true;
        }
        i += 1;
    }
    false
}

/// The combination as shown to the user, such as "Ctrl+Shift+A".
pub fn build_display_name(platform: Platform, modifiers: &[u16], trigger: u16) -> (name: String)
    ensures
        name@ == display_name_text(platform, modifiers@, trigger),
{
    let mut parts: Vec<String> = Vec::new();
    let mut i: usize = 0;
    while i < modifiers.len()
        invariant
            i <= modifiers.len(),
            texts(parts@) == modifier_names(platform, modifiers@.take(i as int)),
        decreases modifiers.len() - i,
    {
        let code = modifiers[i];
        proof {
            assert(modifiers@.take(i + 1).drop_last() =~= modifiers@.take(i as int));
        }
        if is_modifier(code) {
            let name = key_name(platform, code);
            if !contains_text(&parts, name) {
                parts.push(String::from_str(name));
            }
        }
        i += 1;
    }
    proof {
        assert(modifiers@.take(modifiers.len() as int) =~= modifiers@);
    }
    let last = trigger_name(platform, trigger);
    let ghost before = parts@;
    parts.push(last);
    proof {
        assert(texts(parts@) =~= texts(before).push(last@));
    }
    join(&parts, "+")
}

} // verus!
