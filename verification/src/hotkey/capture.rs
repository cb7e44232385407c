//! Capturing a new combination: the first key that is no modifier and goes
//! down while a modifier is held.
use crate::config::{HotkeyConfig, HotkeyConfigView};
use crate::hotkey::listener::{held_after, KeyEvent};
use crate::hotkey::names::{build_display_name, display_name_text, is_modifier, is_modifier_code, Platform};
use std::collections::HashSet;
use vstd::prelude::*;

verus! {

/// How long a capture waits for a combination, in milliseconds.
pub const CAPTURE_TIMEOUT_MS: u64 = 10_000;

/// The modifier codes in the order in which a captured combination lists
/// them: control, shift, alt, meta, each left before right.
pub open spec fn modifier_order() -> Seq<u16> {
    seq![29u16, 97u16, 42u16, 54u16, 56u16, 100u16, 125u16, 126u16]
}

/// The test for a held key.
pub open spec fn is_held_in(held: Set<u16>) -> spec_fn(u16) -> bool {
    |code: u16| held.contains(code)
}

/// The held modifier codes, in the order of `modifier_order`.
pub open spec fn held_modifiers(held: Set<u16>) -> Seq<u16> {
    modifier_order().filter(is_held_in(held))
}

/// The combination that a key event completes, if it does: the key is no
/// modifier, it goes down, and a modifier is held.
pub open spec fn captured(platform: Platform, held: Set<u16>, event: KeyEvent) -> Option<
    HotkeyConfigView,
> {
    match event {
        KeyEvent::Press(code) => {
            let mods = held_modifiers(held.insert(code));
            if !is_modifier_code(code) && mods.len() > 0 {
                Some(
                    HotkeyConfigView {
                        modifiers: mods,
                        trigger: code,
                        display_name: display_name_text(platform, mods, code),
                    },
                )
            } else {
                None
            }
        },
        _ => None,
    }
}

/// A capture has run out at `now` when more than `CAPTURE_TIMEOUT_MS`
/// have passed since it started.
pub open spec fn capture_expired(started: u64, now: u64) -> bool {
    now >= started && now - started > CAPTURE_TIMEOUT_MS
}

/// What a `ComboCapture` holds.
pub struct CaptureView {
    pub platform: Platform,
    pub held: Set<u16>,
    pub started: u64,
}

/// One capture of a new combination.
pub struct ComboCapture {
    platform: Platform,
    held: HashSet<u16>,
    started: u64,
}

impl View for ComboCapture {
    type V = CaptureView;

    closed spec fn view(&self) -> CaptureView {
        CaptureView { platform: self.platform, held: self.held@, started: self.started }
    }
}

/// Filtering a sequence without duplicates leaves none.
pub proof fn lemma_filter_no_duplicates(s: Seq<u16>, pred: spec_fn(u16) -> bool)
    requires
        s.no_duplicates(),
    ensures
        s.filter(pred).no_duplicates(),
    decreases s.len(),
{
    reveal(Seq::filter);
    if s.len() > 0 {
        let rest = s.drop_last();
        lemma_filter_no_duplicates(rest, pred);
        if pred(s.last()) {
            let kept = rest.filter(pred);
            if kept.contains(s.last()) {
                rest.lemma_filter_contains_rev(pred, s.last());
                let k = choose|k: int| 0 <= k < rest.len() && rest[k] == s.last();
                assert(s[k] == s[s.len() - 1]);
            }
            assert forall|i: int, j: int|
                0 <= i < kept.push(s.last()).len() && 0 <= j < kept.push(s.last()).len() && i
                    != j implies kept.push(s.last())[i] != kept.push(s.last())[j] by {
                if i < kept.len() && j < kept.len() {
                } else if i < kept.len() {
                    assert(kept.contains(kept[i]));
                } else {
                    assert(kept.contains(kept[j]));
                }
            }
        }
    }
}

/// A captured combination lists exactly the modifier keys that are held,
/// each once.
pub proof fn held_modifiers_law(held: Set<u16>)
    ensures
        forall|code: u16|
            held_modifiers(held).contains(code) <==> (is_modifier_code(code) && held.contains(
                code,
            )),
        held_modifiers(held).no_duplicates(),
{
    let order = modifier_order();
    let pred = is_held_in(held);
    assert(order.no_duplicates());
    lemma_filter_no_duplicates(order, pred);
    assert forall|code: u16|
        held_modifiers(held).contains(code) <==> (is_modifier_code(code) && held.contains(
            code,
        )) by {
        if held_modifiers(held).contains(code) {
            order.lemma_filter_contains_rev(pred, code);
            let k = choose|k: int| 0 <= k < order.len() && order[k] == code;
            assert(is_modifier_code(order[k]));
            let j = choose|j: int|
                0 <= j < order.filter(pred).len() && order.filter(pred)[j] == code;
            order.lemma_filter_pred(pred, j);
            assert(pred(order.filter(pred)[j]));
        }
        if is_modifier_code(code) && held.contains(code) {
            let k: int = if code == 29 {
                0
            } else if code == 97 {
                1
            } else if code == 42 {
                2
            } else if code == 54 {
                3
            } else if code == 56 {
                4
            } else if code == 100 {
                5
            } else if code == 125 {
                6
            } else {
                7
            };
            assert(order[k] == code);
            assert(pred(order[k]));
            order.lemma_filter_contains(pred, k);
        }
    }
}

impl ComboCapture {
    /// A capture that starts at `now_ms` with no key held.
    pub fn new(platform: Platform, now_ms: u64) -> (capture: Self)
        ensures
            capture@ == (CaptureView { platform, held: Set::empty(), started: now_ms }),
    {
        ComboCapture { platform, held: HashSet::new(), started: now_ms }
    }

    /// Whether the capture has run out at `now_ms`.
    pub fn expired(&self, now_ms: u64) -> (b: bool)
        ensures
            b == capture_expired(self@.started, now_ms),
    {
        now_ms >= self.started && now_ms - self.started > CAPTURE_TIMEOUT_MS
    }

    /// The held modifier codes, control first, then shift, alt and meta.
    fn held_modifier_codes(&self) -> (codes: Vec<u16>)
        ensures
            codes@ == held_modifiers(self@.held),
    {
        broadcast use vstd::std_specs::hash::group_hash_axioms;

        let order: [u16; 8] = [29, 97, 42, 54, 56, 100, 125, 126];
        assert(order@ =~= modifier_order());
        let mut codes: Vec<u16> = Vec::new();
        let mut i: usize = 0;
        proof {
            reveal(Seq::filter);
            assert(order@.take(0).filter(is_held_in(self.held@)) =~= Seq::<u16>::empty());
        }
        while i < 8
            invariant
                i <= 8,
                order@ == modifier_order(),
                codes@ == order@.take(i as int).filter(is_held_in(self.held@)),
            decreases 8 - i,
        {
            let code = order[i];
            proof {
                assert(order@.take(i + 1) =~= order@.take(i as int).push(code));
                order@.take(i as int).lemma_filter_push(code, is_held_in(self.held@));
            }
            if self.held.contains(&code) {
                codes.push(code);
            }
            i += 1;
        }
        proof {
            assert(order@.take(8) =~= order@);
        }
        codes
    }

    /// Takes note of a key event. Returns the combination once a key that
    /// is no modifier goes down while a modifier is held.
    pub fn on_key_event(&mut self, event: KeyEvent) -> (combo: Option<HotkeyConfig>)
        ensures
            final(self)@ == (CaptureView { held: held_after(old(self)@.held, event), ..old(self)@ }),
            match captured(old(self)@.platform, old(self)@.held, event) {
                Some(found) => combo is Some && combo->0@ == found,
                None => combo is None,
            },
    {
        broadcast use vstd::std_specs::hash::group_hash_axioms;

        match event {
            KeyEvent::Press(code) => {
                self.held.insert(code);
                let modifiers = self.held_modifier_codes();
                if !is_modifier(code) && modifiers.len() > 0 {
                    let display_name = build_display_name(self.platform, modifiers.as_slice(), code);
                    Some(HotkeyConfig { modifiers, trigger: code, display_name })
                } else {
                    None
                }
            },
            KeyEvent::Release(code) => {
                self.held.remove(&code);
                None
            },
            KeyEvent::Other => None,
        }
    }
}

} // verus!
