//! The listener's state: which keys are held, and when the trigger last fired.
use crate::config::{HotkeyConfig, HotkeyConfigView};
use std::collections::HashSet;
use vstd::prelude::*;

verus! {

/// The least time between two triggers, in milliseconds.
pub const DEBOUNCE_MS: u64 = 500;

/// One change of a key's state, the key given by its code.
#[derive(Debug, Clone, Copy, PartialEq, Eq, Structural)]
pub enum KeyEvent {
    /// The key went down.
    Press(u16),
    /// The key went up.
    Release(u16),
    /// Anything else, such as the repeat of a held key.
    Other,
}

/// The keys held after `event`.
pub open spec fn held_after(held: Set<u16>, event: KeyEvent) -> Set<u16> {
    match event {
        KeyEvent::Press(code) => held.insert(code),
        KeyEvent::Release(code) => held.remove(code),
        KeyEvent::Other => held,
    }
}

/// All modifiers of the combination and its trigger key are held.
pub open spec fn combo_held(held: Set<u16>, hotkey: HotkeyConfigView) -> bool {
    &&& forall|i: int| 0 <= i < hotkey.modifiers.len() ==> held.contains(#[trigger] hotkey.modifiers[i])
    &&& held.contains(hotkey.trigger)
}

/// At `now` the trigger may fire again: it never fired, or it last fired at
/// least `DEBOUNCE_MS` ago.
pub open spec fn debounce_over(last: Option<u64>, now: u64) -> bool {
    match last {
        None => true,
        Some(t) => now >= t && now - t >= DEBOUNCE_MS,
    }
}

/// What a `HotkeyListener` holds.
pub struct ListenerView {
    pub held: Set<u16>,
    pub last_trigger: Option<u64>,
}

impl ListenerView {
    /// No key held, never fired.
    pub open spec fn initial() -> ListenerView {
        ListenerView { held: Set::empty(), last_trigger: None }
    }

    /// The trigger fires at `now`: the combination is held and the last
    /// trigger is long enough ago.
    pub open spec fn fires(self, hotkey: HotkeyConfigView, now: u64) -> bool {
        combo_held(self.held, hotkey) && debounce_over(self.last_trigger, now)
    }

    /// The state after the combination was tested at `now`.
    pub open spec fn polled(self, hotkey: HotkeyConfigView, now: u64) -> ListenerView {
        if self.fires(hotkey, now) {
            ListenerView { held: self.held, last_trigger: Some(now) }
        } else {
            self
        }
    }

    /// The state after a key event.
    pub open spec fn applied(self, event: KeyEvent) -> ListenerView {
        ListenerView { held: held_after(self.held, event), last_trigger: self.last_trigger }
    }

    /// Whether a key event at `now` fires the trigger: only a key that goes
    /// down can.
    pub open spec fn event_fires(self, event: KeyEvent, hotkey: HotkeyConfigView, now: u64) -> bool {
        event is Press && self.applied(event).fires(hotkey, now)
    }

    /// The state after a key event at `now` and the test that follows a key
    /// going down.
    pub open spec fn after_event(self, event: KeyEvent, hotkey: HotkeyConfigView, now: u64) -> ListenerView {
        if event is Press {
            self.applied(event).polled(hotkey, now)
        } else {
            self.applied(event)
        }
    }
}

/// Tracks the held keys and the time of the last trigger.
pub struct HotkeyListener {
    held: HashSet<u16>,
    last_trigger: Option<u64>,
}

impl View for HotkeyListener {
    type V = ListenerView;

    closed spec fn view(&self) -> ListenerView {
        ListenerView { held: self.held@, last_trigger: self.last_trigger }
    }
}

/// Whether `code` is among the held keys.
fn is_held(held: &HashSet<u16>, code: u16) -> (b: bool)
    ensures
        b == held@.contains(code),
{
    broadcast use vstd::std_specs::hash::group_hash_axioms;

    held.contains(&code)
}

impl HotkeyListener {
    /// A listener with no key held that never fired.
    pub fn new() -> (listener: Self)
        ensures
            listener@ == ListenerView::initial(),
    {
        HotkeyListener { held: HashSet::new(), last_trigger: None }
    }

    /// Takes note of a key event.
    pub fn apply(&mut self, event: KeyEvent)
        ensures
            final(self)@ == old(self)@.applied(event),
    {
        broadcast use vstd::std_specs::hash::group_hash_axioms;

        match event {
            KeyEvent::Press(code) => {
                self.held.insert(code);
            },
            KeyEvent::Release(code) => {
                self.held.remove(&code);
            },
            KeyEvent::Other => {},
        }
    }

    /// Whether `code` is held.
    pub fn holds(&self, code: u16) -> (b: bool)
        ensures
            b == self@.held.contains(code),
    {
        is_held(&self.held, code)
    }

    /// When the trigger last fired, if ever.
    pub fn last_trigger(&self) -> (t: Option<u64>)
        ensures
            t == self@.last_trigger,
    {
        self.last_trigger
    }

    /// Whether all keys of the combination are held.
    pub fn matches(&self, hotkey: &HotkeyConfig) -> (b: bool)
        ensures
            b == combo_held(self@.held, hotkey@),
    {
        let mut i: usize = 0;
        while i < hotkey.modifiers.len()
            invariant
                i <= hotkey.modifiers.len(),
                forall|j: int| 0 <= j < i ==> self.held@.contains(#[trigger] hotkey.modifiers@[j]),
            decreases hotkey.modifiers.len() - i,
        {
            if !is_held(&self.held, hotkey.modifiers[i]) {
                proof {
                    assert(!self@.held.contains(hotkey@.modifiers[i as int]));
                }
                return false;
            }
            i += 1;
        }
        is_held(&self.held, hotkey.trigger)
    }

    /// Tests the combination at `now_ms`, a reading of a clock that never
    /// runs backwards, in milliseconds. Returns whether the trigger fires,
    /// and then remembers `now_ms` as the time of the last trigger.
    pub fn poll(&mut self, hotkey: &HotkeyConfig, now_ms: u64) -> (fired: bool)
        ensures
            fired == old(self)@.fires(hotkey@, now_ms),
            final(self)@ == old(self)@.polled(hotkey@, now_ms),
    {
        let settled = match self.last_trigger {
            None => true,
            Some(t) => now_ms >= t && now_ms - t >= DEBOUNCE_MS,
        };
        if settled && self.matches(hotkey) {
            self.last_trigger = Some(now_ms);
            true
        } else {
            false
        }
    }

    /// Takes note of a key event at `now_ms` and, where a key went down,
    /// tests the combination. Returns whether the trigger fires.
    pub fn on_key_event(&mut self, event: KeyEvent, hotkey: &HotkeyConfig, now_ms: u64) -> (fired:
        bool)
        ensures
            fired == old(self)@.event_fires(event, hotkey@, now_ms),
            final(self)@ == old(self)@.after_event(event, hotkey@, now_ms),
    {
        self.apply(event);
        match event {
            KeyEvent::Press(_) => self.poll(hotkey, now_ms),
            _ => false,
        }
    }
}

/// Of two moments at which the combination is held, the first of which
/// fires the trigger, the second fires it exactly when it comes at least
/// `DEBOUNCE_MS` after the first.
pub proof fn debounce_law(listener: ListenerView, hotkey: HotkeyConfigView, first: u64, second: u64)
    requires
        combo_held(listener.held, hotkey),
        listener.fires(hotkey, first),
        first <= second,
    ensures
        listener.polled(hotkey, first).fires(hotkey, second) <==> second - first >= DEBOUNCE_MS,
        listener.polled(hotkey, first).polled(hotkey, second).last_trigger == Some(
            if second - first >= DEBOUNCE_MS {
                second
            } else {
                first
            },
        ),
{
}

/// While the combination is not held, no moment fires the trigger and the
/// time of the last trigger stays.
pub proof fn idle_law(listener: ListenerView, hotkey: HotkeyConfigView, now: u64)
    requires
        !combo_held(listener.held, hotkey),
    ensures
        !listener.fires(hotkey, now),
        listener.polled(hotkey, now) == listener,
{
}

} // verus!
