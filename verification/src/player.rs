//! Movement intent of the local player, driven by key presses and releases.
use vstd::prelude::*;
use winit::keyboard::KeyCode;
use crate::keys::{Key, classify_key, key_kind};

verus! {

/// Which movement keys are held: front, back, left, right.
pub struct Player(bool, bool, bool, bool);

/// The four held flags, in the order front, back, left, right.
pub type Held = (bool, bool, bool, bool);

/// The held flags after `key` is pressed (`pressed`) or released (`!pressed`):
/// W drives front, S and F drive back, A drives left, D drives right;
/// any other key changes nothing.
pub open spec fn after_key(held: Held, key: Key, pressed: bool) -> Held {
    match key {
        Key::W => (pressed, held.1, held.2, held.3),
        Key::S => (held.0, pressed, held.2, held.3),
        Key::F => (held.0, pressed, held.2, held.3),
        Key::A => (held.0, held.1, pressed, held.3),
        Key::D => (held.0, held.1, held.2, pressed),
        _ => held,
    }
}

/// The direction flag (0 front, 1 back, 2 left, 3 right) that a key drives, if any.
pub open spec fn driven_flag(key: Key) -> Option<int> {
    match key {
        Key::W => Some(0),
        Key::S => Some(1),
        Key::F => Some(1),
        Key::A => Some(2),
        Key::D => Some(3),
        _ => None,
    }
}

impl View for Player {
    type V = Held;

    closed spec fn view(&self) -> Held {
        (self.0, self.1, self.2, self.3)
    }
}

impl Player {
    /// A player with no movement key held.
    pub fn new() -> (p: Self)
        ensures
            p@ == (false, false, false, false),
    {
        Player(false, false, false, false)
    }

    /// Records that `key` was pressed (`key_state`) or released.
    pub fn apply_key(&mut self, key: Key, key_state: bool)
        ensures
            final(self)@ == after_key(old(self)@, key, key_state),
    {
        match key {
            Key::W => self.0 = key_state,
            Key::A => self.2 = key_state,
            Key::S => self.1 = key_state,
            Key::D => self.3 = key_state,
            Key::F => self.1 = key_state,
            _ => {},
        }
    }

    /// Records a press or release of the physical key `code`.
    pub fn handle_key(&mut self, code: KeyCode, key_state: bool)
        ensures
            final(self)@ == after_key(old(self)@, key_kind(code), key_state),
    {
        let key = classify_key(code);
        self.apply_key(key, key_state);
    }

    /// The held flags: front, back, left, right.
    pub fn get(&self) -> (r: Held)
        ensures
            r == self@,
    {
        (self.0, self.1, self.2, self.3)
    }
}

/// The latest press or release of a key decides its flag: an earlier event
/// of the same key leaves no trace.
pub proof fn lemma_last_event_wins(held: Held, key: Key, first: bool, second: bool)
    ensures
        after_key(after_key(held, key, first), key, second) == after_key(held, key, second),
{
}

/// Pressing or releasing a key sets the flag it drives and leaves the other
/// flags as they were; a key that drives no flag changes nothing.
pub proof fn lemma_only_driven_flag_changes(held: Held, key: Key, pressed: bool)
    ensures
        ({
            let after = after_key(held, key, pressed);
            &&& driven_flag(key) == Some(0int) ==> after == (pressed, held.1, held.2, held.3)
            &&& driven_flag(key) == Some(1int) ==> after == (held.0, pressed, held.2, held.3)
            &&& driven_flag(key) == Some(2int) ==> after == (held.0, held.1, pressed, held.3)
            &&& driven_flag(key) == Some(3int) ==> after == (held.0, held.1, held.2, pressed)
            &&& driven_flag(key) is None ==> after == held
        }),
{
}

/// Events of keys that drive different flags can be applied in either order.
pub proof fn lemma_independent_keys_commute(
    held: Held,
    k1: Key,
    p1: bool,
    k2: Key,
    p2: bool,
)
    requires
        driven_flag(k1) != driven_flag(k2) || driven_flag(k1) is None,
    ensures
        after_key(after_key(held, k1, p1), k2, p2) == after_key(after_key(held, k2, p2), k1, p1),
{
}

/// S and F are interchangeable: both drive the back flag.
pub proof fn lemma_s_and_f_agree(held: Held, pressed: bool)
    ensures
        after_key(held, Key::S, pressed) == after_key(held, Key::F, pressed),
{
}

} // verus!
