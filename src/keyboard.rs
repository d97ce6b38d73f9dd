//! Key states driven by press and release events, keyed by an integer key
//! code.
use vstd::prelude::*;

verus! {

broadcast use vstd::std_specs::hash::group_hash_axioms;

/// What is known of one key.
#[derive(Copy, Clone, Debug, PartialEq, Eq, Structural)]
pub struct KeyState {
    pub just_pressed: bool,
    pub pressed: bool,
    pub just_released: bool,
    pub released: bool,
}

/// The state of a key after a press event, given its state before (if it
/// was seen at all): a second press in a row is no longer "just" pressed.
pub open spec fn spec_after_press(prev: Option<KeyState>) -> KeyState {
    let again = prev matches Some(s) && s.just_pressed;
    KeyState { just_pressed: !again, pressed: true, just_released: false, released: false }
}

/// The state of a key after a release event, given its state before (if it
/// was seen at all): `just_released` stays as it was, and a key never seen
/// before is recorded as released.
pub open spec fn spec_after_release(prev: Option<KeyState>) -> KeyState {
    let kept = prev matches Some(s) && s.just_released;
    KeyState { just_pressed: false, pressed: false, just_released: kept, released: true }
}

/// The states of the keys seen so far.
pub struct Keyboard {
    states: std::collections::HashMap<u32, KeyState>,
}

impl Keyboard {
    /// The state of the key with code `code`, if it was ever seen.
    pub closed spec fn spec_state(&self, code: u32) -> Option<KeyState> {
        if self.states@.contains_key(code) {
            Some(self.states@[code])
        } else {
            None
        }
    }

    /// No key seen yet.
    pub fn new() -> (r: Keyboard)
        ensures
            forall|c: u32| r.spec_state(c) is None,
    {
        Keyboard { states: std::collections::HashMap::new() }
    }

    /// The stored state of `code`.
    pub fn state(&self, code: u32) -> (r: Option<KeyState>)
        ensures
            r == self.spec_state(code),
    {
        match self.states.get(&code) {
            Some(s) => Some(*s),
            None => None,
        }
    }

    /// Records a press (`pressed`) or a release of the key `code`.
    pub fn process_key(&mut self, code: u32, pressed: bool)
        ensures
            forall|c: u32|
                #[trigger] final(self).spec_state(c) == if c != code {
                    old(self).spec_state(c)
                } else if pressed {
                    Some(spec_after_press(old(self).spec_state(code)))
                } else {
                    Some(spec_after_release(old(self).spec_state(code)))
                },
    {
        let prev = self.state(code);
        let next = if pressed {
            let again = match prev {
                Some(s) => s.just_pressed,
                None => false,
            };
            KeyState { just_pressed: !again, pressed: true, just_released: false, released: false }
        } else {
            let kept = match prev {
                Some(s) => s.just_released,
                None => false,
            };
            KeyState { just_pressed: false, pressed: false, just_released: kept, released: true }
        };
        self.states.insert(code, next);
    }

    pub fn is_key_pressed(&self, code: u32) -> (r: bool)
        ensures
            r == (self.spec_state(code) matches Some(s) && s.pressed),
    {
        match self.state(code) {
            Some(s) => s.pressed,
            None => false,
        }
    }

    pub fn is_key_released(&self, code: u32) -> (r: bool)
        ensures
            r == (self.spec_state(code) matches Some(s) && s.released),
    {
        match self.state(code) {
            Some(s) => s.released,
            None => false,
        }
    }

    pub fn is_key_just_pressed(&self, code: u32) -> (r: bool)
        ensures
            r == (self.spec_state(code) matches Some(s) && s.just_pressed),
    {
        match self.state(code) {
            Some(s) => s.just_pressed,
            None => false,
        }
    }

    pub fn is_key_just_released(&self, code: u32) -> (r: bool)
        ensures
            r == (self.spec_state(code) matches Some(s) && s.just_released),
    {
        match self.state(code) {
            Some(s) => s.just_released,
            None => false,
        }
    }
}

} // verus!
