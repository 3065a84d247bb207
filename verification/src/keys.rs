//! The keypad: its keys and the digit each one stands for.

use vstd::prelude::*;
use vstd::std_specs::cmp::PartialEqSpecImpl;
use vstd::std_specs::convert::FromSpecImpl;

verus! {

/// The keys on the keypad.
#[derive(Copy, Clone, Debug, Hash)]
pub enum Key {
    One,
    Two,
    Three,
    Four,
    Enter,
}

impl Key {
    /// The decimal digit that a key contributes to a typed number.
    /// `Enter` contributes nothing and counts as zero.
    pub open spec fn digit(self) -> nat {
        match self {
            Key::One => 1,
            Key::Two => 2,
            Key::Three => 3,
            Key::Four => 4,
            Key::Enter => 0,
        }
    }

    /// Whether the key is one of the four digit keys.
    pub open spec fn is_digit(self) -> bool {
        self != Key::Enter
    }
}

impl From<Key> for u64 {
    /// The digit of a key as a number; zero for `Enter`.
    fn from(value: Key) -> (digit: u64) {
        match value {
            Key::One => 1,
            Key::Two => 2,
            Key::Three => 3,
            Key::Four => 4,
            Key::Enter => 0,
        }
    }
}

impl FromSpecImpl<Key> for u64 {
    open spec fn obeys_from_spec() -> bool {
        true
    }

    open spec fn from_spec(v: Key) -> u64 {
        v.digit() as u64
    }
}

impl PartialEq for Key {
    /// Two keys are equal when they are the same key of the keypad.
    fn eq(&self, other: &Self) -> (same: bool) {
        match (self, other) {
            (Key::One, Key::One) => true,
            (Key::Two, Key::Two) => true,
            (Key::Three, Key::Three) => true,
            (Key::Four, Key::Four) => true,
            (Key::Enter, Key::Enter) => true,
            _ => false,
        }
    }
}

impl PartialEqSpecImpl for Key {
    open spec fn obeys_eq_spec() -> bool {
        true
    }

    open spec fn eq_spec(&self, other: &Key) -> bool {
        *self == *other
    }
}

} // verus!
