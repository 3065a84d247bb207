//! The machine itself: its state, the actions it accepts, and the transition
//! that maps one state and one action to the next state.

use vstd::prelude::*;
use vstd::std_specs::cmp::PartialEqSpecImpl;
use crate::keys::Key;
use crate::register::{all_digits, decode, hash, pin_hash, register_value};

verus! {

/// Something a customer can do to the machine.
#[derive(Clone, Copy, Debug)]
pub enum Action {
    /// Swipe a card. The value is the hash of the PIN that has to be keyed in
    /// next.
    SwipeCard(u64),
    /// Press a key on the keypad.
    PressKey(Key),
}

/// The phase of a session.
#[derive(Clone, Copy, Debug, PartialEq, Eq, Structural)]
pub enum Auth {
    /// No session has begun. The machine waits for a card.
    Waiting,
    /// A card was swiped and gave the enclosed PIN hash. The machine waits
    /// for the PIN.
    Authenticating(u64),
    /// The PIN was right. The machine waits for the amount to withdraw.
    Authenticated,
}

impl Default for Auth {
    fn default() -> (auth: Auth)
        ensures
            auth == Auth::Waiting,
    {
        Auth::Waiting
    }
}

/// The machine. A swiped card tells it the hash of the right PIN. Any number
/// of digit keys followed by `Enter` is a PIN attempt: a wrong one ends the
/// session, a right one lets the customer key in an amount, again ended by
/// `Enter`. A withdrawal is bounded only by the cash inside.
#[derive(Debug)]
pub struct Atm {
    /// How much money is in the machine.
    pub cash_inside: u64,
    /// The phase of the session, with the expected PIN hash while there is one.
    pub expected_pin_hash: Auth,
    /// The keys pressed since the last `Enter`.
    pub keystroke_register: Vec<Key>,
}

/// The machine as a mathematical value.
#[verifier::ext_equal]
pub struct AtmState {
    pub cash_inside: nat,
    pub auth: Auth,
    pub register: Seq<Key>,
}

impl AtmState {
    /// A machine stocked with `cash_inside` that has seen no action yet.
    pub open spec fn initial(cash_inside: nat) -> AtmState {
        AtmState { cash_inside, auth: Auth::Waiting, register: Seq::empty() }
    }

    /// The register holds digit keys only: `Enter` is never stored, it ends
    /// the entry.
    pub open spec fn wf(self) -> bool {
        all_digits(self.register)
    }

    /// What every state that the machine reaches from a fresh one satisfies:
    /// the register holds digit keys only, and it is empty while no session
    /// is open.
    pub open spec fn inv(self) -> bool {
        &&& self.wf()
        &&& self.auth == Auth::Waiting ==> self.register.len() == 0
    }

    /// The state with the given phase and an empty register.
    pub open spec fn reset_to(self, auth: Auth) -> AtmState {
        AtmState { cash_inside: self.cash_inside, auth, register: Seq::empty() }
    }

    /// The state with one more key in the register.
    pub open spec fn typed(self, key: Key) -> AtmState {
        AtmState {
            cash_inside: self.cash_inside,
            auth: self.auth,
            register: self.register.push(key),
        }
    }

    /// The cash left after a request for `amount`: a request for more than
    /// is inside pays out nothing.
    pub open spec fn cash_after(self, amount: nat) -> nat {
        if amount <= self.cash_inside {
            (self.cash_inside - amount) as nat
        } else {
            self.cash_inside
        }
    }

    /// The transition relation, as a function: the state that follows `self`
    /// on `action`.
    pub open spec fn step(self, action: Action) -> AtmState {
        match (self.auth, action) {
            (Auth::Waiting, Action::SwipeCard(expected)) => {
                self.reset_to(Auth::Authenticating(expected))
            },
            (_, Action::SwipeCard(_)) => self,
            (Auth::Waiting, Action::PressKey(_)) => self,
            (Auth::Authenticating(expected), Action::PressKey(Key::Enter)) => {
                if pin_hash(self.register) == expected {
                    self.reset_to(Auth::Authenticated)
                } else {
                    self.reset_to(Auth::Waiting)
                }
            },
            (Auth::Authenticated, Action::PressKey(Key::Enter)) => AtmState {
                cash_inside: self.cash_after(register_value(self.register)),
                auth: Auth::Waiting,
                register: Seq::empty(),
            },
            (_, Action::PressKey(key)) => self.typed(key),
        }
    }

    /// The state after each action of `actions`, in order.
    pub open spec fn run(self, actions: Seq<Action>) -> AtmState
        decreases actions.len(),
    {
        if actions.len() == 0 {
            self
        } else {
            self.run(actions.drop_last()).step(actions.last())
        }
    }

    /// The state after pressing each key of `keys`, in order.
    pub open spec fn press_all(self, keys: Seq<Key>) -> AtmState
        decreases keys.len(),
    {
        if keys.len() == 0 {
            self
        } else {
            self.press_all(keys.drop_last()).step(Action::PressKey(keys.last()))
        }
    }
}

impl View for Atm {
    type V = AtmState;

    open spec fn view(&self) -> AtmState {
        AtmState {
            cash_inside: self.cash_inside as nat,
            auth: self.expected_pin_hash,
            register: self.keystroke_register@,
        }
    }
}

impl Clone for Atm {
    /// A second machine in the same state.
    fn clone(&self) -> (copy: Atm)
        ensures
            copy@ == self@,
    {
        let copy = Atm {
            cash_inside: self.cash_inside,
            expected_pin_hash: self.expected_pin_hash,
            keystroke_register: self.keystroke_register.clone(),
        };
        assert(copy@ =~= self@);
        copy
    }
}

/// Whether two registers hold the same keys in the same order.
fn same_keys(left: &Vec<Key>, right: &Vec<Key>) -> (same: bool)
    ensures
        same == (left@ == right@),
{
    if left.len() != right.len() {
        return false;
    }
    let mut i: usize = 0;
    while i < left.len()
        invariant
            left.len() == right.len(),
            i <= left.len(),
            left@.take(i as int) == right@.take(i as int),
        decreases left.len() - i,
    {
        if left[i] != right[i] {
            return false;
        }
        assert(left@.take(i + 1) =~= left@.take(i as int).push(left@[i as int]));
        assert(right@.take(i + 1) =~= right@.take(i as int).push(right@[i as int]));
        i = i + 1;
    }
    assert(left@ =~= left@.take(i as int));
    assert(right@ =~= right@.take(i as int));
    true
}

impl PartialEq for Atm {
    /// Two machines are equal when they hold the same cash, are in the same
    /// phase and have the same keys in their registers.
    fn eq(&self, other: &Self) -> (same: bool) {
        self.cash_inside == other.cash_inside && self.expected_pin_hash == other.expected_pin_hash
            && same_keys(&self.keystroke_register, &other.keystroke_register)
    }
}

impl PartialEqSpecImpl for Atm {
    open spec fn obeys_eq_spec() -> bool {
        true
    }

    open spec fn eq_spec(&self, other: &Atm) -> bool {
        self@ == other@
    }
}

impl Atm {
    /// A machine stocked with `cash_inside`, waiting for its first card.
    pub fn new(cash_inside: u64) -> (atm: Atm)
        ensures
            atm@ == AtmState::initial(cash_inside as nat),
            atm@.inv(),
    {
        Atm { cash_inside, expected_pin_hash: Auth::default(), keystroke_register: Vec::new() }
    }

    /// Whether the register holds digit keys only.
    pub open spec fn wf(&self) -> bool {
        self@.wf()
    }

    /// The state that follows `starting_state` on the action `t`. Defined for
    /// every state and every action; the starting state is left untouched.
    /// No action adds cash, and none leads out of the well-formed states.
    pub fn next_state(starting_state: &Atm, t: &Action) -> (end_state: Atm)
        ensures
            end_state@ == starting_state@.step(*t),
            end_state.cash_inside <= starting_state.cash_inside,
            starting_state.wf() ==> end_state.wf(),
            starting_state@.inv() ==> end_state@.inv(),
    {
        let mut end_state = starting_state.clone();
        match *t {
            Action::SwipeCard(expected) => {
                if starting_state.expected_pin_hash == Auth::default() {
                    Atm {
                        cash_inside: end_state.cash_inside,
                        expected_pin_hash: Auth::Authenticating(expected),
                        keystroke_register: Vec::new(),
                    }
                } else {
                    end_state
                }
            },
            Action::PressKey(key) => {
                match starting_state.expected_pin_hash {
                    Auth::Waiting => end_state,
                    Auth::Authenticated => {
                        match key {
                            Key::Enter => {
                                let cash_inside = match decode(&starting_state.keystroke_register) {
                                    Some(amount) if amount <= end_state.cash_inside => {
                                        end_state.cash_inside - amount
                                    },
                                    _ => end_state.cash_inside,
                                };
                                Atm {
                                    cash_inside,
                                    expected_pin_hash: Auth::Waiting,
                                    keystroke_register: Vec::new(),
                                }
                            },
                            _ => {
                                end_state.keystroke_register.push(key);
                                end_state
                            },
                        }
                    },
                    Auth::Authenticating(expected) => {
                        match key {
                            Key::Enter => {
                                let expected_pin_hash = if hash(&end_state.keystroke_register)
                                    == expected {
                                    Auth::Authenticated
                                } else {
                                    Auth::Waiting
                                };
                                Atm {
                                    cash_inside: end_state.cash_inside,
                                    expected_pin_hash,
                                    keystroke_register: Vec::new(),
                                }
                            },
                            _ => {
                                end_state.keystroke_register.push(key);
                                end_state
                            },
                        }
                    },
                }
            },
        }
    }
}

} // verus!
