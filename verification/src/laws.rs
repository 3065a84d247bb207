//! What holds of the machine on every input: the behaviour of each phase, the
//! reading of the register, and the PIN protocol from swipe to `Enter`.

use vstd::prelude::*;
use crate::atm::{Action, AtmState, Auth};
use crate::keys::Key;
use crate::register::{all_digits, pin_hash, pow10, register_value};

verus! {

/// No action leads out of the states whose register holds digit keys only,
/// nor out of those that in addition have an empty register while no session
/// is open.
pub proof fn law_step_preserves_invariant(s: AtmState, action: Action)
    ensures
        s.wf() ==> s.step(action).wf(),
        s.inv() ==> s.step(action).inv(),
{
}

/// No action adds cash to the machine.
pub proof fn law_cash_never_grows(s: AtmState, action: Action)
    ensures
        s.step(action).cash_inside <= s.cash_inside,
{
}

/// Whatever is done to a fresh machine, its register holds digit keys only,
/// is empty while no session is open, and the cash inside is at most what it
/// was stocked with.
pub proof fn law_reachable_states_are_well_formed(cash_inside: nat, actions: Seq<Action>)
    ensures
        AtmState::initial(cash_inside).run(actions).inv(),
        AtmState::initial(cash_inside).run(actions).cash_inside <= cash_inside,
    decreases actions.len(),
{
    if actions.len() > 0 {
        law_reachable_states_are_well_formed(cash_inside, actions.drop_last());
    }
}

/// While the machine waits for a card, a key press changes nothing.
pub proof fn law_waiting_ignores_keys(s: AtmState, key: Key)
    requires
        s.auth == Auth::Waiting,
    ensures
        s.step(Action::PressKey(key)) == s,
{
}

/// A card swipe opens a session on a waiting machine, with an empty register
/// and the cash untouched. On any other machine it changes nothing.
pub proof fn law_swipe_only_from_waiting(s: AtmState, expected: u64)
    ensures
        s.auth == Auth::Waiting ==> s.step(Action::SwipeCard(expected)) == (AtmState {
            cash_inside: s.cash_inside,
            auth: Auth::Authenticating(expected),
            register: Seq::empty(),
        }),
        s.auth != Auth::Waiting ==> s.step(Action::SwipeCard(expected)) == s,
{
}

/// In a session, a digit key is appended to the register, which grows by
/// exactly one; phase and cash stay.
pub proof fn law_digit_grows_register(s: AtmState, key: Key)
    requires
        s.auth != Auth::Waiting,
        key != Key::Enter,
    ensures
        s.step(Action::PressKey(key)).register == s.register.push(key),
        s.step(Action::PressKey(key)).register.len() == s.register.len() + 1,
        s.step(Action::PressKey(key)).auth == s.auth,
        s.step(Action::PressKey(key)).cash_inside == s.cash_inside,
{
}

/// After `Enter` the register is empty: in a session because `Enter` ends the
/// entry, outside one because the register was empty before.
pub proof fn law_enter_empties_register(s: AtmState)
    requires
        s.auth == Auth::Waiting ==> s.register.len() == 0,
    ensures
        s.step(Action::PressKey(Key::Enter)).register.len() == 0,
{
}

/// `Enter` on an authenticated machine pays out the amount in the register
/// if that much is inside and nothing otherwise; either way the session ends
/// with an empty register.
pub proof fn law_withdrawal_bound(s: AtmState)
    requires
        s.auth == Auth::Authenticated,
    ensures
        ({
            let amount = register_value(s.register);
            let end = s.step(Action::PressKey(Key::Enter));
            &&& amount <= s.cash_inside ==> end.cash_inside == s.cash_inside - amount
            &&& amount > s.cash_inside ==> end.cash_inside == s.cash_inside
            &&& end.auth == Auth::Waiting
            &&& end.register == Seq::<Key>::empty()
        }),
{
}

/// During PIN entry, pressing digit keys appends them to the register and
/// changes nothing else.
pub proof fn lemma_press_all_appends(s: AtmState, keys: Seq<Key>)
    requires
        s.auth != Auth::Waiting,
        all_digits(keys),
    ensures
        s.press_all(keys) == (AtmState {
            cash_inside: s.cash_inside,
            auth: s.auth,
            register: s.register + keys,
        }),
    decreases keys.len(),
{
    if keys.len() == 0 {
        assert(s.register + keys =~= s.register);
    } else {
        let front = keys.drop_last();
        lemma_press_all_appends(s, front);
        assert(keys.last().is_digit());
        assert((s.register + front).push(keys.last()) =~= s.register + keys);
    }
}

/// Swiping a card that carries the hash of `pin`, then pressing the keys of
/// `pin` and `Enter`, authenticates: the machine ends `Authenticated` with an
/// empty register and its cash untouched.
pub proof fn law_right_pin_authenticates(s: AtmState, pin: Seq<Key>)
    requires
        s.auth == Auth::Waiting,
        all_digits(pin),
    ensures
        s.step(Action::SwipeCard(pin_hash(pin))).press_all(pin).step(Action::PressKey(Key::Enter))
            == (AtmState {
            cash_inside: s.cash_inside,
            auth: Auth::Authenticated,
            register: Seq::empty(),
        }),
{
    let swiped = s.step(Action::SwipeCard(pin_hash(pin)));
    lemma_press_all_appends(swiped, pin);
    assert(swiped.register + pin =~= pin);
}

/// `Enter` during PIN entry with keys other than the card's PIN ends the
/// session, unless the two happen to share a hash: the machine waits again,
/// with an empty register and its cash untouched.
pub proof fn law_wrong_pin_resets(s: AtmState, pin: Seq<Key>)
    requires
        s.auth == Auth::Authenticating(pin_hash(pin)),
        s.register != pin,
        pin_hash(s.register) != pin_hash(pin),
    ensures
        s.step(Action::PressKey(Key::Enter)) == (AtmState {
            cash_inside: s.cash_inside,
            auth: Auth::Waiting,
            register: Seq::empty(),
        }),
{
}

/// A run of keys spells less than ten to the power of its length.
pub proof fn lemma_value_bound(keys: Seq<Key>)
    ensures
        register_value(keys) < pow10(keys.len()),
    decreases keys.len(),
{
    if keys.len() > 0 {
        lemma_value_bound(keys.drop_last());
    }
}

/// The first key of a run weighs ten to the power of the number of keys
/// after it: the last key pressed is the least significant digit.
pub proof fn lemma_value_leading_key(key: Key, rest: Seq<Key>)
    ensures
        register_value(seq![key] + rest) == key.digit() * pow10(rest.len()) + register_value(rest),
    decreases rest.len(),
{
    let keys = seq![key] + rest;
    if rest.len() == 0 {
        assert(keys.drop_last() =~= Seq::<Key>::empty());
        assert(register_value(keys.drop_last()) == 0);
    } else {
        lemma_value_leading_key(key, rest.drop_last());
        assert(keys.drop_last() =~= seq![key] + rest.drop_last());
        let d = key.digit();
        let p = pow10((rest.len() - 1) as nat);
        assert(10 * (d * p) == d * (10 * p)) by (nonlinear_arith);
    }
}

/// Two different runs of digit keys spell different numbers.
pub proof fn lemma_value_injective(a: Seq<Key>, b: Seq<Key>)
    requires
        all_digits(a),
        all_digits(b),
        register_value(a) == register_value(b),
    ensures
        a == b,
    decreases a.len(),
{
    if a.len() == 0 || b.len() == 0 {
        if a.len() > 0 {
            assert(a.last().is_digit());
        }
        if b.len() > 0 {
            assert(b.last().is_digit());
        }
        assert(a =~= b);
    } else {
        assert(a.last().is_digit());
        assert(b.last().is_digit());
        lemma_value_injective(a.drop_last(), b.drop_last());
        assert(a =~= a.drop_last().push(a.last()));
        assert(b =~= b.drop_last().push(b.last()));
    }
}

/// Two different PINs of at most nineteen digit keys have different hashes.
pub proof fn lemma_short_pins_hash_apart(a: Seq<Key>, b: Seq<Key>)
    requires
        all_digits(a),
        all_digits(b),
        a.len() <= 19,
        b.len() <= 19,
        a != b,
    ensures
        pin_hash(a) != pin_hash(b),
{
    lemma_value_bound(a);
    lemma_value_bound(b);
    lemma_pow10_monotonic(a.len(), 19);
    lemma_pow10_monotonic(b.len(), 19);
    assert(pow10(19) == 10_000_000_000_000_000_000) by {
        reveal_with_fuel(pow10, 20);
    }
    if pin_hash(a) == pin_hash(b) {
        lemma_value_injective(a, b);
    }
}

/// Ten to a larger power is not smaller.
proof fn lemma_pow10_monotonic(m: nat, n: nat)
    requires
        m <= n,
    ensures
        pow10(m) <= pow10(n),
    decreases n,
{
    if m < n {
        lemma_pow10_monotonic(m, (n - 1) as nat);
    }
}

/// A wrong PIN attempt ends the session when card PIN and typed keys are
/// both at most nineteen digit keys long.
pub proof fn law_wrong_short_pin_resets(s: AtmState, pin: Seq<Key>)
    requires
        s.auth == Auth::Authenticating(pin_hash(pin)),
        s.wf(),
        all_digits(pin),
        s.register.len() <= 19,
        pin.len() <= 19,
        s.register != pin,
    ensures
        s.step(Action::PressKey(Key::Enter)) == (AtmState {
            cash_inside: s.cash_inside,
            auth: Auth::Waiting,
            register: Seq::empty(),
        }),
{
    lemma_short_pins_hash_apart(s.register, pin);
}

} // verus!
