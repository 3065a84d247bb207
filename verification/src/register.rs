//! The keystroke register read as a number: the amount it spells, and the
//! hash under which a PIN is known to a card.

use vstd::prelude::*;
use crate::keys::Key;

verus! {

/// The number that a run of keys spells in base ten, the first key pressed
/// being the most significant digit. The empty run spells zero.
pub open spec fn register_value(keys: Seq<Key>) -> nat
    decreases keys.len(),
{
    if keys.len() == 0 {
        0
    } else {
        10 * register_value(keys.drop_last()) + keys.last().digit()
    }
}

/// Ten to the power `n`.
pub open spec fn pow10(n: nat) -> nat
    decreases n,
{
    if n == 0 {
        1
    } else {
        10 * pow10((n - 1) as nat)
    }
}

/// Whether every key in the run is a digit key.
pub open spec fn all_digits(keys: Seq<Key>) -> bool {
    forall|i: int| 0 <= i < keys.len() ==> (#[trigger] keys[i]).is_digit()
}

/// The hash of a PIN: the number its keys spell, reduced modulo 2^64.
pub open spec fn pin_hash(keys: Seq<Key>) -> u64 {
    (register_value(keys) % 0x1_0000_0000_0000_0000) as u64
}

/// A longer run spells at least as much as any of its prefixes.
pub proof fn lemma_value_prefix_le(keys: Seq<Key>, n: int)
    requires
        0 <= n <= keys.len(),
    ensures
        register_value(keys.take(n)) <= register_value(keys),
    decreases keys.len() - n,
{
    if n == keys.len() {
        assert(keys.take(n) =~= keys);
    } else {
        lemma_value_prefix_le(keys, n + 1);
        assert(keys.take(n + 1).drop_last() =~= keys.take(n));
    }
}

/// Reads the register as an amount. `None` when the amount is too large for
/// a `u64`, in which case it exceeds any stock of cash a machine can hold.
pub fn decode(keys: &Vec<Key>) -> (amount: Option<u64>)
    ensures
        match amount {
            Some(a) => a == register_value(keys@),
            None => register_value(keys@) > u64::MAX,
        },
{
    let mut acc: u64 = 0;
    let mut i: usize = 0;
    while i < keys.len()
        invariant
            i <= keys.len(),
            acc == register_value(keys@.take(i as int)),
        decreases keys.len() - i,
    {
        let d: u64 = u64::from(keys[i]);
        proof {
            assert(keys@.take(i + 1).drop_last() =~= keys@.take(i as int));
            assert(keys@.take(i + 1).last() == keys@[i as int]);
        }
        if acc > (u64::MAX - d) / 10 {
            proof {
                lemma_value_prefix_le(keys@, i + 1);
            }
            return None;
        }
        acc = acc * 10 + d;
        i = i + 1;
    }
    proof {
        assert(keys@.take(i as int) =~= keys@);
    }
    Some(acc)
}

/// Hashes a run of keys, for a card to carry and for the machine to compare
/// typed keys against.
pub fn hash(keys: &Vec<Key>) -> (h: u64)
    ensures
        h == pin_hash(keys@),
{
    let mut acc: u64 = 0;
    let mut i: usize = 0;
    while i < keys.len()
        invariant
            i <= keys.len(),
            acc == pin_hash(keys@.take(i as int)),
        decreases keys.len() - i,
    {
        let d: u64 = u64::from(keys[i]);
        proof {
            assert(keys@.take(i + 1).drop_last() =~= keys@.take(i as int));
            assert(keys@.take(i + 1).last() == keys@[i as int]);
            lemma_hash_step(register_value(keys@.take(i as int)), d as nat);
        }
        acc = acc.wrapping_mul(10).wrapping_add(d);
        i = i + 1;
    }
    proof {
        assert(keys@.take(i as int) =~= keys@);
    }
    acc
}

/// One more digit changes the value modulo 2^64 as it changes the residue.
proof fn lemma_hash_step(v: nat, d: nat)
    requires
        d < 10,
    ensures
        (10 * v + d) % 0x1_0000_0000_0000_0000 == (10 * (v % 0x1_0000_0000_0000_0000) + d)
            % 0x1_0000_0000_0000_0000,
{
}

} // verus!
