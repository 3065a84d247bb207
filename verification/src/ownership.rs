//! Ways of sharing one text among several bindings: by reference, by move
//! and by copy.

use vstd::prelude::*;
use vstd::string::StringExecFns;
use crate::decimal::{decimal, push_decimal};

verus! {

/// Binds one text three times over, five times in a row: two references;
/// a reference and a move; a copy and a move; two copies; a reference and a
/// copy. Every binding reads the same text as the first.
#[allow(unused_variables)]
pub fn exercise1() {
    let x = String::from_str("hello, world");
    let y = &x;
    let z = &x;
    assert(y@ == x@ && z@ == x@);

    let x2 = String::from_str("hello, world");
    let y2 = &x2;
    assert(y2@ == x2@);
    let z2 = x2;
    assert(z2@ == x@);

    let x3 = String::from_str("hello, world");
    let y3 = x3.clone();
    let z3 = x3;
    assert(y3@ == z3@);

    let x4 = String::from_str("hello, world");
    let y4 = x4.clone();
    let z4 = x4.clone();
    assert(y4@ == x4@ && z4@ == x4@);

    let x5 = String::from_str("hello, world");
    let y5 = &x5;
    let z5 = x5.clone();
    assert(y5@ == z5@);
}

/// The decimal numeral of `value` as an owned text.
pub fn exercise4(value: u32) -> (text: String)
    ensures
        text@ == decimal(value as nat),
{
    let mut str_value = String::new();
    push_decimal(&mut str_value, value);
    let str_ref: &str = str_value.as_str();
    String::from_str(str_ref)
}

} // verus!
