//! The fizzbuzz word game: multiples of five say buzz, multiples of three
//! say fizz, multiples of both say fizzbuzz, and everything else says
//! itself.

use vstd::prelude::*;
use vstd::string::StringExecFns;

use crate::decimal::{dec_rep, u64_to_string};

verus! {

/// What a number says in the game.
pub open spec fn fizzbuzz_rep(n: int) -> Seq<char> {
    if n % 5 == 0 && n % 3 == 0 {
        "fizzbuzz"@
    } else if n % 5 == 0 {
        "buzz"@
    } else if n % 3 == 0 {
        "fizz"@
    } else {
        dec_rep(n)
    }
}

/// The line printed for a number.
pub fn fizzbuzz_line(n: u64) -> (s: String)
    ensures
        s@ == fizzbuzz_rep(n as int),
{
    if n % 5 == 0 && n % 3 == 0 {
        String::from_str("fizzbuzz")
    } else if n % 5 == 0 {
        String::from_str("buzz")
    } else if n % 3 == 0 {
        String::from_str("fizz")
    } else {
        u64_to_string(n)
    }
}

} // verus!
