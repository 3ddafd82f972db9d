//! Identities: the decimal numerals of the numbers from 1 to 10000, minted at
//! random, one for each login.

use crate::random::{rng_in_range, thread_rng};
use vstd::prelude::*;

verus! {

/// The smallest number that an identity is minted from.
pub const IDENTITY_MIN: u32 = 1;

/// The largest number that an identity is minted from.
pub const IDENTITY_MAX: u32 = 10000;

/// The character of the decimal digit `d`.
pub open spec fn digit_char(d: nat) -> char {
    if d == 0 {
        '0'
    } else if d == 1 {
        '1'
    } else if d == 2 {
        '2'
    } else if d == 3 {
        '3'
    } else if d == 4 {
        '4'
    } else if d == 5 {
        '5'
    } else if d == 6 {
        '6'
    } else if d == 7 {
        '7'
    } else if d == 8 {
        '8'
    } else {
        '9'
    }
}

/// The decimal numeral of `n`, without leading zeros.
pub open spec fn decimal(n: nat) -> Seq<char>
    decreases n,
{
    if n < 10 {
        seq![digit_char(n)]
    } else {
        decimal(n / 10).push(digit_char(n % 10))
    }
}

/// `s` is an identity: the numeral of a number from 1 to 10000.
pub open spec fn is_identity(s: Seq<char>) -> bool {
    exists|n: nat| IDENTITY_MIN <= n <= IDENTITY_MAX && s == #[trigger] decimal(n)
}

/// The one-character text of the digit `d`.
fn digit_text(d: u32) -> (s: &'static str)
    requires
        d < 10,
    ensures
        s@ == seq![digit_char(d as nat)],
{
    proof {
        reveal_strlit("0");
        reveal_strlit("1");
        reveal_strlit("2");
        reveal_strlit("3");
        reveal_strlit("4");
        reveal_strlit("5");
        reveal_strlit("6");
        reveal_strlit("7");
        reveal_strlit("8");
        reveal_strlit("9");
    }
    let s = if d == 0 {
        "0"
    } else if d == 1 {
        "1"
    } else if d == 2 {
        "2"
    } else if d == 3 {
        "3"
    } else if d == 4 {
        "4"
    } else if d == 5 {
        "5"
    } else if d == 6 {
        "6"
    } else if d == 7 {
        "7"
    } else if d == 8 {
        "8"
    } else {
        "9"
    };
    assert(s@ =~= seq![digit_char(d as nat)]);
    s
}

/// Writes `n` as a decimal numeral.
pub fn decimal_string(n: u32) -> (s: String)
    ensures
        s@ == decimal(n as nat),
    decreases n,
{
    if n < 10 {
        String::from_str(digit_text(n))
    } else {
        let mut s = decimal_string(n / 10);
        s.append(digit_text(n % 10));
        assert(s@ =~= decimal(n as nat));
        s
    }
}

/// The identity of the number `n`.
pub fn identity_of(n: u32) -> (id: String)
    requires
        IDENTITY_MIN <= n <= IDENTITY_MAX,
    ensures
        id@ == decimal(n as nat),
        is_identity(id@),
{
    decimal_string(n)
}

/// Mints a fresh identity: the numeral of a number drawn at random from 1 to
/// 10000. Two calls may mint the same identity.
pub fn mint_identity() -> (id: String)
    ensures
        is_identity(id@),
{
    let mut rng = thread_rng();
    let n: u32 = rng_in_range(&mut rng, IDENTITY_MIN, IDENTITY_MAX);
    identity_of(n)
}

} // verus!
