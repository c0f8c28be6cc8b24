//! Texts that the error values carry and print.

use vstd::prelude::*;

verus! {

/// A text as the contracts speak of it: its characters in order.
pub type Text = Seq<char>;

/// The character that stands for the digit `d`.
pub open spec fn digit(d: nat) -> char {
    if d == 0 {
        '0'
    } else if d == 1 {
        '1'
    } else if d == 2 {
        '2'
    } else if d == 3 {
        '3'
    } else if d == 4 {
        '4'
    } else if d == 5 {
        '5'
    } else if d == 6 {
        '6'
    } else if d == 7 {
        '7'
    } else if d == 8 {
        '8'
    } else {
        '9'
    }
}

/// The number `n` in decimal digits, without leading zeros.
pub open spec fn decimal(n: nat) -> Seq<char>
    decreases n,
{
    if n < 10 {
        seq![digit(n)]
    } else {
        decimal(n / 10).push(digit(n % 10))
    }
}

/// The integer `v` in decimal digits, with a minus sign before them when it
/// is negative.
pub open spec fn signed_decimal(v: int) -> Seq<char> {
    if v < 0 {
        seq!['-'] + decimal((-v) as nat)
    } else {
        decimal(v as nat)
    }
}

/// What `{:?}` prints for the character `c`: the character between single
/// quotes, escaped where the standard library escapes it.
pub uninterp spec fn char_debug(c: char) -> Seq<char>;

/// What `{:?}` prints for a string that holds `s`: the characters between
/// double quotes, escaped where the standard library escapes them.
pub uninterp spec fn str_debug(s: Seq<char>) -> Seq<char>;

/// The text that `{:?}` gives for `value`, through `format!`. What it holds
/// is up to the `Debug` implementation of `T`, so nothing is claimed of it.
#[verifier::external_body]
pub(crate) fn debug_text<T: core::fmt::Debug>(value: &T) -> (text: String) {
    format!("{:?}", value)
}

/// The text that `{}` gives for a `u64`, through `format!`: the number in
/// decimal digits, without sign or leading zeros.
#[verifier::external_body]
pub(crate) fn decimal_text(n: u64) -> (text: String)
    ensures
        text@ == decimal(n as nat),
{
    format!("{}", n)
}

/// The text that `{:?}` gives for a `u128`, through `format!`: the number in
/// decimal digits, without sign or leading zeros.
#[verifier::external_body]
pub(crate) fn unsigned_debug_text(n: u128) -> (text: String)
    ensures
        text@ == decimal(n as nat),
{
    format!("{:?}", n)
}

/// The text that `{:?}` gives for an `i128`, through `format!`: the number
/// in decimal digits, after a minus sign when it is negative.
#[verifier::external_body]
pub(crate) fn signed_debug_text(v: i128) -> (text: String)
    ensures
        text@ == signed_decimal(v as int),
{
    format!("{:?}", v)
}

/// The text that `{:?}` gives for a `char`, through `format!`.
#[verifier::external_body]
pub(crate) fn char_debug_text(c: char) -> (text: String)
    ensures
        text@ == char_debug(c),
{
    format!("{:?}", c)
}

/// The text that `{:?}` gives for a `str`, through `format!`.
#[verifier::external_body]
pub(crate) fn str_debug_text(s: &str) -> (text: String)
    ensures
        text@ == str_debug(s@),
{
    format!("{:?}", s)
}

} // verus!
