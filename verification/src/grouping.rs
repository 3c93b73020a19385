//! Digit grouping by the `thousands` crate.
//!
//! Nothing in this file is proved: the contract states what the source of
//! `thousands` shows of the function that it names.

use crate::text::{is_digit, leading_digits};
use thousands::Separable;
use vstd::prelude::*;

verus! {

/// The number of characters that stand before the first digit of `s`; the
/// length of `s` where it holds no digit.
pub open spec fn leading_non_digits(s: Seq<char>) -> int
    decreases s.len(),
{
    if s.len() == 0 || is_digit(s[0]) {
        0
    } else {
        1 + leading_non_digits(s.drop_first())
    }
}

/// The digits `d` with an underscore after each digit that is followed by a
/// positive multiple of three digits.
pub open spec fn grouped_digits(d: Seq<char>) -> Seq<char>
    decreases d.len(),
{
    if d.len() == 0 {
        d
    } else if d.len() > 1 && (d.len() - 1) % 3 == 0 {
        seq![d[0], '_'] + grouped_digits(d.drop_first())
    } else {
        seq![d[0]] + grouped_digits(d.drop_first())
    }
}

/// The text `s` with the first run of digits in it grouped by threes from the
/// right, with underscores between the groups. What stands before and after
/// that run is kept as it is.
pub open spec fn underscore_separated(s: Seq<char>) -> Seq<char> {
    let start = leading_non_digits(s);
    let rest = s.skip(start);
    let count = leading_digits(rest);
    s.take(start) + grouped_digits(rest.take(count)) + rest.skip(count)
}

/// `thousands::Separable::separate_with_underscores` on a `str`: it finds the
/// first run of ASCII decimal digits and puts an underscore every three digits
/// from the right of that run.
#[verifier::external_body]
pub(crate) fn separate_with_underscores(s: &str) -> (r: String)
    ensures
        r@ == underscore_separated(s@),
{
    s.separate_with_underscores()
}

} // verus!
