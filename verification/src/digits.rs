//! Decimal digits as text.

use vstd::prelude::*;

verus! {

/// The character of a decimal digit.
pub open spec fn digit(d: int) -> char {
    if d == 0 {
        '0'
    } else if d == 1 {
        '1'
    } else if d == 2 {
        '2'
    } else if d == 3 {
        '3'
    } else if d == 4 {
        '4'
    } else if d == 5 {
        '5'
    } else if d == 6 {
        '6'
    } else if d == 7 {
        '7'
    } else if d == 8 {
        '8'
    } else {
        '9'
    }
}

/// A number below 100 in two decimal digits.
pub open spec fn two_digits(v: int) -> Seq<char> {
    seq![digit(v / 10), digit(v % 10)]
}

/// A number of 0 or more in decimal digits, with no zero in front.
pub open spec fn decimal(v: int) -> Seq<char>
    decreases v,
{
    if v < 10 {
        seq![digit(v)]
    } else {
        decimal(v / 10).push(digit(v % 10))
    }
}

/// A number of 0 or more in decimal digits, with zeros in front where it
/// has fewer than four.
pub open spec fn four_digits_or_more(v: int) -> Seq<char> {
    if v < 10_000 {
        two_digits(v / 100) + two_digits(v % 100)
    } else {
        decimal(v)
    }
}

/// The text of one decimal digit.
pub(crate) fn digit_text(d: u32) -> (r: &'static str)
    requires
        d < 10,
    ensures
        r@ == seq![digit(d as int)],
{
    proof {
        reveal_strlit("0");
        reveal_strlit("1");
        reveal_strlit("2");
        reveal_strlit("3");
        reveal_strlit("4");
        reveal_strlit("5");
        reveal_strlit("6");
        reveal_strlit("7");
        reveal_strlit("8");
        reveal_strlit("9");
    }
    let r = if d == 0 {
        "0"
    } else if d == 1 {
        "1"
    } else if d == 2 {
        "2"
    } else if d == 3 {
        "3"
    } else if d == 4 {
        "4"
    } else if d == 5 {
        "5"
    } else if d == 6 {
        "6"
    } else if d == 7 {
        "7"
    } else if d == 8 {
        "8"
    } else {
        "9"
    };
    assert(r@ =~= seq![digit(d as int)]);
    r
}

/// Appends a number below 100 in two decimal digits.
pub(crate) fn push_two_digits(text: &mut String, v: u32)
    requires
        v < 100,
    ensures
        final(text)@ == old(text)@ + two_digits(v as int),
{
    text.append(digit_text(v / 10));
    text.append(digit_text(v % 10));
    assert(text@ =~= old(text)@ + two_digits(v as int));
}

} // verus!
