//! Numbers as decimal text.

use vstd::prelude::*;

verus! {

/// The character of a decimal digit.
pub open spec fn digit_char(digit: nat) -> char {
    if digit == 0 {
        '0'
    } else if digit == 1 {
        '1'
    } else if digit == 2 {
        '2'
    } else if digit == 3 {
        '3'
    } else if digit == 4 {
        '4'
    } else if digit == 5 {
        '5'
    } else if digit == 6 {
        '6'
    } else if digit == 7 {
        '7'
    } else if digit == 8 {
        '8'
    } else {
        '9'
    }
}

/// The decimal digits of a number, most significant first, without leading
/// zeros; `0` for zero.
pub open spec fn decimal_text(n: nat) -> Seq<char>
    decreases n,
{
    if n < 10 {
        seq![digit_char(n)]
    } else {
        decimal_text(n / 10).push(digit_char(n % 10))
    }
}

/// The text of one decimal digit.
fn digit_text(digit: usize) -> (r: &'static str)
    requires
        digit < 10,
    ensures
        r@ == seq![digit_char(digit as nat)],
{
    proof {
        reveal_strlit("0");
        reveal_strlit("1");
        reveal_strlit("2");
        reveal_strlit("3");
        reveal_strlit("4");
        reveal_strlit("5");
        reveal_strlit("6");
        reveal_strlit("7");
        reveal_strlit("8");
        reveal_strlit("9");
    }
    let text = if digit == 0 {
        "0"
    } else if digit == 1 {
        "1"
    } else if digit == 2 {
        "2"
    } else if digit == 3 {
        "3"
    } else if digit == 4 {
        "4"
    } else if digit == 5 {
        "5"
    } else if digit == 6 {
        "6"
    } else if digit == 7 {
        "7"
    } else if digit == 8 {
        "8"
    } else {
        "9"
    };
    assert(text@ =~= seq![digit_char(digit as nat)]);
    text
}

/// Appends the decimal digits of `n` to `text`.
pub fn push_decimal(text: &mut String, n: usize)
    ensures
        final(text)@ == old(text)@ + decimal_text(n as nat),
    decreases n,
{
    if n < 10 {
        text.append(digit_text(n));
    } else {
        push_decimal(text, n / 10);
        text.append(digit_text(n % 10));
    }
}

} // verus!
