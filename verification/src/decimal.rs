//! Natural numbers written in decimal.

use vstd::prelude::*;

verus! {

/// The character for a digit below ten.
pub open spec fn digit(d: nat) -> char {
    if d == 0 {
        '0'
    } else if d == 1 {
        '1'
    } else if d == 2 {
        '2'
    } else if d == 3 {
        '3'
    } else if d == 4 {
        '4'
    } else if d == 5 {
        '5'
    } else if d == 6 {
        '6'
    } else if d == 7 {
        '7'
    } else if d == 8 {
        '8'
    } else {
        '9'
    }
}

/// The decimal numeral of `n`: its digits from the most significant down,
/// with no leading zero but for zero itself.
pub open spec fn decimal(n: nat) -> Seq<char>
    decreases n,
{
    if n < 10 {
        seq![digit(n)]
    } else {
        decimal(n / 10).push(digit(n % 10))
    }
}

/// The number that a sequence of digit characters stands for.
pub open spec fn value(numeral: Seq<char>) -> nat
    decreases numeral.len(),
{
    if numeral.len() == 0 {
        0
    } else {
        10 * value(numeral.drop_last()) + digit_value(numeral.last())
    }
}

/// The digit that a character stands for; zero for any other character.
pub open spec fn digit_value(c: char) -> nat {
    if c == '1' {
        1
    } else if c == '2' {
        2
    } else if c == '3' {
        3
    } else if c == '4' {
        4
    } else if c == '5' {
        5
    } else if c == '6' {
        6
    } else if c == '7' {
        7
    } else if c == '8' {
        8
    } else if c == '9' {
        9
    } else {
        0
    }
}

/// A numeral stands for the number it was written for, and only zero's
/// numeral begins with the digit zero.
pub proof fn law_numeral_reads_back(n: nat)
    ensures
        value(decimal(n)) == n,
        decimal(n).len() >= 1,
        decimal(n)[0] == '0' ==> n == 0,
    decreases n,
{
    if n < 10 {
        let numeral = seq![digit(n)];
        assert(numeral.drop_last() =~= Seq::<char>::empty());
        assert(value(numeral.drop_last()) == 0);
    } else {
        law_numeral_reads_back(n / 10);
        let numeral = decimal(n / 10).push(digit(n % 10));
        assert(numeral.drop_last() =~= decimal(n / 10));
    }
}

/// The one-character string for a digit.
fn digit_str(d: u64) -> (s: &'static str)
    requires
        d < 10,
    ensures
        s@ == seq![digit(d as nat)],
{
    proof {
        reveal_strlit("0");
        reveal_strlit("1");
        reveal_strlit("2");
        reveal_strlit("3");
        reveal_strlit("4");
        reveal_strlit("5");
        reveal_strlit("6");
        reveal_strlit("7");
        reveal_strlit("8");
        reveal_strlit("9");
    }
    let s = if d == 0 {
        "0"
    } else if d == 1 {
        "1"
    } else if d == 2 {
        "2"
    } else if d == 3 {
        "3"
    } else if d == 4 {
        "4"
    } else if d == 5 {
        "5"
    } else if d == 6 {
        "6"
    } else if d == 7 {
        "7"
    } else if d == 8 {
        "8"
    } else {
        "9"
    };
    assert(s@ =~= seq![digit(d as nat)]);
    s
}

/// Writes `n` in decimal.
pub fn to_decimal(n: u64) -> (text: String)
    ensures
        text@ == decimal(n as nat),
    decreases n,
{
    if n < 10 {
        String::from_str(digit_str(n))
    } else {
        let mut text = to_decimal(n / 10);
        text.append(digit_str(n % 10));
        assert(text@ =~= decimal(n as nat));
        text
    }
}

} // verus!
