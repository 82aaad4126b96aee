//! Decimal notation for the integers that appear in keys, queries and messages.

use vstd::prelude::*;

verus! {

/// The character of one decimal digit.
pub open spec fn digit(d: int) -> char {
    if d == 0 {
        '0'
    } else if d == 1 {
        '1'
    } else if d == 2 {
        '2'
    } else if d == 3 {
        '3'
    } else if d == 4 {
        '4'
    } else if d == 5 {
        '5'
    } else if d == 6 {
        '6'
    } else if d == 7 {
        '7'
    } else if d == 8 {
        '8'
    } else {
        '9'
    }
}

/// Whether `c` is one of the ten decimal digits.
pub open spec fn is_digit(c: char) -> bool {
    exists|d: int| 0 <= d < 10 && c == #[trigger] digit(d)
}

/// The digits of `n`, most significant first, without leading zeros.
pub open spec fn digits(n: nat) -> Seq<char>
    decreases n,
{
    if n < 10 {
        seq![digit(n as int)]
    } else {
        digits(n / 10).push(digit((n % 10) as int))
    }
}

/// The decimal notation of `n`: a minus sign before the digits of a negative
/// number, nothing before the others.
pub open spec fn decimal(n: int) -> Seq<char> {
    if n < 0 {
        seq!['-'] + digits((-n) as nat)
    } else {
        digits(n as nat)
    }
}

fn digit_text(d: u8) -> (text: &'static str)
    requires
        d < 10,
    ensures
        text@ == seq![digit(d as int)],
{
    proof {
        reveal_strlit("0");
        reveal_strlit("1");
        reveal_strlit("2");
        reveal_strlit("3");
        reveal_strlit("4");
        reveal_strlit("5");
        reveal_strlit("6");
        reveal_strlit("7");
        reveal_strlit("8");
        reveal_strlit("9");
    }
    let text = match d {
        0 => "0",
        1 => "1",
        2 => "2",
        3 => "3",
        4 => "4",
        5 => "5",
        6 => "6",
        7 => "7",
        8 => "8",
        _ => "9",
    };
    assert(text@ =~= seq![digit(d as int)]);
    text
}

fn digits_text(n: u64) -> (text: String)
    ensures
        text@ == digits(n as nat),
    decreases n,
{
    if n < 10 {
        String::from_str(digit_text(n as u8))
    } else {
        let mut text = digits_text(n / 10);
        text.append(digit_text((n % 10) as u8));
        assert(text@ =~= digits(n as nat));
        text
    }
}

/// Writes `n` in decimal notation.
pub fn decimal_text(n: i64) -> (text: String)
    ensures
        text@ == decimal(n as int),
{
    if n < 0 {
        let magnitude: u64 = (-(n as i128)) as u64;
        let mut text = String::from_str("-");
        proof {
            reveal_strlit("-");
        }
        let tail = digits_text(magnitude);
        text.append(tail.as_str());
        assert(text@ =~= decimal(n as int));
        text
    } else {
        digits_text(n as u64)
    }
}

/// Every character of `digits(n)` is a decimal digit, and there is at least one.
pub proof fn lemma_digits_are_digits(n: nat)
    ensures
        digits(n).len() >= 1,
        forall|i: int| 0 <= i < digits(n).len() ==> is_digit(#[trigger] digits(n)[i]),
    decreases n,
{
    if n < 10 {
        assert(is_digit(digit(n as int)));
    } else {
        lemma_digits_are_digits(n / 10);
        assert(is_digit(digit((n % 10) as int)));
    }
}

/// Different digits have different characters.
pub proof fn lemma_digit_injective(a: int, b: int)
    requires
        0 <= a < 10,
        0 <= b < 10,
        digit(a) == digit(b),
    ensures
        a == b,
{
}

/// Different numbers have different digits.
pub proof fn lemma_digits_injective(a: nat, b: nat)
    requires
        digits(a) == digits(b),
    ensures
        a == b,
    decreases a,
{
    lemma_digits_are_digits(a);
    lemma_digits_are_digits(b);
    if a < 10 {
        if b >= 10 {
            lemma_digits_are_digits(b / 10);
            assert(digits(b).len() >= 2);
        }
        assert(digits(a)[0] == digit(a as int));
        assert(digits(b)[0] == digit(b as int));
        lemma_digit_injective(a as int, b as int);
    } else {
        lemma_digits_are_digits(a / 10);
        if b < 10 {
            assert(digits(a).len() >= 2);
        } else {
            let da = digits(a / 10);
            let db = digits(b / 10);
            assert(digits(a).drop_last() =~= da);
            assert(digits(b).drop_last() =~= db);
            assert(digits(a).last() == digit((a % 10) as int));
            assert(digits(b).last() == digit((b % 10) as int));
            lemma_digits_injective(a / 10, b / 10);
            lemma_digit_injective((a % 10) as int, (b % 10) as int);
        }
    }
}

/// No digit is a minus sign.
pub proof fn lemma_digit_is_no_sign(c: char)
    requires
        is_digit(c),
    ensures
        c != '-',
{
}

} // verus!
