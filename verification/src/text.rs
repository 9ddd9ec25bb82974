//! Integers written in decimal.

use vstd::prelude::*;

verus! {

/// The character of one decimal digit.
pub open spec fn digit(d: int) -> char {
    if d == 0 {
        '0'
    } else if d == 1 {
        '1'
    } else if d == 2 {
        '2'
    } else if d == 3 {
        '3'
    } else if d == 4 {
        '4'
    } else if d == 5 {
        '5'
    } else if d == 6 {
        '6'
    } else if d == 7 {
        '7'
    } else if d == 8 {
        '8'
    } else {
        '9'
    }
}

/// A natural number in decimal, without leading zeros.
pub open spec fn decimal_nat(n: nat) -> Seq<char>
    decreases n,
{
    if n < 10 {
        seq![digit(n as int)]
    } else {
        decimal_nat(n / 10).push(digit((n % 10) as int))
    }
}

/// An integer in decimal: a minus sign before the digits of a negative one.
pub open spec fn decimal(n: int) -> Seq<char> {
    if n < 0 {
        seq!['-'] + decimal_nat((-n) as nat)
    } else {
        decimal_nat(n as nat)
    }
}

/// One decimal digit as a string.
fn digit_str(d: u32) -> (r: &'static str)
    requires
        d < 10,
    ensures
        r@ == seq![digit(d as int)],
{
    proof {
        reveal_strlit("0");
        reveal_strlit("1");
        reveal_strlit("2");
        reveal_strlit("3");
        reveal_strlit("4");
        reveal_strlit("5");
        reveal_strlit("6");
        reveal_strlit("7");
        reveal_strlit("8");
        reveal_strlit("9");
    }
    let r = if d == 0 {
        "0"
    } else if d == 1 {
        "1"
    } else if d == 2 {
        "2"
    } else if d == 3 {
        "3"
    } else if d == 4 {
        "4"
    } else if d == 5 {
        "5"
    } else if d == 6 {
        "6"
    } else if d == 7 {
        "7"
    } else if d == 8 {
        "8"
    } else {
        "9"
    };
    r
}

/// Appends a natural number in decimal.
fn append_decimal(out: &mut String, n: u32)
    ensures
        final(out)@ == old(out)@ + decimal_nat(n as nat),
    decreases n,
{
    if n >= 10 {
        append_decimal(out, n / 10);
    }
    out.append(digit_str(n % 10));
}

/// An integer in decimal.
pub fn decimal_string(n: i32) -> (r: String)
    ensures
        r@ == decimal(n as int),
{
    let mut out = String::new();
    if n < 0 {
        proof {
            reveal_strlit("-");
        }
        out.append("-");
        let magnitude: u32 = (-(n as i64)) as u32;
        append_decimal(&mut out, magnitude);
    } else {
        append_decimal(&mut out, n as u32);
    }
    out
}

/// A natural number in decimal has a digit, and its first character is no
/// minus sign.
proof fn lemma_decimal_nat_starts_with_digit(n: nat)
    ensures
        decimal_nat(n).len() >= 1,
        decimal_nat(n)[0] != '-',
    decreases n,
{
    if n >= 10 {
        lemma_decimal_nat_starts_with_digit(n / 10);
    }
}

/// Two natural numbers that are written alike are the same number.
proof fn lemma_decimal_nat_tells_apart(a: nat, b: nat)
    requires
        decimal_nat(a) == decimal_nat(b),
    ensures
        a == b,
    decreases a,
{
    lemma_decimal_nat_starts_with_digit(a / 10);
    lemma_decimal_nat_starts_with_digit(b / 10);
    if a >= 10 && b >= 10 {
        let front_a = decimal_nat(a / 10);
        let front_b = decimal_nat(b / 10);
        assert(front_a.push(digit((a % 10) as int)).drop_last() =~= front_a);
        assert(front_b.push(digit((b % 10) as int)).drop_last() =~= front_b);
        assert(front_a.push(digit((a % 10) as int)).last() == digit((a % 10) as int));
        assert(front_b.push(digit((b % 10) as int)).last() == digit((b % 10) as int));
        lemma_decimal_nat_tells_apart(a / 10, b / 10);
    } else if a < 10 && b < 10 {
        assert(decimal_nat(a)[0] == digit(a as int));
        assert(decimal_nat(b)[0] == digit(b as int));
    } else if a < 10 {
        assert(decimal_nat(b).len() == decimal_nat(b / 10).len() + 1);
    } else {
        assert(decimal_nat(a).len() == decimal_nat(a / 10).len() + 1);
    }
}

/// Two integers that are written alike are the same integer: the text of an
/// id stands for one id only.
pub proof fn lemma_decimal_tells_apart(a: int, b: int)
    requires
        decimal(a) == decimal(b),
    ensures
        a == b,
{
    if a < 0 {
        lemma_decimal_nat_starts_with_digit((-a) as nat);
    } else {
        lemma_decimal_nat_starts_with_digit(a as nat);
    }
    if b < 0 {
        lemma_decimal_nat_starts_with_digit((-b) as nat);
    } else {
        lemma_decimal_nat_starts_with_digit(b as nat);
    }
    if a < 0 && b < 0 {
        let digits_a = decimal_nat((-a) as nat);
        let digits_b = decimal_nat((-b) as nat);
        assert((seq!['-'] + digits_a).drop_first() =~= digits_a);
        assert((seq!['-'] + digits_b).drop_first() =~= digits_b);
        lemma_decimal_nat_tells_apart((-a) as nat, (-b) as nat);
    } else if a >= 0 && b >= 0 {
        lemma_decimal_nat_tells_apart(a as nat, b as nat);
    } else if a < 0 {
        assert(decimal(a)[0] == '-');
    } else {
        assert(decimal(b)[0] == '-');
    }
}

} // verus!
