//! Unsigned numbers as text.

use vstd::prelude::*;

use crate::text;

verus! {

/// The decimal digit for a number below ten.
pub open spec fn digit(n: nat) -> char {
    if n == 0 {
        '0'
    } else if n == 1 {
        '1'
    } else if n == 2 {
        '2'
    } else if n == 3 {
        '3'
    } else if n == 4 {
        '4'
    } else if n == 5 {
        '5'
    } else if n == 6 {
        '6'
    } else if n == 7 {
        '7'
    } else if n == 8 {
        '8'
    } else {
        '9'
    }
}

/// The decimal digits of a number, without leading zeros.
pub open spec fn decimal(n: nat) -> Seq<char>
    decreases n,
{
    if n < 10 {
        seq![digit(n)]
    } else {
        decimal(n / 10).push(digit(n % 10))
    }
}

/// What a digit stands for, up to the sixteen digits of a hexadecimal number.
pub open spec fn digit_value(c: char) -> Option<nat> {
    if '0' <= c <= '9' {
        Some((c as int - '0' as int) as nat)
    } else if 'a' <= c <= 'f' {
        Some((c as int - 'a' as int + 10) as nat)
    } else if 'A' <= c <= 'F' {
        Some((c as int - 'A' as int + 10) as nat)
    } else {
        None
    }
}

/// The number that the digits stand for in base `radix`.
pub open spec fn digits_value(digits: Seq<char>, radix: nat) -> Option<nat>
    decreases digits.len(),
{
    if digits.len() == 0 {
        Some(0)
    } else {
        match (digits_value(digits.drop_last(), radix), digit_value(digits.last())) {
            (Some(high), Some(low)) => if low < radix {
                Some(high * radix + low)
            } else {
                None
            },
            _ => None,
        }
    }
}

/// The digits of a number that may be written with a plus sign.
pub open spec fn unsigned_digits(text: Seq<char>) -> Seq<char> {
    if text.len() > 1 && text[0] == '+' {
        text.skip(1)
    } else {
        text
    }
}

/// The number that `text` stands for in base `radix`, if it is at most `max`: one or more digits,
/// with an optional plus sign before them.
pub open spec fn number(text: Seq<char>, radix: nat, max: nat) -> Option<nat> {
    if text.len() == 0 {
        None
    } else {
        match digits_value(unsigned_digits(text), radix) {
            Some(value) => if value <= max {
                Some(value)
            } else {
                None
            },
            None => None,
        }
    }
}

fn digit_char(n: u64) -> (r: char)
    requires
        n < 10,
    ensures
        r == digit(n as nat),
{
    match n {
        0 => '0',
        1 => '1',
        2 => '2',
        3 => '3',
        4 => '4',
        5 => '5',
        6 => '6',
        7 => '7',
        8 => '8',
        _ => '9',
    }
}

/// The decimal digits of `n`.
pub fn decimal_text(n: u64) -> (r: String)
    ensures
        r@ == decimal(n as nat),
    decreases n,
{
    if n < 10 {
        let mut out = String::new();
        out.push(digit_char(n));
        assert(out@ =~= decimal(n as nat));
        out
    } else {
        let mut out = decimal_text(n / 10);
        out.push(digit_char(n % 10));
        out
    }
}

fn value_of_digit(c: char) -> (r: Option<u64>)
    ensures
        match r {
            Some(v) => v < 16 && digit_value(c) == Some(v as nat),
            None => digit_value(c) is None,
        },
{
    if '0' <= c && c <= '9' {
        Some(c as u64 - '0' as u64)
    } else if 'a' <= c && c <= 'f' {
        Some(c as u64 - 'a' as u64 + 10)
    } else if 'A' <= c && c <= 'F' {
        Some(c as u64 - 'A' as u64 + 10)
    } else {
        None
    }
}

/// More digits stand for a number that is no smaller.
proof fn lemma_value_grows(digits: Seq<char>, radix: nat, n: int)
    requires
        0 <= n <= digits.len(),
        radix >= 1,
    ensures
        digits_value(digits.take(n), radix) is None ==> digits_value(digits, radix) is None,
        digits_value(digits, radix) is Some ==> digits_value(digits, radix)->0 >= digits_value(
            digits.take(n),
            radix,
        )->0,
    decreases digits.len(),
{
    if n == digits.len() {
        assert(digits.take(n) =~= digits);
    } else {
        let shorter = digits.drop_last();
        lemma_value_grows(shorter, radix, n);
        assert(shorter.take(n) =~= digits.take(n));
        if digits_value(digits, radix) is Some {
            let high = digits_value(shorter, radix)->0;
            assert(high * radix >= high) by (nonlinear_arith)
                requires
                    radix >= 1,
            ;
        }
    }
}

/// The number that `text` stands for in base `radix`, if it is at most `max`.
pub fn parse_number(text: &str, radix: u64, max: u64) -> (r: Option<u64>)
    requires
        1 <= radix <= 16,
    ensures
        match r {
            Some(value) => number(text@, radix as nat, max as nat) == Some(value as nat),
            None => number(text@, radix as nat, max as nat) is None,
        },
{
    let chars = text::chars_of(text);
    if chars.len() == 0 {
        return None;
    }
    let mut i: usize = 0;
    if chars.len() > 1 && chars[0] == '+' {
        i = 1;
    }
    let ghost from = i as int;
    let ghost digits = unsigned_digits(text@);
    assert(digits =~= chars@.skip(from));
    let mut value: u64 = 0;
    assert(digits.take(0) =~= Seq::<char>::empty());
    while i < chars.len()
        invariant
            1 <= radix <= 16,
            0 <= from <= i <= chars.len(),
            digits == chars@.skip(from),
            text@.len() > 0,
            digits == unsigned_digits(text@),
            value <= max,
            digits_value(digits.take(i - from), radix as nat) == Some(value as nat),
        decreases chars.len() - i,
    {
        proof {
            lemma_value_grows(digits, radix as nat, i - from + 1);
            assert(digits.take(i - from + 1).drop_last() =~= digits.take(i - from));
            assert(digits.take(i - from + 1).last() == chars@[i as int]);
        }
        match value_of_digit(chars[i]) {
            Some(low) => {
                if low >= radix {
                    return None;
                }
                assert(value * radix + low < 0x1000_0000_0000_0000_0000) by (nonlinear_arith)
                    requires
                        value <= 0xffff_ffff_ffff_ffff,
                        radix <= 16,
                        low < 16,
                ;
                assert(0 <= value * radix) by (nonlinear_arith);
                let next: u128 = value as u128 * radix as u128 + low as u128;
                if next > max as u128 {
                    return None;
                }
                value = next as u64;
            },
            None => {
                return None;
            },
        }
        i += 1;
    }
    assert(digits.take(i - from) =~= digits);
    Some(value)
}

/// A number is read back from its decimal digits.
pub proof fn decimal_read_back(n: nat, max: nat)
    requires
        n <= max,
    ensures
        number(decimal(n), 10, max) == Some(n),
{
    lemma_decimal_digits(n);
}

proof fn lemma_decimal_digits(n: nat)
    ensures
        decimal(n).len() > 0,
        decimal(n)[0] != '+',
        digits_value(decimal(n), 10) == Some(n),
    decreases n,
{
    reveal_with_fuel(digits_value, 2);
    if n < 10 {
        assert(decimal(n).drop_last() =~= Seq::<char>::empty());
    } else {
        lemma_decimal_digits(n / 10);
        assert(decimal(n).drop_last() =~= decimal(n / 10));
    }
}

/// A number is written without leading zeros.
pub proof fn no_leading_zeros(n: nat)
    ensures
        decimal(n).len() > 0,
        n > 0 ==> decimal(n)[0] != '0',
        n < 10 ==> decimal(n).len() == 1,
        decimal(n * 10).len() == decimal(n).len() + if n == 0 {
            0int
        } else {
            1
        },
    decreases n,
{
    lemma_decimal_digits(n);
    assert(n > 0 ==> (n * 10) / 10 == n);
    if n >= 10 {
        no_leading_zeros(n / 10);
    }
}

/// Another digit at the end multiplies a number by the base and adds what the digit stands for, as
/// long as the limit allows it; anything else at the end makes it no number.
pub proof fn numbers_grow_by_digits(text: Seq<char>, c: char, radix: nat, max: nat, n: nat)
    requires
        text.len() > 0,
        text != seq!['+'],
        radix >= 1,
        number(text, radix, max) == Some(n),
    ensures
        n <= max,
        digit_value(c) matches Some(d) && d < radix ==> number(text.push(c), radix, max)
            == if n * radix + digit_value(c)->0 <= max {
            Some(n * radix + digit_value(c)->0)
        } else {
            None
        },
        !(digit_value(c) matches Some(d) && d < radix) ==> number(text.push(c), radix, max) is None,
{
    let longer = unsigned_digits(text.push(c));
    assert(longer =~= unsigned_digits(text).push(c));
    assert(longer.drop_last() =~= unsigned_digits(text));
}

/// A limit only keeps larger numbers out; a plus sign before a number changes nothing; no digits are
/// no number.
pub proof fn limits_and_signs(text: Seq<char>, radix: nat, max: nat, other: nat)
    requires
        text.len() > 0,
        text[0] != '+',
    ensures
        number(text, radix, max) matches Some(n) ==> n <= max && (number(text, radix, other)
            == if n <= other {
            Some(n)
        } else {
            None
        }),
        number(seq!['+'] + text, radix, max) == number(text, radix, max),
        number(Seq::<char>::empty(), radix, max) is None,
        number(seq!['+'], radix, max) is None,
{
    assert((seq!['+'] + text).skip(1) =~= text);
    reveal_with_fuel(digits_value, 2);
}

/// A single digit is a number: those up to nine in their order, then the letters, small or large.
pub proof fn digits_in_their_order(c: char, max: nat)
    requires
        max >= 15,
    ensures
        number(seq![c], 16, max) == if '0' <= c <= '9' {
            Some((c as int - '0' as int) as nat)
        } else if 'a' <= c <= 'f' {
            Some((c as int - 'a' as int + 10) as nat)
        } else if 'A' <= c <= 'F' {
            Some((c as int - 'A' as int + 10) as nat)
        } else {
            None
        },
        number(seq![c], 10, max) is Some <==> '0' <= c <= '9',
{
    reveal_with_fuel(digits_value, 2);
    assert(seq![c].drop_last() =~= Seq::<char>::empty());
}

} // verus!
