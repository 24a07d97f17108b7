//! Lower-case hexadecimal notation of a number, digit by digit.

use vstd::arithmetic::power::pow;
use vstd::prelude::*;

verus! {

/// `c` is one of the sixteen lower-case hexadecimal digits.
pub open spec fn is_hex_digit(c: char) -> bool {
    '0' <= c <= '9' || 'a' <= c <= 'f'
}

/// The digit that stands for `d`, for `d` below sixteen.
pub open spec fn hex_digit(d: nat) -> char
    recommends
        d < 16,
{
    if d < 10 {
        ('0' as nat + d) as char
    } else {
        ('a' as nat + d - 10) as char
    }
}

/// The number that the digit `c` stands for.
pub open spec fn hex_digit_value(c: char) -> nat
    recommends
        is_hex_digit(c),
{
    if '0' <= c <= '9' {
        (c as nat - '0' as nat) as nat
    } else {
        (c as nat - 'a' as nat + 10) as nat
    }
}

/// The number that a string of digits denotes, most significant digit first.
pub open spec fn hex_value(digits: Seq<char>) -> nat
    decreases digits.len(),
{
    if digits.len() == 0 {
        0
    } else {
        16 * hex_value(digits.drop_last()) + hex_digit_value(digits.last())
    }
}

/// The significant digits of `n`, most significant first: none for zero.
pub open spec fn significant_digits(n: nat) -> Seq<char>
    decreases n,
{
    if n == 0 {
        Seq::empty()
    } else {
        significant_digits(n / 16).push(hex_digit(n % 16))
    }
}

/// The hexadecimal notation of `n`: lower case, no prefix, no leading zero.
/// Zero is written as the single digit `0`.
pub open spec fn hex_repr(n: nat) -> Seq<char> {
    if n == 0 {
        seq!['0']
    } else {
        significant_digits(n)
    }
}

/// Every digit below sixteen has a character, and the character stands for it.
pub proof fn lemma_hex_digit(d: nat)
    requires
        d < 16,
    ensures
        is_hex_digit(hex_digit(d)),
        hex_digit_value(hex_digit(d)) == d,
{
}

/// The significant digits of `n` are hexadecimal digits, denote `n`, and
/// begin with a digit other than `0`.
pub proof fn lemma_significant_digits(n: nat)
    ensures
        forall|i: int| 0 <= i < significant_digits(n).len() ==> is_hex_digit(
            #[trigger] significant_digits(n)[i],
        ),
        hex_value(significant_digits(n)) == n,
        n > 0 ==> significant_digits(n).len() > 0 && significant_digits(n)[0] != '0',
    decreases n,
{
    if n > 0 {
        let rest = significant_digits(n / 16);
        let digits = significant_digits(n);
        lemma_significant_digits(n / 16);
        lemma_hex_digit(n % 16);
        assert(digits.drop_last() == rest);
        assert(digits.last() == hex_digit(n % 16));
        if n / 16 > 0 {
            assert(digits[0] == rest[0]);
        }
    }
}

/// The notation of `n` is made of hexadecimal digits and denotes `n`. It has
/// at least one digit, and begins with `0` only where `n` is zero.
pub proof fn lemma_hex_repr(n: nat)
    ensures
        hex_repr(n).len() >= 1,
        forall|i: int| 0 <= i < hex_repr(n).len() ==> is_hex_digit(#[trigger] hex_repr(n)[i]),
        hex_value(hex_repr(n)) == n,
        hex_repr(n)[0] == '0' <==> n == 0,
{
    lemma_significant_digits(n);
    if n == 0 {
        reveal_with_fuel(hex_value, 2);
        assert(hex_repr(n).drop_last() == Seq::<char>::empty());
    }
}

/// A number below the `k`-th power of sixteen has at most `k` significant
/// digits.
pub proof fn lemma_significant_digits_len(n: nat, k: nat)
    requires
        n < pow(16, k),
    ensures
        significant_digits(n).len() <= k,
    decreases k,
{
    reveal(pow);
    if n > 0 {
        assert(k > 0);
        lemma_significant_digits_len(n / 16, (k - 1) as nat);
    }
}

/// The character of a digit below sixteen.
fn hex_digit_char(d: u32) -> (c: char)
    requires
        d < 16,
    ensures
        c == hex_digit(d as nat),
{
    match d {
        0 => '0',
        1 => '1',
        2 => '2',
        3 => '3',
        4 => '4',
        5 => '5',
        6 => '6',
        7 => '7',
        8 => '8',
        9 => '9',
        10 => 'a',
        11 => 'b',
        12 => 'c',
        13 => 'd',
        14 => 'e',
        _ => 'f',
    }
}

/// Appends the significant digits of `n` to `out`.
fn push_significant_digits(n: u32, out: &mut Vec<char>)
    ensures
        final(out)@ == old(out)@ + significant_digits(n as nat),
    decreases n,
{
    if n != 0 {
        push_significant_digits(n / 16, out);
        out.push(hex_digit_char(n % 16));
    }
}

/// Writes `n` in hexadecimal: lower case, no prefix, no leading zero.
pub fn hex_digits(n: u32) -> (digits: Vec<char>)
    ensures
        digits@ == hex_repr(n as nat),
{
    let mut digits: Vec<char> = Vec::new();
    if n == 0 {
        digits.push('0');
    } else {
        push_significant_digits(n, &mut digits);
    }
    digits
}

} // verus!
