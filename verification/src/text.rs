//! Building text: the two ways a string grows, and integers in decimal.

use vstd::prelude::*;

verus! {

/// `String::push` of std appends one character to the string and changes
/// nothing else.
pub assume_specification[ String::push ](s: &mut String, ch: char)
    ensures
        final(s)@ == old(s)@.push(ch),
;

/// `String::push_str` of std appends the characters of the slice, in order,
/// to the string and changes nothing else.
pub assume_specification[ String::push_str ](s: &mut String, string: &str)
    ensures
        final(s)@ == old(s)@ + string@,
;

/// The decimal digits of a number, most significant first.
pub open spec fn spec_digits(n: nat) -> Seq<char>
    decreases n,
{
    if n < 10 {
        seq![spec_digit(n)]
    } else {
        spec_digits(n / 10).push(spec_digit(n % 10))
    }
}

/// The character of one decimal digit.
pub open spec fn spec_digit(d: nat) -> char {
    if d == 0 {
        '0'
    } else if d == 1 {
        '1'
    } else if d == 2 {
        '2'
    } else if d == 3 {
        '3'
    } else if d == 4 {
        '4'
    } else if d == 5 {
        '5'
    } else if d == 6 {
        '6'
    } else if d == 7 {
        '7'
    } else if d == 8 {
        '8'
    } else {
        '9'
    }
}

/// The character of one decimal digit.
fn digit(d: u64) -> (c: char)
    requires
        d < 10,
    ensures
        c == spec_digit(d as nat),
{
    if d == 0 {
        '0'
    } else if d == 1 {
        '1'
    } else if d == 2 {
        '2'
    } else if d == 3 {
        '3'
    } else if d == 4 {
        '4'
    } else if d == 5 {
        '5'
    } else if d == 6 {
        '6'
    } else if d == 7 {
        '7'
    } else if d == 8 {
        '8'
    } else {
        '9'
    }
}

/// An unsigned integer in decimal.
pub fn digits(n: u64) -> (text: String)
    ensures
        text@ == spec_digits(n as nat),
    decreases n,
{
    if n < 10 {
        let mut text = String::new();
        text.push(digit(n));
        text
    } else {
        let mut text = digits(n / 10);
        text.push(digit(n % 10));
        text
    }
}

/// The largest number of decimal digits of an unsigned integer of 64 bits.
pub const MAX_DIGITS: usize = 20;

/// Ten to the power `k`.
pub open spec fn spec_power_of_ten(k: nat) -> nat
    decreases k,
{
    if k == 0 {
        1
    } else {
        10 * spec_power_of_ten((k - 1) as nat)
    }
}

/// A number below ten to the power `k` has at most `k` digits, and every
/// number has at least one.
pub proof fn lemma_digits_len(n: nat, k: nat)
    requires
        k >= 1,
        n < spec_power_of_ten(k),
    ensures
        1 <= spec_digits(n).len() <= k,
    decreases k,
{
    if n >= 10 {
        assert(spec_power_of_ten(1) == 10) by {
            reveal_with_fuel(spec_power_of_ten, 2);
        }
        assert(k >= 2);
        lemma_digits_len(n / 10, (k - 1) as nat);
    }
}

/// An unsigned integer of 64 bits has at most twenty digits.
pub proof fn lemma_digits_of_u64(n: u64)
    ensures
        1 <= spec_digits(n as nat).len() <= MAX_DIGITS,
{
    assert(spec_power_of_ten(20) == 100_000_000_000_000_000_000nat) by {
        reveal_with_fuel(spec_power_of_ten, 21);
    }
    lemma_digits_len(n as nat, 20);
}

/// The number of decimal digits of an unsigned integer.
pub fn digit_count(n: u64) -> (count: usize)
    ensures
        count == spec_digits(n as nat).len(),
        1 <= count <= MAX_DIGITS,
    decreases n,
{
    proof {
        lemma_digits_of_u64(n);
    }
    if n < 10 {
        1
    } else {
        proof {
            lemma_digits_of_u64(n / 10);
        }
        digit_count(n / 10) + 1
    }
}

} // verus!
