//! Decimal numbers as text: reading them and writing them.

use vstd::prelude::*;

verus! {

/// Whether `c` is one of the ten decimal digits.
pub open spec fn is_digit(c: char) -> bool {
    '0' <= c && c <= '9'
}

/// The number a decimal digit stands for.
pub open spec fn digit_value(c: char) -> int {
    c as u32 as int - '0' as u32 as int
}

/// The number that a row of decimal digits denotes; leading zeros count for
/// nothing.
pub open spec fn decimal_value(digits: Seq<char>) -> int
    decreases digits.len(),
{
    if digits.len() == 0 {
        0
    } else {
        10 * decimal_value(digits.drop_last()) + digit_value(digits.last())
    }
}

/// Whether every character of `s` is a decimal digit.
pub open spec fn all_digits(s: Seq<char>) -> bool {
    forall|i: int| 0 <= i < s.len() ==> is_digit(#[trigger] s[i])
}

/// How many characters of `s` are its sign: one where `s` begins with `+`,
/// or with `-` and a minus is allowed, else none.
pub open spec fn sign_len(s: Seq<char>, allow_minus: bool) -> int {
    if s.len() > 0 && (s[0] == '+' || (allow_minus && s[0] == '-')) {
        1
    } else {
        0
    }
}

/// The integer that `s` denotes: an optional sign and then one digit or
/// more, nothing before, between or after. Nothing else denotes an integer.
pub open spec fn denoted(s: Seq<char>, allow_minus: bool) -> Option<int> {
    let digits = s.skip(sign_len(s, allow_minus));
    if digits.len() > 0 && all_digits(digits) {
        if allow_minus && s[0] == '-' {
            Some(-decimal_value(digits))
        } else {
            Some(decimal_value(digits))
        }
    } else {
        None
    }
}

/// The integer that `s` denotes, where it lies between `low` and `high`.
pub open spec fn denoted_within(s: Seq<char>, allow_minus: bool, low: int, high: int) -> Option<
    int,
> {
    match denoted(s, allow_minus) {
        Some(value) => if low <= value <= high {
            Some(value)
        } else {
            None
        },
        None => None,
    }
}

/// A row of digits denotes no less than any of its beginnings, and nothing
/// below zero.
pub proof fn lemma_decimal_value_grows(digits: Seq<char>, k: int)
    requires
        all_digits(digits),
        0 <= k <= digits.len(),
    ensures
        0 <= decimal_value(digits.take(k)) <= decimal_value(digits),
    decreases digits.len() - k,
{
    if k == digits.len() {
        assert(digits.take(k) == digits);
        lemma_decimal_value_nonnegative(digits);
    } else {
        lemma_decimal_value_grows(digits, k + 1);
        let longer = digits.take(k + 1);
        assert(longer.drop_last() == digits.take(k));
        assert(is_digit(longer.last()));
        lemma_decimal_value_nonnegative(digits.take(k));
    }
}

/// A row of digits denotes nothing below zero.
pub proof fn lemma_decimal_value_nonnegative(digits: Seq<char>)
    requires
        all_digits(digits),
    ensures
        0 <= decimal_value(digits),
    decreases digits.len(),
{
    if digits.len() > 0 {
        assert(is_digit(digits.last()));
        lemma_decimal_value_nonnegative(digits.drop_last());
    }
}

/// Reads the integer that `s` denotes, where it lies between `low` and
/// `high`.
fn parse_within(s: &str, allow_minus: bool, low: i64, high: i64) -> (parsed: Option<i64>)
    ensures
        match parsed {
            Some(value) => denoted_within(s@, allow_minus, low as int, high as int) == Some(
                value as int,
            ),
            None => denoted_within(s@, allow_minus, low as int, high as int) is None,
        },
{
    broadcast use vstd::string::group_string_axioms;

    let mut first = true;
    let mut negative = false;
    let mut any_digit = false;
    let mut magnitude: i128 = 0;
    for c in it: s.chars()
        invariant
            it.seq() == s@,
            first == (it.index() == 0),
            negative == (!first && allow_minus && s@[0] == '-'),
            !first ==> sign_len(s@, allow_minus) <= it.index(),
            any_digit == (!first && sign_len(s@, allow_minus) < it.index()),
            !first ==> all_digits(s@.subrange(sign_len(s@, allow_minus), it.index() as int)),
            !first ==> magnitude == decimal_value(
                s@.subrange(sign_len(s@, allow_minus), it.index() as int),
            ),
            first ==> magnitude == 0,
            0 <= magnitude <= 0x8000_0000_0000_0000,
    {
        let ghost sign = sign_len(s@, allow_minus);
        let ghost count = it.index() as int;
        if first && (c == '+' || (allow_minus && c == '-')) {
            negative = c == '-';
            assert(s@.subrange(1, 1) =~= Seq::<char>::empty());
        } else {
            let ghost digits = s@.skip(sign);
            let ghost seen = s@.subrange(sign, count);
            if !(c >= '0' && c <= '9') {
                assert(digits[count - sign] == c);
                return None;
            }
            assert(magnitude == decimal_value(seen)) by {
                if first {
                    assert(seen.len() == 0);
                }
            }
            let digit = (c as u32 - '0' as u32) as i128;
            magnitude = magnitude * 10 + digit;
            any_digit = true;
            proof {
                let now = s@.subrange(sign, count + 1);
                assert(seen =~= now.drop_last());
                assert(now.last() == c);
                assert(now =~= digits.take(count + 1 - sign));
            }
            if magnitude > 0x8000_0000_0000_0000 {
                proof {
                    if all_digits(digits) {
                        lemma_decimal_value_grows(digits, count + 1 - sign);
                    }
                }
                return None;
            }
        }
        first = false;
    }
    if !any_digit {
        assert(s@.skip(sign_len(s@, allow_minus)).len() == 0);
        return None;
    }
    assert(s@.subrange(sign_len(s@, allow_minus), s@.len() as int) == s@.skip(
        sign_len(s@, allow_minus),
    ));
    let value: i128 = if negative {
        -magnitude
    } else {
        magnitude
    };
    if value < low as i128 || value > high as i128 {
        return None;
    }
    Some(value as i64)
}

/// The number that a text denotes as an unsigned 32-bit integer: an optional
/// `+` and then digits, within the range of the type.
pub open spec fn parsed_u32(s: Seq<char>) -> Option<int> {
    denoted_within(s, false, 0, u32::MAX as int)
}

/// The number that a text denotes as a signed 32-bit integer.
pub open spec fn parsed_i32(s: Seq<char>) -> Option<int> {
    denoted_within(s, true, i32::MIN as int, i32::MAX as int)
}

/// The number that a text denotes as a signed 64-bit integer.
pub open spec fn parsed_i64(s: Seq<char>) -> Option<int> {
    denoted_within(s, true, i64::MIN as int, i64::MAX as int)
}

/// Reads an unsigned 32-bit integer.
pub fn parse_u32(s: &str) -> (parsed: Option<u32>)
    ensures
        match parsed {
            Some(value) => parsed_u32(s@) == Some(value as int),
            None => parsed_u32(s@) is None,
        },
{
    match parse_within(s, false, 0, 0xffff_ffff) {
        Some(value) => Some(value as u32),
        None => None,
    }
}

/// Reads a signed 32-bit integer.
pub fn parse_i32(s: &str) -> (parsed: Option<i32>)
    ensures
        match parsed {
            Some(value) => parsed_i32(s@) == Some(value as int),
            None => parsed_i32(s@) is None,
        },
{
    match parse_within(s, true, -0x8000_0000, 0x7fff_ffff) {
        Some(value) => Some(value as i32),
        None => None,
    }
}

/// Reads a signed 64-bit integer.
pub fn parse_i64(s: &str) -> (parsed: Option<i64>)
    ensures
        match parsed {
            Some(value) => parsed_i64(s@) == Some(value as int),
            None => parsed_i64(s@) is None,
        },
{
    parse_within(s, true, i64::MIN, i64::MAX)
}

/// The decimal digit that stands for `d`, for `d` below ten.
pub open spec fn digit_char(d: int) -> char {
    ((48 + d) as u8) as char
}

/// The decimal digits of a number, without leading zeros; a single `0` for
/// zero.
pub open spec fn decimal_text(n: nat) -> Seq<char>
    decreases n,
{
    if n < 10 {
        seq![digit_char(n as int)]
    } else {
        decimal_text(n / 10).push(digit_char((n % 10) as int))
    }
}

/// Writes the decimal digits of `n` behind `out`.
fn push_decimal(out: &mut String, n: u32)
    ensures
        final(out)@ == old(out)@ + decimal_text(n as nat),
    decreases n,
{
    if n >= 10 {
        push_decimal(out, n / 10);
    }
    let digit = (48u8 + (n % 10) as u8) as char;
    out.push(digit);
    assert(final(out)@ =~= old(out)@ + decimal_text(n as nat));
}

/// The decimal digits of `n` as text.
pub fn u32_to_text(n: u32) -> (text: String)
    ensures
        text@ == decimal_text(n as nat),
{
    let mut text = String::new();
    push_decimal(&mut text, n);
    assert(Seq::<char>::empty() + decimal_text(n as nat) =~= decimal_text(n as nat));
    text
}

} // verus!
