//! Unsigned numbers written in decimal: reading them from text and writing
//! them back.

use vstd::prelude::*;
use vstd::string::*;
use crate::whitespace::chars_of;

verus! {

/// Whether a character is one of the ten decimal digits.
pub open spec fn is_digit(c: char) -> bool {
    '0' <= c && c <= '9'
}

/// The number a decimal digit stands for.
pub open spec fn digit_value(c: char) -> nat {
    (c as int - '0' as int) as nat
}

/// The decimal digit that stands for `d`, for `d` below ten.
pub open spec fn digit_char(d: nat) -> char {
    ('0' as int + d) as char
}

/// Whether every character of a text is a decimal digit.
pub open spec fn all_digits(s: Seq<char>) -> bool {
    forall|i: int| 0 <= i < s.len() ==> is_digit(#[trigger] s[i])
}

/// The number that a run of decimal digits writes, most significant digit first.
pub open spec fn decimal_value(s: Seq<char>) -> nat
    decreases s.len(),
{
    if s.len() == 0 {
        0
    } else {
        10 * decimal_value(s.drop_last()) + digit_value(s.last())
    }
}

/// What is left of a text after the plus sign it may begin with.
pub open spec fn after_sign(s: Seq<char>) -> Seq<char> {
    if s.len() > 0 && s.first() == '+' {
        s.drop_first()
    } else {
        s
    }
}

/// Whether a text writes an unsigned number: an optional plus sign, then one
/// decimal digit or more, and nothing else.
pub open spec fn is_unsigned(s: Seq<char>) -> bool {
    after_sign(s).len() > 0 && all_digits(after_sign(s))
}

/// The 32-bit number that a text writes, if it writes one that fits.
pub open spec fn parsed_u32(s: Seq<char>) -> Option<u32> {
    if is_unsigned(s) && decimal_value(after_sign(s)) <= u32::MAX {
        Some(decimal_value(after_sign(s)) as u32)
    } else {
        None
    }
}

/// The digits of a number in decimal, without leading zeros.
pub open spec fn decimal_digits(n: nat) -> Seq<char>
    decreases n,
{
    if n < 10 {
        seq![digit_char(n)]
    } else {
        decimal_digits(n / 10).push(digit_char(n % 10))
    }
}

/// A whole number in decimal, with a minus sign where it is negative.
pub open spec fn signed_decimal(v: int) -> Seq<char> {
    if v < 0 {
        seq!['-'] + decimal_digits((-v) as nat)
    } else {
        decimal_digits(v as nat)
    }
}

/// The value of a run of digits is at least the value of each of its prefixes.
pub proof fn lemma_value_of_prefix(s: Seq<char>, k: int)
    requires
        0 <= k <= s.len(),
    ensures
        decimal_value(s.take(k)) <= decimal_value(s),
    decreases s.len() - k,
{
    if k == s.len() {
        assert(s.take(k) =~= s);
    } else {
        lemma_value_of_prefix(s.drop_last(), k);
        assert(s.drop_last().take(k) =~= s.take(k));
    }
}

/// Reads an unsigned 32-bit number from a text that holds nothing else.
///
/// The text may begin with a plus sign and must then consist of decimal
/// digits, at least one. Leading zeros are accepted. A number above
/// `u32::MAX`, a minus sign, white space and an empty text are all refused.
pub fn parse_u32(text: &str) -> (value: Option<u32>)
    ensures
        value == parsed_u32(text@),
{
    let chars = chars_of(text);
    let n: usize = chars.len();
    let begin: usize = if n > 0 && chars[0] == '+' {
        1
    } else {
        0
    };
    if begin == n {
        return None;
    }
    let ghost digits = after_sign(text@);
    assert(digits =~= text@.subrange(begin as int, n as int));
    let mut value: u32 = 0;
    let mut i: usize = begin;
    while i < n
        invariant
            chars@ == text@,
            n == chars.len(),
            begin <= i <= n,
            digits == after_sign(text@),
            digits == text@.subrange(begin as int, n as int),
            all_digits(digits.take(i - begin)),
            value == decimal_value(digits.take(i - begin)),
        decreases n - i,
    {
        let c: char = chars[i];
        let ghost seen = digits.take(i - begin);
        let ghost next = digits.take(i + 1 - begin);
        assert(next.drop_last() =~= seen);
        assert(next.last() == c);
        if !(c >= '0' && c <= '9') {
            assert(!is_digit(digits[i - begin]));
            return None;
        }
        let wide: u64 = value as u64 * 10 + (c as u32 - '0' as u32) as u64;
        if wide > u32::MAX as u64 {
            proof {
                lemma_value_of_prefix(digits, i + 1 - begin);
            }
            return None;
        }
        value = wide as u32;
        i += 1;
    }
    assert(digits.take(n - begin) =~= digits);
    Some(value)
}

/// The text of one decimal digit.
fn digit_text(d: u32) -> (text: &'static str)
    requires
        d < 10,
    ensures
        text@ == seq![digit_char(d as nat)],
{
    proof {
        reveal_strlit("0");
        reveal_strlit("1");
        reveal_strlit("2");
        reveal_strlit("3");
        reveal_strlit("4");
        reveal_strlit("5");
        reveal_strlit("6");
        reveal_strlit("7");
        reveal_strlit("8");
        reveal_strlit("9");
    }
    let text = match d {
        0 => "0",
        1 => "1",
        2 => "2",
        3 => "3",
        4 => "4",
        5 => "5",
        6 => "6",
        7 => "7",
        8 => "8",
        _ => "9",
    };
    assert(text@ =~= seq![digit_char(d as nat)]);
    text
}

/// Writes an unsigned number in decimal, without sign or leading zeros.
pub fn format_u32(n: u32) -> (text: String)
    ensures
        text@ == decimal_digits(n as nat),
    decreases n,
{
    if n < 10 {
        String::from_str(digit_text(n))
    } else {
        format_u32(n / 10).concat(digit_text(n % 10))
    }
}

/// Writes a whole number in decimal, with a minus sign where it is negative.
pub fn format_i32(v: i32) -> (text: String)
    ensures
        text@ == signed_decimal(v as int),
{
    if v < 0 {
        let magnitude: u32 = (-(v as i64)) as u32;
        proof {
            reveal_strlit("-");
            assert("-"@ =~= seq!['-']);
        }
        String::from_str("-").concat(format_u32(magnitude).as_str())
    } else {
        format_u32(v as u32)
    }
}

/// The decimal digits of a number are digits, at least one of them, and write
/// that number.
pub proof fn lemma_decimal_digits(n: nat)
    ensures
        decimal_digits(n).len() > 0,
        all_digits(decimal_digits(n)),
        decimal_value(decimal_digits(n)) == n,
    decreases n,
{
    let text = decimal_digits(n);
    if n < 10 {
        assert(text.drop_last() =~= Seq::<char>::empty());
        assert(decimal_value(text.drop_last()) == 0);
    } else {
        lemma_decimal_digits(n / 10);
        assert(text.drop_last() =~= decimal_digits(n / 10));
    }
}

/// Reading back what `format_u32` wrote gives the number that was written.
pub proof fn lemma_parse_of_format(n: u32)
    ensures
        parsed_u32(decimal_digits(n as nat)) == Some(n),
{
    lemma_decimal_digits(n as nat);
    let text = decimal_digits(n as nat);
    assert(is_digit(text[0]));
}

} // verus!
