//! The values of integer and character literals.

use vstd::prelude::*;
use vstd::string::*;

verus! {

/// The value of a decimal digit; nothing for any other character.
pub open spec fn digit_of(c: char) -> Option<int> {
    if c == '0' {
        Some(0)
    } else if c == '1' {
        Some(1)
    } else if c == '2' {
        Some(2)
    } else if c == '3' {
        Some(3)
    } else if c == '4' {
        Some(4)
    } else if c == '5' {
        Some(5)
    } else if c == '6' {
        Some(6)
    } else if c == '7' {
        Some(7)
    } else if c == '8' {
        Some(8)
    } else if c == '9' {
        Some(9)
    } else {
        None
    }
}

/// Whether a text is made of decimal digits only.
pub open spec fn all_digits(text: Seq<char>) -> bool {
    forall|i: int| 0 <= i < text.len() ==> digit_of(#[trigger] text[i]) is Some
}

/// The number that a text of decimal digits writes.
pub open spec fn decimal_value(text: Seq<char>) -> int
    decreases text.len(),
{
    if text.len() == 0 {
        0
    } else {
        10 * decimal_value(text.drop_last()) + match digit_of(text.last()) {
            Some(d) => d,
            None => 0,
        }
    }
}

/// The value of an integer literal: the number that its digits write,
/// where the text is one or more decimal digits and the number fits.
pub open spec fn decimal(text: Seq<char>) -> Option<i128> {
    if text.len() > 0 && all_digits(text) && decimal_value(text) <= i128::MAX {
        Some(decimal_value(text) as i128)
    } else {
        None
    }
}

/// The value of a character literal: the low byte of its code point.
pub open spec fn low_byte(c: char) -> u8 {
    ((c as u32) % 256) as u8
}

/// A longer text of digits writes no smaller a number than its beginning.
proof fn lemma_decimal_value_grows(text: Seq<char>, n: int)
    requires
        0 <= n <= text.len(),
    ensures
        0 <= decimal_value(text.take(n)) <= decimal_value(text),
    decreases text.len() - n,
{
    if n == text.len() {
        assert(text.take(n) =~= text);
        lemma_decimal_value_nonnegative(text);
    } else {
        lemma_decimal_value_grows(text, n + 1);
        assert(text.take(n + 1).drop_last() =~= text.take(n));
        lemma_decimal_value_nonnegative(text.take(n));
    }
}

proof fn lemma_decimal_value_nonnegative(text: Seq<char>)
    ensures
        0 <= decimal_value(text),
    decreases text.len(),
{
    if text.len() > 0 {
        lemma_decimal_value_nonnegative(text.drop_last());
    }
}

/// The value of a decimal digit.
pub fn digit(c: char) -> (r: Option<u8>)
    ensures
        match r {
            Some(d) => digit_of(c) == Some(d as int) && d <= 9,
            None => digit_of(c) is None,
        },
{
    match c {
        '0' => Some(0u8),
        '1' => Some(1u8),
        '2' => Some(2u8),
        '3' => Some(3u8),
        '4' => Some(4u8),
        '5' => Some(5u8),
        '6' => Some(6u8),
        '7' => Some(7u8),
        '8' => Some(8u8),
        '9' => Some(9u8),
        _ => None,
    }
}

/// Reads an integer literal.
pub fn parse_decimal(text: &str) -> (r: Option<i128>)
    ensures
        r == decimal(text@),
{
    let n = text.unicode_len();
    if n == 0 {
        return None;
    }
    let mut value: i128 = 0;
    let mut i: usize = 0;
    while i < n
        invariant
            i <= n,
            n == text@.len(),
            0 <= value,
            value == decimal_value(text@.take(i as int)),
            forall|j: int| 0 <= j < i ==> digit_of(#[trigger] text@[j]) is Some,
        decreases n - i,
    {
        let c = text.get_char(i);
        proof {
            assert(text@.take(i + 1).drop_last() =~= text@.take(i as int));
            assert(text@.take(i + 1).last() == text@[i as int]);
            lemma_decimal_value_grows(text@, i + 1);
        }
        match digit(c) {
            None => {
                return None;
            },
            Some(d) => {
                if value > (i128::MAX - d as i128) / 10 {
                    return None;
                }
                value = value * 10 + d as i128;
            },
        }
        i = i + 1;
    }
    assert(text@.take(n as int) =~= text@);
    Some(value)
}

/// The value of a character literal.
pub fn character_value(c: char) -> (r: u8)
    ensures
        r == low_byte(c),
{
    ((c as u32) % 256) as u8
}

} // verus!
