//! Reading numbers out of text.

use vstd::prelude::*;

verus! {

/// The value of a decimal digit, or `None` for any other character.
pub open spec fn digit_value(c: char) -> Option<nat> {
    if '0' <= c && c <= '9' {
        Some((c as nat - '0' as nat) as nat)
    } else {
        None
    }
}

/// The number that a row of decimal digits writes; `None` for the empty row
/// and for one that holds anything but digits.
pub open spec fn digits_value(digits: Seq<char>) -> Option<nat>
    decreases digits.len(),
{
    if digits.len() == 0 {
        None
    } else if digits.len() == 1 {
        digit_value(digits[0])
    } else {
        match (digits_value(digits.drop_last()), digit_value(digits.last())) {
            (Some(front), Some(unit)) => Some(front * 10 + unit),
            _ => None,
        }
    }
}

/// The integer that `text` writes: digits, with an optional sign before
/// them where `signed` allows a minus, and nothing else.
pub open spec fn written_integer(text: Seq<char>, signed: bool) -> Option<int> {
    if text.len() > 0 && text[0] == '+' {
        match digits_value(text.skip(1)) {
            Some(value) => Some(value as int),
            None => None,
        }
    } else if signed && text.len() > 0 && text[0] == '-' {
        match digits_value(text.skip(1)) {
            Some(value) => Some(-(value as int)),
            None => None,
        }
    } else {
        match digits_value(text) {
            Some(value) => Some(value as int),
            None => None,
        }
    }
}

/// Parses `text` with `str::parse::<i64>`: an optional `+` or `-`, then
/// decimal digits and nothing else, for a value within the range of `i64`.
#[verifier::external_body]
pub(crate) fn parse_i64(text: &str) -> (parsed: Option<i64>)
    ensures
        match written_integer(text@, true) {
            Some(value) => if i64::MIN <= value <= i64::MAX {
                parsed == Some(value as i64)
            } else {
                parsed is None
            },
            None => parsed is None,
        },
{
    text.parse::<i64>().ok()
}

/// Parses `text` with `str::parse::<u16>`: an optional `+`, then decimal
/// digits and nothing else, for a value within the range of `u16`.
#[verifier::external_body]
pub(crate) fn parse_u16(text: &str) -> (parsed: Option<u16>)
    ensures
        match written_integer(text@, false) {
            Some(value) => if value <= u16::MAX {
                parsed == Some(value as u16)
            } else {
                parsed is None
            },
            None => parsed is None,
        },
{
    text.parse::<u16>().ok()
}

} // verus!
