//! Universally unique identifiers, held as their 128-bit value.

use vstd::prelude::*;

verus! {

/// The identifier that a text denotes, as `Uuid::as_u128` gives it, or the
/// text of the error with which `uuid::Uuid::parse_str` rejects the text.
pub uninterp spec fn parsed_uuid(text: Seq<char>) -> Result<u128, Seq<char>>;

/// The text that `Display` prints for the identifier with the given value:
/// lower-case hexadecimal digits in five groups separated by hyphens.
pub uninterp spec fn uuid_text(value: u128) -> Seq<char>;

/// Parses `text` with `uuid::Uuid::parse_str`; returns the value of the
/// identifier (`Uuid::as_u128`) or the error's text as `Display` prints it.
#[verifier::external_body]
pub(crate) fn parse_uuid(text: &str) -> (parsed: Result<u128, String>)
    ensures
        match parsed {
            Ok(value) => parsed_uuid(text@) == Ok::<u128, Seq<char>>(value),
            Err(message) => parsed_uuid(text@) == Err::<u128, Seq<char>>(message@),
        },
{
    match uuid::Uuid::parse_str(text) {
        Ok(id) => Ok(id.as_u128()),
        Err(error) => Err(error.to_string()),
    }
}

/// Prints the identifier with the given value (`Uuid::from_u128`) as
/// `Display` does. `parse_str` reads every form that the crate prints, so
/// the text parses back to the value.
#[verifier::external_body]
pub(crate) fn format_uuid(value: u128) -> (text: String)
    ensures
        text@ == uuid_text(value),
        match parsed_uuid(text@) {
            Ok(parsed) => parsed == value,
            Err(_) => false,
        },
{
    uuid::Uuid::from_u128(value).to_string()
}

/// A new identifier from `uuid::Uuid::now_v7`, made of the current time and
/// random bits. Nothing is promised of its value.
#[verifier::external_body]
pub(crate) fn new_uuid_v7() -> (value: u128) {
    uuid::Uuid::now_v7().as_u128()
}

} // verus!
