//! HTTP header values.

use vstd::prelude::*;

verus! {

/// Whether a character may stand in a header value: anything but a control
/// character, the tab excepted.
pub open spec fn is_header_char(c: char) -> bool {
    (c >= ' ' && c != '\x7f') || c == '\t'
}

/// Whether every character of `value` may stand in a header value.
pub open spec fn is_header_value(value: Seq<char>) -> bool {
    forall|i: int| 0 <= i < value.len() ==> is_header_char(#[trigger] value[i])
}

/// The text of the error with which `reqwest::header::HeaderValue::from_str`
/// refuses a value, as `Display` prints it; `None` for a value it accepts.
pub uninterp spec fn header_value_error(value: Seq<char>) -> Option<Seq<char>>;

/// Hands `value` to `reqwest::header::HeaderValue::from_str` and returns the
/// text of its error, or `None` where it accepts the value. It refuses a
/// value that holds a byte below 32 other than the tab, or the byte 127; the
/// bytes of characters beyond ASCII are all above 127.
#[verifier::external_body]
pub(crate) fn check_header_value(value: &str) -> (error: Option<String>)
    ensures
        match error {
            Some(text) => header_value_error(value@) == Some(text@),
            None => header_value_error(value@) is None,
        },
        error is None <==> is_header_value(value@),
{
    reqwest::header::HeaderValue::from_str(value).err().map(|error| error.to_string())
}

} // verus!
