//! The wall clock and the calendar.

use vstd::prelude::*;

verus! {

/// Whether `chrono` has a `DateTime<Utc>` for the instant `seconds` and
/// `nanos` after the Unix epoch: whether `DateTime::from_timestamp` returns
/// one.
pub uninterp spec fn is_utc_instant(seconds: i64, nanos: u32) -> bool;

/// The instant that a text in the RFC 3339 format denotes, as seconds and
/// nanoseconds after the Unix epoch, or `None` where
/// `DateTime::parse_from_rfc3339` rejects the text.
pub uninterp spec fn rfc3339_instant(text: Seq<char>) -> Option<(i64, u32)>;

/// The text that `DateTime::to_rfc3339` prints for an instant in UTC, or
/// `None` where `chrono` has no `DateTime` for it.
pub uninterp spec fn rfc3339_text(seconds: i64, nanos: u32) -> Option<Seq<char>>;

/// Reads the clock with `chrono::Utc::now` and returns the whole seconds
/// since the Unix epoch, as `DateTime::timestamp` reports them.
///
/// The value differs from call to call. `Utc::now` measures the time elapsed
/// since the epoch, so the result is never negative; it stops the program if
/// the system clock is set before 1970.
#[verifier::external_body]
pub(crate) fn unix_now() -> (now: i64)
    ensures
        now >= 0,
{
    chrono::Utc::now().timestamp()
}

/// Reads the clock with `chrono::Utc::now` and returns the seconds and the
/// nanoseconds of the reading (`DateTime::timestamp`,
/// `DateTime::timestamp_subsec_nanos`). The pair comes from a `DateTime`, so
/// `chrono` has one for it.
#[verifier::external_body]
pub(crate) fn utc_now() -> (now: (i64, u32))
    ensures
        now.0 >= 0,
        is_utc_instant(now.0, now.1),
{
    let now = chrono::Utc::now();
    (now.timestamp(), now.timestamp_subsec_nanos())
}

/// Asks `chrono::DateTime::from_timestamp` whether it has a `DateTime` for
/// the pair.
#[verifier::external_body]
pub(crate) fn utc_instant_exists(seconds: i64, nanos: u32) -> (exists: bool)
    ensures
        exists == is_utc_instant(seconds, nanos),
{
    chrono::DateTime::from_timestamp(seconds, nanos).is_some()
}

/// Parses `text` with `chrono::DateTime::parse_from_rfc3339`, moves the
/// result to UTC and returns its seconds and nanoseconds. A text that parses
/// gives a `DateTime`, so `chrono` has one for the pair.
#[verifier::external_body]
pub(crate) fn parse_rfc3339(text: &str) -> (instant: Option<(i64, u32)>)
    ensures
        instant == rfc3339_instant(text@),
        instant matches Some(pair) ==> is_utc_instant(pair.0, pair.1),
{
    chrono::DateTime::parse_from_rfc3339(text).ok().map(
        |parsed|
            {
                let utc = parsed.with_timezone(&chrono::Utc);
                (utc.timestamp(), utc.timestamp_subsec_nanos())
            },
    )
}

/// Builds the `DateTime<Utc>` of the pair with
/// `chrono::DateTime::from_timestamp` and prints it with
/// `DateTime::to_rfc3339`; `None` exactly where there is no such `DateTime`.
#[verifier::external_body]
pub(crate) fn format_rfc3339(seconds: i64, nanos: u32) -> (text: Option<String>)
    ensures
        match text {
            Some(printed) => rfc3339_text(seconds, nanos) == Some(printed@),
            None => rfc3339_text(seconds, nanos) is None,
        },
        text is Some <==> is_utc_instant(seconds, nanos),
{
    chrono::DateTime::from_timestamp(seconds, nanos).map(|instant| instant.to_rfc3339())
}

} // verus!
