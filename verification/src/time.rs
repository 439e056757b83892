//! Instants in UTC as plain numbers.

use vstd::prelude::*;
use crate::bindings::clock::{is_utc_instant, utc_instant_exists, utc_now};

verus! {

/// An instant: seconds and nanoseconds after the Unix epoch.
#[derive(Debug, Clone, Copy, PartialEq, Eq, Structural)]
pub struct UtcTime {
    pub seconds: i64,
    pub nanos: u32,
}

impl UtcTime {
    /// Whether the calendar has a date and time for the instant.
    pub open spec fn on_calendar(self) -> bool {
        is_utc_instant(self.seconds, self.nanos)
    }

    /// The instant of the given seconds and nanoseconds, where the calendar
    /// has one.
    pub fn from_timestamp(seconds: i64, nanos: u32) -> (instant: Option<UtcTime>)
        ensures
            instant == if is_utc_instant(seconds, nanos) {
                Some(UtcTime { seconds, nanos })
            } else {
                None
            },
    {
        if utc_instant_exists(seconds, nanos) {
            Some(UtcTime { seconds, nanos })
        } else {
            None
        }
    }

    /// The current reading of the clock.
    pub fn now() -> (instant: UtcTime)
        ensures
            instant.on_calendar(),
            instant.seconds >= 0,
    {
        let (seconds, nanos) = utc_now();
        UtcTime { seconds, nanos }
    }
}

} // verus!
