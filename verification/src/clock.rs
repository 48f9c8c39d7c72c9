//! Wall-clock readings of the local day, and the conversion of UTC instants
//! into readings of the Europe/Paris zone.

use chrono::{DateTime, Timelike};
use chrono_tz::Europe::Paris;
use vstd::prelude::*;

verus! {

/// Number of minutes in a day.
pub const MINUTES_PER_DAY: u64 = 1440;

/// A reading of a wall clock: hour, minute and second of the local day.
#[derive(Clone, Copy, Debug, PartialEq, Eq, Structural)]
pub struct TimeOfDay {
    pub hour: u32,
    pub minute: u32,
    pub second: u32,
}

impl TimeOfDay {
    /// A reading is well formed when it names an instant of a 24-hour day.
    pub open spec fn wf(self) -> bool {
        self.hour < 24 && self.minute < 60 && self.second < 60
    }

    /// Seconds elapsed since midnight.
    pub open spec fn seconds_of_day(self) -> int {
        self.hour * 3600 + self.minute * 60 + self.second
    }

    /// The reading `minutes` later on the same clock face: minutes carry into
    /// hours, hours wrap round midnight, seconds are kept.
    pub open spec fn plus_minutes_spec(self, minutes: u32) -> TimeOfDay {
        let total = (self.hour * 60 + self.minute + minutes) % (MINUTES_PER_DAY as int);
        TimeOfDay { hour: (total / 60) as u32, minute: (total % 60) as u32, second: self.second }
    }

    /// Builds a reading, refusing components that do not name an instant of
    /// the day.
    pub fn new(hour: u32, minute: u32, second: u32) -> (r: Option<TimeOfDay>)
        ensures
            r.is_some() <==> (hour < 24 && minute < 60 && second < 60),
            r matches Some(t) ==> t.hour == hour && t.minute == minute && t.second == second,
    {
        if hour < 24 && minute < 60 && second < 60 {
            Some(TimeOfDay { hour, minute, second })
        } else {
            None
        }
    }

    /// Moves the reading forward by `minutes`, wrapping round midnight.
    pub fn plus_minutes(self, minutes: u32) -> (r: TimeOfDay)
        ensures
            r == self.plus_minutes_spec(minutes),
            r.hour < 24 && r.minute < 60,
            self.wf() ==> r.wf(),
    {
        let total: u64 = (self.hour as u64 * 60 + self.minute as u64 + minutes as u64)
            % MINUTES_PER_DAY;
        TimeOfDay { hour: (total / 60) as u32, minute: (total % 60) as u32, second: self.second }
    }

    /// Whether this reading lies at or after `other` within the same day.
    pub fn at_or_after(self, other: TimeOfDay) -> (r: bool)
        ensures
            r == (self.seconds_of_day() >= other.seconds_of_day()),
    {
        let a: u64 = self.hour as u64 * 3600 + self.minute as u64 * 60 + self.second as u64;
        let b: u64 = other.hour as u64 * 3600 + other.minute as u64 * 60 + other.second as u64;
        a >= b
    }
}

/// The wall-clock reading in the Europe/Paris zone at the instant
/// `utc_seconds` after the Unix epoch, or `None` where the calendar cannot
/// represent that instant.
pub uninterp spec fn paris_wall_clock(utc_seconds: int) -> Option<TimeOfDay>;

/// Converts a UTC instant, given in whole seconds since the Unix epoch, into
/// the Europe/Paris wall-clock reading.
///
/// Trusted: `chrono::DateTime::from_timestamp` followed by
/// `DateTime::with_timezone(&chrono_tz::Europe::Paris)` and the `Timelike`
/// accessors. The contract claims that the reading depends on the instant
/// alone, that it is absent exactly when `from_timestamp` refuses the
/// instant, and that the accessors stay within 0..24 hours, 0..60 minutes and
/// 0..60 seconds.
#[verifier::external_body]
pub(crate) fn paris_time_at(utc_seconds: i64) -> (r: Option<TimeOfDay>)
    ensures
        r == paris_wall_clock(utc_seconds as int),
        r matches Some(t) ==> t.wf(),
{
    match DateTime::from_timestamp(utc_seconds, 0) {
        Some(utc) => {
            let local = utc.with_timezone(&Paris);
            Some(TimeOfDay { hour: local.hour(), minute: local.minute(), second: local.second() })
        },
        None => None,
    }
}

/// The local reading of an optional UTC instant: absent when the instant is
/// absent or cannot be represented.
pub open spec fn local_reading(utc_seconds: Option<i64>) -> Option<TimeOfDay> {
    match utc_seconds {
        Some(s) => paris_wall_clock(s as int),
        None => None,
    }
}

/// Reads the Europe/Paris wall clock at an optional UTC instant.
pub fn local_time(utc_seconds: Option<i64>) -> (r: Option<TimeOfDay>)
    ensures
        r == local_reading(utc_seconds),
        r matches Some(t) ==> t.wf(),
{
    match utc_seconds {
        Some(s) => paris_time_at(s),
        None => None,
    }
}

} // verus!
