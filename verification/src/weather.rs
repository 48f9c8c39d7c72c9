//! The latest weather observation, the comfort rule read from it, and the
//! schedule on which the observation is refreshed.

use crate::clock::{local_reading, local_time, paris_wall_clock, TimeOfDay};
use vstd::prelude::*;

verus! {

/// Lowest temperature at which half-open shutters are comfortable, in
/// thousandths of a degree Celsius.
pub const COMFORT_MIN_TEMPERATURE: i64 = 18000;

/// Wind speed from which shutters are no longer put half open, in thousandths
/// of a kilometre per hour.
pub const COMFORT_WIND_LIMIT: i64 = 30000;

/// Cloud cover from which shutters are no longer put half open, in percent.
pub const COMFORT_CLOUD_LIMIT: i64 = 75;

/// Seconds to wait before looking again while the sun is down.
pub const NIGHT_BACKOFF_SECONDS: u64 = 1800;

/// One weather observation, in fixed point.
#[derive(Clone, Copy, Debug, PartialEq, Eq, Structural)]
pub struct WeatherData {
    /// Temperature in thousandths of a degree Celsius.
    pub temperature: i64,
    /// Wind speed in thousandths of a kilometre per hour.
    pub wind_speed: i64,
    /// Cloud cover in percent.
    pub clouds: i64,
}

impl WeatherData {
    /// The observation allows half-open shutters: warm enough, calm enough
    /// and clear enough, all three.
    pub open spec fn comfortable(self) -> bool {
        self.temperature >= COMFORT_MIN_TEMPERATURE && self.wind_speed < COMFORT_WIND_LIMIT
            && self.clouds < COMFORT_CLOUD_LIMIT
    }

    /// The placeholder held before the first observation arrives: all zeros.
    /// It never counts as comfortable.
    pub fn initial() -> (r: WeatherData)
        ensures
            r == (WeatherData { temperature: 0, wind_speed: 0, clouds: 0 }),
            !r.comfortable(),
    {
        WeatherData { temperature: 0, wind_speed: 0, clouds: 0 }
    }

    /// Whether this is still the placeholder, judged by its temperature.
    pub fn is_initial(&self) -> (r: bool)
        ensures
            r == (self.temperature == 0),
    {
        self.temperature == 0
    }

    /// Tests the comfort rule.
    pub fn is_comfortable(&self) -> (r: bool)
        ensures
            r == self.comfortable(),
    {
        self.temperature >= COMFORT_MIN_TEMPERATURE && self.wind_speed < COMFORT_WIND_LIMIT
            && self.clouds < COMFORT_CLOUD_LIMIT
    }
}

/// What the refresh loop does next: whether to fetch a new observation, and
/// how long to sleep afterwards.
#[derive(Clone, Copy, Debug, PartialEq, Eq, Structural)]
pub struct RefreshPlan {
    pub fetch: bool,
    pub sleep_seconds: u64,
}

/// The sun is up at `now`: sunrise has passed and sunset has not.
pub open spec fn in_daylight(now: TimeOfDay, sunrise: TimeOfDay, sunset: TimeOfDay) -> bool {
    sunrise.seconds_of_day() <= now.seconds_of_day() < sunset.seconds_of_day()
}

/// The refresh rule. While the sun is up: fetch, then sleep for the minutes
/// left in the hour plus the seconds left in the minute, each counted from
/// sixty. Otherwise, or when the day has no sunrise or no sunset: do not
/// fetch, and look again after the night backoff.
pub open spec fn refresh_plan_spec(
    now: TimeOfDay,
    sunrise: Option<TimeOfDay>,
    sunset: Option<TimeOfDay>,
) -> RefreshPlan {
    if sunrise.is_some() && sunset.is_some() && in_daylight(now, sunrise.unwrap(), sunset.unwrap()) {
        RefreshPlan {
            fetch: true,
            sleep_seconds: ((60 - now.minute) * 60 + (60 - now.second)) as u64,
        }
    } else {
        RefreshPlan { fetch: false, sleep_seconds: NIGHT_BACKOFF_SECONDS }
    }
}

/// Decides the next move of the refresh loop from local clock readings.
pub fn refresh_plan(now: TimeOfDay, sunrise: Option<TimeOfDay>, sunset: Option<TimeOfDay>) -> (r:
    RefreshPlan)
    requires
        now.wf(),
    ensures
        r == refresh_plan_spec(now, sunrise, sunset),
        r.fetch ==> 61 <= r.sleep_seconds <= 3660,
{
    match (sunrise, sunset) {
        (Some(rise), Some(set)) => {
            if now.at_or_after(rise) && !now.at_or_after(set) {
                let minutes_to_wait: u64 = (60 - now.minute) as u64;
                let seconds_to_wait: u64 = (60 - now.second) as u64;
                RefreshPlan { fetch: true, sleep_seconds: minutes_to_wait * 60 + seconds_to_wait }
            } else {
                RefreshPlan { fetch: false, sleep_seconds: NIGHT_BACKOFF_SECONDS }
            }
        },
        _ => RefreshPlan { fetch: false, sleep_seconds: NIGHT_BACKOFF_SECONDS },
    }
}

/// Decides the next move of the refresh loop from UTC instants, given in
/// seconds since the Unix epoch: the present, and the day's sunrise and
/// sunset where the day has them. An instant that the calendar cannot
/// represent is treated as night.
pub fn schedule_hourly_between_sunrise_sunset(
    now_utc: i64,
    sunrise_utc: Option<i64>,
    sunset_utc: Option<i64>,
) -> (r: RefreshPlan)
    ensures
        r == match paris_wall_clock(now_utc as int) {
            Some(now) => refresh_plan_spec(
                now,
                local_reading(sunrise_utc),
                local_reading(sunset_utc),
            ),
            None => RefreshPlan { fetch: false, sleep_seconds: NIGHT_BACKOFF_SECONDS },
        },
{
    match local_time(Some(now_utc)) {
        Some(now) => refresh_plan(now, local_time(sunrise_utc), local_time(sunset_utc)),
        None => RefreshPlan { fetch: false, sleep_seconds: NIGHT_BACKOFF_SECONDS },
    }
}

} // verus!
