//! The time base of the pillar rules: Julian Days, the sun's position as
//! the rules read it, and true solar time.
//!
//! Times are whole microseconds.  A Julian Day is held as the microseconds
//! that have passed since the start of the Julian period, so that Julian
//! Day 2440587.5, the start of 1970 in UTC, is [`UNIX_EPOCH_JD`].  Angles
//! are whole microdegrees.

use vstd::prelude::*;
use crate::euclid::{lemma_floor_div_bounds, rem_euclid_i128, rem_euclid_i64, round_div, round_div_spec};
use crate::jieqi::{DEGREE, FULL_CIRCLE};

verus! {

/// One second, in microseconds.
pub const SECOND: i64 = 1_000_000;

/// One minute, in microseconds.
pub const MINUTE: i64 = 60_000_000;

/// One hour, in microseconds.
pub const HOUR: i64 = 3_600_000_000;

/// One day, in microseconds.
pub const DAY: i64 = 86_400_000_000;

/// Julian Day 2440587.5, the instant 1970-01-01 00:00 UTC.
pub const UNIX_EPOCH_JD: i64 = 210_866_760_000_000_000;

/// The time by which the sun's noon moves for each microdegree of
/// geographic longitude: four minutes for a degree.
pub const MICROS_PER_MICRODEGREE: i64 = 240;

/// The position of the sun, as far as the calendar rules read it.
#[derive(Debug, Clone, Copy)]
pub struct SolarPosition {
    /// Ecliptic longitude of the sun in microdegrees, from 0° up to but
    /// not including 360°.
    pub ecliptic_longitude: i64,
    /// Equation of time in microseconds: what true solar time is ahead of
    /// mean solar time.
    pub equation_of_time: i64,
}

impl SolarPosition {
    /// The longitude lies on the circle.
    pub open spec fn wf(&self) -> bool {
        0 <= self.ecliptic_longitude < FULL_CIRCLE
    }

    /// The position with the given longitude, taken round the circle, and
    /// the given equation of time.
    pub fn new(ecliptic_longitude: i64, equation_of_time: i64) -> (position: Self)
        ensures
            position.wf(),
            position.ecliptic_longitude == ecliptic_longitude as int % (FULL_CIRCLE as int),
            position.equation_of_time == equation_of_time,
    {
        SolarPosition {
            ecliptic_longitude: rem_euclid_i64(ecliptic_longitude, FULL_CIRCLE),
            equation_of_time,
        }
    }
}

/// The Julian Day of a Unix timestamp.
pub open spec fn jd_of_timestamp(timestamp: int) -> int {
    timestamp * SECOND + UNIX_EPOCH_JD
}

/// The Julian Day of a UTC instant given as a Unix timestamp.
pub fn utc_to_jd(timestamp: i64) -> (jd: i64)
    requires
        i64::MIN <= jd_of_timestamp(timestamp as int) <= i64::MAX,
    ensures
        jd == jd_of_timestamp(timestamp as int),
{
    ((timestamp as i128) * 1_000_000 + (UNIX_EPOCH_JD as i128)) as i64
}

/// The Julian Day of a date and time without zone, read as UTC and given
/// as a Unix timestamp.
pub fn datetime_to_jd(timestamp: i64) -> (jd: i64)
    requires
        i64::MIN <= jd_of_timestamp(timestamp as int) <= i64::MAX,
    ensures
        jd == jd_of_timestamp(timestamp as int),
{
    utc_to_jd(timestamp)
}

/// True solar time of day at an instant and a place: the UTC time of day,
/// moved by four minutes for each degree of longitude east and by the
/// equation of time, and taken into the day.
pub open spec fn true_solar_hour_spec(timestamp: int, longitude: int, equation_of_time: int)
    -> int {
    ((timestamp % 86400) * SECOND + longitude * MICROS_PER_MICRODEGREE + equation_of_time) % (
    DAY as int)
}

/// True solar time of day, in microseconds since true solar midnight.
///
/// `longitude` is the geographic longitude in microdegrees, east positive;
/// `equation_of_time` is in microseconds.
pub fn true_solar_hour(timestamp: i64, longitude: i64, equation_of_time: i64) -> (time: i64)
    ensures
        time == true_solar_hour_spec(timestamp as int, longitude as int, equation_of_time as int),
        0 <= time < DAY,
{
    let second_of_day: i64 = rem_euclid_i64(timestamp, 86400);
    let total: i128 = (second_of_day as i128) * 1_000_000 + (longitude as i128) * 240 + (
    equation_of_time as i128);
    rem_euclid_i128(total, DAY as i128) as i64
}

/// The earthly branch of the double hour that holds the true solar time
/// `time`: the hour from 23:00 to 01:00 is branch 0, and each two hours
/// after it the next branch.
pub open spec fn hour_branch_spec(time: int) -> int {
    if time >= 23 * HOUR || time < HOUR {
        0
    } else {
        ((time + HOUR) / (2 * HOUR)) % 12
    }
}

/// The true solar time `time` lies in the late part of the first double
/// hour, from 23:00 on, which already counts towards the next day.
pub open spec fn is_late_zi_spec(time: int) -> bool {
    time >= 23 * HOUR
}

/// The earthly branch of the double hour of a true solar time of day, and
/// whether the time lies in the late part of the first double hour.
pub fn hour_to_dizhi_index(true_solar_hour: i64) -> (r: (usize, bool))
    ensures
        r.0 == hour_branch_spec(true_solar_hour as int),
        r.1 == is_late_zi_spec(true_solar_hour as int),
        r.0 < 12,
        r.1 ==> r.0 == 0,
{
    if true_solar_hour >= 23 * HOUR {
        return (0, true);
    }
    if true_solar_hour < HOUR {
        return (0, false);
    }
    let index: i64 = (true_solar_hour + HOUR) / (2 * HOUR);
    ((index % 12) as usize, false)
}

/// Local time at the standard meridian, corrected to true solar time:
/// the instant moved by the whole hours of the meridian, by four minutes
/// for each degree that the place lies east of the meridian and by the
/// equation of time, the correction rounded to whole seconds.
pub open spec fn true_solar_time_spec(
    timestamp: int,
    longitude: int,
    standard_meridian: int,
    equation_of_time: int,
) -> int {
    timestamp + round_div_spec(standard_meridian, 15 * DEGREE) * 3600 + round_div_spec(
        (longitude - standard_meridian) * MICROS_PER_MICRODEGREE + equation_of_time,
        SECOND as int,
    )
}

/// True solar time as a clock reading: the timestamp whose UTC date and
/// time of day read what a sundial at the place shows.
///
/// `longitude` and `standard_meridian` are in microdegrees, east positive;
/// `equation_of_time` is in microseconds.
pub fn true_solar_time(
    timestamp: i64,
    longitude: i64,
    standard_meridian: i64,
    equation_of_time: i64,
) -> (solar: i64)
    requires
        i64::MIN <= true_solar_time_spec(
            timestamp as int,
            longitude as int,
            standard_meridian as int,
            equation_of_time as int,
        ) <= i64::MAX,
    ensures
        solar == true_solar_time_spec(
            timestamp as int,
            longitude as int,
            standard_meridian as int,
            equation_of_time as int,
        ),
{
    let zone_hours: i128 = round_div(standard_meridian as i128, 15_000_000);
    let correction_micros: i128 = ((longitude as i128) - (standard_meridian as i128)) * 240 + (
    equation_of_time as i128);
    let correction_seconds: i128 = round_div(correction_micros, 1_000_000);
    ((timestamp as i128) + zone_hours * 3600 + correction_seconds) as i64
}

/// True solar time of day runs with the clock: a day later it reads the
/// same, and it reads the UTC time of day where the place lies on the
/// prime meridian and the equation of time is nothing.
pub proof fn lemma_true_solar_hour(timestamp: int, longitude: int, equation_of_time: int)
    ensures
        0 <= true_solar_hour_spec(timestamp, longitude, equation_of_time) < DAY,
        true_solar_hour_spec(timestamp + 86400, longitude, equation_of_time)
            == true_solar_hour_spec(timestamp, longitude, equation_of_time),
        true_solar_hour_spec(timestamp, 0, 0) == (timestamp % 86400) * SECOND,
{
    lemma_floor_div_bounds(timestamp, 86400);
    lemma_floor_div_bounds(timestamp + 86400, 86400);
    crate::euclid::lemma_floor_div_unique(
        timestamp + 86400,
        86400,
        timestamp / 86400 + 1,
        timestamp % 86400,
    );
    let total = (timestamp % 86400) * SECOND + longitude * MICROS_PER_MICRODEGREE
        + equation_of_time;
    lemma_floor_div_bounds(total, DAY as int);
    lemma_floor_div_bounds((timestamp % 86400) * SECOND, DAY as int);
    crate::euclid::lemma_floor_div_unique(
        (timestamp % 86400) * SECOND,
        DAY as int,
        0,
        (timestamp % 86400) * SECOND,
    );
}

} // verus!
