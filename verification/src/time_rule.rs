//! From a UTC instant to the time that the rules go by, and from there to
//! the historical year of the period hierarchy.
//!
//! The rule time is the local time of a fixed offset from UTC, optionally
//! corrected to the mean solar time of the place.  Offsets are given in
//! minutes, east positive.

use vstd::prelude::*;
use crate::civil::{utc_year, utc_year_of};
use crate::euclid::{round_div, round_div_spec};

verus! {

/// The offset that is used where the requested one is not less than a
/// day: eight hours east.
pub const DEFAULT_OFFSET_SECONDS: i32 = 28_800;

/// Where the historical year turns.
#[derive(Debug, Clone, Copy, PartialEq, Eq, Structural)]
pub enum YearStartMode {
    /// The year turns with the civil year, on the first of January.
    GregorianNewYear,
    /// The year turns at Lichun.  Reserved: for now the year turns with
    /// the civil year in this mode too.
    Lichun,
}

impl Default for YearStartMode {
    fn default() -> (mode: Self)
        ensures
            mode == YearStartMode::GregorianNewYear,
    {
        YearStartMode::GregorianNewYear
    }
}

/// An instant together with the fixed offset in which it is read.
#[derive(Debug, Clone, Copy)]
pub struct RuleDateTime {
    /// The instant, in seconds since the start of 1970 in UTC.
    pub timestamp: i64,
    /// What local time is ahead of UTC, in seconds.
    pub offset_seconds: i32,
}

impl RuleDateTime {
    /// The timestamp whose UTC date and time of day read what the local
    /// clock shows.
    pub open spec fn local_timestamp_spec(&self) -> int {
        self.timestamp + self.offset_seconds
    }

    /// The timestamp whose UTC date and time of day read what the local
    /// clock shows.
    pub fn local_timestamp(&self) -> (local: i64)
        requires
            i64::MIN <= self.local_timestamp_spec() <= i64::MAX,
        ensures
            local == self.local_timestamp_spec(),
    {
        self.timestamp + self.offset_seconds as i64
    }
}

/// The offset in seconds for a request of `tz_offset_minutes`: the
/// request itself where it is less than a day either way, and eight hours
/// east where it is not.
pub open spec fn rule_offset_spec(tz_offset_minutes: int) -> int {
    if -86_400 < tz_offset_minutes * 60 < 86_400 {
        tz_offset_minutes * 60
    } else {
        DEFAULT_OFFSET_SECONDS as int
    }
}

/// The seconds by which mean solar time at longitude `lon`, given in
/// microdegrees, is ahead of the time of the offset: four minutes for each
/// degree east of the central meridian of the offset, rounded to whole
/// seconds.
pub open spec fn solar_correction_spec(tz_offset_minutes: int, lon: int) -> int {
    round_div_spec(240 * lon - 60_000_000 * tz_offset_minutes, 1_000_000)
}

/// The rule time of the instant `utc`.
pub open spec fn rule_datetime_spec(
    utc: int,
    tz_offset_minutes: int,
    lon: int,
    use_true_solar_time: bool,
) -> (int, int) {
    (
        if use_true_solar_time {
            utc + solar_correction_spec(tz_offset_minutes, lon)
        } else {
            utc
        },
        rule_offset_spec(tz_offset_minutes),
    )
}

/// Converts a UTC instant to the rule time.
///
/// `utc` is in seconds since the start of 1970, `tz_offset_minutes` east
/// positive, `lon` the geographic longitude in microdegrees.  With
/// `use_true_solar_time` the instant is moved by the solar correction of
/// the place.
pub fn to_rule_datetime(utc: i64, tz_offset_minutes: i32, lon: i64, use_true_solar_time: bool) -> (rule:
    RuleDateTime)
    requires
        i64::MIN <= rule_datetime_spec(
            utc as int,
            tz_offset_minutes as int,
            lon as int,
            use_true_solar_time,
        ).0 <= i64::MAX,
    ensures
        (rule.timestamp as int, rule.offset_seconds as int) == rule_datetime_spec(
            utc as int,
            tz_offset_minutes as int,
            lon as int,
            use_true_solar_time,
        ),
        -86_400 < rule.offset_seconds < 86_400,
{
    let requested: i64 = (tz_offset_minutes as i64) * 60;
    let offset_seconds: i32 = if -86_400 < requested && requested < 86_400 {
        requested as i32
    } else {
        DEFAULT_OFFSET_SECONDS
    };
    if use_true_solar_time {
        let delta_seconds: i128 = round_div(
            240 * (lon as i128) - 60_000_000 * (tz_offset_minutes as i128),
            1_000_000,
        );
        RuleDateTime { timestamp: ((utc as i128) + delta_seconds) as i64, offset_seconds }
    } else {
        RuleDateTime { timestamp: utc, offset_seconds }
    }
}

/// The historical year of a civil year: the civil count has a year 0,
/// the historical count has none, so the years up to 0 move down by one.
pub open spec fn hj_year_of_civil_spec(year: int) -> int {
    if year <= 0 {
        year - 1
    } else {
        year
    }
}

/// The historical year of a civil year.  In both modes the year turns
/// with the civil year.
pub fn hj_year_of_civil(year: i32, mode: YearStartMode) -> (hj_year: i32)
    requires
        year > i32::MIN,
    ensures
        hj_year == hj_year_of_civil_spec(year as int),
        hj_year != 0,
{
    match mode {
        YearStartMode::GregorianNewYear => {
            if year <= 0 {
                year - 1
            } else {
                year
            }
        },
        YearStartMode::Lichun => {
            if year <= 0 {
                year - 1
            } else {
                year
            }
        },
    }
}

/// The historical year in which a rule time falls: the civil year that
/// the local clock shows, counted without a year zero.
pub open spec fn datetime_to_hj_year_spec(rule_dt: RuleDateTime) -> Option<int> {
    if i64::MIN <= rule_dt.local_timestamp_spec() <= i64::MAX {
        match utc_year_of(rule_dt.local_timestamp_spec()) {
            Some(year) => if year > i32::MIN {
                Some(hj_year_of_civil_spec(year))
            } else {
                None
            },
            None => None,
        }
    } else {
        None
    }
}

/// The historical year in which the rule time `rule_dt` falls.
///
/// The civil year is read off the calendar; a time that the calendar does
/// not hold has no year.
pub fn datetime_to_hj_year(rule_dt: RuleDateTime, mode: YearStartMode) -> (hj_year: Option<i32>)
    ensures
        hj_year matches Some(y) ==> datetime_to_hj_year_spec(rule_dt) == Some(y as int) && y != 0,
        hj_year is None ==> datetime_to_hj_year_spec(rule_dt) is None,
{
    let local: i128 = (rule_dt.timestamp as i128) + (rule_dt.offset_seconds as i128);
    if local < (i64::MIN as i128) || local > (i64::MAX as i128) {
        return None;
    }
    match utc_year(local as i64) {
        Some(year) => {
            if year > i32::MIN {
                Some(hj_year_of_civil(year, mode))
            } else {
                None
            }
        },
        None => None,
    }
}

/// The historical year in which the UTC instant `utc` falls by the
/// rule time of the given offset and place.
pub fn utc_to_hj_year(
    utc: i64,
    tz_offset_minutes: i32,
    lon: i64,
    use_true_solar_time: bool,
    mode: YearStartMode,
) -> (hj_year: Option<i32>)
    requires
        i64::MIN <= rule_datetime_spec(
            utc as int,
            tz_offset_minutes as int,
            lon as int,
            use_true_solar_time,
        ).0 <= i64::MAX,
    ensures
        hj_year matches Some(y) ==> y != 0 && datetime_to_hj_year_spec(
            RuleDateTime {
                timestamp: rule_datetime_spec(
                    utc as int,
                    tz_offset_minutes as int,
                    lon as int,
                    use_true_solar_time,
                ).0 as i64,
                offset_seconds: rule_offset_spec(tz_offset_minutes as int) as i32,
            },
        ) == Some(y as int),
        hj_year is None ==> datetime_to_hj_year_spec(
            RuleDateTime {
                timestamp: rule_datetime_spec(
                    utc as int,
                    tz_offset_minutes as int,
                    lon as int,
                    use_true_solar_time,
                ).0 as i64,
                offset_seconds: rule_offset_spec(tz_offset_minutes as int) as i32,
            },
        ) is None,
{
    let rule_dt = to_rule_datetime(utc, tz_offset_minutes, lon, use_true_solar_time);
    datetime_to_hj_year(rule_dt, mode)
}

/// Historical years are never zero, and the civil years map onto them
/// one to one in their order.
pub proof fn lemma_hj_year_of_civil(a: int, b: int)
    ensures
        hj_year_of_civil_spec(a) != 0,
        a < b ==> hj_year_of_civil_spec(a) < hj_year_of_civil_spec(b),
        hj_year_of_civil_spec(0) == -1,
        hj_year_of_civil_spec(1) == 1,
{
}

} // verus!
