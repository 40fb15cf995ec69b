//! The civil calendar, as the `chrono` crate reckons it.
//!
//! Instants are Unix timestamps: whole seconds since 1970-01-01 00:00 UTC,
//! leap seconds not counted.  Years are those of the proleptic Gregorian
//! calendar in astronomical numbering, in which the year before year 1 is
//! year 0.

use vstd::prelude::*;

verus! {

/// A date of the civil calendar.
#[derive(Debug, Clone, Copy, PartialEq, Eq, Structural)]
pub struct CivilDate {
    pub year: i32,
    /// Month of the year, from 1.
    pub month: u32,
    /// Day of the month, from 1.
    pub day: u32,
}

/// The date on which the instant `timestamp` falls in UTC, and `None` for
/// an instant outside the range of dates that `chrono` holds.
pub uninterp spec fn utc_date_of(timestamp: int) -> Option<CivilDate>;

/// The timestamp of the first instant of the calendar year `year` in
/// UTC, and `None` for a year that `chrono` does not read in the notation
/// `YYYY-01-01 00:00:00`.
pub uninterp spec fn year_start_of(year: int) -> Option<int>;

/// The calendar year in which the instant `timestamp` falls in UTC.
pub open spec fn utc_year_of(timestamp: int) -> Option<int> {
    match utc_date_of(timestamp) {
        Some(date) => Some(date.year as int),
        None => None,
    }
}

/// `chrono::DateTime::from_timestamp`, read with the `year`, `month` and
/// `day` of `chrono::Datelike`: the date of an instant in UTC.  The result
/// is the named value [`utc_date_of`] of the timestamp; nothing more is
/// claimed of it.
#[verifier::external_body]
pub(crate) fn utc_date(timestamp: i64) -> (date: Option<CivilDate>)
    ensures
        date == utc_date_of(timestamp as int),
{
    match chrono::DateTime::from_timestamp(timestamp, 0) {
        Some(instant) => Some(
            CivilDate {
                year: chrono::Datelike::year(&instant),
                month: chrono::Datelike::month(&instant),
                day: chrono::Datelike::day(&instant),
            },
        ),
        None => None,
    }
}

/// The calendar year in which the instant `timestamp` falls in UTC.
pub fn utc_year(timestamp: i64) -> (year: Option<i32>)
    ensures
        year matches Some(y) ==> utc_year_of(timestamp as int) == Some(y as int),
        year is None ==> utc_year_of(timestamp as int) is None,
{
    match utc_date(timestamp) {
        Some(date) => Some(date.year),
        None => None,
    }
}

/// `chrono::NaiveDateTime::parse_from_str` on the first instant of a year,
/// written `YYYY-01-01 00:00:00`, followed by the timestamp of what was
/// read.  The result is the named value [`year_start_of`] of the year;
/// nothing more is claimed of it.
#[verifier::external_body]
pub(crate) fn year_start_timestamp(year: i32) -> (timestamp: Option<i64>)
    ensures
        timestamp matches Some(t) ==> year_start_of(year as int) == Some(t as int),
        timestamp is None ==> year_start_of(year as int) is None,
{
    let text = format!("{}-01-01 00:00:00", year);
    match chrono::NaiveDateTime::parse_from_str(&text, "%Y-%m-%d %H:%M:%S") {
        Ok(first) => Some(first.and_utc().timestamp()),
        Err(_) => None,
    }
}

} // verus!
