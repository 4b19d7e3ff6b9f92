//! Timestamp reconstruction: a period's `YYYY-MM-DD` date prefix anchored
//! at midnight, plus the timestep's minutes-of-day offset. The calendar
//! work itself is chrono's; this module states what is relied on.

use vstd::prelude::*;

verus! {

/// A calendar date as plain values.
#[derive(Debug, PartialEq, Eq, Structural, Clone, Copy)]
pub struct Date {
    pub year: i32,
    pub month: u8,
    pub day: u8,
}

/// A calendar date and time of day as plain values.
#[derive(Debug, PartialEq, Eq, Structural, Clone, Copy)]
pub struct Timestamp {
    pub year: i32,
    pub month: u8,
    pub day: u8,
    pub hour: u8,
    pub minute: u8,
    pub second: u8,
}

/// What `chrono::NaiveDate::parse_from_str` with the `%Y-%m-%d` format
/// returns for a given character sequence: the date, or `None` where the
/// string does not parse as a valid calendar date.
pub uninterp spec fn ymd_parse_of(s: Seq<char>) -> Option<Date>;

/// What adding a whole number of minutes to a date's midnight yields: the
/// resulting date and time, or `None` where the date is invalid or the sum
/// leaves chrono's representable range.
pub uninterp spec fn midnight_plus_of(d: Date, minutes: i64) -> Option<Timestamp>;

/// Relies on `chrono::NaiveDate::parse_from_str` with the `%Y-%m-%d`
/// format: the result is a function of the input characters alone, and a
/// parsed `NaiveDate` is a valid calendar date (month 1-12, day 1-31).
#[verifier::external_body]
pub(crate) fn parse_ymd(s: &str) -> (r: Option<Date>)
    ensures
        r == ymd_parse_of(s@),
        r matches Some(d) ==> 1 <= d.month <= 12 && 1 <= d.day <= 31,
{
    match chrono::NaiveDate::parse_from_str(s, "%Y-%m-%d") {
        Ok(d) => Some(
            Date { year: chrono::Datelike::year(&d), month: chrono::Datelike::month(&d) as u8, day: chrono::Datelike::day(&d) as u8 },
        ),
        Err(_) => None,
    }
}

/// Relies on `chrono::NaiveDateTime::checked_add_signed` (with
/// `NaiveDate::from_ymd_opt`, `NaiveDate::and_hms_opt` and
/// `TimeDelta::try_minutes` building its arguments): the minutes offset
/// added to the date's midnight, a function of the arguments alone, `None`
/// where the date is invalid or the sum cannot be represented. The field
/// ranges are those chrono documents for `Datelike` and `Timelike`.
#[verifier::external_body]
pub(crate) fn midnight_plus_minutes(d: Date, minutes: i64) -> (r: Option<Timestamp>)
    ensures
        r == midnight_plus_of(d, minutes),
        r matches Some(t) ==> 1 <= t.month <= 12 && 1 <= t.day <= 31 && t.hour <= 23
            && t.minute <= 59 && t.second <= 59,
{
    let date = chrono::NaiveDate::from_ymd_opt(d.year, d.month as u32, d.day as u32)?;
    let midnight = date.and_hms_opt(0, 0, 0)?;
    let offset = chrono::TimeDelta::try_minutes(minutes)?;
    let shifted = midnight.checked_add_signed(offset)?;
    Some(
        Timestamp {
            year: chrono::Datelike::year(&shifted),
            month: chrono::Datelike::month(&shifted) as u8,
            day: chrono::Datelike::day(&shifted) as u8,
            hour: chrono::Timelike::hour(&shifted) as u8,
            minute: chrono::Timelike::minute(&shifted) as u8,
            second: chrono::Timelike::second(&shifted) as u8,
        },
    )
}

/// The reconstructed timestamp of a timestep: the first ten characters of
/// the period's date string as a `YYYY-MM-DD` date, anchored at midnight,
/// plus the minutes offset; `None` where the string is shorter than ten
/// characters, the prefix does not parse, or the sum is unrepresentable.
pub open spec fn spec_timestamp(date_str: Seq<char>, minutes: i64) -> Option<Timestamp> {
    if date_str.len() < 10 {
        None
    } else {
        match ymd_parse_of(date_str.subrange(0, 10)) {
            Some(d) => midnight_plus_of(d, minutes),
            None => None,
        }
    }
}

/// Reconstruct a timestep's timestamp from the period date string and the
/// minutes-of-day offset.
pub fn reconstruct_timestamp(date_str: &str, minutes: i64) -> (r: Option<Timestamp>)
    ensures
        r == spec_timestamp(date_str@, minutes),
{
    let n = date_str.unicode_len();
    if n < 10 {
        return None;
    }
    let prefix = date_str.substring_char(0, 10);
    match parse_ymd(prefix) {
        Some(d) => midnight_plus_minutes(d, minutes),
        None => None,
    }
}

} // verus!
