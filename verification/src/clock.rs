//! Calls into chrono for the current time and for date parsing.

use chrono::Datelike;
use vstd::prelude::*;

use crate::date::Date;

verus! {

/// Relies on chrono's `Local::now` and `DateTime::timestamp`: the current
/// point in time as whole seconds since the Unix epoch. The value depends on
/// the clock, so nothing is assumed about it.
#[verifier::external_body]
pub(crate) fn now_seconds() -> i64 {
    chrono::Local::now().timestamp()
}

/// Relies on chrono's `Local::now` and the `Datelike` accessors of
/// `NaiveDate`: the current calendar date, with the month documented to lie
/// in 1..=12 and the day in 1..=31. The value depends on the clock.
#[verifier::external_body]
pub(crate) fn today() -> (d: Date)
    ensures
        d.valid(),
{
    let n = chrono::Local::now().date_naive();
    Date { year: n.year(), month: n.month(), day: n.day() }
}

/// Relies on chrono's `Utc::now` and `IsoWeek::week`: the current ISO week
/// number, documented to range from 1 to 53. The value depends on the clock.
#[verifier::external_body]
pub(crate) fn current_week_number() -> (w: u32)
    ensures
        1 <= w <= 53,
{
    chrono::Utc::now().iso_week().week()
}

/// The calendar date that chrono's `NaiveDate::parse_from_str` reads from a
/// string in `%Y-%m-%d` format, if any; a function of the string alone.
pub uninterp spec fn parsed_date_of(s: Seq<char>) -> Option<(i32, u32, u32)>;

/// Relies on chrono's `NaiveDate::parse_from_str` with the `%Y-%m-%d`
/// format: the result is a function of the input string alone, and any date
/// it returns is a valid calendar date, so its month lies in 1..=12 and its
/// day in 1..=31.
#[verifier::external_body]
pub(crate) fn parse_date(s: &str) -> (r: Option<Date>)
    ensures
        r is Some <==> parsed_date_of(s@) is Some,
        r matches Some(d) ==> parsed_date_of(s@) == Some((d.year, d.month, d.day)) && d.valid(),
{
    match chrono::NaiveDate::parse_from_str(s, "%Y-%m-%d") {
        Ok(n) => Some(Date { year: n.year(), month: n.month(), day: n.day() }),
        Err(_) => None,
    }
}

} // verus!
