//! Dates as the calendar reads and writes them. The calendar itself is the work of
//! the `chrono` crate; this module hands it texts and dates and takes dates and
//! texts back.

use vstd::prelude::*;
use chrono::Datelike;
use chrono::Timelike;
use crate::types::Date;

verus! {

/// A date with a time of day.
#[derive(Clone, Copy, Debug, PartialEq, Eq, Structural)]
pub struct FechaHora {
    pub date: Date,
    pub hour: u32,
    pub minute: u32,
    pub second: u32,
}

/// Why `chrono` could not read a text.
#[verifier::external_type_specification]
#[verifier::external_body]
pub struct ExParseError(chrono::ParseError);

/// The date that `chrono` reads from a text written as year, month and day with
/// hyphens between them (`%Y-%m-%d`), if it reads one.
pub uninterp spec fn parsed_date(text: Seq<char>) -> Option<Date>;

/// The date and time that `chrono` reads from a text written as a date, a space, and
/// hours, minutes and seconds with colons between them (`%Y-%m-%d %H:%M:%S`), if it
/// reads one.
pub uninterp spec fn parsed_date_time(text: Seq<char>) -> Option<FechaHora>;

/// The day before a date in the calendar of `chrono`, if the three numbers name a
/// date there and it has a day before it.
pub uninterp spec fn previous_day(date: Date) -> Option<Date>;

/// A date written by `chrono` as year, month and day with hyphens between them
/// (`%Y-%m-%d`), if the three numbers name a date there.
pub uninterp spec fn written_date(date: Date) -> Option<Seq<char>>;

/// Calls `chrono::NaiveDate::parse_from_str` with the format `%Y-%m-%d`. The
/// contract gives the result a name and claims no more than that the same text is
/// always read the same way.
#[verifier::external_body]
pub(crate) fn parse_date(text: &str) -> (r: Result<Date, chrono::ParseError>)
    ensures
        match r {
            Ok(date) => parsed_date(text@) == Some(date),
            Err(_) => parsed_date(text@) is None,
        },
{
    chrono::NaiveDate::parse_from_str(text, "%Y-%m-%d").map(
        |d| Date { year: d.year(), month: d.month(), day: d.day() },
    )
}

/// Calls `chrono::NaiveDateTime::parse_from_str` with the format
/// `%Y-%m-%d %H:%M:%S`. The contract gives the result a name and claims no more
/// than that the same text is always read the same way.
#[verifier::external_body]
pub(crate) fn parse_date_time(text: &str) -> (r: Result<FechaHora, chrono::ParseError>)
    ensures
        match r {
            Ok(at) => parsed_date_time(text@) == Some(at),
            Err(_) => parsed_date_time(text@) is None,
        },
{
    chrono::NaiveDateTime::parse_from_str(text, "%Y-%m-%d %H:%M:%S").map(
        |t| FechaHora {
            date: Date { year: t.year(), month: t.month(), day: t.day() },
            hour: t.hour(),
            minute: t.minute(),
            second: t.second(),
        },
    )
}

/// Calls `chrono::NaiveDate::pred_opt` on the date that
/// `chrono::NaiveDate::from_ymd_opt` makes of the three numbers. The contract gives
/// the result a name.
#[verifier::external_body]
pub(crate) fn day_before(date: Date) -> (r: Option<Date>)
    ensures
        r == previous_day(date),
{
    chrono::NaiveDate::from_ymd_opt(date.year, date.month, date.day).and_then(
        |d| d.pred_opt(),
    ).map(|d| Date { year: d.year(), month: d.month(), day: d.day() })
}

/// Calls `chrono::NaiveDate::format` with the format `%Y-%m-%d` on the date that
/// `chrono::NaiveDate::from_ymd_opt` makes of the three numbers. The contract gives
/// the result a name.
#[verifier::external_body]
pub(crate) fn write_date(date: Date) -> (r: Option<String>)
    ensures
        match r {
            Some(text) => written_date(date) == Some(text@),
            None => written_date(date) is None,
        },
{
    chrono::NaiveDate::from_ymd_opt(date.year, date.month, date.day).map(
        |d| d.format("%Y-%m-%d").to_string(),
    )
}

/// Calls `chrono::Local::now` and hands back the local date and the hour of the
/// day. Nothing is claimed of the result: it is the time of the call.
#[verifier::external_body]
pub(crate) fn local_now() -> (r: (Date, u32))
{
    let now = chrono::Local::now();
    let today = now.date_naive();
    (Date { year: today.year(), month: today.month(), day: today.day() }, now.hour())
}

} // verus!
