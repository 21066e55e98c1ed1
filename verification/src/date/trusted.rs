//! The calls into chrono, and what is taken on trust of each.
//!
//! Nothing in this file is proved. Each function makes one use of chrono on
//! plain values, and its contract says what the rest of the crate relies on.

use crate::date::text::date_text;
use crate::date::text::is_iso_date;
use crate::date::text::is_iso_shape;
use crate::date::text::iso_date_value;
use crate::date::CalendarDate;
use crate::date::DateView;
use chrono::Datelike;
use vstd::prelude::*;

verus! {

/// The error type of [`chrono::NaiveDate::parse_from_str`].
#[verifier::external_type_specification]
#[verifier::external_body]
pub struct ExParseError(chrono::ParseError);

/// What [`chrono::NaiveDate::parse_from_str`] makes of `text` under the format
/// `%Y-%m-%d`: the date it reads, or `None` where it rejects the text.
pub uninterp spec fn parsed_date(text: Seq<char>) -> Option<DateView>;

/// Calls [`chrono::NaiveDate::parse_from_str`] with the format `%Y-%m-%d` and
/// takes the year, month and day of the date that comes back.
///
/// Trusted: the outcome is a function of the text alone, named
/// [`parsed_date`]; a date that comes back names a day that exists; and a
/// text in the strict form `YYYY-MM-DD` is read as the date it spells where
/// that is a day that exists, and rejected where it is not.
#[verifier::external_body]
pub(crate) fn parse_ymd(text: &str) -> (outcome: Result<CalendarDate, chrono::ParseError>)
    ensures
        outcome is Ok <==> parsed_date(text@) is Some,
        outcome is Ok ==> parsed_date(text@) == Some(outcome->Ok_0@),
        outcome is Ok ==> outcome->Ok_0@.valid(),
        is_iso_date(text@) ==> outcome is Ok,
        is_iso_date(text@) ==> outcome->Ok_0@ == iso_date_value(text@),
        is_iso_shape(text@) && !iso_date_value(text@).valid() ==> outcome is Err,
{
    let date = chrono::NaiveDate::parse_from_str(text, "%Y-%m-%d")?;
    Ok(CalendarDate { year: date.year(), month: date.month(), day: date.day() })
}

/// Calls `to_string` on a [`chrono::ParseError`], for the words in which
/// chrono says why it rejected a text. Nothing is claimed of them.
#[verifier::external_body]
pub(crate) fn rejection_text(error: &chrono::ParseError) -> String {
    error.to_string()
}

/// Builds the [`chrono::NaiveDate`] of a day that exists with
/// [`chrono::NaiveDate::from_ymd_opt`] and calls `to_string` on it.
///
/// Trusted: chrono has a date for every day that exists from [`MIN_YEAR`] to
/// [`MAX_YEAR`], and writes it as [`date_text`] says: the year with four
/// digits from 0 to 9999 and with a sign and at least four digits otherwise,
/// then `-`, the month with two digits, `-`, and the day with two digits.
///
/// [`MIN_YEAR`]: crate::date::MIN_YEAR
/// [`MAX_YEAR`]: crate::date::MAX_YEAR
#[verifier::external_body]
pub(crate) fn write_date(date: CalendarDate) -> (text: String)
    requires
        date@.valid(),
    ensures
        text@ == date_text(date@),
{
    chrono::NaiveDate::from_ymd_opt(date.year, date.month, date.day).unwrap().to_string()
}

/// Calls [`chrono::Local::now`] and takes the year, month and day of its
/// `date_naive`: the calendar date of this moment in the local time zone.
///
/// Trusted: the date names a day that exists. Which day it is depends on the
/// clock and the time zone of the machine, so two calls may differ.
#[verifier::external_body]
pub(crate) fn local_today() -> (today: CalendarDate)
    ensures
        today@.valid(),
{
    let date = chrono::Local::now().date_naive();
    CalendarDate { year: date.year(), month: date.month(), day: date.day() }
}

} // verus!
