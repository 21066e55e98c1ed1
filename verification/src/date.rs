//! Calendar dates without a time of day, in the proleptic Gregorian calendar.
//!
//! Dates are read and written by chrono (see [`trusted`]); which days exist
//! and which of two days is the earlier one is decided here.

use crate::date::text::date_text;
use crate::date::text::is_iso_date;
use crate::date::text::is_iso_shape;
use crate::date::text::iso_date_value;
use crate::date::trusted::parse_ymd;
use crate::date::trusted::parsed_date;
use crate::date::trusted::rejection_text;
use crate::date::trusted::write_date;
use crate::error::WeatherError;
use vstd::prelude::*;

pub mod text;
pub mod trusted;

verus! {

/// The earliest year a [`CalendarDate`] can carry.
pub const MIN_YEAR: i32 = -262143;

/// The latest year a [`CalendarDate`] can carry.
pub const MAX_YEAR: i32 = 262142;

/// Whether `year` has a 29th of February.
pub open spec fn leap_year(year: int) -> bool {
    year % 4 == 0 && (year % 100 != 0 || year % 400 == 0)
}

/// The number of days of `month` in `year`; 0 where `month` is no month.
pub open spec fn month_length(year: int, month: int) -> int {
    if month == 4 || month == 6 || month == 9 || month == 11 {
        30
    } else if month == 2 {
        if leap_year(year) {
            29
        } else {
            28
        }
    } else if 1 <= month <= 12 {
        31
    } else {
        0
    }
}

/// The three ways a day can relate to the current day.
#[derive(Debug, Clone, Copy, PartialEq, Eq, Structural)]
pub enum When {
    Past,
    Present,
    Future,
}

/// A calendar date as three numbers: the mathematical model of [`CalendarDate`].
pub struct DateView {
    pub year: int,
    pub month: int,
    pub day: int,
}

impl DateView {
    /// The date names a day that exists, in a year that can be carried.
    pub open spec fn valid(self) -> bool {
        &&& MIN_YEAR <= self.year <= MAX_YEAR
        &&& 1 <= self.month <= 12
        &&& 1 <= self.day <= month_length(self.year, self.month)
    }

    /// `self` is an earlier day than `other`.
    pub open spec fn before(self, other: DateView) -> bool {
        ||| self.year < other.year
        ||| self.year == other.year && self.month < other.month
        ||| self.year == other.year && self.month == other.month && self.day < other.day
    }

    /// Where `self` lies in time when the current day is `today`.
    pub open spec fn relative_to(self, today: DateView) -> When {
        if self == today {
            When::Present
        } else if self.before(today) {
            When::Past
        } else {
            When::Future
        }
    }
}

/// Of two days, either they are the same day or exactly one is before the
/// other, and [`DateView::relative_to`] says which.
pub proof fn lemma_three_way(day: DateView, today: DateView)
    ensures
        day == today <==> day.relative_to(today) == When::Present,
        day.before(today) <==> day.relative_to(today) == When::Past,
        today.before(day) <==> day.relative_to(today) == When::Future,
{
}

/// A calendar date: year, month (1 to 12) and day of the month (from 1).
///
/// Every value names a day that exists: [`CalendarDate::new`] makes no other.
#[derive(Debug, Clone, Copy, PartialEq, Eq, Structural)]
pub struct CalendarDate {
    year: i32,
    month: u32,
    day: u32,
}

impl View for CalendarDate {
    type V = DateView;

    closed spec fn view(&self) -> DateView {
        DateView { year: self.year as int, month: self.month as int, day: self.day as int }
    }
}

/// Whether `year` has a 29th of February.
pub fn is_leap_year(year: i32) -> (leap: bool)
    ensures
        leap == leap_year(year as int),
{
    year % 4 == 0 && (year % 100 != 0 || year % 400 == 0)
}

/// The number of days of `month` in `year`; 0 where `month` is no month.
pub fn days_in_month(year: i32, month: u32) -> (days: u32)
    ensures
        days == month_length(year as int, month as int),
{
    if month == 4 || month == 6 || month == 9 || month == 11 {
        30
    } else if month == 2 {
        if is_leap_year(year) {
            29
        } else {
            28
        }
    } else if 1 <= month && month <= 12 {
        31
    } else {
        0
    }
}

impl CalendarDate {
    /// The date names a day that exists.
    #[verifier::type_invariant]
    pub open spec fn names_a_day(self) -> bool {
        self@.valid()
    }

    /// The date with the given numbers, if there is such a day.
    pub fn new(year: i32, month: u32, day: u32) -> (date: Option<CalendarDate>)
        ensures
            date is Some <==> (DateView {
                year: year as int,
                month: month as int,
                day: day as int,
            }).valid(),
            date matches Some(made) ==> made@ == (DateView {
                year: year as int,
                month: month as int,
                day: day as int,
            }),
    {
        if MIN_YEAR <= year && year <= MAX_YEAR && 1 <= day && day <= days_in_month(year, month) {
            Some(CalendarDate { year, month, day })
        } else {
            None
        }
    }

    /// The year.
    pub fn year(self) -> (year: i32)
        ensures
            year == self@.year,
    {
        self.year
    }

    /// The month, from 1 to 12.
    pub fn month(self) -> (month: u32)
        ensures
            month == self@.month,
            1 <= month <= 12,
    {
        proof {
            use_type_invariant(&self);
        }
        self.month
    }

    /// The day of the month, from 1.
    pub fn day(self) -> (day: u32)
        ensures
            day == self@.day,
            1 <= day <= month_length(self@.year, self@.month),
    {
        proof {
            use_type_invariant(&self);
        }
        self.day
    }

    /// Reads a date written as year, month and day with `-` between.
    ///
    /// The text is accepted exactly when chrono accepts it under the format
    /// `%Y-%m-%d`, which admits more than the strict form `YYYY-MM-DD` (a
    /// month of one digit, for one). A text in the strict form gives the
    /// date it spells, and is rejected where there is no such day. A date
    /// that is read names a day that exists.
    pub fn parse(text: &str) -> (outcome: Result<CalendarDate, WeatherError>)
        ensures
            match parsed_date(text@) {
                Some(date) => outcome matches Ok(read) && read@ == date && date.valid(),
                None => outcome matches Err(WeatherError::InvalidDate(_)),
            },
            is_iso_date(text@) ==> (outcome matches Ok(read) && read@ == iso_date_value(text@)),
            is_iso_shape(text@) && !iso_date_value(text@).valid() ==> outcome matches Err(
                WeatherError::InvalidDate(_),
            ),
    {
        match parse_ymd(text) {
            Ok(date) => Ok(date),
            Err(error) => Err(WeatherError::InvalidDate(rejection_text(&error))),
        }
    }

    /// The date as a request carries it: see [`date_text`].
    pub fn to_text(self) -> (text: String)
        ensures
            text@ == date_text(self@),
    {
        proof {
            use_type_invariant(&self);
        }
        write_date(self)
    }

    /// Where this day lies in time when the current day is `today`.
    pub fn relative_to(self, today: CalendarDate) -> (place: When)
        ensures
            place == self@.relative_to(today@),
    {
        if self.year == today.year && self.month == today.month && self.day == today.day {
            When::Present
        } else if self.year < today.year || (self.year == today.year && (self.month < today.month
            || (self.month == today.month && self.day < today.day))) {
            When::Past
        } else {
            When::Future
        }
    }
}

} // verus!
