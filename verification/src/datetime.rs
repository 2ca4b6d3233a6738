//! The calendar model: a date-and-time value held as plain fields, with
//! the Gregorian month lengths proved, and the two clock facts the library
//! cannot compute itself (the current moment, the weekday a month starts
//! on) taken from the chrono crate behind trusted wrappers.

use chrono::{Datelike, Local, Timelike};
use vstd::prelude::*;

verus! {

/// True of years with 366 days in the proleptic Gregorian calendar.
pub open spec fn spec_is_leap_year(y: int) -> bool {
    y % 4 == 0 && (y % 100 != 0 || y % 400 == 0)
}

/// The length in days of month `m` of year `y`, for `m` in `1..=12`.
pub open spec fn spec_days_in_month(y: int, m: int) -> int {
    if m == 2 {
        if spec_is_leap_year(y) {
            29
        } else {
            28
        }
    } else if m == 4 || m == 6 || m == 9 || m == 11 {
        30
    } else {
        31
    }
}

pub fn is_leap_year(y: i32) -> (r: bool)
    ensures
        r == spec_is_leap_year(y as int),
{
    let m4 = match y.checked_rem_euclid(4) {
        Some(v) => v,
        None => 0,
    };
    let m100 = match y.checked_rem_euclid(100) {
        Some(v) => v,
        None => 0,
    };
    let m400 = match y.checked_rem_euclid(400) {
        Some(v) => v,
        None => 0,
    };
    m4 == 0 && (m100 != 0 || m400 == 0)
}

pub fn days_in_month(y: i32, m: u32) -> (r: u8)
    requires
        1 <= m <= 12,
    ensures
        r == spec_days_in_month(y as int, m as int),
        28 <= r <= 31,
{
    if m == 2 {
        if is_leap_year(y) {
            29
        } else {
            28
        }
    } else if m == 4 || m == 6 || m == 9 || m == 11 {
        30
    } else {
        31
    }
}

/// A calendar date with a time of day, to the minute.
#[derive(Clone, Copy, PartialEq, Eq, Structural, Debug)]
pub struct DateTime {
    pub year: i32,
    pub month: u32,
    pub day: u32,
    pub hour: u32,
    pub minute: u32,
}

impl DateTime {
    /// A real calendar moment: the month, day-of-month, hour and minute
    /// all lie in range.
    pub open spec fn wf(&self) -> bool {
        &&& 1 <= self.month <= 12
        &&& 1 <= self.day <= spec_days_in_month(self.year as int, self.month as int)
        &&& self.hour < 24
        &&& self.minute < 60
    }

    /// Decides well-formedness of the fields.
    pub fn check(&self) -> (r: bool)
        ensures
            r == self.wf(),
    {
        if self.month < 1 || self.month > 12 {
            return false;
        }
        let dim = days_in_month(self.year, self.month);
        1 <= self.day && self.day <= dim as u32 && self.hour < 24 && self.minute < 60
    }
}

/// How many days before the first day of month `m` of year `y` the week
/// it falls in began: 0 when the month starts on Monday, up to 6 when it
/// starts on Sunday. A function of the date alone.
pub uninterp spec fn weekday_offset(y: int, m: int) -> int;

/// Relies on chrono's NaiveDate::weekday and Weekday::num_days_from_monday:
/// the day-of-week of the first of the month, counted from Monday, is a
/// fixed value below 7 for each year and month.
#[verifier::external_body]
pub(crate) fn first_weekday_offset(y: i32, m: u32) -> (r: u8)
    requires
        1 <= m <= 12,
    ensures
        r as int == weekday_offset(y as int, m as int),
        r < 7,
{
    match chrono::NaiveDate::from_ymd_opt(y, m, 1) {
        Some(d) => d.weekday().num_days_from_monday() as u8,
        None => 0,
    }
}

/// Relies on chrono's Local::now and its Datelike/Timelike accessors: the
/// current wall-clock moment, handed over as plain calendar fields. Which
/// moment comes back depends on the machine; only the field ranges are
/// promised, the year's being the range chrono's dates can hold.
#[verifier::external_body]
pub(crate) fn local_now() -> (r: DateTime)
    ensures
        r.wf(),
        -262143 <= r.year <= 262142,
{
    let now = Local::now();
    DateTime {
        year: now.year(),
        month: now.month(),
        day: now.day(),
        hour: now.hour(),
        minute: now.minute(),
    }
}

} // verus!
