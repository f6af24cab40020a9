//! Plain calendar values.
//!
//! Records carry their creation instant and the calendar day they belong to
//! as plain year / month / day / second-of-day values, so that month
//! filtering and well-formedness are ordinary verified arithmetic.

use vstd::prelude::*;

verus! {

/// A calendar day, held as plain year / month / day values.
#[derive(Clone, Copy, Debug, PartialEq, Eq, Structural)]
pub struct CivilDate {
    pub year: i32,
    pub month: u8,
    pub day: u8,
}

/// An instant: a calendar day plus a second within that day.
#[derive(Clone, Copy, Debug, PartialEq, Eq, Structural)]
pub struct CivilDateTime {
    pub date: CivilDate,
    pub second_of_day: u32,
}

pub open spec fn spec_is_leap_year(year: int) -> bool {
    year % 4 == 0 && (year % 100 != 0 || year % 400 == 0)
}

pub open spec fn spec_days_in_month(year: int, month: int) -> int {
    if month == 2 {
        if spec_is_leap_year(year) {
            29
        } else {
            28
        }
    } else if month == 4 || month == 6 || month == 9 || month == 11 {
        30
    } else {
        31
    }
}

impl CivilDate {
    /// A date is well formed when its day exists in its month and year.
    pub open spec fn wf(self) -> bool {
        &&& 1 <= self.year <= 9999
        &&& 1 <= self.month <= 12
        &&& 1 <= self.day <= spec_days_in_month(self.year as int, self.month as int)
    }

    /// Builds a date, rejecting any year / month / day triple that does not
    /// name an existing calendar day.
    pub fn new(year: i32, month: u8, day: u8) -> (r: Option<CivilDate>)
        ensures
            r matches Some(d) ==> d == (CivilDate { year, month, day }) && d.wf(),
            r is None ==> !(CivilDate { year, month, day }).wf(),
    {
        if 1 <= year && year <= 9999 && 1 <= month && month <= 12 && 1 <= day && day
            <= days_in_month(year, month) {
            Some(CivilDate { year, month, day })
        } else {
            None
        }
    }
}

impl CivilDateTime {
    pub open spec fn wf(self) -> bool {
        &&& self.date.wf()
        &&& self.second_of_day < 86400
    }

    /// Builds an instant, rejecting an invalid date or a second outside the day.
    pub fn new(date: CivilDate, second_of_day: u32) -> (r: Option<CivilDateTime>)
        ensures
            r matches Some(t) ==> t == (CivilDateTime { date, second_of_day }) && t.wf(),
            r is None ==> !(CivilDateTime { date, second_of_day }).wf(),
    {
        if 1 <= date.year && date.year <= 9999 && 1 <= date.month && date.month <= 12 && 1
            <= date.day && date.day <= days_in_month(date.year, date.month) && second_of_day
            < 86400 {
            Some(CivilDateTime { date, second_of_day })
        } else {
            None
        }
    }
}

pub fn is_leap_year(year: i32) -> (r: bool)
    requires
        year >= 1,
    ensures
        r == spec_is_leap_year(year as int),
{
    year % 4 == 0 && (year % 100 != 0 || year % 400 == 0)
}

pub fn days_in_month(year: i32, month: u8) -> (r: u8)
    requires
        year >= 1,
        1 <= month <= 12,
    ensures
        r as int == spec_days_in_month(year as int, month as int),
{
    if month == 2 {
        if is_leap_year(year) {
            29
        } else {
            28
        }
    } else if month == 4 || month == 6 || month == 9 || month == 11 {
        30
    } else {
        31
    }
}

} // verus!
