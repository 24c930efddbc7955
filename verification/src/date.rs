//! Gregorian calendar rules.

use vstd::prelude::*;

use crate::types::Date;

verus! {

/// The Gregorian leap-year rule: every fourth year, except centuries that
/// are not multiples of 400.
pub open spec fn leap_year(year: int) -> bool {
    (year % 4 == 0 && year % 100 != 0) || year % 400 == 0
}

/// Number of days of `month` in `year`; 0 when `month` is not in 1..=12.
pub open spec fn month_length(year: int, month: int) -> int {
    if month == 2 {
        if leap_year(year) {
            29
        } else {
            28
        }
    } else if month == 4 || month == 6 || month == 9 || month == 11 {
        30
    } else if 1 <= month <= 12 {
        31
    } else {
        0
    }
}

/// Whether (`year`, `month`, `day`) names a day of the Gregorian calendar.
pub open spec fn calendar_date(year: int, month: int, day: int) -> bool {
    1 <= month <= 12 && 1 <= day <= month_length(year, month)
}

/// Whether `year` is a leap year.
#[must_use]
pub fn is_leap_year(year: u16) -> (leap: bool)
    ensures
        leap == leap_year(year as int),
{
    (year % 4 == 0 && year % 100 != 0) || year % 400 == 0
}

/// Number of days of `month` in `year`, or 0 where there is no such month.
#[must_use]
pub fn days_in_month(year: u16, month: u8) -> (days: u8)
    ensures
        days == month_length(year as int, month as int),
{
    match month {
        1 | 3 | 5 | 7 | 8 | 10 | 12 => 31,
        4 | 6 | 9 | 11 => 30,
        2 if is_leap_year(year) => 29,
        2 => 28,
        _ => 0,
    }
}

/// The date with the given parts, if the calendar has such a day. Every
/// date that a decoder returns is made here.
pub fn validate_date(year: u16, month: u8, day: u8) -> (date: Option<Date>)
    ensures
        date == if calendar_date(year as int, month as int, day as int) {
            Some(Date { year, month, day })
        } else {
            None
        },
        date matches Some(d) ==> d.is_calendar_date(),
{
    if month < 1 || month > 12 {
        return None;
    }
    if day < 1 || day > days_in_month(year, month) {
        return None;
    }
    Some(Date { year, month, day })
}

} // verus!
