//! Proleptic Gregorian calendar arithmetic: date validity and day of week.
//!
//! Years are kept to four digits (1 through 9999), matching the `YYYY-MM-DD`
//! and `YYYYMMDD` date formats the tool reads and writes.

use vstd::prelude::*;

verus! {

/// The Gregorian leap-year rule.
pub open spec fn is_leap_year(y: int) -> bool {
    (y % 4 == 0 && y % 100 != 0) || y % 400 == 0
}

/// How many days the given month has in the given year.
pub open spec fn days_in_month(y: int, m: int) -> int {
    if m == 2 {
        if is_leap_year(y) {
            29
        } else {
            28
        }
    } else if m == 4 || m == 6 || m == 9 || m == 11 {
        30
    } else {
        31
    }
}

/// Whether (year, month, day) names a real calendar date with a four-digit year.
pub open spec fn is_valid_date(y: int, m: int, d: int) -> bool {
    &&& 1 <= y <= 9999
    &&& 1 <= m <= 12
    &&& 1 <= d <= days_in_month(y, m)
}

/// Checks that (year, month, day) names a real calendar date.
pub fn valid_date(year: i32, month: u32, day: u32) -> (r: bool)
    ensures
        r == is_valid_date(year as int, month as int, day as int),
{
    if year < 1 || year > 9999 || month < 1 || month > 12 || day < 1 {
        return false;
    }
    let days: u32 = if month == 2 {
        if (year % 4 == 0 && year % 100 != 0) || year % 400 == 0 {
            29
        } else {
            28
        }
    } else if month == 4 || month == 6 || month == 9 || month == 11 {
        30
    } else {
        31
    };
    day <= days
}

/// The month's term in the day-of-week congruence (Sakamoto's method).
pub open spec fn month_term(m: int) -> int {
    if m == 1 {
        0
    } else if m == 2 {
        3
    } else if m == 3 {
        2
    } else if m == 4 {
        5
    } else if m == 5 {
        0
    } else if m == 6 {
        3
    } else if m == 7 {
        5
    } else if m == 8 {
        1
    } else if m == 9 {
        4
    } else if m == 10 {
        6
    } else if m == 11 {
        2
    } else {
        4
    }
}

/// The day of week of a date, 0 for Sunday through 6 for Saturday,
/// by Sakamoto's congruence for the proleptic Gregorian calendar.
pub open spec fn spec_weekday(y: int, m: int, d: int) -> int {
    let yy = if m < 3 {
        y - 1
    } else {
        y
    };
    (yy + yy / 4 - yy / 100 + yy / 400 + month_term(m) + d) % 7
}

/// Computes the day of week, 0 for Sunday through 6 for Saturday.
pub fn weekday(year: i32, month: u32, day: u32) -> (r: u32)
    requires
        is_valid_date(year as int, month as int, day as int),
    ensures
        r == spec_weekday(year as int, month as int, day as int),
        r <= 6,
{
    let yy: u32 = if month < 3 {
        (year - 1) as u32
    } else {
        year as u32
    };
    let mt: u32 = if month == 1 {
        0
    } else if month == 2 {
        3
    } else if month == 3 {
        2
    } else if month == 4 {
        5
    } else if month == 5 {
        0
    } else if month == 6 {
        3
    } else if month == 7 {
        5
    } else if month == 8 {
        1
    } else if month == 9 {
        4
    } else if month == 10 {
        6
    } else if month == 11 {
        2
    } else {
        4
    };
    (yy + yy / 4 - yy / 100 + yy / 400 + mt + day) % 7
}

} // verus!
