//! Day-range selection: given today's local calendar date, the half-open
//! range `[start of tomorrow, start of the day after tomorrow)` for which
//! rates are requested. Timezone lookup and the ambient clock stay with the
//! caller; this module does the calendar arithmetic on an injected date.

use vstd::prelude::*;

verus! {

/// A calendar date in the proleptic Gregorian calendar, year 1 onward.
#[derive(Debug, Clone, Copy, PartialEq, Eq, Structural)]
pub struct Date {
    pub year: i32,
    pub month: u8,
    pub day: u8,
}

/// Gregorian leap-year rule.
pub open spec fn is_leap_year(y: int) -> bool {
    y % 4 == 0 && (y % 100 != 0 || y % 400 == 0)
}

/// Number of days in month `m` of year `y`.
pub open spec fn days_in_month(y: int, m: int) -> int {
    if m == 2 {
        if is_leap_year(y) {
            29
        } else {
            28
        }
    } else if m == 4 || m == 6 || m == 9 || m == 11 {
        30
    } else {
        31
    }
}

/// A well-formed date: year 1 onward, a real month, and a day that exists in
/// that month of that year.
pub open spec fn date_valid(d: Date) -> bool {
    &&& 1 <= d.year
    &&& 1 <= d.month <= 12
    &&& 1 <= d.day <= days_in_month(d.year as int, d.month as int)
}

/// The date one day later, rolling over month and year ends.
pub open spec fn spec_next_day(d: Date) -> Date {
    if d.day < days_in_month(d.year as int, d.month as int) {
        Date { year: d.year, month: d.month, day: (d.day + 1) as u8 }
    } else if d.month < 12 {
        Date { year: d.year, month: (d.month + 1) as u8, day: 1 }
    } else {
        Date { year: (d.year + 1) as i32, month: 1, day: 1 }
    }
}

/// Whether `y` is a Gregorian leap year.
pub fn leap_year(y: i32) -> (r: bool)
    requires
        y >= 1,
    ensures
        r == is_leap_year(y as int),
{
    y % 4 == 0 && (y % 100 != 0 || y % 400 == 0)
}

/// Number of days in month `m` of year `y`.
pub fn days_in_month_of(y: i32, m: u8) -> (r: u8)
    requires
        y >= 1,
        1 <= m <= 12,
    ensures
        r as int == days_in_month(y as int, m as int),
{
    if m == 2 {
        if leap_year(y) {
            29
        } else {
            28
        }
    } else if m == 4 || m == 6 || m == 9 || m == 11 {
        30
    } else {
        31
    }
}

/// The date one day after `d`.
pub fn next_day(d: &Date) -> (r: Date)
    requires
        date_valid(*d),
        d.year < i32::MAX,
    ensures
        r == spec_next_day(*d),
        date_valid(r),
{
    let dim = days_in_month_of(d.year, d.month);
    if d.day < dim {
        Date { year: d.year, month: d.month, day: d.day + 1 }
    } else if d.month < 12 {
        Date { year: d.year, month: d.month + 1, day: 1 }
    } else {
        Date { year: d.year + 1, month: 1, day: 1 }
    }
}

/// Given today's local date, the start of tomorrow and the start of the day
/// after tomorrow: the half-open day `[r.0, r.1)` whose rates are wanted.
pub fn day_range(today: &Date) -> (r: (Date, Date))
    requires
        date_valid(*today),
        today.year + 2 <= i32::MAX,
    ensures
        r.0 == spec_next_day(*today),
        r.1 == spec_next_day(spec_next_day(*today)),
        date_valid(r.0),
        date_valid(r.1),
{
    let tomorrow = next_day(today);
    let day_after = next_day(&tomorrow);
    (tomorrow, day_after)
}

} // verus!
