//! Calendar dates of the driver become days since 1970-01-01.

use vstd::prelude::*;
use crate::error::ExportError;

verus! {

/// A calendar date as the driver hands it out. The calendar is the
/// proleptic Gregorian one; year zero and negative years exist.
#[derive(Debug, Clone, Copy, PartialEq, Eq, Structural)]
pub struct Date {
    pub year: i16,
    pub month: u16,
    pub day: u16,
}

/// Whether `year` has a 29th of February.
pub open spec fn is_leap_year(year: int) -> bool {
    year % 4 == 0 && (year % 100 != 0 || year % 400 == 0)
}

/// The number of days of `year`.
pub open spec fn days_in_year(year: int) -> int {
    if is_leap_year(year) {
        366
    } else {
        365
    }
}

/// The number of days of month `month` of `year`.
pub open spec fn days_in_month(year: int, month: int) -> int {
    if month == 2 {
        if is_leap_year(year) {
            29
        } else {
            28
        }
    } else if month == 4 || month == 6 || month == 9 || month == 11 {
        30
    } else {
        31
    }
}

/// Whether month and day of `date` exist in its year.
pub open spec fn is_valid_date(date: Date) -> bool {
    1 <= date.month <= 12 && 1 <= date.day <= days_in_month(date.year as int, date.month as int)
}

/// Days from 1970-01-01 to the first of January of `year`; negative before
/// 1970.
pub open spec fn days_before_year(year: int) -> int
    decreases
            (if year >= 1970 {
                year - 1970
            } else {
                1970 - year
            }),
{
    if year > 1970 {
        days_before_year(year - 1) + days_in_year(year - 1)
    } else if year < 1970 {
        days_before_year(year + 1) - days_in_year(year)
    } else {
        0
    }
}

/// Days from the first of January of `year` to the first of `month`.
pub open spec fn days_before_month(year: int, month: int) -> int
    decreases month,
{
    if month <= 1 {
        0
    } else {
        days_before_month(year, month - 1) + days_in_month(year, month - 1)
    }
}

/// Days from 1970-01-01 to `date`; negative before 1970.
pub open spec fn days_since_epoch(date: Date) -> int {
    days_before_year(date.year as int) + days_before_month(date.year as int, date.month as int)
        + date.day - 1
}

/// Leap years among the `n` years that end with year `n - 32800`; the shift
/// is a multiple of 400 that makes every 16-bit year positive.
spec fn leap_years_upto(n: int) -> int {
    n / 4 - n / 100 + n / 400
}

/// `days_before_year` without the recursion.
spec fn year_start(year: int) -> int {
    365 * (year - 1970) + leap_years_upto(year + 32799) - 8431
}

/// One more year adds a leap year exactly where it is one.
proof fn lemma_leap_step(n: int)
    requires
        n >= 0,
    ensures
        leap_years_upto(n + 1) - leap_years_upto(n) == (if is_leap_year(n + 1 - 32800) {
            1int
        } else {
            0int
        }),
{
    let m = n + 1;
    assert(m / 4 - n / 4 == if m % 4 == 0 { 1int } else { 0int });
    assert(m / 100 - n / 100 == if m % 100 == 0 { 1int } else { 0int });
    assert(m / 400 - n / 400 == if m % 400 == 0 { 1int } else { 0int });
    assert(m % 400 == 0 ==> m % 100 == 0);
    assert(m % 100 == 0 ==> m % 4 == 0);
    assert((m - 32800) % 4 == m % 4);
    assert((m - 32800) % 100 == m % 100);
    assert((m - 32800) % 400 == m % 400);
}

proof fn lemma_year_start(year: int)
    requires
        -32768 <= year <= 32768,
    ensures
        days_before_year(year) == year_start(year),
    decreases
            (if year >= 1970 {
                year - 1970
            } else {
                1970 - year
            }),
{
    if year > 1970 {
        lemma_year_start(year - 1);
        lemma_leap_step(year + 32798);
    } else if year < 1970 {
        lemma_year_start(year + 1);
        lemma_leap_step(year + 32799);
    } else {
        assert(leap_years_upto(34769int) == 8431);
    }
}

/// Whether `year` has a 29th of February.
pub fn leap_year(year: i16) -> (leap: bool)
    ensures
        leap == is_leap_year(year as int),
{
    // Shifted by a multiple of 400, so that the remainders are those of a
    // positive number.
    let shifted: i32 = year as i32 + 32800;
    shifted % 4 == 0 && (shifted % 100 != 0 || shifted % 400 == 0)
}

/// Days from the first of January to the first of `month`.
fn month_start(leap: bool, month: u16) -> (days: i32)
    requires
        1 <= month <= 12,
    ensures
        forall|year: int| is_leap_year(year) == leap ==> days == days_before_month(year, month as int),
        0 <= days <= 335,
{
    let common: i32 = if month == 1 {
        0
    } else if month == 2 {
        31
    } else if month == 3 {
        59
    } else if month == 4 {
        90
    } else if month == 5 {
        120
    } else if month == 6 {
        151
    } else if month == 7 {
        181
    } else if month == 8 {
        212
    } else if month == 9 {
        243
    } else if month == 10 {
        273
    } else if month == 11 {
        304
    } else {
        334
    };
    proof {
        reveal_with_fuel(days_before_month, 13);
    }
    if leap && month > 2 {
        common + 1
    } else {
        common
    }
}

/// The number of days of `month` in a year that is `leap` or not.
fn month_length(leap: bool, month: u16) -> (days: u16)
    requires
        1 <= month <= 12,
    ensures
        forall|year: int| is_leap_year(year) == leap ==> days == days_in_month(year, month as int),
{
    if month == 2 {
        if leap {
            29
        } else {
            28
        }
    } else if month == 4 || month == 6 || month == 9 || month == 11 {
        30
    } else {
        31
    }
}

/// Converts a calendar date to days since 1970-01-01, in the proleptic
/// Gregorian calendar and without any shift of time zone. Fails with
/// `ValueOutOfRange` exactly where the month or the day does not exist.
pub fn date_to_days(date: Date) -> (result: Result<i32, ExportError>)
    ensures
        result is Ok <==> is_valid_date(date),
        result matches Ok(days) ==> days == days_since_epoch(date),
        result matches Err(e) ==> e == ExportError::ValueOutOfRange,
{
    if date.month < 1 || date.month > 12 {
        return Err(ExportError::ValueOutOfRange);
    }
    let leap = leap_year(date.year);
    if date.day < 1 || date.day > month_length(leap, date.month) {
        return Err(ExportError::ValueOutOfRange);
    }
    let n: i32 = date.year as i32 + 32799;
    let leaps: i32 = n / 4 - n / 100 + n / 400;
    proof {
        lemma_year_start(date.year as int);
    }
    let year_days: i32 = 365 * (date.year as i32 - 1970) + leaps - 8431;
    Ok(year_days + month_start(leap, date.month) + (date.day as i32 - 1))
}

/// The days of every date that exists lie within a span that 32 bits hold
/// many times over.
pub proof fn lemma_days_since_epoch_bounds(date: Date)
    requires
        is_valid_date(date),
    ensures
        -12_688_000 <= days_since_epoch(date) <= 11_249_000,
{
    lemma_year_start(date.year as int);
    reveal_with_fuel(days_before_month, 13);
}

} // verus!
