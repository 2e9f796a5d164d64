//! Gregorian calendar arithmetic: leap years and the hour count of a year.
//!
//! The calendar covers the proleptic Gregorian years from year 0 on: the
//! executable functions take a non-negative year, the range on which the
//! machine's truncating remainder and the mathematical (Euclidean) remainder
//! of the leap rule agree.

use vstd::prelude::*;

verus! {

/// A year is a leap year exactly when it is divisible by 4, except that
/// century years must also be divisible by 400.
pub open spec fn spec_is_leap_year(y: int) -> bool {
    y % 4 == 0 && (y % 100 != 0 || y % 400 == 0)
}

/// Number of days in a calendar year: 366 in a leap year, 365 otherwise.
pub open spec fn spec_days_in_year(y: int) -> int {
    if spec_is_leap_year(y) {
        366
    } else {
        365
    }
}

/// Number of whole hours in a calendar year.
pub open spec fn spec_total_hours_in_year(y: int) -> int {
    24 * spec_days_in_year(y)
}

/// Whether `y` is a leap year in the Gregorian calendar.
pub fn is_leap_year(y: i32) -> (r: bool)
    requires
        y >= 0,
    ensures
        r == spec_is_leap_year(y as int),
{
    y % 4 == 0 && (y % 100 != 0 || y % 400 == 0)
}

/// Number of days in the calendar year `y`.
pub fn days_in_year(y: i32) -> (r: u32)
    requires
        y >= 0,
    ensures
        r == spec_days_in_year(y as int),
{
    if is_leap_year(y) {
        366
    } else {
        365
    }
}

/// Number of whole hours between midnight of January 1 of year `y` and
/// midnight of January 1 of the following year: 8784 in a leap year,
/// 8760 in a common year.
pub fn total_hours_in_year(y: i32) -> (r: u32)
    requires
        y >= 0,
    ensures
        r == spec_total_hours_in_year(y as int),
        spec_is_leap_year(y as int) ==> r == 8784,
        !spec_is_leap_year(y as int) ==> r == 8760,
{
    24 * days_in_year(y)
}

/// A leap year has exactly 8784 hours and a common year exactly 8760.
pub proof fn lemma_total_hours_in_year(y: int)
    ensures
        spec_is_leap_year(y) ==> spec_total_hours_in_year(y) == 8784,
        !spec_is_leap_year(y) ==> spec_total_hours_in_year(y) == 8760,
{
}

} // verus!
