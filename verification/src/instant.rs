//! A point in time, reduced to the fields the year-progress calculation
//! reads: the UTC calendar year, the day of that year, and the hour of day.

use vstd::prelude::*;

use crate::calendar::days_in_year;
use crate::calendar::spec_days_in_year;

verus! {

/// An instant, as the calculator sees it: a UTC calendar year, a 1-based
/// day of that year, and an hour of day.
///
/// The model covers the proleptic Gregorian years from year 0 on; earlier
/// (negative) years are outside it.
#[derive(Clone, Copy, PartialEq, Eq, Structural, Debug)]
pub struct Instant {
    /// Calendar year (UTC), non-negative.
    pub year: i32,
    /// Day of the year, starting from 1.
    pub day_of_year: u32,
    /// Hour of the day, from 0 to 23.
    pub hour: u32,
}

impl Instant {
    /// A well-formed instant: the year is non-negative, the day ordinal
    /// exists in that year, and the hour is an hour of day.
    pub open spec fn wf(self) -> bool {
        &&& 0 <= self.year
        &&& 1 <= self.day_of_year <= spec_days_in_year(self.year as int)
        &&& self.hour <= 23
    }

    /// Builds an instant from raw calendar fields, accepting exactly the
    /// combinations that form a well-formed instant.
    pub fn from_fields(year: i32, day_of_year: u32, hour: u32) -> (r: Option<Instant>)
        ensures
            r is Some <==> (0 <= year && 1 <= day_of_year <= spec_days_in_year(year as int)
                && hour <= 23),
            r matches Some(i) ==> i == (Instant { year, day_of_year, hour }) && i.wf(),
    {
        if 0 <= year && 1 <= day_of_year && day_of_year <= days_in_year(year) && hour <= 23 {
            Some(Instant { year, day_of_year, hour })
        } else {
            None
        }
    }
}

/// Relies on `std::time::SystemTime::now` and `duration_since` (seconds since
/// the Unix epoch, or an error for a clock before it), on
/// `chrono::DateTime::from_timestamp` (the UTC date and time for an in-range
/// timestamp, `None` otherwise), and on chrono's `Datelike` and `Timelike`
/// accessors: `ordinal` is the day of year starting from 1 and never exceeds
/// the year's length, and `hour` is the hour number from 0 to 23. None of
/// these panics; a clock before the epoch or past chrono's date range comes
/// back as `None`.
#[verifier::external_body]
fn utc_now_fields() -> (t: Option<(i32, u32, u32)>)
    ensures
        t matches Some(f) ==> 1 <= f.1 <= spec_days_in_year(f.0 as int) && f.2 <= 23,
{
    let epoch = std::time::SystemTime::now().duration_since(std::time::UNIX_EPOCH).ok()?;
    let secs = i64::try_from(epoch.as_secs()).ok()?;
    let now = chrono::DateTime::from_timestamp(secs, 0)?;
    Some((
        chrono::Datelike::year(&now),
        chrono::Datelike::ordinal(&now),
        chrono::Timelike::hour(&now),
    ))
}

/// The current instant, read from the system clock in UTC. Returns `None`
/// only when the clock cannot be read as a date at all (it stands before the
/// Unix epoch or past chrono's date range); any date the clock does yield
/// lies in year 1970 or later and forms a well-formed instant.
pub fn current_instant() -> (r: Option<Instant>)
    ensures
        r matches Some(i) ==> i.wf(),
{
    match utc_now_fields() {
        Some((year, day_of_year, hour)) => Instant::from_fields(year, day_of_year, hour),
        None => None,
    }
}

} // verus!
