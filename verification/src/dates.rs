//! Civil dates as plain values: a calendar year and a day of that year.
//! Age for the eligibility check is the difference of years, less one when
//! the current day of the year precedes the birth day of the year.

use vstd::prelude::*;

verus! {

/// A calendar date held as its year and its day of the year (1-based).
#[derive(Clone, Copy, Debug, PartialEq, Eq, Structural)]
pub struct CivilDate {
    pub year: i32,
    pub ordinal: u16,
}

impl CivilDate {
    pub fn new(year: i32, ordinal: u16) -> (d: CivilDate)
        ensures
            d.year == year,
            d.ordinal == ordinal,
    {
        CivilDate { year, ordinal }
    }
}

/// Age in completed years at `current` of someone born on `birth`.
pub open spec fn age_in_years(birth: CivilDate, current: CivilDate) -> int {
    current.year - birth.year - (if current.ordinal < birth.ordinal { 1int } else { 0int })
}

/// The eligibility threshold: at least 17 completed years.
pub open spec fn eligible_at(birth: CivilDate, current: CivilDate) -> bool {
    age_in_years(birth, current) >= 17
}

/// Age computation as run by the validators; it agrees with `age_in_years`
/// for every pair of dates, with no overflow.
pub fn compute_age(birth: CivilDate, current: CivilDate) -> (age: i64)
    ensures
        age == age_in_years(birth, current),
{
    let base = current.year as i64 - birth.year as i64;
    if current.ordinal < birth.ordinal {
        base - 1
    } else {
        base
    }
}

/// A birth date exactly seventeen years before the current date (same day of
/// the year, seventeen years earlier) passes the eligibility threshold.
pub proof fn lemma_seventeen_years_exactly_passes(birth: CivilDate, current: CivilDate)
    requires
        birth.year == current.year - 17,
        birth.ordinal == current.ordinal,
    ensures
        eligible_at(birth, current),
        age_in_years(birth, current) == 17,
{
}

/// A birth date exactly seventeen years minus one day before the current
/// date fails the eligibility threshold. The birth date is then one day
/// after the same day of the year seventeen years earlier: either the next
/// ordinal of that year, or the first day of the following year when the
/// anniversary falls on the year's last day.
pub proof fn lemma_seventeen_years_less_a_day_fails(birth: CivilDate, current: CivilDate)
    requires
        current.ordinal >= 1,
        (birth.year == current.year - 17 && birth.ordinal == current.ordinal + 1)
        || (birth.year == current.year - 16 && birth.ordinal == 1),
    ensures
        !eligible_at(birth, current),
        age_in_years(birth, current) == 16,
{
}

/// Relies on `time::OffsetDateTime::now_utc` and `time::Date::{year, ordinal}`:
/// the current UTC date, whose year lies in `-9999..=9999` and whose day of
/// the year lies in `1..=366`.
#[verifier::external_body]
fn fetch_today_utc() -> (d: CivilDate)
    ensures
        -9999 <= d.year <= 9999,
        1 <= d.ordinal <= 366,
{
    let now = time::OffsetDateTime::now_utc().date();
    CivilDate { year: now.year(), ordinal: now.ordinal() }
}

/// The current UTC date.
pub fn today() -> (d: CivilDate)
    ensures
        -9999 <= d.year <= 9999,
        1 <= d.ordinal <= 366,
{
    fetch_today_utc()
}

} // verus!
