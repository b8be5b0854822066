//! Civil-calendar arithmetic for the vesting schedule.
//!
//! Release timestamps advance by one calendar month at a time, so the
//! schedule generator needs the day count of the month a given unix
//! timestamp falls in. Dates are modelled from the unix epoch onward:
//! `spec_date_of_day` walks the calendar one day at a time, which makes
//! the month-length and leap-year rules the single source of truth.

use vstd::prelude::*;

verus! {

/// Seconds in one day.
pub const SECONDS_PER_DAY: u32 = 86400;

/// Seconds in one calendar year (the cliff increment for team vesting).
pub const SECONDS_PER_YEAR: u32 = 31556952;

/// Largest day number reachable from a `u32` unix timestamp.
pub const MAX_DAY_NUMBER: u32 = 49710;

/// A leap year is divisible by 4, and not by 100 unless also by 400.
pub open spec fn spec_is_leap(year: int) -> bool {
    year % 4 == 0 && (year % 100 != 0 || year % 400 == 0)
}

/// Day count of a month (1 = January .. 12 = December).
/// Out-of-range month values fall into the February branch; valid
/// callers never supply them.
pub open spec fn spec_days_in_month(year: int, month: int) -> int {
    if month == 1 || month == 3 || month == 5 || month == 7 || month == 8 || month == 10
        || month == 12 {
        31
    } else if month == 4 || month == 6 || month == 9 || month == 11 {
        30
    } else if spec_is_leap(year) {
        29
    } else {
        28
    }
}

/// A calendar date (proleptic Gregorian, unix-epoch era and later).
#[derive(Clone, Copy, Debug, PartialEq, Eq, Structural)]
pub struct CivilDate {
    pub year: i32,
    pub month: u8,
    pub day: u8,
}

/// The date is one the calendar actually produces.
pub open spec fn date_valid(d: CivilDate) -> bool {
    &&& 1970 <= d.year
    &&& 1 <= d.month <= 12
    &&& 1 <= d.day <= spec_days_in_month(d.year as int, d.month as int)
}

/// The day after `d`.
pub open spec fn spec_next_day(d: CivilDate) -> CivilDate {
    if d.day < spec_days_in_month(d.year as int, d.month as int) {
        CivilDate { year: d.year, month: d.month, day: (d.day + 1) as u8 }
    } else if d.month < 12 {
        CivilDate { year: d.year, month: (d.month + 1) as u8, day: 1 }
    } else {
        CivilDate { year: (d.year + 1) as i32, month: 1, day: 1 }
    }
}

/// The date `n` days after 1970-01-01.
pub open spec fn spec_date_of_day(n: nat) -> CivilDate
    decreases n,
{
    if n == 0 {
        CivilDate { year: 1970, month: 1, day: 1 }
    } else {
        spec_next_day(spec_date_of_day((n - 1) as nat))
    }
}

/// Every day number maps to a valid date, and the year grows by at most
/// one per day.
pub proof fn lemma_date_of_day_valid(n: nat)
    requires
        1970 + n <= i32::MAX,
    ensures
        date_valid(spec_date_of_day(n)),
        spec_date_of_day(n).year <= 1970 + n,
    decreases n,
{
    if n > 0 {
        lemma_date_of_day_valid((n - 1) as nat);
    }
}

/// Whether `year` is a leap year.
pub fn is_leap(year: i32) -> (r: bool)
    ensures
        r == spec_is_leap(year as int),
{
    year % 4 == 0 && (year % 100 != 0 || year % 400 == 0)
}

/// Day count of the given month.
pub fn days_in_month(year: i32, month: u8) -> (r: u8)
    ensures
        r == spec_days_in_month(year as int, month as int),
{
    if month == 1 || month == 3 || month == 5 || month == 7 || month == 8 || month == 10
        || month == 12 {
        31
    } else if month == 4 || month == 6 || month == 9 || month == 11 {
        30
    } else if is_leap(year) {
        29
    } else {
        28
    }
}

/// The calendar date `n` days after the unix epoch.
pub fn civil_from_days(n: u32) -> (d: CivilDate)
    requires
        n <= MAX_DAY_NUMBER,
    ensures
        d == spec_date_of_day(n as nat),
{
    let mut year: i32 = 1970;
    let mut month: u8 = 1;
    let mut day: u8 = 1;
    let mut i: u32 = 0;
    while i < n
        invariant
            i <= n,
            n <= MAX_DAY_NUMBER,
            (CivilDate { year, month, day }) == spec_date_of_day(i as nat),
        decreases n - i,
    {
        proof {
            lemma_date_of_day_valid(i as nat);
        }
        let dim = days_in_month(year, month);
        if day < dim {
            day = day + 1;
        } else if month < 12 {
            month = month + 1;
            day = 1;
        } else {
            year = year + 1;
            month = 1;
            day = 1;
        }
        i = i + 1;
        assert(spec_date_of_day(i as nat) == spec_next_day(spec_date_of_day((i - 1) as nat)));
    }
    CivilDate { year, month, day }
}

/// Seconds spanned by the calendar month that `ts` falls in.
pub open spec fn spec_month_increment(ts: u32) -> int {
    let d = spec_date_of_day((ts / 86400) as nat);
    86400 * spec_days_in_month(d.year as int, d.month as int)
}

/// Length, in seconds, of the month containing `timestamp`: the step
/// between one release and the next.
pub fn parse_increment(timestamp: u32) -> (r: u32)
    ensures
        r == spec_month_increment(timestamp),
        2419200 <= r <= 2678400,
{
    let d = civil_from_days(timestamp / SECONDS_PER_DAY);
    SECONDS_PER_DAY * (days_in_month(d.year, d.month) as u32)
}

} // verus!
