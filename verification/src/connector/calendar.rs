//! Calendar time and spans of time, as a driver reports them.

use vstd::prelude::*;
use crate::error::CivilTime;

verus! {

/// True when the year has a twenty-ninth of February in the Gregorian
/// calendar, taken back before its introduction.
pub open spec fn is_leap_year(year: u16) -> bool {
    year % 4 == 0 && (year % 100 != 0 || year % 400 == 0)
}

/// The number of days of a month of a year.
pub open spec fn days_in_month(year: u16, month: u8) -> int {
    if month == 2 {
        if is_leap_year(year) {
            29
        } else {
            28
        }
    } else if month == 4 || month == 6 || month == 9 || month == 11 {
        30
    } else {
        31
    }
}

/// True when the fields name a day that the calendar has and a time of day
/// that a day has. A sixtieth second is none.
pub open spec fn is_on_the_calendar(at: CivilTime) -> bool {
    &&& 1 <= at.month <= 12
    &&& 1 <= at.day <= days_in_month(at.year, at.month)
    &&& at.hour <= 23
    &&& at.minute <= 59
    &&& at.second <= 59
}

/// True when a field is outside the range that any month or day can have.
pub open spec fn has_field_out_of_range(at: CivilTime) -> bool {
    ||| at.month == 0
    ||| at.month > 12
    ||| at.day == 0
    ||| at.day > 31
    ||| at.hour > 23
    ||| at.minute > 59
    ||| at.second > 59
}

/// The days from the first of January of the year 0 to the first of
/// January of `year`: 365 for each year, and one more for each leap year
/// among them.
pub open spec fn days_before_year(year: u16) -> int {
    365 * year + (year + 3) / 4 - (year + 99) / 100 + (year + 399) / 400
}

/// The days from the first of January to the first of `month`, in a year
/// that is not a leap year.
pub open spec fn days_before_month(month: u8) -> int {
    if month <= 1 {
        0
    } else if month == 2 {
        31
    } else if month == 3 {
        59
    } else if month == 4 {
        90
    } else if month == 5 {
        120
    } else if month == 6 {
        151
    } else if month == 7 {
        181
    } else if month == 8 {
        212
    } else if month == 9 {
        243
    } else if month == 10 {
        273
    } else if month == 11 {
        304
    } else {
        334
    }
}

/// The days from the first of January of the year 0 to the day.
pub open spec fn day_number(year: u16, month: u8, day: u8) -> int {
    days_before_year(year) + days_before_month(month) + (if is_leap_year(year) && month > 2 {
        1int
    } else {
        0int
    }) + (day - 1)
}

/// The day number of the first of January 1970, the Unix epoch.
pub open spec fn epoch_day() -> int {
    719528
}

/// The seconds from the Unix epoch to a calendar date and time of day in
/// UTC, leap seconds not counted; `None` where the calendar has no such day
/// or the day no such time.
pub open spec fn epoch_of(at: CivilTime) -> Option<i64> {
    if is_on_the_calendar(at) {
        Some(
            ((day_number(at.year, at.month, at.day) - epoch_day()) * 86400 + at.hour * 3600
                + at.minute * 60 + at.second) as i64,
        )
    } else {
        None
    }
}

/// chrono's `NaiveDate::from_ymd_opt`, `NaiveDate::and_hms_opt`,
/// `NaiveDateTime::and_utc` and `DateTime::timestamp` in a row: the calendar
/// fields are read in the proleptic Gregorian calendar as a time in UTC.
/// Trusted: that there is a result exactly when the calendar has the day
/// and the day has the time, a year of sixteen bits being always within
/// chrono's range; and that the result is the count of seconds since the
/// first of January 1970, at 86400 to the day.
#[verifier::external_body]
pub(crate) fn seconds_since_epoch(at: &CivilTime) -> (r: Option<i64>)
    ensures
        r == epoch_of(*at),
{
    let date = chrono::NaiveDate::from_ymd_opt(at.year.into(), at.month.into(), at.day.into())?;
    let time = date.and_hms_opt(at.hour.into(), at.minute.into(), at.second.into())?;
    Some(time.and_utc().timestamp())
}

/// A span of time that is not negative: whole seconds and the microseconds
/// into the next one.
#[derive(Debug, Clone, Copy, PartialEq, Eq)]
pub struct Elapsed {
    pub seconds: u64,
    pub micros: u32,
}

/// The microseconds in a span given by its parts.
pub open spec fn micros_of_parts(days: u32, hours: u8, minutes: u8, seconds: u8, micros: u32) -> int {
    (((days * 24 + hours) * 60 + minutes) * 60 + seconds) * 1_000_000 + micros
}

impl Elapsed {
    /// True when the microseconds are less than a second.
    pub open spec fn wf(self) -> bool {
        self.micros < 1_000_000
    }

    /// The span in microseconds.
    pub open spec fn total_micros(self) -> int {
        self.seconds * 1_000_000 + self.micros
    }

    /// The span of so many days, hours, minutes, seconds and microseconds.
    /// Microseconds beyond a second carry over into the seconds.
    pub fn from_parts(days: u32, hours: u8, minutes: u8, seconds: u8, micros: u32) -> (e: Elapsed)
        ensures
            e.wf(),
            e.total_micros() == micros_of_parts(days, hours, minutes, seconds, micros),
    {
        let whole: u64 = ((days as u64 * 24 + hours as u64) * 60 + minutes as u64) * 60
            + seconds as u64;
        let carried: u32 = micros / 1_000_000;
        let rest: u32 = micros % 1_000_000;
        Elapsed { seconds: whole + carried as u64, micros: rest }
    }
}

} // verus!
