//! Calendar dates with a time of day, and the whole years between two of them.
//!
//! A [`CivilDateTime`] is what a wall clock and a calendar show at one place:
//! no time zone is attached. Its mathematical model is [`CivilTime`].

use vstd::prelude::*;
use chrono::NaiveDate;

verus! {

/// The earliest year that a [`CivilDateTime`] can hold.
pub const MIN_YEAR: i32 = -262143;

/// The latest year that a [`CivilDateTime`] can hold.
pub const MAX_YEAR: i32 = 262142;

/// The model of a date with a time of day: its seven calendar fields as
/// mathematical integers.
pub struct CivilTime {
    pub year: int,
    pub month: int,
    pub day: int,
    pub hour: int,
    pub minute: int,
    pub second: int,
    pub nanosecond: int,
}

/// Whether the year has a 29th of February in the Gregorian calendar, taken
/// to hold for all years.
pub open spec fn is_leap_year(year: int) -> bool {
    year % 4 == 0 && (year % 100 != 0 || year % 400 == 0)
}

/// The number of days of the month in the year, for months 1 to 12.
pub open spec fn days_in_month(year: int, month: int) -> int {
    if month == 2 {
        if is_leap_year(year) {
            29
        } else {
            28
        }
    } else if month == 4 || month == 6 || month == 9 || month == 11 {
        30
    } else {
        31
    }
}

impl CivilTime {
    /// Whether the fields name a day that exists, in a year within range,
    /// and a time of that day. The nanosecond may run into a second
    /// thousand million only within second 59: that is a leap second.
    pub open spec fn is_valid(self) -> bool {
        &&& MIN_YEAR <= self.year <= MAX_YEAR
        &&& 1 <= self.month <= 12
        &&& 1 <= self.day <= days_in_month(self.year, self.month)
        &&& 0 <= self.hour < 24
        &&& 0 <= self.minute < 60
        &&& 0 <= self.second < 60
        &&& 0 <= self.nanosecond < 2_000_000_000
        &&& self.nanosecond >= 1_000_000_000 ==> self.second == 59
    }

    /// Seconds from midnight to the start of the current second.
    pub open spec fn second_of_day(self) -> int {
        self.hour * 3600 + self.minute * 60 + self.second
    }

    /// Whether this comes earlier within its year than `other` within its
    /// own: month, day and time of day are compared in this order, the years
    /// are not looked at.
    pub open spec fn is_earlier_in_year_than(self, other: CivilTime) -> bool {
        ||| self.month < other.month
        ||| self.month == other.month && self.day < other.day
        ||| self.month == other.month && self.day == other.day && self.second_of_day()
            < other.second_of_day()
        ||| self.month == other.month && self.day == other.day && self.second_of_day()
            == other.second_of_day() && self.nanosecond < other.nanosecond
    }
}

/// The fields of a date with a second of the day, as a model value.
pub open spec fn civil_time(
    year: int,
    month: int,
    day: int,
    hour: int,
    minute: int,
    second: int,
) -> CivilTime {
    CivilTime { year, month, day, hour, minute, second, nanosecond: 0 }
}

/// The whole years that lie between `earlier` and `later`: the difference of
/// the two years, less one if `later` has not yet reached the month, day and
/// time of `earlier`. It is negative if `later` lies in a year before
/// `earlier`, or in the same year and before it.
pub open spec fn whole_years_between(later: CivilTime, earlier: CivilTime) -> int {
    later.year - earlier.year - if later.is_earlier_in_year_than(earlier) {
        1int
    } else {
        0int
    }
}

/// A calendar date with a time of day.
///
/// Every value names a day that exists and a time of that day: see
/// [`CivilTime::is_valid`].
#[derive(Clone, Copy, Debug, PartialEq, Eq, Structural)]
pub struct CivilDateTime {
    year: i32,
    month: u32,
    day: u32,
    hour: u32,
    minute: u32,
    second: u32,
    nanosecond: u32,
}

impl View for CivilDateTime {
    type V = CivilTime;

    closed spec fn view(&self) -> CivilTime {
        CivilTime {
            year: self.year as int,
            month: self.month as int,
            day: self.day as int,
            hour: self.hour as int,
            minute: self.minute as int,
            second: self.second as int,
            nanosecond: self.nanosecond as int,
        }
    }
}

/// Whether `year` is a leap year.
fn leap_year(year: i32) -> (leap: bool)
    requires
        MIN_YEAR <= year <= MAX_YEAR,
    ensures
        leap == is_leap_year(year as int),
{
    // Leap years repeat every 400 years: move the year up by a multiple of
    // 400 that makes it positive.
    let shifted: u32 = (year + 262400) as u32;
    shifted % 4 == 0 && (shifted % 100 != 0 || shifted % 400 == 0)
}

/// The number of days of the given month.
fn month_length(year: i32, month: u32) -> (days: u32)
    requires
        MIN_YEAR <= year <= MAX_YEAR,
        1 <= month <= 12,
    ensures
        days == days_in_month(year as int, month as int),
{
    if month == 2 {
        if leap_year(year) {
            29
        } else {
            28
        }
    } else if month == 4 || month == 6 || month == 9 || month == 11 {
        30
    } else {
        31
    }
}

impl CivilDateTime {
    #[verifier::type_invariant]
    spec fn is_well_formed(self) -> bool {
        self@.is_valid()
    }

    /// The date and time with the given fields, on a full second; `None` if
    /// they name no day that exists or no time of a day.
    pub fn new(year: i32, month: u32, day: u32, hour: u32, minute: u32, second: u32) -> (made:
        Option<CivilDateTime>)
        ensures
            match made {
                Some(date) => date@ == civil_time(
                    year as int,
                    month as int,
                    day as int,
                    hour as int,
                    minute as int,
                    second as int,
                ),
                None => true,
            },
            made is Some <==> civil_time(
                year as int,
                month as int,
                day as int,
                hour as int,
                minute as int,
                second as int,
            ).is_valid(),
    {
        if year < MIN_YEAR || year > MAX_YEAR || month < 1 || month > 12 || day < 1 {
            return None;
        }
        if day > month_length(year, month) || hour >= 24 || minute >= 60 || second >= 60 {
            return None;
        }
        Some(CivilDateTime { year, month, day, hour, minute, second, nanosecond: 0 })
    }

    /// The same date and second with the nanosecond replaced; `None` if the
    /// nanosecond is out of range for the second.
    pub fn with_nanosecond(&self, nanosecond: u32) -> (made: Option<CivilDateTime>)
        ensures
            match made {
                Some(date) => date@ == (CivilTime { nanosecond: nanosecond as int, ..self@ }),
                None => true,
            },
            made is Some <==> (nanosecond < 1_000_000_000 || (nanosecond < 2_000_000_000
                && self@.second == 59)),
    {
        proof {
            use_type_invariant(self);
        }
        if nanosecond >= 2_000_000_000 || (nanosecond >= 1_000_000_000 && self.second != 59) {
            return None;
        }
        Some(
            CivilDateTime {
                year: self.year,
                month: self.month,
                day: self.day,
                hour: self.hour,
                minute: self.minute,
                second: self.second,
                nanosecond,
            },
        )
    }

    /// The year.
    pub fn year(&self) -> (year: i32)
        ensures
            year == self@.year,
    {
        self.year
    }

    /// The month of the year, from 1 to 12.
    pub fn month(&self) -> (month: u32)
        ensures
            month == self@.month,
    {
        self.month
    }

    /// The day of the month, from 1.
    pub fn day(&self) -> (day: u32)
        ensures
            day == self@.day,
    {
        self.day
    }

    /// The hour of the day, from 0 to 23.
    pub fn hour(&self) -> (hour: u32)
        ensures
            hour == self@.hour,
    {
        self.hour
    }

    /// The minute of the hour, from 0 to 59.
    pub fn minute(&self) -> (minute: u32)
        ensures
            minute == self@.minute,
    {
        self.minute
    }

    /// The second of the minute, from 0 to 59.
    pub fn second(&self) -> (second: u32)
        ensures
            second == self@.second,
    {
        self.second
    }

    /// The nanosecond of the second; a thousand million or more within a leap
    /// second.
    pub fn nanosecond(&self) -> (nanosecond: u32)
        ensures
            nanosecond == self@.nanosecond,
    {
        self.nanosecond
    }

    /// The whole years from `earlier` to this date and time; `None` if this
    /// one comes first.
    pub fn years_since(&self, earlier: &CivilDateTime) -> (years: Option<u32>)
        ensures
            match years {
                Some(n) => n == whole_years_between(self@, earlier@),
                None => whole_years_between(self@, earlier@) < 0,
            },
    {
        proof {
            use_type_invariant(self);
            use_type_invariant(earlier);
        }
        chrono_years_since(self, earlier)
    }
}

/// Has chrono count the years. Each value is rebuilt with
/// `NaiveDate::from_ymd_opt` and `NaiveDate::and_hms_nano_opt`, which accept
/// the fields of every valid value, and placed in UTC with
/// `NaiveDateTime::and_utc`; `DateTime::years_since` is then called on the
/// later one.
///
/// The contract states what `DateTime::years_since` computes. It subtracts
/// the years, takes one off if the later value's month, day and time of day,
/// compared in this order, come before those of the earlier value, and
/// returns `None` if the result is negative. A chrono time of day is ordered
/// by its second of the day first and its nanosecond second.
#[verifier::external_body]
fn chrono_years_since(later: &CivilDateTime, earlier: &CivilDateTime) -> (years: Option<u32>)
    requires
        later@.is_valid(),
        earlier@.is_valid(),
    ensures
        match years {
            Some(n) => n == whole_years_between(later@, earlier@),
            None => whole_years_between(later@, earlier@) < 0,
        },
{
    let later = NaiveDate::from_ymd_opt(later.year, later.month, later.day)?.and_hms_nano_opt(
        later.hour,
        later.minute,
        later.second,
        later.nanosecond,
    )?;
    let earlier = NaiveDate::from_ymd_opt(earlier.year, earlier.month, earlier.day)?
        .and_hms_nano_opt(earlier.hour, earlier.minute, earlier.second, earlier.nanosecond)?;
    later.and_utc().years_since(earlier.and_utc())
}

} // verus!
