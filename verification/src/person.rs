//! The members of a household, and the age by which each is placed in a
//! school year.

use vstd::prelude::*;
use crate::calendar::{civil_time, whole_years_between, CivilDateTime, CivilTime};
use crate::costs::LIFESPAN_YEARS;

verus! {

/// The month of the day by which school years are counted.
pub const CUTOFF_MONTH: u32 = 4;

/// The day, within its month, by which school years are counted.
pub const CUTOFF_DAY: u32 = 2;

/// One member of the household.
#[derive(Debug)]
pub struct Person {
    pub name: String,
    /// The date and time of birth, as the calendar and clock at the place of
    /// birth showed them.
    pub birth_date: CivilDateTime,
    /// Whether this is a child whom the household supports; `false` for the
    /// adults who run it.
    pub is_child: bool,
}

/// The start of the cut-off day in the given year: midnight of April 2.
pub open spec fn school_year_cutoff(year: int) -> CivilTime {
    civil_time(year, CUTOFF_MONTH as int, CUTOFF_DAY as int, 0, 0, 0)
}

/// The age by which a person born at `birth` is placed in the school year of
/// `year`: the whole years lived when the cut-off day of that year begins.
/// Nobody has one before birth, nor past the end of the lifespan.
pub open spec fn grade_age(birth: CivilTime, year: int) -> Option<u8> {
    let years = whole_years_between(school_year_cutoff(year), birth);
    if 0 <= years <= LIFESPAN_YEARS {
        Some(years as u8)
    } else {
        None
    }
}

/// Whether a birthday comes after the start of the cut-off day within a
/// year, so that on the cut-off day the year's birthday is still to come.
pub open spec fn birthday_follows_cutoff(birth: CivilTime) -> bool {
    ||| birth.month > CUTOFF_MONTH
    ||| birth.month == CUTOFF_MONTH && birth.day > CUTOFF_DAY
    ||| birth.month == CUTOFF_MONTH && birth.day == CUTOFF_DAY && (birth.second_of_day() > 0
        || birth.nanosecond > 0)
}

impl Person {
    /// The person's age when the cut-off day of `year` begins; `None` before
    /// birth and past the end of the lifespan.
    pub fn get_grade_age(&self, year: u16) -> (age: Option<u8>)
        ensures
            age == grade_age(self.birth_date@, year as int),
    {
        let cutoff = CivilDateTime::new(year as i32, CUTOFF_MONTH, CUTOFF_DAY, 0, 0, 0);
        match cutoff.unwrap().years_since(&self.birth_date) {
            None => None,
            Some(years) => if years > LIFESPAN_YEARS as u32 {
                None
            } else {
                Some(years as u8)
            },
        }
    }
}

/// The grade age is plain subtraction of years, corrected by one for those
/// whose birthday follows the cut-off: a person has the grade age `age` in
/// `year` if and only if `age` is that number and within the lifespan.
pub proof fn lemma_grade_age_counts_birthdays(birth: CivilTime, year: int, age: u8)
    requires
        birth.is_valid(),
    ensures
        grade_age(birth, year) == Some(age) <==> age <= LIFESPAN_YEARS && age == year - birth.year
            - if birthday_follows_cutoff(birth) {
            1int
        } else {
            0int
        },
{
}

/// From one year to the next a person's grade age, where both years have
/// one, grows by exactly one.
pub proof fn lemma_grade_age_grows_by_one(birth: CivilTime, year: int)
    requires
        birth.is_valid(),
        grade_age(birth, year) is Some,
        grade_age(birth, year + 1) is Some,
    ensures
        grade_age(birth, year + 1)->0 == grade_age(birth, year)->0 + 1,
{
}

/// Once a person has passed the end of the lifespan, no later year has a
/// grade age for that person.
pub proof fn lemma_no_grade_age_past_lifespan(birth: CivilTime, year: int, later: int)
    requires
        birth.is_valid(),
        year <= later,
        whole_years_between(school_year_cutoff(year), birth) > LIFESPAN_YEARS,
    ensures
        grade_age(birth, later) is None,
{
}

} // verus!
