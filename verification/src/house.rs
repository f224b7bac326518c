//! What a home costs its household year by year.

use vstd::prelude::*;
use crate::loan::YearlyLoan;

verus! {

/// How a home is held.
#[derive(Debug)]
pub enum HouseKind {
    /// The home is rented.
    Rental {
        /// The rent for a month.
        rent: u32,
    },
    /// The home is owned.
    Own {
        /// What is paid at once when the home is bought.
        down_payment: u32,
        /// The loan taken out in the first year for the rest of the price,
        /// if any.
        loan: Option<YearlyLoan>,
    },
}

/// A home in which the household lives from `start_year` up to, but not
/// including, `end_year`.
#[derive(Debug)]
pub struct House {
    /// The first year in which the household lives there.
    pub start_year: u16,
    /// The first year in which the household no longer lives there.
    pub end_year: u16,
    /// What moving in costs.
    pub moving_expense: u32,
    /// Whether the home is rented or owned, and on what terms.
    pub kind: HouseKind,
}

/// What is paid in `year` on top of the monthly rents for a lease that began
/// in `start_year`, for a year of the lease: two rents in the first year, as
/// deposit and key money, and one rent in every second year after it, for
/// renewing the lease.
pub open spec fn lease_fees(rent: int, start_year: int, year: int) -> int {
    if year == start_year {
        2 * rent
    } else if (year - start_year) % 2 == 0 {
        rent
    } else {
        0
    }
}

impl House {
    /// Whether the household lives in the home in `year`.
    pub open spec fn is_lived_in(&self, year: int) -> bool {
        self.start_year <= year < self.end_year
    }

    /// What renting or owning the home costs in `year`, moving aside.
    ///
    /// A rented home costs only while the household lives in it: twelve
    /// rents, and the fees of the lease. An owned home costs its down
    /// payment in the first year and the loan's payments during the loan's
    /// term, whether or not the household still lives there.
    pub open spec fn tenure_expense(&self, year: int) -> int {
        match self.kind {
            HouseKind::Rental { rent } => if self.is_lived_in(year) {
                lease_fees(rent as int, self.start_year as int, year) + 12 * rent
            } else {
                0
            },
            HouseKind::Own { down_payment, loan } => (if year == self.start_year {
                down_payment as int
            } else {
                0
            }) + match loan {
                Some(loan) => loan.payment_due(self.start_year as int, year),
                None => 0,
            },
        }
    }

    /// What the home costs in `year`: moving in, in the first year, and what
    /// renting or owning it costs.
    pub open spec fn expense(&self, year: int) -> int {
        (if year == self.start_year {
            self.moving_expense as int
        } else {
            0
        }) + self.tenure_expense(year)
    }

    /// What the home costs in `year`, in a type wide enough for any home.
    pub(crate) fn expense_in(&self, year: u16) -> (expense: u64)
        ensures
            expense == self.expense(year as int),
    {
        let mut expense: u64 = 0;
        if self.start_year == year {
            expense += self.moving_expense as u64;
        }
        match &self.kind {
            HouseKind::Rental { rent } => {
                if self.start_year <= year && year < self.end_year {
                    if self.start_year == year {
                        expense += 2 * (*rent as u64);
                    } else {
                        let residence_years: u16 = year - self.start_year;
                        if residence_years % 2 == 0 {
                            expense += *rent as u64;
                        }
                    }
                    expense += 12 * (*rent as u64);
                }
            },
            HouseKind::Own { down_payment, loan } => {
                if self.start_year == year {
                    expense += *down_payment as u64;
                }
                if let Some(loan) = loan {
                    expense += loan.payment_in_year(self.start_year, year) as u64;
                }
            },
        }
        expense
    }

    /// What the home costs in `year`, for a home whose cost in that year a
    /// `u32` can hold.
    pub fn estimate_expense(&self, year: u16) -> (expense: u32)
        requires
            self.expense(year as int) <= u32::MAX,
        ensures
            expense == self.expense(year as int),
    {
        self.expense_in(year) as u32
    }

    /// What the home costs in `year`; `None` if a `u32` cannot hold it.
    pub fn checked_estimate_expense(&self, year: u16) -> (expense: Option<u32>)
        ensures
            match expense {
                Some(e) => e == self.expense(year as int),
                None => self.expense(year as int) > u32::MAX,
            },
    {
        let expense = self.expense_in(year);
        if expense <= u32::MAX as u64 {
            Some(expense as u32)
        } else {
            None
        }
    }
}

/// A home costs nothing before its first year.
pub proof fn lemma_house_costs_nothing_before_start(house: House, year: int)
    requires
        year < house.start_year,
    ensures
        house.expense(year) == 0,
{
}

/// A rented home costs nothing once the household has left it, its first
/// year aside.
pub proof fn lemma_rental_costs_nothing_after_end(house: House, year: int)
    requires
        house.kind is Rental,
        house.end_year <= year,
        house.start_year != year,
    ensures
        house.expense(year) == 0,
{
}

/// What a rented home costs in the years in which the household lives in
/// it: in the first year moving, two rents and the year's twelve; in a year
/// an even number of years later thirteen rents; in any other year twelve.
pub proof fn lemma_rental_expense_by_year(house: House, year: int)
    requires
        house.is_lived_in(year),
        house.kind is Rental,
    ensures
        year == house.start_year ==> house.expense(year) == house.moving_expense + 14
            * house.kind->rent,
        year != house.start_year && (year - house.start_year) % 2 == 0 ==> house.expense(year)
            == 13 * house.kind->rent,
        (year - house.start_year) % 2 == 1 ==> house.expense(year) == 12 * house.kind->rent,
{
}

} // verus!
