//! What a car costs its household year by year.

use vstd::prelude::*;
use crate::loan::YearlyLoan;

verus! {

/// A car that the household keeps from `start_year` up to, but not
/// including, `end_year`.
#[derive(Debug)]
pub struct Car {
    /// The first year in which the car is kept.
    pub start_year: u16,
    /// The first year in which the car is no longer kept.
    pub end_year: u16,
    /// The tax on the type of car, for a year.
    pub annual_car_type_tax: u32,
    /// The tax on the car's weight, for a year.
    pub annual_weight_tax: u32,
    /// The compulsory liability insurance, for a year.
    pub annual_liability_insurance_fee: u32,
    /// The voluntary insurance, for a year.
    pub annual_optional_insurance_fee: u32,
    /// The inspection, spread over the years between two inspections.
    pub annual_inspection_fee: u32,
    /// Fuel for a year.
    pub annual_gas_expense: u32,
    /// Parts that wear out, for a year.
    pub annual_consumables_expense: u32,
    /// What is paid at once when the car is bought.
    pub down_payment: u32,
    /// The loan taken out in `start_year` for the rest of the price, if any.
    pub loan: Option<YearlyLoan>,
}

impl Car {
    /// Whether the car is kept in `year`.
    pub open spec fn is_kept_in(&self, year: int) -> bool {
        self.start_year <= year < self.end_year
    }

    /// What keeping the car costs in each year: taxes, insurance,
    /// inspection, fuel and parts.
    pub open spec fn running_costs(&self) -> int {
        self.annual_car_type_tax + self.annual_weight_tax + self.annual_liability_insurance_fee
            + self.annual_optional_insurance_fee + self.annual_inspection_fee
            + self.annual_gas_expense + self.annual_consumables_expense
    }

    /// What is paid on the car's loan in `year`.
    pub open spec fn loan_payment_due(&self, year: int) -> int {
        match self.loan {
            Some(loan) => loan.payment_due(self.start_year as int, year),
            None => 0,
        }
    }

    /// What the car costs in `year`. Three parts add up, each on its own
    /// condition: the running costs while the car is kept, the down payment
    /// in its first year, and the loan's payments during the loan's term.
    pub open spec fn expense(&self, year: int) -> int {
        (if self.is_kept_in(year) {
            self.running_costs()
        } else {
            0
        }) + (if year == self.start_year {
            self.down_payment as int
        } else {
            0
        }) + self.loan_payment_due(year)
    }

    /// What the car costs in `year`, in a type wide enough for any car.
    pub(crate) fn expense_in(&self, year: u16) -> (expense: u64)
        ensures
            expense == self.expense(year as int),
    {
        let mut expense: u64 = 0;
        if self.start_year <= year && year < self.end_year {
            expense += self.annual_car_type_tax as u64 + self.annual_weight_tax as u64
                + self.annual_liability_insurance_fee as u64
                + self.annual_optional_insurance_fee as u64 + self.annual_inspection_fee as u64
                + self.annual_gas_expense as u64 + self.annual_consumables_expense as u64;
        }
        if self.start_year == year {
            expense += self.down_payment as u64;
        }
        if let Some(loan) = &self.loan {
            expense += loan.payment_in_year(self.start_year, year) as u64;
        }
        expense
    }

    /// What the car costs in `year`, for a car whose cost in that year a
    /// `u32` can hold.
    pub fn estimate_expense(&self, year: u16) -> (expense: u32)
        requires
            self.expense(year as int) <= u32::MAX,
        ensures
            expense == self.expense(year as int),
    {
        self.expense_in(year) as u32
    }

    /// What the car costs in `year`; `None` if a `u32` cannot hold it.
    pub fn checked_estimate_expense(&self, year: u16) -> (expense: Option<u32>)
        ensures
            match expense {
                Some(e) => e == self.expense(year as int),
                None => self.expense(year as int) > u32::MAX,
            },
    {
        let expense = self.expense_in(year);
        if expense <= u32::MAX as u64 {
            Some(expense as u32)
        } else {
            None
        }
    }
}

/// A car costs nothing before its first year.
pub proof fn lemma_car_costs_nothing_before_start(car: Car, year: int)
    requires
        year < car.start_year,
    ensures
        car.expense(year) == 0,
{
}

/// A car without a loan costs nothing once it is no longer kept, its first
/// year aside: the down payment falls due in the first year even if the car
/// is given up at once.
pub proof fn lemma_car_costs_nothing_after_end(car: Car, year: int)
    requires
        car.loan is None,
        car.end_year <= year,
        car.start_year != year,
    ensures
        car.expense(year) == 0,
{
}

/// The down payment is part of the first year's cost and of no other year's:
/// what a car costs in a year after the first does not depend on it.
pub proof fn lemma_down_payment_only_in_first_year(car: Car, other: Car, year: int)
    requires
        year != car.start_year,
        other == (Car { down_payment: other.down_payment, ..car }),
    ensures
        car.expense(year) == other.expense(year),
        car.expense(car.start_year as int) - car.down_payment == other.expense(
            car.start_year as int,
        ) - other.down_payment,
{
}

} // verus!
