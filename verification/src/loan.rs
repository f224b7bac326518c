//! Loans that are paid back in equal monthly instalments over whole years.

use vstd::prelude::*;

verus! {

/// A loan as its repayment runs: for a number of years, twelve equal
/// instalments a year, the first year being the one in which the loan is
/// taken out.
///
/// The instalment of every loan is small enough for a year's payments to be
/// held in a `u32`.
#[derive(Clone, Copy, Debug, PartialEq, Eq, Structural)]
pub struct YearlyLoan {
    payment_years: u16,
    monthly_payment: u32,
}

impl YearlyLoan {
    #[verifier::type_invariant]
    spec fn is_well_formed(self) -> bool {
        self.monthly_payment * 12 <= u32::MAX
    }

    /// For how many years the loan is paid back.
    pub closed spec fn spec_payment_years(&self) -> u16 {
        self.payment_years
    }

    /// The instalment that is paid each month.
    pub closed spec fn spec_monthly_payment(&self) -> u32 {
        self.monthly_payment
    }

    /// What is paid in a year of the term: twelve instalments.
    pub open spec fn yearly_payment(&self) -> int {
        self.monthly_payment() * 12
    }

    /// What falls due in `year` on a loan taken out in `start_year`: a year's
    /// payments in each of the years of the term, the first of which is
    /// `start_year`, and nothing before or after.
    pub open spec fn payment_due(&self, start_year: int, year: int) -> int {
        if start_year <= year < start_year + self.payment_years() {
            self.yearly_payment()
        } else {
            0
        }
    }

    /// A loan paid back over `payment_years` years in instalments of
    /// `monthly_payment`; `None` if a year's instalments exceed what a `u32`
    /// holds.
    pub fn new(payment_years: u16, monthly_payment: u32) -> (made: Option<YearlyLoan>)
        ensures
            match made {
                Some(loan) => loan.payment_years() == payment_years && loan.monthly_payment()
                    == monthly_payment,
                None => true,
            },
            made is Some <==> monthly_payment * 12 <= u32::MAX,
    {
        if monthly_payment > u32::MAX / 12 {
            return None;
        }
        Some(YearlyLoan { payment_years, monthly_payment })
    }

    /// A loan of `amount` without interest: the amount is spread evenly over
    /// the months of the term, and what does not divide is dropped from each
    /// instalment. `None` if the term has no year at all.
    pub fn interest_free(amount: u32, payment_years: u16) -> (made: Option<YearlyLoan>)
        ensures
            match made {
                Some(loan) => loan.payment_years() == payment_years && loan.monthly_payment()
                    == amount as int / (payment_years * 12),
                None => true,
            },
            made is Some <==> payment_years > 0,
    {
        if payment_years == 0 {
            return None;
        }
        let months: u32 = payment_years as u32 * 12;
        let monthly_payment: u32 = amount / months;
        assert(monthly_payment * 12 <= amount) by (nonlinear_arith)
            requires
                monthly_payment == amount as int / months as int,
                months >= 12,
        ;
        Some(YearlyLoan { payment_years, monthly_payment })
    }

    /// For how many years the loan is paid back.
    #[verifier::when_used_as_spec(spec_payment_years)]
    pub fn payment_years(&self) -> (years: u16)
        ensures
            years == self.payment_years(),
    {
        self.payment_years
    }

    /// The instalment that is paid each month.
    #[verifier::when_used_as_spec(spec_monthly_payment)]
    pub fn monthly_payment(&self) -> (payment: u32)
        ensures
            payment == self.monthly_payment(),
    {
        self.monthly_payment
    }

    /// What is paid in a year of the term.
    pub fn calcurate_yearly_payment(&self) -> (payment: u32)
        ensures
            payment == self.yearly_payment(),
    {
        proof {
            use_type_invariant(self);
        }
        self.monthly_payment * 12
    }

    /// What falls due in `year` on this loan if it was taken out in
    /// `start_year`.
    pub fn payment_in_year(&self, start_year: u16, year: u16) -> (payment: u32)
        ensures
            payment == self.payment_due(start_year as int, year as int),
    {
        if start_year <= year && (year as u32) < start_year as u32 + self.payment_years as u32 {
            self.calcurate_yearly_payment()
        } else {
            0
        }
    }
}

/// An interest-free loan is paid back in full but for what truncation drops:
/// over the whole term the payments never exceed the amount, and fall short
/// of it by less than one unit for each month of the term.
pub proof fn lemma_interest_free_repays_amount(loan: YearlyLoan, amount: u32)
    requires
        loan.payment_years() > 0,
        loan.monthly_payment() == amount as int / (loan.payment_years() * 12),
    ensures
        loan.yearly_payment() == amount as int / (loan.payment_years() * 12)
            * 12,
        loan.yearly_payment() * loan.payment_years() <= amount,
        amount - loan.yearly_payment() * loan.payment_years() < loan.payment_years()
            * 12,
{
    let months: int = loan.payment_years() * 12;
    let monthly: int = loan.monthly_payment() as int;
    let years: int = loan.payment_years() as int;
    assert(monthly * 12 * years == monthly * months && monthly * months <= amount && amount
        - monthly * months < months) by (nonlinear_arith)
        requires
            months == years * 12,
            months > 0,
            monthly == amount as int / months,
    ;
}

} // verus!
