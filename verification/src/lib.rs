//! Year-by-year projection of a household's living expenses.
//!
//! Every cost is a whole number of the smallest currency unit. The executable
//! functions are specified against spec functions over mathematical integers
//! and sequences, and proved to compute exactly those.

pub mod calendar;
pub mod car;
pub mod costs;
pub mod family;
pub mod house;
pub mod life_stage;
pub mod loan;
pub mod person;

pub use calendar::CivilDateTime;
pub use car::Car;
pub use costs::{
    estimate_allowance, estimate_ceremony_expense, estimate_clothing_expense,
    estimate_driver_lincense_aquisition_fees, estimate_extra_education_expense,
    estimate_extracurricular_activities_expense, estimate_leisure_expense,
    estimate_medical_expense, estimate_person_food_expense,
};
pub use family::{
    checked_estimate_family_expenses, checked_estimate_year_expense, checked_total_car_expense,
    checked_total_house_expense, estimate_family_expenses, estimate_member_expenses,
    estimate_person_expense, FamilyExpense, PersonExpense,
};
pub use house::{House, HouseKind};
pub use life_stage::LifeStage;
pub use loan::YearlyLoan;
pub use person::Person;
