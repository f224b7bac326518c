//! Yearly costs of one person, by age.
//!
//! Each cost is read from a table. A table lists the first years of life one
//! by one; later ages fall into bands, and the ages past the last band share
//! one closing value, so every age has a cost.

use vstd::prelude::*;
use crate::life_stage::LifeStage;

verus! {

/// The age at which a dependent child is given support towards a wedding.
pub const MARRIAGE_AGE: u8 = 30;

/// The age up to which a person is counted.
pub const LIFESPAN_YEARS: u8 = 80;

/// How much older a parent is than a child.
pub const DIFF_FROM_PARENT_AGE: u8 = 35;

/// The age at which a driver's licence is taken.
pub const DRIVER_LICENCE_AQUISITION_AGE: u8 = 18;

/// Support given towards a child's wedding.
pub const CHILD_MARRIAGE_SUPPORT_EXPENSE: u32 = 1932000;

/// The cost of one parent's funeral.
pub const PARENT_FUNERAL_EXPENSE: u32 = 1861000;

/// The cost of taking a driver's licence.
pub const DRIVER_LICENCE_AQUISITION_EXPENSE: u32 = 302489;

/// The allowance of a dependent child who lives on support.
pub const SUPPORTED_CHILD_ALLOWANCE: u32 = 30000;

/// The allowance of a dependent child who has started working, and of
/// anyone past the last age of the allowance table.
pub const ADULT_ALLOWANCE: u32 = 20000;

/// Leisure and travel for a year past the last age of the leisure table.
pub const ADULT_LEISURE_EXPENSE: u32 = 175000;

/// One person's yearly share of the household's food, before it is scaled
/// by age: what a household of 2.87 spends on food in a month beyond a
/// household of one, divided among the 1.87 others, for twelve months.
pub const PERSON_FOOD_EXPENSE: u32 = (87973 - 39069) * 1200 / 187;

/// A mobile phone for a year: twelve monthly bills, and a year's share of
/// the next handset.
pub const MOBILE_EXPENSE: u32 = 3000 * 12 + 10000;

/// The age from which a person has a mobile phone.
pub const MOBILE_PHONE_AGE: u8 = 10;

/// Clothing for a year at each of the ages 0 to 14: a yearly base of 60564
/// scaled by the share that the age takes of it.
pub const CLOTHING_BY_AGE: [u32; 15] = [
    54778, 45593, 43452, 41243, 42888, 36997, 41130, 41606, 44951, 45022, 48666, 50290, 56922,
    53984, 47952,
];

/// One person's food for a year at each of the ages 0 to 14: a person's
/// yearly share of the household's food, scaled by how much one of that age
/// eats.
pub const FOOD_BY_AGE: [u32; 15] = [
    108635, 151894, 192438, 208014, 221505, 223012, 247726, 257794, 265284, 278265, 300212,
    292465, 329531, 355781, 361212,
];

/// Medical care for a year at each of the ages 0 to 14.
pub const MEDICAL_BY_AGE: [u32; 15] = [
    15027, 16168, 12232, 13030, 14814, 14209, 20840, 22906, 26489, 27330, 23284, 23256, 23608,
    29707, 21903,
];

/// Tutoring and cram school for a year at each of the ages 0 to 17.
pub const EXTRA_EDUCATION_BY_AGE: [u32; 18] = [
    26809, 34193, 35877, 44351, 55861, 55048, 87941, 91968, 109036, 129767, 182600, 224482,
    202826, 251784, 387870, 400000, 500000, 1000000,
];

/// Lessons and other activities outside school for a year at each of the
/// ages 0 to 17.
pub const EXTRACURRICULAR_ACTIVITIES_BY_AGE: [u32; 18] = [
    28090, 38108, 45284, 49827, 77783, 90609, 100251, 112791, 117021, 120734, 113773, 102553,
    88245, 74513, 72897, 60000, 50000, 40000,
];

/// Pocket money and presents for a year at each of the ages 0 to 17.
pub const ALLOWANCE_BY_AGE: [u32; 18] = [
    51284, 33325, 29098, 33985, 30977, 31913, 43203, 35816, 39770, 41291, 42502, 51609, 61493,
    76845, 80005, 85000, 90000, 80000,
];

/// Leisure and travel for a year at each of the ages 0 to 17.
pub const LEISURE_BY_AGE: [u32; 18] = [
    79163, 108488, 125141, 125299, 141137, 146071, 152708, 168690, 182467, 171124, 177438,
    177201, 173200, 174405, 123861, 175000, 175000, 120000,
];

/// Whether the person's own budget, not the household's, carries the
/// person's clothing, food and medical care: a dependent child who lives on
/// support or has started working.
pub open spec fn keeps_own_budget(age: int, is_child: bool) -> bool {
    is_child && (LifeStage::of_age(age).supports_living_alone() || LifeStage::of_age(
        age,
    ) is Working)
}

/// Clothing for a year at the given age.
pub open spec fn clothing_by_age(age: int) -> int {
    if 0 <= age < 15 {
        CLOTHING_BY_AGE@[age] as int
    } else if age <= 17 {
        67133
    } else if age <= 21 {
        86313
    } else if age <= 23 {
        105494
    } else if age <= 25 {
        115085
    } else if age <= 29 {
        124675
    } else if age <= 34 {
        95904
    } else if age <= 39 {
        76723
    } else if age <= 49 {
        57542
    } else if age <= 59 {
        47952
    } else {
        38361
    }
}

/// One person's food for a year at the given age.
pub open spec fn food_by_age(age: int) -> int {
    if 0 <= age < 15 {
        FOOD_BY_AGE@[age] as int
    } else if age <= 17 {
        368436
    } else if age <= 29 {
        335927
    } else if age <= 49 {
        343152
    } else if age <= 64 {
        328703
    } else if age <= 74 {
        307030
    } else {
        270909
    }
}

/// Medical care for a year at the given age.
pub open spec fn medical_by_age(age: int) -> int {
    if 0 <= age < 15 {
        MEDICAL_BY_AGE@[age] as int
    } else if age <= 19 {
        19878
    } else if age <= 24 {
        19923
    } else if age <= 29 {
        24676
    } else if age <= 34 {
        28861
    } else if age <= 39 {
        32068
    } else if age <= 44 {
        36435
    } else if age <= 49 {
        44213
    } else if age <= 54 {
        56040
    } else if age <= 59 {
        88814
    } else if age <= 64 {
        88268
    } else if age <= 69 {
        110511
    } else if age <= 74 {
        93249
    } else {
        57867
    }
}

/// Tutoring and cram school for a year at the given age; nothing once
/// school age is over.
pub open spec fn extra_education_by_age(age: int) -> int {
    if 0 <= age < 18 {
        EXTRA_EDUCATION_BY_AGE@[age] as int
    } else {
        0
    }
}

/// Lessons and other activities outside school for a year at the given
/// age; nothing once school age is over.
pub open spec fn extracurricular_activities_by_age(age: int) -> int {
    if 0 <= age < 18 {
        EXTRACURRICULAR_ACTIVITIES_BY_AGE@[age] as int
    } else {
        0
    }
}

/// Pocket money and presents for a year at the given age.
pub open spec fn allowance_by_age(age: int) -> int {
    if 0 <= age < 18 {
        ALLOWANCE_BY_AGE@[age] as int
    } else {
        ADULT_ALLOWANCE as int
    }
}

/// Leisure and travel for a year at the given age.
pub open spec fn leisure_by_age(age: int) -> int {
    if 0 <= age < 18 {
        LEISURE_BY_AGE@[age] as int
    } else {
        ADULT_LEISURE_EXPENSE as int
    }
}

/// What the household spends on a person's clothing in a year: nothing for
/// one who keeps an own budget, else the amount for the age.
pub open spec fn clothing_expense(age: int, is_child: bool) -> int {
    if keeps_own_budget(age, is_child) {
        0
    } else {
        clothing_by_age(age)
    }
}

/// What the household spends on a person's food in a year, beyond the
/// household's base: nothing for one who keeps an own budget, else the amount
/// for the age.
pub open spec fn person_food_expense(age: int, is_child: bool) -> int {
    if keeps_own_budget(age, is_child) {
        0
    } else {
        food_by_age(age)
    }
}

/// What the household spends on a person's medical care in a year: nothing
/// for one who keeps an own budget, else the amount for the age.
pub open spec fn medical_expense(age: int, is_child: bool) -> int {
    if keeps_own_budget(age, is_child) {
        0
    } else {
        medical_by_age(age)
    }
}

/// A person's allowance for a year. A dependent child who lives on support
/// gets a fixed amount, one who has started working another; everyone else
/// gets the amount for the age.
pub open spec fn allowance(age: int, is_child: bool) -> int {
    if is_child && LifeStage::of_age(age).supports_living_alone() {
        SUPPORTED_CHILD_ALLOWANCE as int
    } else if is_child && LifeStage::of_age(age) is Working {
        ADULT_ALLOWANCE as int
    } else {
        allowance_by_age(age)
    }
}

/// Ceremonies in a year: support for the wedding of a dependent child who
/// reaches the marriage age, and the funerals of both parents of anyone else
/// who reaches the age at which the parents' lifespan ends.
pub open spec fn ceremony_expense(age: int, is_child: bool) -> int {
    if is_child && age == MARRIAGE_AGE {
        CHILD_MARRIAGE_SUPPORT_EXPENSE as int
    } else if !is_child && age == LIFESPAN_YEARS - DIFF_FROM_PARENT_AGE {
        PARENT_FUNERAL_EXPENSE * 2
    } else {
        0
    }
}

/// The driver's licence: its cost in the year of the licence age, nothing in
/// any other.
pub open spec fn driver_licence_fees(age: int) -> int {
    if age == DRIVER_LICENCE_AQUISITION_AGE {
        DRIVER_LICENCE_AQUISITION_EXPENSE as int
    } else {
        0
    }
}

/// A mobile phone for a year: its cost from the age at which a person has
/// one, nothing before.
pub open spec fn mobile_expense(age: int) -> int {
    if age >= MOBILE_PHONE_AGE {
        MOBILE_EXPENSE as int
    } else {
        0
    }
}

/// Whether a dependent child of this age has left the household budget.
fn child_keeps_own_budget(age: u8) -> (own: bool)
    ensures
        own == keeps_own_budget(age as int, true),
{
    let stage = LifeStage::new(age);
    stage.might_need_support_living_alone() || stage == LifeStage::Working
}

/// Clothing for a year.
pub fn estimate_clothing_expense(age: u8, is_child: bool) -> (expense: u32)
    ensures
        expense == clothing_expense(age as int, is_child),
{
    if is_child && child_keeps_own_budget(age) {
        return 0;
    }
    if age < 15 {
        CLOTHING_BY_AGE[age as usize]
    } else if age <= 17 {
        67133
    } else if age <= 21 {
        86313
    } else if age <= 23 {
        105494
    } else if age <= 25 {
        115085
    } else if age <= 29 {
        124675
    } else if age <= 34 {
        95904
    } else if age <= 39 {
        76723
    } else if age <= 49 {
        57542
    } else if age <= 59 {
        47952
    } else {
        38361
    }
}

/// One person's food for a year.
pub fn estimate_person_food_expense(age: u8, is_child: bool) -> (expense: u32)
    ensures
        expense == person_food_expense(age as int, is_child),
{
    if is_child && child_keeps_own_budget(age) {
        return 0;
    }
    if age < 15 {
        FOOD_BY_AGE[age as usize]
    } else if age <= 17 {
        368436
    } else if age <= 29 {
        335927
    } else if age <= 49 {
        343152
    } else if age <= 64 {
        328703
    } else if age <= 74 {
        307030
    } else {
        270909
    }
}

/// Medical care for a year.
pub fn estimate_medical_expense(age: u8, is_child: bool) -> (expense: u32)
    ensures
        expense == medical_expense(age as int, is_child),
{
    if is_child && child_keeps_own_budget(age) {
        return 0;
    }
    if age < 15 {
        MEDICAL_BY_AGE[age as usize]
    } else if age <= 19 {
        19878
    } else if age <= 24 {
        19923
    } else if age <= 29 {
        24676
    } else if age <= 34 {
        28861
    } else if age <= 39 {
        32068
    } else if age <= 44 {
        36435
    } else if age <= 49 {
        44213
    } else if age <= 54 {
        56040
    } else if age <= 59 {
        88814
    } else if age <= 64 {
        88268
    } else if age <= 69 {
        110511
    } else if age <= 74 {
        93249
    } else {
        57867
    }
}

/// Tutoring and cram school for a year.
pub fn estimate_extra_education_expense(age: u8) -> (expense: u32)
    ensures
        expense == extra_education_by_age(age as int),
{
    if age < 18 {
        EXTRA_EDUCATION_BY_AGE[age as usize]
    } else {
        0
    }
}

/// Lessons and activities outside school for a year.
pub fn estimate_extracurricular_activities_expense(age: u8) -> (expense: u32)
    ensures
        expense == extracurricular_activities_by_age(age as int),
{
    if age < 18 {
        EXTRACURRICULAR_ACTIVITIES_BY_AGE[age as usize]
    } else {
        0
    }
}

/// Pocket money and presents for a year.
pub fn estimate_allowance(age: u8, is_child: bool) -> (amount: u32)
    ensures
        amount == allowance(age as int, is_child),
{
    if is_child {
        let stage = LifeStage::new(age);
        if stage.might_need_support_living_alone() {
            return SUPPORTED_CHILD_ALLOWANCE;
        }
        if stage == LifeStage::Working {
            return ADULT_ALLOWANCE;
        }
    }
    if age < 18 {
        ALLOWANCE_BY_AGE[age as usize]
    } else {
        ADULT_ALLOWANCE
    }
}

/// Weddings and funerals in a year.
pub fn estimate_ceremony_expense(age: u8, is_child: bool) -> (expense: u32)
    ensures
        expense == ceremony_expense(age as int, is_child),
{
    let mut expense: u32 = 0;
    if is_child && age == MARRIAGE_AGE {
        expense += CHILD_MARRIAGE_SUPPORT_EXPENSE;
    }
    if !is_child && age == LIFESPAN_YEARS - DIFF_FROM_PARENT_AGE {
        expense += PARENT_FUNERAL_EXPENSE * 2;
    }
    expense
}

/// Leisure and travel for a year.
pub fn estimate_leisure_expense(age: u8) -> (expense: u32)
    ensures
        expense == leisure_by_age(age as int),
{
    if age < 18 {
        LEISURE_BY_AGE[age as usize]
    } else {
        ADULT_LEISURE_EXPENSE
    }
}

/// The driver's licence, in the year in which it is taken.
pub fn estimate_driver_lincense_aquisition_fees(age: u8) -> (fees: u32)
    ensures
        fees == driver_licence_fees(age as int),
{
    if age == DRIVER_LICENCE_AQUISITION_AGE {
        DRIVER_LICENCE_AQUISITION_EXPENSE
    } else {
        0
    }
}

/// A dependent child keeps an own budget from the first age of
/// `UnderGraduate` on, and nobody else ever does.
pub proof fn lemma_own_budget_from_undergraduate(age: int, is_child: bool)
    requires
        0 <= age,
    ensures
        keeps_own_budget(age, is_child) <==> is_child && age
            >= LifeStage::UnderGraduate.first_age(),
{
}

} // verus!
