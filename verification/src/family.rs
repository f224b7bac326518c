//! The household's expenses, year by year.
//!
//! A year's record holds what the household spends as a whole (cars, homes
//! and the base of food, utilities and furniture) and, for each member who
//! has a grade age in that year, what is spent on the member.

use vstd::prelude::*;
use crate::calendar::whole_years_between;
use crate::car::Car;
use crate::costs::{
    allowance, ceremony_expense, clothing_expense, driver_licence_fees, estimate_allowance,
    estimate_ceremony_expense, estimate_clothing_expense,
    estimate_driver_lincense_aquisition_fees, estimate_extra_education_expense,
    estimate_extracurricular_activities_expense, estimate_leisure_expense,
    estimate_medical_expense, estimate_person_food_expense, extra_education_by_age,
    extracurricular_activities_by_age, leisure_by_age, medical_expense, mobile_expense,
    person_food_expense, LIFESPAN_YEARS, MOBILE_EXPENSE, MOBILE_PHONE_AGE, PERSON_FOOD_EXPENSE,
};
use crate::house::House;
use crate::life_stage::LifeStage;
use crate::person::{grade_age, school_year_cutoff, Person};

verus! {

/// Setting up a home of one's own: the contract and the move.
pub const INITIAL_LIVING_ALONE_EXPENSE: u32 = 480000;

/// A year of living alone on support: twelve months of rent and allowance,
/// and a year's share of the fee for renewing the lease.
pub const ANNUAL_LIVING_ALONE_EXPENSE: u32 = 200000 * 12 + 40000;

/// One person's yearly share of the household's utilities: what a household
/// of 2.87 spends in a month beyond a household of one, divided among the
/// 1.87 others, for twelve months.
pub const PERSON_FUEL_LIGHT_WATER_GAS_ETC_EXPENSE: u32 = (22846 - 13098) * 1200 / 187;

/// One person's yearly share of the household's furniture, found as for the
/// utilities.
pub const PERSON_FURNITURE_EXPENSE: u32 = (11587 - 5487) * 1200 / 187;

/// The food that a household buys in a year whoever lives in it: a year of a
/// single person's food, less one person's share.
pub const BASE_FOOD_EXPENSE: u32 = 39069 * 12 - PERSON_FOOD_EXPENSE;

/// The utilities that a household pays in a year whoever lives in it.
pub const BASE_FUEL_LIGHT_WATER_GAS_ETC_EXPENSE: u32 = 13098 * 12
    - PERSON_FUEL_LIGHT_WATER_GAS_ETC_EXPENSE;

/// The furniture that a household buys in a year whoever lives in it.
pub const BASE_FURNITURE_EXPENSE: u32 = 5487 * 12 - PERSON_FURNITURE_EXPENSE;

/// What the household spends on one member in one year.
#[derive(Debug, PartialEq, Eq)]
pub struct PersonExpense {
    pub name: String,
    pub clothing_expense: u32,
    pub food_expense: u32,
    pub fuel_light_water_gas_etc_expense: u32,
    pub furniture_expense: u32,
    pub medical_expense: u32,
    pub education_expense: u32,
    pub extra_education_expense: u32,
    pub extracurricular_activities_expense: u32,
    pub mobile_expense: u32,
    pub allowance: u32,
    pub living_alone_expense: u32,
    pub ceremony_expense: u32,
    pub leisure_expense: u32,
    pub driver_lincense_aquisition_fees: u32,
}

/// What the household spends in one year.
#[derive(Debug, PartialEq, Eq)]
pub struct FamilyExpense {
    pub car_expense: u32,
    pub house_expense: u32,
    pub food_expense: u32,
    pub fuel_light_water_gas_etc_expense: u32,
    pub furniture_expense: u32,
    /// One record for each member who has a grade age in the year, in the
    /// order of the roster.
    pub member_expenses: Vec<PersonExpense>,
}

/// The model of a [`PersonExpense`].
pub struct PersonExpenseView {
    pub name: Seq<char>,
    pub clothing_expense: int,
    pub food_expense: int,
    pub fuel_light_water_gas_etc_expense: int,
    pub furniture_expense: int,
    pub medical_expense: int,
    pub education_expense: int,
    pub extra_education_expense: int,
    pub extracurricular_activities_expense: int,
    pub mobile_expense: int,
    pub allowance: int,
    pub living_alone_expense: int,
    pub ceremony_expense: int,
    pub leisure_expense: int,
    pub driver_lincense_aquisition_fees: int,
}

/// The model of a [`FamilyExpense`].
pub struct FamilyExpenseView {
    pub car_expense: int,
    pub house_expense: int,
    pub food_expense: int,
    pub fuel_light_water_gas_etc_expense: int,
    pub furniture_expense: int,
    pub member_expenses: Seq<PersonExpenseView>,
}

impl View for PersonExpense {
    type V = PersonExpenseView;

    open spec fn view(&self) -> PersonExpenseView {
        PersonExpenseView {
            name: self.name@,
            clothing_expense: self.clothing_expense as int,
            food_expense: self.food_expense as int,
            fuel_light_water_gas_etc_expense: self.fuel_light_water_gas_etc_expense as int,
            furniture_expense: self.furniture_expense as int,
            medical_expense: self.medical_expense as int,
            education_expense: self.education_expense as int,
            extra_education_expense: self.extra_education_expense as int,
            extracurricular_activities_expense: self.extracurricular_activities_expense as int,
            mobile_expense: self.mobile_expense as int,
            allowance: self.allowance as int,
            living_alone_expense: self.living_alone_expense as int,
            ceremony_expense: self.ceremony_expense as int,
            leisure_expense: self.leisure_expense as int,
            driver_lincense_aquisition_fees: self.driver_lincense_aquisition_fees as int,
        }
    }
}

/// The models of a sequence of member records, one for one.
pub open spec fn member_views(members: Seq<PersonExpense>) -> Seq<PersonExpenseView> {
    Seq::new(members.len(), |i: int| members[i]@)
}

impl View for FamilyExpense {
    type V = FamilyExpenseView;

    open spec fn view(&self) -> FamilyExpenseView {
        FamilyExpenseView {
            car_expense: self.car_expense as int,
            house_expense: self.house_expense as int,
            food_expense: self.food_expense as int,
            fuel_light_water_gas_etc_expense: self.fuel_light_water_gas_etc_expense as int,
            furniture_expense: self.furniture_expense as int,
            member_expenses: member_views(self.member_expenses@),
        }
    }
}

/// The models of a sequence of yearly records, one for one.
pub open spec fn yearly_views(records: Seq<FamilyExpense>) -> Seq<FamilyExpenseView> {
    Seq::new(records.len(), |i: int| records[i]@)
}

/// Whether the person lives away from the household on its support in the
/// year of this age: a dependent child in a stage of higher education.
pub open spec fn lives_alone_on_support(age: int, is_child: bool) -> bool {
    is_child && LifeStage::of_age(age).supports_living_alone()
}

/// Whether a dependent child enters a new stage in the year of this age: the
/// stage differs from that of the year before. Nobody enters a stage at age
/// zero.
pub open spec fn enters_stage(age: int, is_child: bool) -> bool {
    is_child && age >= 1 && LifeStage::of_age(age) != LifeStage::of_age(age - 1)
}

/// Whether a dependent child moves out in the year of this age: the stage
/// is one of living alone on support, and that of the year before was not.
pub open spec fn starts_living_alone(age: int, is_child: bool) -> bool {
    is_child && age >= 1 && LifeStage::of_age(age).supports_living_alone() && !LifeStage::of_age(
        age - 1,
    ).supports_living_alone()
}

/// Whether the person takes a share of the household's utilities and
/// furniture: not one who lives alone on support, and nobody in the
/// `Working` stage.
pub open spec fn shares_household(age: int, is_child: bool) -> bool {
    !lives_alone_on_support(age, is_child) && !(LifeStage::of_age(age) is Working)
}

/// School for a year: the stage's tuition, and on entering the stage its
/// fees as well.
pub open spec fn education_expense(age: int, is_child: bool) -> int {
    LifeStage::of_age(age).annual_tuition() + if enters_stage(age, is_child) {
        LifeStage::of_age(age).initial_school_fees()
    } else {
        0
    }
}

/// Living alone for a year: the year's support while the person lives alone
/// on it, and in the year of moving out the cost of setting up as well.
pub open spec fn living_alone_expense(age: int, is_child: bool) -> int {
    (if starts_living_alone(age, is_child) {
        INITIAL_LIVING_ALONE_EXPENSE as int
    } else {
        0
    }) + (if lives_alone_on_support(age, is_child) {
        ANNUAL_LIVING_ALONE_EXPENSE as int
    } else {
        0
    })
}

/// What the household spends in a year on a member of the given name, kind
/// and grade age.
pub open spec fn person_expense(name: Seq<char>, is_child: bool, age: int) -> PersonExpenseView {
    PersonExpenseView {
        name,
        clothing_expense: clothing_expense(age, is_child),
        food_expense: person_food_expense(age, is_child),
        fuel_light_water_gas_etc_expense: if shares_household(age, is_child) {
            PERSON_FUEL_LIGHT_WATER_GAS_ETC_EXPENSE as int
        } else {
            0
        },
        furniture_expense: if shares_household(age, is_child) {
            PERSON_FURNITURE_EXPENSE as int
        } else {
            0
        },
        medical_expense: medical_expense(age, is_child),
        education_expense: education_expense(age, is_child),
        extra_education_expense: extra_education_by_age(age),
        extracurricular_activities_expense: extracurricular_activities_by_age(age),
        mobile_expense: mobile_expense(age),
        allowance: allowance(age, is_child),
        living_alone_expense: living_alone_expense(age, is_child),
        ceremony_expense: ceremony_expense(age, is_child),
        leisure_expense: leisure_by_age(age),
        driver_lincense_aquisition_fees: driver_licence_fees(age),
    }
}

/// The member records of a year: the roster is gone through in order, and
/// each member who has a grade age in `year` adds one record.
pub open spec fn member_expenses(people: Seq<Person>, year: int) -> Seq<PersonExpenseView>
    decreases people.len(),
{
    if people.len() == 0 {
        Seq::empty()
    } else {
        let earlier = member_expenses(people.drop_last(), year);
        let person = people.last();
        match grade_age(person.birth_date@, year) {
            Some(age) => earlier.push(person_expense(person.name@, person.is_child, age as int)),
            None => earlier,
        }
    }
}

/// Whether a member has a grade age in `year`, as a test on members.
pub open spec fn has_grade_age_in(year: int) -> spec_fn(Person) -> bool {
    |person: Person| grade_age(person.birth_date@, year) is Some
}

/// A member's record of `year`, as a function on the members who have a
/// grade age in that year.
pub open spec fn record_in(year: int) -> spec_fn(Person) -> PersonExpenseView {
    |person: Person|
        person_expense(
            person.name@,
            person.is_child,
            grade_age(person.birth_date@, year)->0 as int,
        )
}

/// What all the cars together cost in `year`.
pub open spec fn total_car_expense(cars: Seq<Car>, year: int) -> int
    decreases cars.len(),
{
    if cars.len() == 0 {
        0
    } else {
        total_car_expense(cars.drop_last(), year) + cars.last().expense(year)
    }
}

/// What all the homes together cost in `year`.
pub open spec fn total_house_expense(houses: Seq<House>, year: int) -> int
    decreases houses.len(),
{
    if houses.len() == 0 {
        0
    } else {
        total_house_expense(houses.drop_last(), year) + houses.last().expense(year)
    }
}

/// The household's record of `year`: what cars and homes cost, the fixed
/// bases of food, utilities and furniture, and the members' records.
pub open spec fn year_expense(
    people: Seq<Person>,
    cars: Seq<Car>,
    houses: Seq<House>,
    year: int,
) -> FamilyExpenseView {
    FamilyExpenseView {
        car_expense: total_car_expense(cars, year),
        house_expense: total_house_expense(houses, year),
        food_expense: BASE_FOOD_EXPENSE as int,
        fuel_light_water_gas_etc_expense: BASE_FUEL_LIGHT_WATER_GAS_ETC_EXPENSE as int,
        furniture_expense: BASE_FURNITURE_EXPENSE as int,
        member_expenses: member_expenses(people, year),
    }
}

/// The household's records of `years` years in a row, the first being
/// `start_year`.
pub open spec fn family_expenses(
    people: Seq<Person>,
    cars: Seq<Car>,
    houses: Seq<House>,
    start_year: int,
    years: int,
) -> Seq<FamilyExpenseView> {
    Seq::new(years as nat, |i: int| year_expense(people, cars, houses, start_year + i))
}

/// Whether a `u32` can hold what the cars cost in `year`, and what the homes
/// cost.
pub open spec fn shared_costs_fit(cars: Seq<Car>, houses: Seq<House>, year: int) -> bool {
    total_car_expense(cars, year) <= u32::MAX && total_house_expense(houses, year) <= u32::MAX
}

/// Whether the records of the years from `start_year` on can be held: every
/// year is one that a `u16` can name, and in every year a `u32` can hold the
/// cost of the cars and that of the homes.
pub open spec fn horizon_fits(
    cars: Seq<Car>,
    houses: Seq<House>,
    start_year: int,
    years: int,
) -> bool {
    &&& start_year + years <= u16::MAX + 1
    &&& forall|year: int|
        start_year <= year < start_year + years ==> #[trigger] shared_costs_fit(cars, houses, year)
}

/// What the household spends on `person` in a year in which the person's
/// grade age is `age`.
pub fn estimate_person_expense(person: &Person, age: u8) -> (expense: PersonExpense)
    ensures
        expense@ == person_expense(person.name@, person.is_child, age as int),
{
    let stage = LifeStage::new(age);
    let needs_living_alone_expense = person.is_child && stage.might_need_support_living_alone();
    let mut needs_school_initial_fees = false;
    let mut needs_initial_living_alone_expense = false;
    if age >= 1 {
        let prev_stage = LifeStage::new(age - 1);
        needs_school_initial_fees = person.is_child && stage != prev_stage;
        needs_initial_living_alone_expense = needs_living_alone_expense
            && !prev_stage.might_need_support_living_alone();
    }
    let shares_household = !needs_living_alone_expense && stage != LifeStage::Working;

    let mut education_expense: u32 = stage.estimate_annual_tuition();
    if needs_school_initial_fees {
        education_expense += stage.estimate_initial_school_fees();
    }
    let mut living_alone_expense: u32 = 0;
    if needs_initial_living_alone_expense {
        living_alone_expense += INITIAL_LIVING_ALONE_EXPENSE;
    }
    if needs_living_alone_expense {
        living_alone_expense += ANNUAL_LIVING_ALONE_EXPENSE;
    }
    PersonExpense {
        name: person.name.clone(),
        clothing_expense: estimate_clothing_expense(age, person.is_child),
        food_expense: estimate_person_food_expense(age, person.is_child),
        fuel_light_water_gas_etc_expense: if shares_household {
            PERSON_FUEL_LIGHT_WATER_GAS_ETC_EXPENSE
        } else {
            0
        },
        furniture_expense: if shares_household {
            PERSON_FURNITURE_EXPENSE
        } else {
            0
        },
        medical_expense: estimate_medical_expense(age, person.is_child),
        education_expense,
        extra_education_expense: estimate_extra_education_expense(age),
        extracurricular_activities_expense: estimate_extracurricular_activities_expense(age),
        mobile_expense: if age >= MOBILE_PHONE_AGE {
            MOBILE_EXPENSE
        } else {
            0
        },
        allowance: estimate_allowance(age, person.is_child),
        living_alone_expense,
        ceremony_expense: estimate_ceremony_expense(age, person.is_child),
        leisure_expense: estimate_leisure_expense(age),
        driver_lincense_aquisition_fees: estimate_driver_lincense_aquisition_fees(age),
    }
}

/// No car has a negative cost, so the cost of some of the cars, taken from
/// the front of the list, never exceeds that of all.
pub proof fn lemma_total_car_expense_grows(cars: Seq<Car>, count: int, year: int)
    requires
        0 <= count <= cars.len(),
    ensures
        0 <= total_car_expense(cars.take(count), year) <= total_car_expense(cars, year),
    decreases cars.len(),
{
    if count == cars.len() {
        assert(cars.take(count) =~= cars);
        if cars.len() > 0 {
            lemma_total_car_expense_grows(cars.drop_last(), count - 1, year);
            assert(cars.drop_last().take(count - 1) =~= cars.drop_last());
        }
    } else {
        lemma_total_car_expense_grows(cars.drop_last(), count, year);
        assert(cars.drop_last().take(count) =~= cars.take(count));
    }
}

/// No home has a negative cost, so the cost of some of the homes, taken from
/// the front of the list, never exceeds that of all.
pub proof fn lemma_total_house_expense_grows(houses: Seq<House>, count: int, year: int)
    requires
        0 <= count <= houses.len(),
    ensures
        0 <= total_house_expense(houses.take(count), year) <= total_house_expense(houses, year),
    decreases houses.len(),
{
    if count == houses.len() {
        assert(houses.take(count) =~= houses);
        if houses.len() > 0 {
            lemma_total_house_expense_grows(houses.drop_last(), count - 1, year);
            assert(houses.drop_last().take(count - 1) =~= houses.drop_last());
        }
    } else {
        lemma_total_house_expense_grows(houses.drop_last(), count, year);
        assert(houses.drop_last().take(count) =~= houses.take(count));
    }
}

/// The records of the members who have a grade age in `year`, in the order
/// of the roster.
pub fn estimate_member_expenses(people: &Vec<Person>, year: u16) -> (members: Vec<PersonExpense>)
    ensures
        member_views(members@) == member_expenses(people@, year as int),
{
    let mut members: Vec<PersonExpense> = Vec::new();
    let mut i: usize = 0;
    while i < people.len()
        invariant
            i <= people.len(),
            member_views(members@) == member_expenses(people@.take(i as int), year as int),
        decreases people.len() - i,
    {
        let person = &people[i];
        proof {
            assert(people@.take(i + 1).drop_last() =~= people@.take(i as int));
            assert(people@.take(i + 1).last() == people@[i as int]);
        }
        let ghost before = members@;
        if let Some(age) = person.get_grade_age(year) {
            let expense = estimate_person_expense(person, age);
            members.push(expense);
            assert(member_views(members@) =~= member_views(before).push(expense@));
        }
        i += 1;
    }
    proof {
        assert(people@.take(people.len() as int) =~= people@);
    }
    members
}

/// What all the cars together cost in `year`; `None` if a `u32` cannot hold
/// it.
pub fn checked_total_car_expense(cars: &Vec<Car>, year: u16) -> (total: Option<u32>)
    ensures
        match total {
            Some(t) => t == total_car_expense(cars@, year as int),
            None => total_car_expense(cars@, year as int) > u32::MAX,
        },
{
    let mut total: u64 = 0;
    let mut i: usize = 0;
    while i < cars.len()
        invariant
            i <= cars.len(),
            total <= u32::MAX,
            total == total_car_expense(cars@.take(i as int), year as int),
        decreases cars.len() - i,
    {
        proof {
            assert(cars@.take(i + 1).drop_last() =~= cars@.take(i as int));
            assert(cars@.take(i + 1).last() == cars@[i as int]);
        }
        total += cars[i].expense_in(year);
        i += 1;
        if total > u32::MAX as u64 {
            proof {
                lemma_total_car_expense_grows(cars@, i as int, year as int);
            }
            return None;
        }
    }
    proof {
        assert(cars@.take(cars.len() as int) =~= cars@);
    }
    Some(total as u32)
}

/// What all the homes together cost in `year`; `None` if a `u32` cannot hold
/// it.
pub fn checked_total_house_expense(houses: &Vec<House>, year: u16) -> (total: Option<u32>)
    ensures
        match total {
            Some(t) => t == total_house_expense(houses@, year as int),
            None => total_house_expense(houses@, year as int) > u32::MAX,
        },
{
    let mut total: u64 = 0;
    let mut i: usize = 0;
    while i < houses.len()
        invariant
            i <= houses.len(),
            total <= u32::MAX,
            total == total_house_expense(houses@.take(i as int), year as int),
        decreases houses.len() - i,
    {
        proof {
            assert(houses@.take(i + 1).drop_last() =~= houses@.take(i as int));
            assert(houses@.take(i + 1).last() == houses@[i as int]);
        }
        total += houses[i].expense_in(year);
        i += 1;
        if total > u32::MAX as u64 {
            proof {
                lemma_total_house_expense_grows(houses@, i as int, year as int);
            }
            return None;
        }
    }
    proof {
        assert(houses@.take(houses.len() as int) =~= houses@);
    }
    Some(total as u32)
}

/// The household's record of `year`; `None` if a `u32` cannot hold what the
/// cars or the homes cost in that year.
pub fn checked_estimate_year_expense(
    people: &Vec<Person>,
    cars: &Vec<Car>,
    houses: &Vec<House>,
    year: u16,
) -> (record: Option<FamilyExpense>)
    ensures
        match record {
            Some(r) => r@ == year_expense(people@, cars@, houses@, year as int),
            None => !shared_costs_fit(cars@, houses@, year as int),
        },
{
    let car_expense = match checked_total_car_expense(cars, year) {
        Some(total) => total,
        None => {
            return None;
        },
    };
    let house_expense = match checked_total_house_expense(houses, year) {
        Some(total) => total,
        None => {
            return None;
        },
    };
    Some(
        FamilyExpense {
            car_expense,
            house_expense,
            food_expense: BASE_FOOD_EXPENSE,
            fuel_light_water_gas_etc_expense: BASE_FUEL_LIGHT_WATER_GAS_ETC_EXPENSE,
            furniture_expense: BASE_FURNITURE_EXPENSE,
            member_expenses: estimate_member_expenses(people, year),
        },
    )
}

/// The household's records of `years` years in a row, the first being
/// `start_year`; `None` if they cannot be held: see [`horizon_fits`].
pub fn checked_estimate_family_expenses(
    people: &Vec<Person>,
    cars: &Vec<Car>,
    houses: &Vec<House>,
    start_year: u16,
    years: u8,
) -> (expenses: Option<Vec<FamilyExpense>>)
    ensures
        match expenses {
            Some(records) => horizon_fits(cars@, houses@, start_year as int, years as int)
                && yearly_views(records@) == family_expenses(
                people@,
                cars@,
                houses@,
                start_year as int,
                years as int,
            ),
            None => !horizon_fits(cars@, houses@, start_year as int, years as int),
        },
{
    if start_year as u32 + years as u32 > u16::MAX as u32 + 1 {
        return None;
    }
    let mut records: Vec<FamilyExpense> = Vec::new();
    let mut done: u8 = 0;
    while done < years
        invariant
            done <= years,
            start_year + years <= u16::MAX + 1,
            horizon_fits(cars@, houses@, start_year as int, done as int),
            yearly_views(records@) == family_expenses(
                people@,
                cars@,
                houses@,
                start_year as int,
                done as int,
            ),
        decreases years - done,
    {
        let year: u16 = (start_year as u32 + done as u32) as u16;
        let ghost before = records@;
        match checked_estimate_year_expense(people, cars, houses, year) {
            Some(record) => {
                records.push(record);
                assert(yearly_views(records@) =~= yearly_views(before).push(record@));
            },
            None => {
                return None;
            },
        }
        done += 1;
        assert(yearly_views(records@) =~= family_expenses(
            people@,
            cars@,
            houses@,
            start_year as int,
            done as int,
        ));
    }
    Some(records)
}

/// The household's records of `years` years in a row, the first being
/// `start_year`, for a household whose records can be held: see
/// [`horizon_fits`].
pub fn estimate_family_expenses(
    people: Vec<Person>,
    cars: Vec<Car>,
    houses: Vec<House>,
    start_year: u16,
    years: u8,
) -> (expenses: Vec<FamilyExpense>)
    requires
        horizon_fits(cars@, houses@, start_year as int, years as int),
    ensures
        yearly_views(expenses@) == family_expenses(
            people@,
            cars@,
            houses@,
            start_year as int,
            years as int,
        ),
{
    checked_estimate_family_expenses(&people, &cars, &houses, start_year, years).unwrap()
}

/// The member records of a year are the records of exactly those members
/// who have a grade age in that year, in the order of the roster.
pub proof fn lemma_member_expenses_are_the_records_of_those_present(
    people: Seq<Person>,
    year: int,
)
    ensures
        member_expenses(people, year) == people.filter(has_grade_age_in(year)).map_values(
            record_in(year),
        ),
    decreases people.len(),
{
    reveal(Seq::filter);
    if people.len() == 0 {
        assert(member_expenses(people, year) =~= people.filter(has_grade_age_in(year)).map_values(
            record_in(year),
        ));
    } else {
        lemma_member_expenses_are_the_records_of_those_present(people.drop_last(), year);
        let present = people.drop_last().filter(has_grade_age_in(year));
        if has_grade_age_in(year)(people.last()) {
            assert(present.push(people.last()).map_values(record_in(year)) =~= present.map_values(
                record_in(year),
            ).push(record_in(year)(people.last())));
        }
    }
}

/// A member who has no grade age in a year leaves no trace in that year's
/// record: the record is the one of the household without that member.
pub proof fn lemma_member_without_grade_age_is_left_out(
    people: Seq<Person>,
    cars: Seq<Car>,
    houses: Seq<House>,
    year: int,
    index: int,
)
    requires
        0 <= index < people.len(),
        grade_age(people[index].birth_date@, year) is None,
    ensures
        year_expense(people, cars, houses, year) == year_expense(
            people.remove(index),
            cars,
            houses,
            year,
        ),
    decreases people.len(),
{
    if index == people.len() - 1 {
        assert(people.remove(index) =~= people.drop_last());
    } else {
        lemma_member_without_grade_age_is_left_out(people.drop_last(), cars, houses, year, index);
        assert(people.remove(index).drop_last() =~= people.drop_last().remove(index));
        assert(people.remove(index).last() == people.last());
    }
}

/// A member who has lived more whole years than the lifespan when the
/// cut-off day of a year begins is left out of that year's record: the
/// members' records are those of the household without that member, and what
/// the household spends as a whole is the same.
pub proof fn lemma_member_past_lifespan_is_left_out(
    people: Seq<Person>,
    cars: Seq<Car>,
    houses: Seq<House>,
    year: int,
    index: int,
)
    requires
        0 <= index < people.len(),
        whole_years_between(school_year_cutoff(year), people[index].birth_date@)
            > LIFESPAN_YEARS,
    ensures
        year_expense(people, cars, houses, year) == year_expense(
            people.remove(index),
            cars,
            houses,
            year,
        ),
{
    lemma_member_without_grade_age_is_left_out(people, cars, houses, year, index);
}

/// What the household spends as a whole in a year does not depend on who
/// lives in it.
pub proof fn lemma_shared_costs_ignore_the_roster(
    people: Seq<Person>,
    others: Seq<Person>,
    cars: Seq<Car>,
    houses: Seq<House>,
    year: int,
)
    ensures
        year_expense(people, cars, houses, year) == (FamilyExpenseView {
            member_expenses: member_expenses(people, year),
            ..year_expense(others, cars, houses, year)
        }),
{
}

/// The records are a function of the household and the years alone: two
/// sequences of records that both answer the same request have the same
/// length and agree record by record, in every amount and every name.
pub proof fn lemma_same_request_same_records(
    people: Seq<Person>,
    cars: Seq<Car>,
    houses: Seq<House>,
    start_year: u16,
    years: u8,
    first: Seq<FamilyExpense>,
    second: Seq<FamilyExpense>,
)
    requires
        yearly_views(first) == family_expenses(
            people,
            cars,
            houses,
            start_year as int,
            years as int,
        ),
        yearly_views(second) == family_expenses(
            people,
            cars,
            houses,
            start_year as int,
            years as int,
        ),
    ensures
        first.len() == years,
        second.len() == years,
        forall|i: int| 0 <= i < years ==> (#[trigger] first[i])@ == second[i]@,
{
    assert(yearly_views(first).len() == first.len());
    assert(yearly_views(second).len() == second.len());
    assert forall|i: int| 0 <= i < years implies (#[trigger] first[i])@ == second[i]@ by {
        assert(yearly_views(first)[i] == first[i]@);
        assert(yearly_views(second)[i] == second[i]@);
    }
}

/// Each year's record stands on its own: the record at position `i` is that
/// of the year `start_year + i`, whatever the other years of the request.
pub proof fn lemma_each_year_stands_alone(
    people: Seq<Person>,
    cars: Seq<Car>,
    houses: Seq<House>,
    start_year: int,
    years: int,
    i: int,
)
    requires
        0 <= i < years,
    ensures
        family_expenses(people, cars, houses, start_year, years).len() == years,
        family_expenses(people, cars, houses, start_year, years)[i] == year_expense(
            people,
            cars,
            houses,
            start_year + i,
        ),
{
}

/// A request can be cut in two: the records of `first + rest` years are
/// those of the first `first` years followed by those of `rest` years from
/// the year `start_year + first` on.
pub proof fn lemma_records_of_consecutive_requests(
    people: Seq<Person>,
    cars: Seq<Car>,
    houses: Seq<House>,
    start_year: int,
    first: int,
    rest: int,
)
    requires
        0 <= first,
        0 <= rest,
    ensures
        family_expenses(people, cars, houses, start_year, first + rest) == family_expenses(
            people,
            cars,
            houses,
            start_year,
            first,
        ) + family_expenses(people, cars, houses, start_year + first, rest),
{
    assert(family_expenses(people, cars, houses, start_year, first + rest) =~= family_expenses(
        people,
        cars,
        houses,
        start_year,
        first,
    ) + family_expenses(people, cars, houses, start_year + first, rest));
}

/// The fees of a stage fall due once: a dependent child enters a stage in
/// the year of an age if and only if that age is the first of its stage, and
/// not zero.
pub proof fn lemma_stage_is_entered_at_its_first_age(age: int)
    requires
        0 <= age,
    ensures
        enters_stage(age, true) <==> age >= 1 && age == LifeStage::of_age(age).first_age(),
{
}

/// Setting up to live alone falls due once: a dependent child moves out in
/// the year of the first age of `UnderGraduate` and in no other.
pub proof fn lemma_moving_out_happens_once(age: int)
    requires
        0 <= age,
    ensures
        starts_living_alone(age, true) <==> age == LifeStage::UnderGraduate.first_age(),
{
}

/// Nothing that depends on being a dependent child falls due for anyone
/// else: no fees on entering a stage, and nothing for living alone.
pub proof fn lemma_only_children_are_supported(age: int)
    ensures
        !enters_stage(age, false),
        education_expense(age, false) == LifeStage::of_age(age).annual_tuition(),
        living_alone_expense(age, false) == 0,
{
}

} // verus!
