use family_expense::{
    checked_estimate_family_expenses, checked_estimate_year_expense, checked_total_car_expense,
    checked_total_house_expense, estimate_family_expenses, estimate_member_expenses,
    estimate_person_expense, Car, CivilDateTime, FamilyExpense, House, HouseKind, Person,
    PersonExpense, YearlyLoan,
};

fn person(name: &str, year: i32, month: u32, day: u32, is_child: bool) -> Person {
    Person {
        name: String::from(name),
        birth_date: CivilDateTime::new(year, month, day, 0, 0, 0).unwrap(),
        is_child,
    }
}

fn family() -> Vec<Person> {
    vec![
        person("Ichiro", 1985, 6, 15, false),
        person("Hanako", 1987, 2, 3, false),
        person("Taro", 2010, 5, 1, true),
        person("Jiro", 2026, 1, 20, true),
    ]
}

fn small_car(start_year: u16, end_year: u16, loan: Option<YearlyLoan>) -> Car {
    Car {
        start_year,
        end_year,
        annual_car_type_tax: 30_500,
        annual_weight_tax: 12_300,
        annual_liability_insurance_fee: 8_880,
        annual_optional_insurance_fee: 50_000,
        annual_inspection_fee: 40_000,
        annual_gas_expense: 96_000,
        annual_consumables_expense: 20_000,
        down_payment: 800_000,
        loan,
    }
}

const SMALL_CAR_RUNNING_COSTS: u32 = 257_680;

fn cars() -> Vec<Car> {
    vec![
        small_car(2020, 2027, None),
        small_car(2027, 2035, Some(YearlyLoan::new(3, 20_000).unwrap())),
    ]
}

fn houses() -> Vec<House> {
    vec![
        House {
            start_year: 2020,
            end_year: 2028,
            moving_expense: 200_000,
            kind: HouseKind::Rental { rent: 100_000 },
        },
        House {
            start_year: 2028,
            end_year: 2070,
            moving_expense: 400_000,
            kind: HouseKind::Own {
                down_payment: 5_000_000,
                loan: Some(YearlyLoan::new(35, 90_000).unwrap()),
            },
        },
    ]
}

fn member<'a>(record: &'a FamilyExpense, name: &str) -> Option<&'a PersonExpense> {
    record.member_expenses.iter().find(|m| m.name == name)
}

#[test]
fn one_record_for_each_year() {
    let records = estimate_family_expenses(family(), cars(), houses(), 2024, 10);
    assert_eq!(records.len(), 10);
    let none = estimate_family_expenses(family(), cars(), houses(), 2024, 0);
    assert!(none.is_empty());
    let longest = estimate_family_expenses(family(), cars(), houses(), 2024, 255);
    assert_eq!(longest.len(), 255);
}

#[test]
fn household_bases_are_the_same_every_year() {
    let records = estimate_family_expenses(family(), cars(), houses(), 2024, 60);
    for record in records.iter() {
        assert_eq!(record.food_expense, 39069 * 12 - 313_822);
        assert_eq!(record.food_expense, 155_006);
        assert_eq!(record.fuel_light_water_gas_etc_expense, 13098 * 12 - 62_554);
        assert_eq!(record.fuel_light_water_gas_etc_expense, 94_622);
        assert_eq!(record.furniture_expense, 5487 * 12 - 39_144);
        assert_eq!(record.furniture_expense, 26_700);
    }
    let empty = estimate_family_expenses(Vec::new(), Vec::new(), Vec::new(), 2024, 1);
    assert_eq!(
        empty,
        vec![FamilyExpense {
            car_expense: 0,
            house_expense: 0,
            food_expense: 155_006,
            fuel_light_water_gas_etc_expense: 94_622,
            furniture_expense: 26_700,
            member_expenses: Vec::new(),
        }]
    );
}

#[test]
fn cars_and_homes_are_summed_by_year() {
    let records = estimate_family_expenses(family(), cars(), houses(), 2026, 5);
    // 2026: the first car is kept; the rented home is in its seventh year.
    assert_eq!(records[0].car_expense, SMALL_CAR_RUNNING_COSTS);
    assert_eq!(records[0].house_expense, 1_300_000);
    // 2027: the second car is bought on a loan; the first is gone.
    assert_eq!(records[1].car_expense, SMALL_CAR_RUNNING_COSTS + 800_000 + 240_000);
    assert_eq!(records[1].house_expense, 1_200_000);
    // 2028: the household moves into a home of its own.
    assert_eq!(records[2].car_expense, SMALL_CAR_RUNNING_COSTS + 240_000);
    assert_eq!(records[2].house_expense, 400_000 + 5_000_000 + 1_080_000);
    // 2029: the last year of the car loan.
    assert_eq!(records[3].car_expense, SMALL_CAR_RUNNING_COSTS + 240_000);
    assert_eq!(records[3].house_expense, 1_080_000);
    assert_eq!(records[4].car_expense, SMALL_CAR_RUNNING_COSTS);
    assert_eq!(records[4].house_expense, 1_080_000);
}

#[test]
fn cars_kept_together_add_up() {
    let cars = vec![small_car(2020, 2030, None), small_car(2025, 2030, None), small_car(2029, 2040, None)];
    let records = estimate_family_expenses(Vec::new(), cars, Vec::new(), 2024, 7);
    let per_year: Vec<u32> = records.iter().map(|r| r.car_expense).collect();
    assert_eq!(
        per_year,
        vec![
            SMALL_CAR_RUNNING_COSTS,
            2 * SMALL_CAR_RUNNING_COSTS + 800_000,
            2 * SMALL_CAR_RUNNING_COSTS,
            2 * SMALL_CAR_RUNNING_COSTS,
            2 * SMALL_CAR_RUNNING_COSTS,
            3 * SMALL_CAR_RUNNING_COSTS + 800_000,
            SMALL_CAR_RUNNING_COSTS,
        ]
    );
}

#[test]
fn members_are_listed_in_roster_order() {
    let records = estimate_family_expenses(family(), cars(), houses(), 2024, 4);
    let names = |record: &FamilyExpense| -> Vec<String> {
        record.member_expenses.iter().map(|m| m.name.clone()).collect()
    };
    assert_eq!(names(&records[0]), vec!["Ichiro", "Hanako", "Taro"]);
    assert_eq!(names(&records[1]), vec!["Ichiro", "Hanako", "Taro"]);
    assert_eq!(names(&records[2]), vec!["Ichiro", "Hanako", "Taro", "Jiro"]);
    assert_eq!(names(&records[3]), vec!["Ichiro", "Hanako", "Taro", "Jiro"]);
}

#[test]
fn members_of_the_same_name_are_kept_apart() {
    let people = vec![person("Taro", 2010, 5, 1, true), person("Taro", 1980, 5, 1, false)];
    let records = estimate_family_expenses(people, Vec::new(), Vec::new(), 2024, 1);
    assert_eq!(records[0].member_expenses.len(), 2);
    assert_eq!(records[0].member_expenses[0].medical_expense, 29_707);
    assert_eq!(records[0].member_expenses[1].medical_expense, 36_435);
}

#[test]
fn record_of_a_school_child() {
    // Born 2010-05-01: twelve whole years on 2023-04-02.
    let records = estimate_family_expenses(family(), Vec::new(), Vec::new(), 2023, 1);
    assert_eq!(
        member(&records[0], "Taro"),
        Some(&PersonExpense {
            name: String::from("Taro"),
            clothing_expense: 56_922,
            food_expense: 329_531,
            fuel_light_water_gas_etc_expense: 62_554,
            furniture_expense: 39_144,
            medical_expense: 23_608,
            education_expense: 344_951 + 691_968,
            extra_education_expense: 202_826,
            extracurricular_activities_expense: 88_245,
            mobile_expense: 46_000,
            allowance: 61_493,
            living_alone_expense: 0,
            ceremony_expense: 0,
            leisure_expense: 173_200,
            driver_lincense_aquisition_fees: 0,
        })
    );
}

#[test]
fn record_of_a_newborn() {
    // Born 2026-01-20: no whole year yet on 2026-04-02.
    let records = estimate_family_expenses(family(), Vec::new(), Vec::new(), 2026, 1);
    assert_eq!(
        member(&records[0], "Jiro"),
        Some(&PersonExpense {
            name: String::from("Jiro"),
            clothing_expense: 54_778,
            food_expense: 108_635,
            fuel_light_water_gas_etc_expense: 62_554,
            furniture_expense: 39_144,
            medical_expense: 15_027,
            education_expense: 0,
            extra_education_expense: 26_809,
            extracurricular_activities_expense: 28_090,
            mobile_expense: 0,
            allowance: 51_284,
            living_alone_expense: 0,
            ceremony_expense: 0,
            leisure_expense: 79_163,
            driver_lincense_aquisition_fees: 0,
        })
    );
}

#[test]
fn record_of_a_working_adult() {
    // Born 1985-06-15: 38 whole years on 2024-04-02.
    let records = estimate_family_expenses(family(), Vec::new(), Vec::new(), 2024, 1);
    assert_eq!(
        member(&records[0], "Ichiro"),
        Some(&PersonExpense {
            name: String::from("Ichiro"),
            clothing_expense: 76_723,
            food_expense: 343_152,
            fuel_light_water_gas_etc_expense: 0,
            furniture_expense: 0,
            medical_expense: 32_068,
            education_expense: 0,
            extra_education_expense: 0,
            extracurricular_activities_expense: 0,
            mobile_expense: 46_000,
            allowance: 20_000,
            living_alone_expense: 0,
            ceremony_expense: 0,
            leisure_expense: 175_000,
            driver_lincense_aquisition_fees: 0,
        })
    );
}

#[test]
fn child_entering_university_pays_entry_and_setup_once() {
    // Born 2010-05-01: 17 on the cut-off day of 2028, 18 in 2029, 19 in 2030.
    let records = estimate_family_expenses(family(), cars(), houses(), 2028, 3);
    let at_17 = member(&records[0], "Taro").unwrap();
    let at_18 = member(&records[1], "Taro").unwrap();
    let at_19 = member(&records[2], "Taro").unwrap();

    assert_eq!(at_17.education_expense, 667_710);
    assert_eq!(at_17.living_alone_expense, 0);
    assert_eq!(at_17.fuel_light_water_gas_etc_expense, 62_554);
    assert_eq!(at_17.furniture_expense, 39_144);

    assert_eq!(at_18.education_expense, 1_459_190 + 967_288);
    assert_eq!(at_18.living_alone_expense, 480_000 + 2_440_000);
    assert_eq!(at_18.driver_lincense_aquisition_fees, 302_489);
    assert_eq!(at_18.allowance, 30_000);
    assert_eq!(at_18.clothing_expense, 0);
    assert_eq!(at_18.food_expense, 0);
    assert_eq!(at_18.medical_expense, 0);
    assert_eq!(at_18.fuel_light_water_gas_etc_expense, 0);
    assert_eq!(at_18.furniture_expense, 0);

    assert_eq!(at_19.education_expense, 967_288);
    assert_eq!(at_19.living_alone_expense, 2_440_000);
    assert_eq!(at_19.driver_lincense_aquisition_fees, 0);
}

#[test]
fn entry_fees_fall_due_in_the_first_year_of_each_stage() {
    let child = person("Taro", 2000, 1, 1, true);
    let entries: [(u8, u32); 8] = [
        (3, 114_649),
        (6, 356_392),
        (12, 344_951),
        (15, 362_175),
        (18, 1_459_190),
        (22, 684_000),
        (24, 620_711),
        (26, 0),
    ];
    for age in 0..=80u8 {
        let fees = entries.iter().find(|(a, _)| *a == age).map(|(_, f)| *f).unwrap_or(0);
        let tuition = match age {
            0..=2 => 0,
            3..=5 => 426_172,
            6..=11 => 753_103,
            12..=14 => 691_968,
            15..=17 => 667_710,
            18..=21 => 967_288,
            22..=23 => 776_040,
            24..=25 => 628_729,
            _ => 0,
        };
        let record = estimate_person_expense(&child, age);
        assert_eq!(record.education_expense, fees + tuition, "age {}", age);
    }
}

#[test]
fn setting_up_alone_falls_due_once() {
    let child = person("Taro", 2000, 1, 1, true);
    for age in 0..=80u8 {
        let expected = match age {
            18 => 480_000 + 2_440_000,
            19..=25 => 2_440_000,
            _ => 0,
        };
        assert_eq!(estimate_person_expense(&child, age).living_alone_expense, expected, "age {}", age);
    }
}

#[test]
fn household_shares_stop_when_a_child_moves_out() {
    let child = person("Taro", 2000, 1, 1, true);
    for age in 0..=80u8 {
        let record = estimate_person_expense(&child, age);
        let (utilities, furniture) = if age < 18 { (62_554, 39_144) } else { (0, 0) };
        assert_eq!(record.fuel_light_water_gas_etc_expense, utilities, "age {}", age);
        assert_eq!(record.furniture_expense, furniture, "age {}", age);
    }
}

#[test]
fn adult_of_student_age_is_not_supported() {
    let adult = person("Hanako", 2000, 1, 1, false);
    for age in 18..=25u8 {
        let record = estimate_person_expense(&adult, age);
        assert_eq!(record.living_alone_expense, 0, "age {}", age);
        assert_eq!(record.fuel_light_water_gas_etc_expense, 62_554, "age {}", age);
        assert_eq!(record.furniture_expense, 39_144, "age {}", age);
        assert_eq!(record.allowance, 20_000, "age {}", age);
        assert!(record.clothing_expense > 0);
    }
    assert_eq!(estimate_person_expense(&adult, 18).education_expense, 967_288);
    assert_eq!(estimate_person_expense(&adult, 22).education_expense, 776_040);
    assert_eq!(estimate_person_expense(&adult, 26).education_expense, 0);
    assert_eq!(estimate_person_expense(&adult, 26).fuel_light_water_gas_etc_expense, 0);
}

#[test]
fn mobile_phone_from_age_ten() {
    let child = person("Taro", 2000, 1, 1, true);
    assert_eq!(estimate_person_expense(&child, 9).mobile_expense, 0);
    assert_eq!(estimate_person_expense(&child, 10).mobile_expense, 46_000);
    assert_eq!(estimate_person_expense(&child, 80).mobile_expense, 46_000);
}

#[test]
fn ceremonies_in_the_record() {
    let child = person("Taro", 2000, 1, 1, true);
    let adult = person("Hanako", 2000, 1, 1, false);
    assert_eq!(estimate_person_expense(&child, 30).ceremony_expense, 1_932_000);
    assert_eq!(estimate_person_expense(&child, 45).ceremony_expense, 0);
    assert_eq!(estimate_person_expense(&adult, 30).ceremony_expense, 0);
    assert_eq!(estimate_person_expense(&adult, 45).ceremony_expense, 3_722_000);
}

#[test]
fn member_past_lifespan_is_left_out() {
    // Born 1940-01-01: 80 whole years on 2020-04-02, 81 a year later.
    let with_elder = || {
        let mut people = family();
        people.insert(1, person("Ume", 1940, 1, 1, false));
        people
    };
    let with = estimate_family_expenses(with_elder(), cars(), houses(), 2020, 3);
    let without = estimate_family_expenses(family(), cars(), houses(), 2020, 3);

    let elder = member(&with[0], "Ume").unwrap();
    assert_eq!(elder.medical_expense, 57_867);
    assert_eq!(elder.food_expense, 270_909);
    assert_eq!(with[0].member_expenses.len(), without[0].member_expenses.len() + 1);
    assert_eq!(with[0].member_expenses[1].name, "Ume");

    for year in 1..3 {
        assert!(member(&with[year], "Ume").is_none());
        assert_eq!(with[year], without[year]);
    }
    for year in 0..3 {
        assert_eq!(with[year].car_expense, without[year].car_expense);
        assert_eq!(with[year].house_expense, without[year].house_expense);
        assert_eq!(with[year].food_expense, without[year].food_expense);
        assert_eq!(
            with[year].fuel_light_water_gas_etc_expense,
            without[year].fuel_light_water_gas_etc_expense
        );
        assert_eq!(with[year].furniture_expense, without[year].furniture_expense);
    }
}

#[test]
fn member_not_yet_born_is_left_out() {
    let records = estimate_family_expenses(family(), cars(), houses(), 2024, 3);
    assert!(member(&records[0], "Jiro").is_none());
    assert!(member(&records[1], "Jiro").is_none());
    assert!(member(&records[2], "Jiro").is_some());
    let before: Vec<Person> = family().into_iter().filter(|p| p.name != "Jiro").collect();
    let without = estimate_family_expenses(before, cars(), houses(), 2024, 2);
    assert_eq!(&records[..2], &without[..]);
}

#[test]
fn same_inputs_give_same_records() {
    let first = estimate_family_expenses(family(), cars(), houses(), 2020, 80);
    let second = estimate_family_expenses(family(), cars(), houses(), 2020, 80);
    assert_eq!(first, second);
    assert_eq!(format!("{:?}", first), format!("{:?}", second));
}

#[test]
fn each_year_stands_alone() {
    let whole = estimate_family_expenses(family(), cars(), houses(), 2020, 30);
    for (i, record) in whole.iter().enumerate() {
        let year = 2020 + i as u16;
        let single = estimate_family_expenses(family(), cars(), houses(), year, 1);
        assert_eq!(&single[0], record, "year {}", year);
        let checked = checked_estimate_year_expense(&family(), &cars(), &houses(), year);
        assert_eq!(checked.as_ref(), Some(record), "year {}", year);
    }
    let head = estimate_family_expenses(family(), cars(), houses(), 2020, 12);
    let tail = estimate_family_expenses(family(), cars(), houses(), 2032, 18);
    assert_eq!(&whole[..12], &head[..]);
    assert_eq!(&whole[12..], &tail[..]);
}

#[test]
fn member_expenses_of_one_year() {
    let members = estimate_member_expenses(&family(), 2026);
    assert_eq!(members.len(), 4);
    assert_eq!(members[2], estimate_person_expense(&family()[2], 15));
    assert_eq!(members[3], estimate_person_expense(&family()[3], 0));
    assert!(estimate_member_expenses(&family(), 1900).is_empty());
    assert!(estimate_member_expenses(&Vec::new(), 2026).is_empty());
}

#[test]
fn checked_estimate_agrees_where_the_records_fit() {
    let checked = checked_estimate_family_expenses(&family(), &cars(), &houses(), 2020, 40);
    let plain = estimate_family_expenses(family(), cars(), houses(), 2020, 40);
    assert_eq!(checked, Some(plain));
}

#[test]
fn checked_totals_add_up() {
    assert_eq!(checked_total_car_expense(&Vec::new(), 2027), Some(0));
    assert_eq!(checked_total_house_expense(&Vec::new(), 2027), Some(0));
    assert_eq!(
        checked_total_car_expense(&cars(), 2027),
        Some(SMALL_CAR_RUNNING_COSTS + 800_000 + 240_000)
    );
    assert_eq!(checked_total_house_expense(&houses(), 2028), Some(6_480_000));
}

#[test]
fn checked_estimate_reports_a_total_that_does_not_fit() {
    let dear = |start_year: u16| {
        let mut car = small_car(start_year, start_year + 10, None);
        car.down_payment = u32::MAX / 2;
        car
    };
    // Each car fits on its own; bought in the same year, the two do not.
    let together = vec![dear(2025), dear(2025)];
    assert_eq!(checked_total_car_expense(&together, 2025), None);
    assert_eq!(checked_total_car_expense(&together, 2026), Some(2 * SMALL_CAR_RUNNING_COSTS));
    assert_eq!(checked_estimate_year_expense(&family(), &together, &houses(), 2025), None);
    assert_eq!(checked_estimate_family_expenses(&family(), &together, &houses(), 2020, 10), None);
    assert!(checked_estimate_family_expenses(&family(), &together, &houses(), 2020, 5).is_some());
    assert!(checked_estimate_family_expenses(&family(), &together, &houses(), 2026, 5).is_some());
    let apart = vec![dear(2025), dear(2026)];
    assert!(checked_estimate_family_expenses(&family(), &apart, &houses(), 2020, 10).is_some());

    let homes = vec![
        House {
            start_year: 2025,
            end_year: 2030,
            moving_expense: u32::MAX,
            kind: HouseKind::Rental { rent: 1 },
        },
    ];
    assert_eq!(checked_total_house_expense(&homes, 2025), None);
    assert_eq!(checked_total_house_expense(&homes, 2026), Some(12));
    assert_eq!(checked_estimate_family_expenses(&family(), &cars(), &homes, 2025, 1), None);
}

#[test]
fn checked_estimate_reports_years_past_the_last() {
    let last = u16::MAX;
    assert!(checked_estimate_family_expenses(&family(), &cars(), &houses(), last, 0).is_some());
    let one = checked_estimate_family_expenses(&family(), &cars(), &houses(), last, 1).unwrap();
    assert_eq!(one.len(), 1);
    assert!(one[0].member_expenses.is_empty());
    assert_eq!(checked_estimate_family_expenses(&family(), &cars(), &houses(), last, 2), None);
    let many = checked_estimate_family_expenses(&family(), &cars(), &houses(), last - 254, 255);
    assert_eq!(many.unwrap().len(), 255);
    assert_eq!(
        checked_estimate_family_expenses(&family(), &cars(), &houses(), last - 253, 255),
        None
    );
}
