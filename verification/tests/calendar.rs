use chrono::{Datelike, NaiveDate, TimeZone, Timelike, Utc};
use family_expense::CivilDateTime;

fn date(year: i32, month: u32, day: u32) -> CivilDateTime {
    CivilDateTime::new(year, month, day, 0, 0, 0).unwrap()
}

#[test]
fn date_keeps_its_fields() {
    let d = CivilDateTime::new(2015, 5, 1, 13, 45, 59).unwrap();
    assert_eq!(
        (d.year(), d.month(), d.day(), d.hour(), d.minute(), d.second(), d.nanosecond()),
        (2015, 5, 1, 13, 45, 59, 0)
    );
    let d = d.with_nanosecond(123_456_789).unwrap();
    assert_eq!(
        (d.year(), d.month(), d.day(), d.hour(), d.minute(), d.second(), d.nanosecond()),
        (2015, 5, 1, 13, 45, 59, 123_456_789)
    );
}

#[test]
fn date_must_exist() {
    assert!(CivilDateTime::new(2023, 4, 30, 0, 0, 0).is_some());
    assert!(CivilDateTime::new(2023, 4, 31, 0, 0, 0).is_none());
    assert!(CivilDateTime::new(2023, 0, 1, 0, 0, 0).is_none());
    assert!(CivilDateTime::new(2023, 13, 1, 0, 0, 0).is_none());
    assert!(CivilDateTime::new(2023, 1, 0, 0, 0, 0).is_none());
    assert!(CivilDateTime::new(2023, 1, 32, 0, 0, 0).is_none());
    assert!(CivilDateTime::new(2023, 12, 31, 23, 59, 59).is_some());
    assert!(CivilDateTime::new(2023, 12, 31, 24, 0, 0).is_none());
    assert!(CivilDateTime::new(2023, 12, 31, 0, 60, 0).is_none());
    assert!(CivilDateTime::new(2023, 12, 31, 0, 0, 60).is_none());
}

#[test]
fn leap_day_exists_in_leap_years_only() {
    assert!(CivilDateTime::new(2024, 2, 29, 0, 0, 0).is_some());
    assert!(CivilDateTime::new(2023, 2, 29, 0, 0, 0).is_none());
    assert!(CivilDateTime::new(2000, 2, 29, 0, 0, 0).is_some());
    assert!(CivilDateTime::new(1900, 2, 29, 0, 0, 0).is_none());
    assert!(CivilDateTime::new(2100, 2, 29, 0, 0, 0).is_none());
    assert!(CivilDateTime::new(0, 2, 29, 0, 0, 0).is_some());
    assert!(CivilDateTime::new(-4, 2, 29, 0, 0, 0).is_some());
    assert!(CivilDateTime::new(-100, 2, 29, 0, 0, 0).is_none());
    assert!(CivilDateTime::new(-400, 2, 29, 0, 0, 0).is_some());
    assert!(CivilDateTime::new(2024, 2, 30, 0, 0, 0).is_none());
}

#[test]
fn year_must_be_in_range() {
    assert!(CivilDateTime::new(262_142, 12, 31, 23, 59, 59).is_some());
    assert!(CivilDateTime::new(262_143, 1, 1, 0, 0, 0).is_none());
    assert!(CivilDateTime::new(-262_143, 1, 1, 0, 0, 0).is_some());
    assert!(CivilDateTime::new(-262_144, 12, 31, 0, 0, 0).is_none());
    assert!(CivilDateTime::new(i32::MAX, 1, 1, 0, 0, 0).is_none());
    assert!(CivilDateTime::new(i32::MIN, 1, 1, 0, 0, 0).is_none());
}

#[test]
fn dates_exist_exactly_where_the_calendar_has_them() {
    let years = [-262_144, -262_143, -401, -400, -100, -4, -1, 0, 1, 1900, 2000, 2023, 2024, 2100, 262_142, 262_143];
    for year in years {
        for month in 0..=13u32 {
            for day in 0..=32u32 {
                assert_eq!(
                    CivilDateTime::new(year, month, day, 0, 0, 0).is_some(),
                    NaiveDate::from_ymd_opt(year, month, day).is_some(),
                    "{}-{}-{}",
                    year,
                    month,
                    day
                );
            }
        }
    }
}

#[test]
fn nanosecond_may_hold_a_leap_second_in_second_59_only() {
    let at_59 = CivilDateTime::new(2016, 12, 31, 23, 59, 59).unwrap();
    assert!(at_59.with_nanosecond(999_999_999).is_some());
    assert_eq!(at_59.with_nanosecond(1_000_000_000).unwrap().nanosecond(), 1_000_000_000);
    assert!(at_59.with_nanosecond(1_999_999_999).is_some());
    assert!(at_59.with_nanosecond(2_000_000_000).is_none());
    let at_58 = CivilDateTime::new(2016, 12, 31, 23, 59, 58).unwrap();
    assert!(at_58.with_nanosecond(999_999_999).is_some());
    assert!(at_58.with_nanosecond(1_000_000_000).is_none());
}

#[test]
fn years_since_counts_whole_years() {
    let birth = date(2015, 5, 1);
    assert_eq!(date(2025, 4, 2).years_since(&birth), Some(9));
    assert_eq!(date(2025, 4, 30).years_since(&birth), Some(9));
    assert_eq!(date(2025, 5, 1).years_since(&birth), Some(10));
    assert_eq!(date(2025, 5, 2).years_since(&birth), Some(10));
    assert_eq!(date(2015, 5, 1).years_since(&birth), Some(0));
    assert_eq!(date(2016, 4, 30).years_since(&birth), Some(0));
}

#[test]
fn years_since_has_no_value_before_the_earlier_date() {
    let birth = date(2015, 5, 1);
    assert_eq!(date(2015, 4, 30).years_since(&birth), None);
    assert_eq!(date(2014, 12, 31).years_since(&birth), None);
    assert_eq!(date(1915, 5, 1).years_since(&birth), None);
}

#[test]
fn years_since_looks_at_the_time_of_day() {
    let morning = CivilDateTime::new(2015, 5, 1, 8, 0, 0).unwrap();
    let evening = CivilDateTime::new(2015, 5, 1, 20, 0, 0).unwrap();
    let next_morning = CivilDateTime::new(2016, 5, 1, 8, 0, 0).unwrap();
    let next_evening = CivilDateTime::new(2016, 5, 1, 20, 0, 0).unwrap();
    assert_eq!(next_morning.years_since(&evening), Some(0));
    assert_eq!(next_evening.years_since(&morning), Some(1));
    assert_eq!(next_evening.years_since(&evening), Some(1));
    assert_eq!(morning.years_since(&evening), None);
    assert_eq!(evening.years_since(&morning), Some(0));
}

#[test]
fn years_since_looks_at_the_nanosecond_last() {
    let second = CivilDateTime::new(2015, 5, 1, 8, 0, 0).unwrap();
    let later = second.with_nanosecond(1).unwrap();
    let next = CivilDateTime::new(2016, 5, 1, 8, 0, 0).unwrap();
    assert_eq!(next.years_since(&second), Some(1));
    assert_eq!(next.years_since(&later), Some(0));
    assert_eq!(next.with_nanosecond(1).unwrap().years_since(&later), Some(1));
    assert_eq!(second.years_since(&later), None);
}

#[test]
fn years_since_spans_the_whole_range() {
    let first = CivilDateTime::new(-262_143, 1, 1, 0, 0, 0).unwrap();
    let last = CivilDateTime::new(262_142, 12, 31, 23, 59, 59).unwrap();
    assert_eq!(last.years_since(&first), Some(524_285));
    assert_eq!(first.years_since(&last), None);
}

#[test]
fn years_since_agrees_with_chrono_on_time_zone_dates() {
    let fields = [
        (2015, 4, 1, 0, 0, 0),
        (2015, 4, 2, 0, 0, 0),
        (2015, 4, 2, 0, 0, 1),
        (2015, 4, 3, 12, 30, 0),
        (2016, 2, 29, 23, 59, 59),
        (2020, 12, 31, 23, 59, 59),
        (2021, 1, 1, 0, 0, 0),
        (2096, 4, 2, 0, 0, 0),
    ];
    for a in fields {
        for b in fields {
            let later = CivilDateTime::new(a.0, a.1, a.2, a.3, a.4, a.5).unwrap();
            let earlier = CivilDateTime::new(b.0, b.1, b.2, b.3, b.4, b.5).unwrap();
            let later_utc = Utc.with_ymd_and_hms(a.0, a.1, a.2, a.3, a.4, a.5).unwrap();
            let earlier_utc = Utc.with_ymd_and_hms(b.0, b.1, b.2, b.3, b.4, b.5).unwrap();
            assert_eq!(later_utc.year(), later.year());
            assert_eq!(later_utc.hour(), later.hour());
            assert_eq!(
                later.years_since(&earlier),
                later_utc.years_since(earlier_utc),
                "{:?} since {:?}",
                a,
                b
            );
        }
    }
}
