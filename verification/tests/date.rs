use chrono::{Datelike, NaiveDate};
use profile_card::date::{age_in_years, leap_year, CalendarDate, MAX_YEAR, MIN_YEAR};

fn date(year: i32, month: u32, day: u32) -> CalendarDate {
    CalendarDate::from_ymd(year, month, day).expect("a day of the calendar")
}

fn is_leap(year: i32) -> bool {
    year.rem_euclid(4) == 0 && (year.rem_euclid(100) != 0 || year.rem_euclid(400) == 0)
}

fn length_of(year: i32, month: u32) -> u32 {
    match month {
        2 => {
            if is_leap(year) {
                29
            } else {
                28
            }
        }
        4 | 6 | 9 | 11 => 30,
        _ => 31,
    }
}

#[test]
fn from_ymd_keeps_the_three_numbers() {
    let d = date(2008, 9, 14);
    assert_eq!(d.year(), 2008);
    assert_eq!(d.month(), 9);
    assert_eq!(d.day(), 14);
}

#[test]
fn from_ymd_refuses_days_that_do_not_exist() {
    assert!(CalendarDate::from_ymd(2023, 4, 31).is_none());
    assert!(CalendarDate::from_ymd(2015, 2, 29).is_none());
    assert!(CalendarDate::from_ymd(1900, 2, 29).is_none());
    assert!(CalendarDate::from_ymd(2015, 0, 14).is_none());
    assert!(CalendarDate::from_ymd(2015, 13, 1).is_none());
    assert!(CalendarDate::from_ymd(2015, 1, 0).is_none());
    assert!(CalendarDate::from_ymd(2015, 1, 32).is_none());
    assert!(CalendarDate::from_ymd(2015, u32::MAX, 1).is_none());
    assert!(CalendarDate::from_ymd(2015, 1, u32::MAX).is_none());
}

#[test]
fn from_ymd_accepts_leap_days() {
    assert!(CalendarDate::from_ymd(2000, 2, 29).is_some());
    assert!(CalendarDate::from_ymd(2024, 2, 29).is_some());
    assert!(CalendarDate::from_ymd(-4, 2, 29).is_some());
    assert!(CalendarDate::from_ymd(0, 2, 29).is_some());
}

#[test]
fn from_ymd_holds_to_the_range_of_years() {
    assert_eq!(MIN_YEAR, -262_143);
    assert_eq!(MAX_YEAR, 262_142);
    assert!(CalendarDate::from_ymd(MIN_YEAR, 1, 1).is_some());
    assert!(CalendarDate::from_ymd(MAX_YEAR, 12, 31).is_some());
    assert!(CalendarDate::from_ymd(MIN_YEAR - 1, 12, 31).is_none());
    assert!(CalendarDate::from_ymd(MAX_YEAR + 1, 1, 1).is_none());
    assert!(CalendarDate::from_ymd(400_000, 1, 1).is_none());
    assert!(CalendarDate::from_ymd(-400_000, 1, 1).is_none());
    assert!(CalendarDate::from_ymd(i32::MAX, 1, 1).is_none());
    assert!(CalendarDate::from_ymd(i32::MIN, 1, 1).is_none());
}

#[test]
fn from_ymd_agrees_with_the_calendar_on_every_day_tried() {
    let years = [MIN_YEAR, -401, -400, -100, -4, -1, 0, 1, 1900, 2000, 2023, 2024, 2100, MAX_YEAR];
    for year in years {
        for month in 0..=13u32 {
            for day in 0..=32u32 {
                let exists = (1..=12).contains(&month) && day >= 1 && day <= length_of(year, month);
                assert_eq!(
                    CalendarDate::from_ymd(year, month, day).is_some(),
                    exists,
                    "{year}-{month}-{day}"
                );
            }
        }
    }
}

#[test]
fn ordinal_counts_the_days_of_the_months_before() {
    assert_eq!(date(2015, 1, 1).ordinal(), 1);
    assert_eq!(date(2015, 9, 8).ordinal(), 251);
    assert_eq!(date(-308, 3, 14).ordinal(), 74);
    assert_eq!(date(2008, 9, 14).ordinal(), 258);
    assert_eq!(date(2025, 9, 14).ordinal(), 257);
    assert_eq!(date(2023, 12, 31).ordinal(), 365);
    assert_eq!(date(2024, 12, 31).ordinal(), 366);
    assert_eq!(date(2024, 2, 29).ordinal(), 60);
    assert_eq!(date(2023, 3, 1).ordinal(), 60);
}

#[test]
fn ordinal_is_the_sum_of_month_lengths_on_every_day_tried() {
    for year in [-400, -1, 0, 1900, 2000, 2023, 2024] {
        let mut before = 0;
        for month in 1..=12u32 {
            for day in 1..=length_of(year, month) {
                assert_eq!(date(year, month, day).ordinal(), before + day);
            }
            before += length_of(year, month);
        }
    }
}

#[test]
fn leap_year_follows_the_gregorian_rule() {
    assert!(leap_year(2000));
    assert!(leap_year(2004));
    assert!(leap_year(2024));
    assert!(!leap_year(1900));
    assert!(!leap_year(2100));
    assert!(!leap_year(2001));
    assert!(!leap_year(2023));
    assert!(leap_year(0));
    assert!(leap_year(-4));
    assert!(leap_year(-400));
    assert!(!leap_year(-100));
    assert!(!leap_year(-1));
    for year in -1000..3000 {
        assert_eq!(leap_year(year), is_leap(year));
    }
}

#[test]
fn position_in_leap_year_does_not_depend_on_the_year() {
    assert_eq!(date(2024, 9, 14).position_in_leap_year(), 258);
    assert_eq!(date(2025, 9, 14).position_in_leap_year(), 258);
    assert_eq!(date(2023, 2, 28).position_in_leap_year(), 59);
    assert_eq!(date(2024, 2, 28).position_in_leap_year(), 59);
    assert_eq!(date(2024, 2, 29).position_in_leap_year(), 60);
    assert_eq!(date(2023, 3, 1).position_in_leap_year(), 61);
    assert_eq!(date(2024, 3, 1).position_in_leap_year(), 61);
    assert_eq!(date(2023, 1, 1).position_in_leap_year(), 1);
    assert_eq!(date(2023, 12, 31).position_in_leap_year(), 366);
    assert_eq!(date(2024, 12, 31).position_in_leap_year(), 366);
}

#[test]
fn age_turns_on_the_birthday() {
    let birth = date(2008, 9, 14);
    assert_eq!(age_in_years(&birth, &date(2025, 9, 13)), 16);
    assert_eq!(age_in_years(&birth, &date(2025, 9, 14)), 17);
    assert_eq!(age_in_years(&birth, &date(2025, 9, 15)), 17);
    assert_eq!(age_in_years(&birth, &date(2024, 9, 13)), 15);
    assert_eq!(age_in_years(&birth, &date(2024, 9, 14)), 16);
    assert_eq!(age_in_years(&birth, &date(2025, 1, 1)), 16);
    assert_eq!(age_in_years(&birth, &date(2025, 12, 31)), 17);
}

#[test]
fn age_of_a_birth_in_a_common_year_seen_from_a_leap_year() {
    let birth = date(2007, 3, 1);
    assert_eq!(age_in_years(&birth, &date(2024, 2, 29)), 16);
    assert_eq!(age_in_years(&birth, &date(2024, 3, 1)), 17);
}

#[test]
fn age_of_a_leap_day_birth() {
    let birth = date(2004, 2, 29);
    assert_eq!(age_in_years(&birth, &date(2023, 2, 28)), 18);
    assert_eq!(age_in_years(&birth, &date(2023, 3, 1)), 19);
    assert_eq!(age_in_years(&birth, &date(2024, 2, 28)), 19);
    assert_eq!(age_in_years(&birth, &date(2024, 2, 29)), 20);
}

#[test]
fn age_on_the_day_of_birth_is_zero() {
    let birth = date(2008, 9, 14);
    assert_eq!(age_in_years(&birth, &birth), 0);
    assert_eq!(age_in_years(&birth, &date(2009, 9, 13)), 0);
    assert_eq!(age_in_years(&birth, &date(2009, 9, 14)), 1);
}

#[test]
fn age_before_birth_is_negative() {
    let birth = date(2008, 9, 14);
    assert_eq!(age_in_years(&birth, &date(2008, 9, 13)), -1);
    assert_eq!(age_in_years(&birth, &date(2007, 9, 14)), -1);
    assert_eq!(age_in_years(&birth, &date(2007, 9, 13)), -2);
}

#[test]
fn age_across_the_whole_range_of_years() {
    let first = date(MIN_YEAR, 1, 1);
    let last = date(MAX_YEAR, 12, 31);
    assert_eq!(age_in_years(&first, &last), 524_285);
    assert_eq!(age_in_years(&last, &first), -524_286);
}

#[test]
fn age_agrees_with_chrono_on_every_day_of_thirty_years() {
    for (by, bm, bd) in [(2008, 9, 14), (2004, 2, 29), (2007, 3, 1), (2000, 1, 1), (1999, 12, 31)] {
        let birth = date(by, bm, bd);
        let base = NaiveDate::from_ymd_opt(by, bm, bd).unwrap();
        let mut day = base;
        let end = NaiveDate::from_ymd_opt(by + 30, 12, 31).unwrap();
        while day <= end {
            let today = date(day.year(), day.month(), day.day());
            let expected = day.years_since(base).expect("not before the birth") as i32;
            assert_eq!(age_in_years(&birth, &today), expected, "{base} to {day}");
            day = day.succ_opt().unwrap();
        }
    }
}
