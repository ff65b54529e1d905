use chrono::Datelike;
use chrono::NaiveDate;
use chrono::Weekday;
use working_days_scaler::calendar::MAX_YEAR;
use working_days_scaler::calendar::MIN_YEAR;
use working_days_scaler::Date;
use working_days_scaler::DateTime;
use working_days_scaler::FixedOffset;
use working_days_scaler::TimeOfDay;

fn agrees_with_chrono(date: Date, naive: NaiveDate) {
    assert_eq!(date.year(), naive.year());
    assert_eq!(date.month(), naive.month());
    assert_eq!(date.day(), naive.day());
    assert_eq!(date.num_days_from_ce(), naive.num_days_from_ce());
    assert_eq!(date.is_weekend(), matches!(naive.weekday(), Weekday::Sat | Weekday::Sun));
}

#[test]
fn offsets_of_less_than_a_day_are_accepted() {
    assert_eq!(FixedOffset::east(3 * 3600).local_minus_utc(), 10800);
    assert_eq!(FixedOffset::west(3 * 3600).local_minus_utc(), -10800);
    assert_eq!(FixedOffset::east_opt(86399).unwrap().local_minus_utc(), 86399);
    assert_eq!(FixedOffset::west_opt(86399).unwrap().local_minus_utc(), -86399);
    assert_eq!(FixedOffset::east_opt(-86399).unwrap().local_minus_utc(), -86399);
    assert!(FixedOffset::east_opt(86400).is_none());
    assert!(FixedOffset::east_opt(-86400).is_none());
    assert!(FixedOffset::west_opt(86400).is_none());
    assert!(FixedOffset::west_opt(-86400).is_none());
    assert!(FixedOffset::east_opt(i32::MAX).is_none());
    assert!(FixedOffset::west_opt(i32::MIN).is_none());
}

#[test]
fn only_days_of_the_calendar_are_dates() {
    let offset = FixedOffset::east(0);
    assert!(Date::ymd_opt(offset, 2015, 3, 14).is_some());
    assert!(Date::ymd_opt(offset, 2015, 0, 14).is_none());
    assert!(Date::ymd_opt(offset, 2015, 13, 14).is_none());
    assert!(Date::ymd_opt(offset, 2015, 3, 0).is_none());
    assert!(Date::ymd_opt(offset, 2015, 2, 29).is_none());
    assert!(Date::ymd_opt(offset, 2016, 2, 29).is_some());
    assert!(Date::ymd_opt(offset, 1900, 2, 29).is_none());
    assert!(Date::ymd_opt(offset, 2000, 2, 29).is_some());
    assert!(Date::ymd_opt(offset, -4, 2, 29).is_some());
    assert!(Date::ymd_opt(offset, 2023, 4, 31).is_none());
    assert!(Date::ymd_opt(offset, 400000, 1, 1).is_none());
    assert!(Date::ymd_opt(offset, -400000, 1, 1).is_none());
    assert!(Date::ymd_opt(offset, MAX_YEAR, 12, 31).is_some());
    assert!(Date::ymd_opt(offset, MAX_YEAR + 1, 1, 1).is_none());
    assert!(Date::ymd_opt(offset, MIN_YEAR, 1, 1).is_some());
    assert!(Date::ymd_opt(offset, MIN_YEAR - 1, 12, 31).is_none());
}

#[test]
fn the_range_of_years_is_that_of_chrono() {
    assert_eq!(NaiveDate::MIN.year(), MIN_YEAR);
    assert_eq!(NaiveDate::MAX.year(), MAX_YEAR);
    assert_eq!((NaiveDate::MIN.month(), NaiveDate::MIN.day()), (1, 1));
    assert_eq!((NaiveDate::MAX.month(), NaiveDate::MAX.day()), (12, 31));
}

#[test]
fn day_numbers_start_at_one_on_the_first_day_of_year_one() {
    let offset = FixedOffset::east(0);
    assert_eq!(Date::ymd(offset, 1970, 1, 1).num_days_from_ce(), 719_163);
    assert_eq!(Date::ymd(offset, 2, 1, 1).num_days_from_ce(), 366);
    assert_eq!(Date::ymd(offset, 1, 1, 1).num_days_from_ce(), 1);
    assert_eq!(Date::ymd(offset, 0, 12, 31).num_days_from_ce(), 0);
    assert_eq!(Date::ymd(offset, 0, 1, 1).num_days_from_ce(), -365);
    assert_eq!(Date::ymd(offset, 2022, 6, 1).num_days_from_ce(), 738_307);
}

#[test]
fn weekends_are_saturdays_and_sundays() {
    let offset = FixedOffset::west(3 * 3600);
    // 1 January of year 1 is a Monday.
    assert!(!Date::ymd(offset, 1, 1, 1).is_weekend());
    assert!(Date::ymd(offset, 1, 1, 6).is_weekend());
    assert!(Date::ymd(offset, 1, 1, 7).is_weekend());
    assert!(!Date::ymd(offset, 1, 1, 8).is_weekend());
    // 3 and 4 June 2022 are a Saturday and a Sunday.
    assert!(!Date::ymd(offset, 2022, 6, 3).is_weekend());
    assert!(Date::ymd(offset, 2022, 6, 4).is_weekend());
    assert!(Date::ymd(offset, 2022, 6, 5).is_weekend());
    assert!(!Date::ymd(offset, 2022, 6, 6).is_weekend());
    // 31 December of year 0 is a Sunday, the day before it a Saturday.
    assert!(Date::ymd(offset, 0, 12, 31).is_weekend());
    assert!(Date::ymd(offset, 0, 12, 30).is_weekend());
    assert!(!Date::ymd(offset, 0, 12, 29).is_weekend());
}

#[test]
fn every_day_of_three_centuries_agrees_with_chrono() {
    let offset = FixedOffset::east(0);
    let mut date = Date::ymd(offset, 1850, 1, 1);
    let mut naive = NaiveDate::from_ymd_opt(1850, 1, 1).unwrap();
    let last = NaiveDate::from_ymd_opt(2150, 12, 31).unwrap();
    let mut days = 0;
    loop {
        agrees_with_chrono(date, naive);
        assert_eq!(
            Date::ymd_opt(offset, naive.year(), naive.month(), naive.day()),
            Some(date)
        );
        days += 1;
        if naive == last {
            break;
        }
        let number = date.num_days_from_ce();
        date = date.succ_opt().unwrap();
        naive = naive.succ_opt().unwrap();
        assert_eq!(date.num_days_from_ce(), number + 1);
    }
    assert_eq!(days, 109_938);
}

#[test]
fn days_around_the_year_zero_agree_with_chrono() {
    let offset = FixedOffset::east(0);
    let mut date = Date::ymd(offset, -801, 1, 1);
    let mut naive = NaiveDate::from_ymd_opt(-801, 1, 1).unwrap();
    let last = NaiveDate::from_ymd_opt(401, 12, 31).unwrap();
    loop {
        agrees_with_chrono(date, naive);
        if naive == last {
            break;
        }
        date = date.succ_opt().unwrap();
        naive = naive.succ_opt().unwrap();
    }
    assert_eq!(date, Date::ymd(offset, 401, 12, 31));
}

#[test]
fn the_first_and_last_years_agree_with_chrono() {
    let offset = FixedOffset::east(0);
    for year in [MIN_YEAR, MIN_YEAR + 1, -100_000, 100_000, MAX_YEAR - 1, MAX_YEAR] {
        let mut date = Date::ymd(offset, year, 1, 1);
        let mut naive = NaiveDate::from_ymd_opt(year, 1, 1).unwrap();
        loop {
            agrees_with_chrono(date, naive);
            if naive.month() == 12 && naive.day() == 31 {
                break;
            }
            date = date.succ_opt().unwrap();
            naive = naive.succ_opt().unwrap();
        }
        assert_eq!((date.month(), date.day()), (12, 31));
    }
    assert!(Date::ymd(offset, MAX_YEAR, 12, 31).succ_opt().is_none());
    assert_eq!(
        Date::ymd(offset, MAX_YEAR, 12, 30).succ_opt(),
        Some(Date::ymd(offset, MAX_YEAR, 12, 31))
    );
}

#[test]
fn every_combination_of_month_and_day_is_judged_as_chrono_judges_it() {
    let offset = FixedOffset::east(0);
    for year in [-401, -400, -100, -4, -1, 0, 1, 4, 100, 400, 1900, 2000, 2023, 2024] {
        for month in 0..=13 {
            for day in 0..=32 {
                assert_eq!(
                    Date::ymd_opt(offset, year, month, day).is_some(),
                    NaiveDate::from_ymd_opt(year, month, day).is_some()
                );
            }
        }
    }
}

#[test]
fn the_day_after_the_last_of_a_month_is_the_first_of_the_next() {
    let offset = FixedOffset::east(0);
    assert_eq!(
        Date::ymd(offset, 2024, 2, 28).succ_opt(),
        Some(Date::ymd(offset, 2024, 2, 29))
    );
    assert_eq!(Date::ymd(offset, 2024, 2, 29).succ_opt(), Some(Date::ymd(offset, 2024, 3, 1)));
    assert_eq!(Date::ymd(offset, 2023, 2, 28).succ_opt(), Some(Date::ymd(offset, 2023, 3, 1)));
    assert_eq!(Date::ymd(offset, 2023, 12, 31).succ_opt(), Some(Date::ymd(offset, 2024, 1, 1)));
    assert_eq!(Date::ymd(offset, 2023, 4, 30).succ_opt(), Some(Date::ymd(offset, 2023, 5, 1)));
}

#[test]
fn dates_are_equal_when_they_are_the_same_day() {
    let east = FixedOffset::east(3600);
    let west = FixedOffset::west(3600);
    assert_eq!(Date::ymd(east, 2022, 6, 5), Date::ymd(west, 2022, 6, 5));
    assert_ne!(Date::ymd(east, 2022, 6, 5), Date::ymd(east, 2022, 6, 6));
    assert_ne!(Date::ymd(east, 2022, 6, 5), Date::ymd(east, 2022, 7, 5));
    assert_ne!(Date::ymd(east, 2022, 6, 5), Date::ymd(east, 2021, 6, 5));
    assert_eq!(Date::ymd(west, 2022, 6, 5).offset().local_minus_utc(), -3600);
}

#[test]
fn a_date_is_written_with_its_offset() {
    assert_eq!(
        Date::ymd(FixedOffset::west(3 * 3600), 2020, 1, 1).to_string(),
        "2020-01-01-03:00"
    );
    assert_eq!(
        Date::ymd(FixedOffset::east(0), 2021, 12, 31).to_string(),
        "2021-12-31+00:00"
    );
    assert_eq!(
        Date::ymd(FixedOffset::east(5 * 3600 + 30 * 60), 987, 6, 5).to_string(),
        "0987-06-05+05:30"
    );
}

#[test]
fn years_beyond_four_digits_and_offsets_with_seconds_are_written_in_full() {
    assert_eq!(Date::ymd(FixedOffset::east(0), -1, 12, 31).to_string(), "-0001-12-31+00:00");
    assert_eq!(Date::ymd(FixedOffset::west(86_399), 0, 2, 29).to_string(), "0000-02-29-23:59:59");
    assert_eq!(Date::ymd(FixedOffset::east(1), 10_000, 1, 1).to_string(), "+10000-01-01+00:00:01");
    assert_eq!(
        Date::ymd(FixedOffset::east(86_399), MIN_YEAR, 1, 1).to_string(),
        "-262143-01-01+23:59:59"
    );
    assert_eq!(
        Date::ymd(FixedOffset::west(60), MAX_YEAR, 12, 31).to_string(),
        "+262142-12-31-00:01"
    );
    assert_eq!(Date::ymd(FixedOffset::west(59), 9_999, 12, 31).to_string(), "9999-12-31-00:00:59");
    assert_eq!(Date::ymd(FixedOffset::east(3600), -9_999, 1, 1).to_string(), "-9999-01-01+01:00");
    assert_eq!(Date::ymd(FixedOffset::east(3600), -10_000, 1, 1).to_string(), "-10000-01-01+01:00");
}

#[test]
fn a_date_is_read_as_year_month_and_day() {
    let offset = FixedOffset::west(3 * 3600);
    assert_eq!(Date::parse_from_str(offset, "2020-02-24"), Some(Date::ymd(offset, 2020, 2, 24)));
    assert_eq!(Date::parse_from_str(offset, "2020-12-25"), Some(Date::ymd(offset, 2020, 12, 25)));
    assert_eq!(
        Date::parse_from_str(offset, "2020-02-24").unwrap().offset().local_minus_utc(),
        -10800
    );
    assert_eq!(Date::parse_from_str(offset, "2020-02-30"), None);
    assert_eq!(Date::parse_from_str(offset, "2020-13-01"), None);
    assert_eq!(Date::parse_from_str(offset, "24/02/2020"), None);
    assert_eq!(Date::parse_from_str(offset, "jose"), None);
    assert_eq!(Date::parse_from_str(offset, ""), None);
    assert_eq!(Date::parse_from_str(offset, "2020-02-24 and more"), None);
    assert_eq!(Date::from_parsed(offset, Some((2020, 2, 24))), Some(Date::ymd(offset, 2020, 2, 24)));
    assert_eq!(Date::from_parsed(offset, Some((2020, 2, 30))), None);
    assert_eq!(Date::from_parsed(offset, None), None);
}

#[test]
fn times_of_day_are_ordered_by_seconds_then_by_nanoseconds() {
    let six = TimeOfDay::from_hms_opt(6, 0, 0).unwrap();
    let noon = TimeOfDay::from_hms_opt(12, 0, 0).unwrap();
    assert_eq!(six, TimeOfDay { secs: 21_600, frac: 0 });
    assert_eq!(TimeOfDay::from_hms_opt(23, 59, 59), Some(TimeOfDay { secs: 86_399, frac: 0 }));
    assert_eq!(TimeOfDay::from_hms_opt(24, 0, 0), None);
    assert_eq!(TimeOfDay::from_hms_opt(0, 60, 0), None);
    assert_eq!(TimeOfDay::from_hms_opt(0, 0, 60), None);
    assert!(six.le(&noon));
    assert!(six.le(&six));
    assert!(!noon.le(&six));
    let a_little_later = TimeOfDay { secs: 21_600, frac: 1 };
    assert!(six.le(&a_little_later));
    assert!(!a_little_later.le(&six));
    let leap_second = TimeOfDay { secs: 86_399, frac: 1_500_000_000 };
    assert!(noon.le(&leap_second));
    assert!(!leap_second.le(&noon));
}

#[test]
fn the_clock_shows_a_day_of_the_calendar_at_the_offset_asked_for() {
    let offset = FixedOffset::west(3 * 3600);
    let now = DateTime::now(offset);
    assert_eq!(now.date.offset().local_minus_utc(), -10800);
    assert!(now.date.year() >= 2024);
    assert!(now.time.secs < 86_400);
    assert!(now.time.frac < 2_000_000_000);
    let naive = NaiveDate::from_ymd_opt(now.date.year(), now.date.month(), now.date.day());
    assert!(naive.is_some());
    let later = DateTime::now(offset);
    assert!(now.date.num_days_from_ce() <= later.date.num_days_from_ce());
}
