use bangla_calendar::calendar::{
    bangla_date_at_timestamp, bangla_date_from_clock, calculate_bangla_date_bd, get_bangla_month_days,
    get_current_bangla_date, to_bangla_checked, BanglaDate, DateError,
};
use bangla_calendar::gregorian::{
    calculate_weekday, day_of_year, gregorian_month_days, is_gregorian_leap_year,
    timestamp_to_gregorian,
};

fn date(day: i32, month: i32, year: i32, weekday: i32) -> BanglaDate {
    BanglaDate { day, month, year, weekday }
}

#[test]
fn leap_rule_repeats_every_four_hundred_years() {
    for year in [1600, 1700, 1800, 1900, 1996, 1999, 2000, 2023, 2024, 2100, -4, -100, 0] {
        assert_eq!(is_gregorian_leap_year(year), is_gregorian_leap_year(year + 400));
    }
}

#[test]
fn leap_rule_on_centuries() {
    assert!(is_gregorian_leap_year(2000));
    assert!(is_gregorian_leap_year(2024));
    assert!(!is_gregorian_leap_year(1900));
    assert!(!is_gregorian_leap_year(2100));
    assert!(!is_gregorian_leap_year(2025));
}

#[test]
fn weekday_spot_checks() {
    assert_eq!(calculate_weekday(2000, 1, 1), 6);
    assert_eq!(calculate_weekday(2025, 4, 14), 1);
    assert_eq!(calculate_weekday(1970, 1, 1), 4);
    assert_eq!(calculate_weekday(1900, 1, 1), 1);
    assert_eq!(calculate_weekday(1776, 7, 4), 4);
    assert_eq!(calculate_weekday(2024, 2, 29), 4);
    assert_eq!(calculate_weekday(2100, 12, 31), 5);
    assert_eq!(calculate_weekday(1600, 3, 1), 3);
}

#[test]
fn month_lengths_of_gregorian_years() {
    assert_eq!(gregorian_month_days(2024, 2), 29);
    assert_eq!(gregorian_month_days(2025, 2), 28);
    assert_eq!(gregorian_month_days(2025, 4), 30);
    assert_eq!(gregorian_month_days(2025, 12), 31);
}

#[test]
fn day_of_year_counts_leap_day() {
    assert_eq!(day_of_year(2025, 1, 1), 1);
    assert_eq!(day_of_year(2024, 3, 1), 61);
    assert_eq!(day_of_year(2025, 3, 1), 60);
    assert_eq!(day_of_year(2025, 4, 14), 104);
    assert_eq!(day_of_year(2025, 12, 31), 365);
    assert_eq!(day_of_year(2024, 12, 31), 366);
}

#[test]
fn timestamps_to_dates() {
    assert_eq!(timestamp_to_gregorian(0), (1970, 1, 1));
    assert_eq!(timestamp_to_gregorian(86399), (1970, 1, 1));
    assert_eq!(timestamp_to_gregorian(86400), (1970, 1, 2));
    assert_eq!(timestamp_to_gregorian(951782400), (2000, 2, 29));
    assert_eq!(timestamp_to_gregorian(1735689600), (2025, 1, 1));
    assert_eq!(timestamp_to_gregorian(1735689599), (2024, 12, 31));
    assert_eq!(timestamp_to_gregorian(1766275200 + 3600), (2025, 12, 21));
}

#[test]
fn new_year_of_2025_is_the_anchor() {
    assert_eq!(calculate_bangla_date_bd(2025, 4, 14), date(1, 0, 1432, 1));
    assert_eq!(calculate_bangla_date_bd(2025, 4, 15), date(1, 0, 1432, 2));
    assert_eq!(calculate_bangla_date_bd(2025, 4, 13), date(30, 11, 1431, 0));
}

#[test]
fn day_past_the_bangla_year_runs_into_the_next() {
    // 2020 was a leap year: day 104 of 2021 is past the 365 days of 1427.
    assert_eq!(calculate_bangla_date_bd(2021, 4, 13), date(30, 11, 1427, 2));
    assert_eq!(calculate_bangla_date_bd(2021, 4, 14), date(1, 0, 1428, 3));
    // 2023 was not: 1 Boishakh 1431 is day 104 of 2024, after a 31-day Falgun.
    assert_eq!(calculate_bangla_date_bd(2024, 4, 12), date(29, 11, 1430, 5));
    assert_eq!(calculate_bangla_date_bd(2024, 4, 13), date(1, 0, 1431, 6));
}

#[test]
fn poush_1432() {
    let d = calculate_bangla_date_bd(2025, 12, 21);
    assert_eq!(d, date(6, 8, 1432, 0));
    assert_eq!(d.format_line1(), "৬ই পৌষ,");
    assert_eq!(d.format_line2(), "১৪৩২ বঙ্গাব্দ");
    assert_eq!(d.format_line3(), "রবিবার, শীতকাল");
}

#[test]
fn falgun_and_choitro_dates() {
    assert_eq!(calculate_bangla_date_bd(2024, 3, 1), date(18, 10, 1430, 5));
    assert_eq!(calculate_bangla_date_bd(2024, 3, 14), date(31, 10, 1430, 4));
    assert_eq!(calculate_bangla_date_bd(2026, 3, 14), date(30, 10, 1432, 6));
    assert_eq!(calculate_bangla_date_bd(2025, 3, 15), date(1, 11, 1431, 6));
    assert_eq!(calculate_bangla_date_bd(2000, 2, 29), date(17, 10, 1406, 2));
    assert_eq!(calculate_bangla_date_bd(2024, 4, 13), date(1, 0, 1431, 6));
}

#[test]
fn checked_conversion_accepts_valid_dates() {
    assert_eq!(to_bangla_checked(2025, 12, 21), Ok(date(6, 8, 1432, 0)));
    assert_eq!(to_bangla_checked(2024, 2, 29), Ok(calculate_bangla_date_bd(2024, 2, 29)));
}

#[test]
fn checked_conversion_rejects_invalid_dates() {
    assert_eq!(to_bangla_checked(2025, 13, 1), Err(DateError::InvalidDate));
    assert_eq!(to_bangla_checked(2025, 0, 1), Err(DateError::InvalidDate));
    assert_eq!(to_bangla_checked(2025, 1, 0), Err(DateError::InvalidDate));
    assert_eq!(to_bangla_checked(2025, 1, 32), Err(DateError::InvalidDate));
    assert_eq!(to_bangla_checked(2025, 2, 29), Err(DateError::InvalidDate));
    assert_eq!(to_bangla_checked(2025, 4, 31), Err(DateError::InvalidDate));
    assert_eq!(to_bangla_checked(i32::MIN, 1, 1), Err(DateError::InvalidDate));
}

#[test]
fn falgun_length_follows_gregorian_leap_rule() {
    assert_eq!(get_bangla_month_days(10, 1306), 30);
    assert_eq!(get_bangla_month_days(10, 1406), 31);
    assert_eq!(get_bangla_month_days(10, 1206), 30);
    assert_eq!(get_bangla_month_days(10, 1006), 31);
    assert_eq!(get_bangla_month_days(10, 1430), 31);
    assert_eq!(get_bangla_month_days(10, 1431), 30);
    assert_eq!(get_bangla_month_days(10, 1506), 30);
}

#[test]
fn other_month_lengths() {
    for m in 0..5 {
        assert_eq!(get_bangla_month_days(m, 1432), 31);
    }
    for m in [5, 6, 7, 8, 9, 11] {
        assert_eq!(get_bangla_month_days(m, 1430), 30);
    }
}

#[test]
fn bangla_year_lengths() {
    for (year, expected) in [(1431, 365), (1430, 366), (1306, 365), (1406, 366), (1432, 365)] {
        let total: i32 = (0..12).map(|m| get_bangla_month_days(m, year)).sum();
        assert_eq!(total, expected);
    }
}

#[test]
fn date_at_timestamp_uses_the_offset() {
    // 2025-12-20 23:30 UTC is already 21 December an hour ahead of UTC.
    let ts = 1766275200 - 1800;
    assert_eq!(bangla_date_at_timestamp(ts, 3600), date(6, 8, 1432, 0));
    assert_eq!(bangla_date_at_timestamp(ts, 0), date(5, 8, 1432, 6));
    assert_eq!(bangla_date_at_timestamp(ts - 3600, 3600), date(5, 8, 1432, 6));
}

#[test]
fn current_date_is_well_formed() {
    let d = get_current_bangla_date().expect("clock reads after 1970");
    assert!((0..12).contains(&d.month));
    assert!((0..7).contains(&d.weekday));
    assert!(d.day >= 1 && d.day <= get_bangla_month_days(d.month, d.year));
    assert!(d.year >= 1432);
}

#[test]
fn clock_reading_is_read_an_hour_ahead_of_utc() {
    // 2025-12-20 22:59:59 UTC is still 20 December; 23:00 UTC is 21 December.
    let midnight = 1766275200u64;
    assert_eq!(bangla_date_from_clock(Some(midnight - 3601)), Some(date(5, 8, 1432, 6)));
    assert_eq!(bangla_date_from_clock(Some(midnight - 3600)), Some(date(6, 8, 1432, 0)));
    assert_eq!(bangla_date_from_clock(Some(midnight)), Some(date(6, 8, 1432, 0)));
    assert_eq!(bangla_date_from_clock(Some(0)), Some(calculate_bangla_date_bd(1970, 1, 1)));
    assert_eq!(bangla_date_from_clock(None), None);
    assert_eq!(bangla_date_from_clock(Some(u64::MAX)), None);
    assert_eq!(bangla_date_from_clock(Some(i32::MAX as u64 * 86400 + 1)), None);
}
