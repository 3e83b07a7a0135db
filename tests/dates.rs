use chrono::{Datelike, NaiveDate};
use polygon_aggs::dates::{default_from_date, default_to_date, from_date_on, to_date_on};

fn day(y: i32, m: u32, d: u32) -> i32 {
    NaiveDate::from_ymd_opt(y, m, d).unwrap().num_days_from_ce()
}

#[test]
fn default_range_ends_today_and_starts_five_days_before() {
    let today = day(2024, 6, 10);
    assert_eq!(today, 739047);
    assert_eq!(to_date_on(today).as_deref(), Some("2024-06-10"));
    assert_eq!(from_date_on(today).as_deref(), Some("2024-06-05"));
}

#[test]
fn default_range_crosses_month_and_year() {
    assert_eq!(from_date_on(day(2024, 3, 2)).as_deref(), Some("2024-02-26"));
    assert_eq!(from_date_on(day(2025, 1, 3)).as_deref(), Some("2024-12-29"));
}

#[test]
fn first_day_of_the_era() {
    assert_eq!(to_date_on(1).as_deref(), Some("0001-01-01"));
}

#[test]
fn days_outside_the_calendar() {
    assert_eq!(to_date_on(i32::MAX), None);
    assert_eq!(from_date_on(i32::MIN), None);
    assert_eq!(from_date_on(i32::MIN + 4), None);
}

#[test]
fn defaults_from_the_clock() {
    let to = default_to_date().unwrap();
    let from = default_from_date().unwrap();
    assert_eq!(to.len(), 10);
    assert_eq!(from.len(), 10);
    assert!(from < to);
}
