//! Behavior of `Date`: construction, month truncation, ordering, rendering
//! and weekday counting over inclusive calendar ranges.

use flex_cli::time::Date;

#[test]
fn new_and_into_ymd() {
    let d = Date::new(2024, 3, 15);
    assert_eq!(d.into_ymd(), (2024, 3, 15));
}

#[test]
fn start_of_month_truncates_day() {
    assert_eq!(Date::new(2024, 3, 15).start_of_month(), Date::new(2024, 3, 1));
    assert_eq!(Date::new(1999, 12, 31).start_of_month(), Date::new(1999, 12, 1));
}

#[test]
fn weekdays_monday_to_friday_counts_five() {
    // 2024-01-01 is a Monday; the same week's Friday is 2024-01-05.
    let monday = Date::new(2024, 1, 1);
    let friday = Date::new(2024, 1, 5);
    assert_eq!(monday.weekdays_since(&friday), 5);
}

#[test]
fn weekdays_full_week_counts_five_from_any_start() {
    // Wednesday through Tuesday.
    assert_eq!(Date::new(2024, 1, 3).weekdays_since(&Date::new(2024, 1, 9)), 5);
    // Saturday through Friday.
    assert_eq!(Date::new(2024, 1, 6).weekdays_since(&Date::new(2024, 1, 12)), 5);
    // Monday through Sunday.
    assert_eq!(Date::new(2024, 1, 1).weekdays_since(&Date::new(2024, 1, 7)), 5);
}

#[test]
fn weekdays_single_day_range() {
    // A single weekday counts one; a single Saturday or Sunday counts zero.
    let monday = Date::new(2024, 1, 1);
    assert_eq!(monday.weekdays_since(&monday), 1);
    let saturday = Date::new(2024, 1, 6);
    assert_eq!(saturday.weekdays_since(&saturday), 0);
    let sunday = Date::new(2024, 1, 7);
    assert_eq!(sunday.weekdays_since(&sunday), 0);
}

#[test]
fn weekdays_reversed_range_counts_zero() {
    let earlier = Date::new(2024, 1, 1);
    let later = Date::new(2024, 1, 5);
    assert_eq!(later.weekdays_since(&earlier), 0);
}

#[test]
fn weekdays_skip_a_weekend() {
    // Friday 2024-01-05 through Monday 2024-01-08: only the two weekdays.
    assert_eq!(Date::new(2024, 1, 5).weekdays_since(&Date::new(2024, 1, 8)), 2);
}

#[test]
fn weekdays_across_leap_february() {
    // 2024 is a leap year: Wed 2024-02-28, Thu 2024-02-29, Fri 2024-03-01.
    assert_eq!(Date::new(2024, 2, 28).weekdays_since(&Date::new(2024, 3, 1)), 3);
    // 2023 is not: Tue 2023-02-28, Wed 2023-03-01.
    assert_eq!(Date::new(2023, 2, 28).weekdays_since(&Date::new(2023, 3, 1)), 2);
}

#[test]
fn weekdays_across_year_boundary() {
    // Fri 2023-12-29 through Tue 2024-01-02: Friday, Monday, Tuesday.
    assert_eq!(Date::new(2023, 12, 29).weekdays_since(&Date::new(2024, 1, 2)), 3);
}

#[test]
fn ordering_is_lexicographic() {
    assert!(Date::new(2023, 12, 31) < Date::new(2024, 1, 1));
    assert!(Date::new(2024, 2, 1) < Date::new(2024, 10, 1));
    assert!(Date::new(2024, 3, 4) < Date::new(2024, 3, 11));
    assert_eq!(
        Date::new(2024, 3, 4).partial_cmp(&Date::new(2024, 3, 4)),
        Some(std::cmp::Ordering::Equal)
    );
}

#[test]
fn render_pads_month_and_day() {
    assert_eq!(Date::new(2024, 1, 2).render(), "2024-01-02");
    assert_eq!(Date::new(2024, 11, 23).render(), "2024-11-23");
    assert_eq!(Date::new(987, 6, 5).render(), "987-06-05");
}
