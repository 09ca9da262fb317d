//! Behavior of logged work entries: effective durations, accessors and the
//! exact log-line rendering.

use flex_cli::project_log::{DurationLog, PeriodLog, WorkLog};
use flex_cli::time::{Date, Duration, Period, Time};

fn nine_to_five() -> Period {
    Period::new(Time::new(9, 0), Time::new(17, 0))
}

#[test]
fn duration_entry_stores_its_parts() {
    let entry = WorkLog::new_duration(
        Duration::from_hm(2, 30),
        Date::new(2024, 1, 2),
        "Fixed bug".to_string(),
    );
    assert_eq!(entry.get_duration(), Duration::from_hm(2, 30));
    assert_eq!(entry.get_date(), Date::new(2024, 1, 2));
}

#[test]
fn period_entry_subtracts_breaks() {
    let entry = WorkLog::new_period(
        nine_to_five(),
        Date::new(2024, 1, 2),
        "Dev work".to_string(),
        vec![Duration::from_m(30)],
    );
    assert_eq!(entry.get_duration(), Duration::from_hm(7, 30));
}

#[test]
fn period_entry_without_breaks_keeps_elapsed_time() {
    let entry = WorkLog::new_period(
        nine_to_five(),
        Date::new(2024, 1, 2),
        "Dev work".to_string(),
        vec![],
    );
    assert_eq!(entry.get_duration(), Duration::from_hm(8, 0));
}

#[test]
fn period_entry_with_excess_breaks_goes_negative() {
    let one_hour = Period::new(Time::new(9, 0), Time::new(10, 0));
    let entry = WorkLog::new_period(
        one_hour,
        Date::new(2024, 1, 2),
        "Overbooked".to_string(),
        vec![Duration::from_m(45), Duration::from_m(45)],
    );
    assert_eq!(entry.get_duration(), Duration::from_m(-30));
}

#[test]
fn duration_log_render_exact_line() {
    let entry = DurationLog::new(
        Duration::from_hm(2, 30),
        Date::new(2024, 1, 2),
        "Fixed bug".to_string(),
    );
    assert_eq!(entry.render(), "2024-01-02: 2 hours and 30 minutes, Fixed bug");
}

#[test]
fn work_log_render_dispatches_to_variant() {
    let entry = WorkLog::new_duration(
        Duration::from_hm(2, 30),
        Date::new(2024, 1, 2),
        "Fixed bug".to_string(),
    );
    assert_eq!(entry.render(), "2024-01-02: 2 hours and 30 minutes, Fixed bug");
}

#[test]
fn period_log_render_with_breaks() {
    let entry = PeriodLog::new(
        nine_to_five(),
        Date::new(2024, 1, 2),
        "Dev work".to_string(),
        vec![Duration::from_m(30)],
    );
    assert_eq!(
        entry.render(),
        "2024-01-02: 7 hours and 30 minutes, 9:0-17:0, Dev work | Breaks: 30 minutes"
    );
}

#[test]
fn period_log_render_without_breaks() {
    let entry = PeriodLog::new(
        nine_to_five(),
        Date::new(2024, 1, 2),
        "Dev work".to_string(),
        vec![],
    );
    assert_eq!(entry.render(), "2024-01-02: 8 hours, 9:0-17:0, Dev work");
}

#[test]
fn period_log_render_joins_several_breaks() {
    let entry = PeriodLog::new(
        nine_to_five(),
        Date::new(2024, 1, 2),
        "Dev work".to_string(),
        vec![Duration::from_m(30), Duration::from_hm(1, 0)],
    );
    assert_eq!(
        entry.render(),
        "2024-01-02: 6 hours and 30 minutes, 9:0-17:0, Dev work | Breaks: 30 minutes, 1 hour"
    );
}

#[test]
fn missing_description_renders_as_work() {
    let entry = DurationLog::from_parts(Duration::from_m(60), Date::new(2024, 1, 2), None);
    assert_eq!(entry.render(), "2024-01-02: 1 hour, Work");
}

#[test]
fn from_parts_keeps_fields_verbatim() {
    let rebuilt = PeriodLog::from_parts(
        Duration::from_m(410),
        nine_to_five(),
        vec![Duration::from_m(70)],
        Date::new(2024, 1, 3),
        Some("Loaded".to_string()),
    );
    assert_eq!(rebuilt.duration(), Duration::from_m(410));
    assert_eq!(rebuilt.period().into_times(), (Time::new(9, 0), Time::new(17, 0)));
    assert_eq!(rebuilt.breaks().as_slice(), &[Duration::from_m(70)]);
    assert_eq!(*rebuilt.date(), Date::new(2024, 1, 3));
    assert_eq!(rebuilt.description().as_deref(), Some("Loaded"));
}
