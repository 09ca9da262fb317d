//! Behavior of `Time` and `Period`: subtraction into signed durations,
//! ordering and rendering.

use flex_cli::time::{Duration, Period, Time};

#[test]
fn time_since_full_day_hours() {
    let nine = Time::new(9, 0);
    let five = Time::new(17, 0);
    assert_eq!(five.time_since(&nine), Duration::from_hm(8, 0));
}

#[test]
fn time_since_with_minutes() {
    let start = Time::new(9, 30);
    let end = Time::new(17, 15);
    assert_eq!(end.time_since(&start), Duration::from_m(465));
}

#[test]
fn time_since_is_negative_when_reversed() {
    let nine = Time::new(9, 0);
    let five = Time::new(17, 0);
    assert_eq!(nine.time_since(&five), Duration::from_hm(-8, 0));
}

#[test]
fn time_new_and_into_hm() {
    let t = Time::new(23, 59);
    assert_eq!(t.into_hm(), (23, 59));
}

#[test]
fn time_ordering_is_lexicographic() {
    assert!(Time::new(9, 59) < Time::new(10, 0));
    assert!(Time::new(10, 5) < Time::new(10, 15));
    assert_eq!(
        Time::new(7, 7).partial_cmp(&Time::new(7, 7)),
        Some(std::cmp::Ordering::Equal)
    );
}

#[test]
fn time_render_has_no_padding() {
    assert_eq!(Time::new(9, 0).render(), "9:0");
    assert_eq!(Time::new(12, 30).render(), "12:30");
}

#[test]
fn period_duration_subtracts_endpoints() {
    let p = Period::new(Time::new(9, 0), Time::new(17, 0));
    assert_eq!(p.duration(), Duration::from_hm(8, 0));
}

#[test]
fn period_reversed_duration_is_negative() {
    let p = Period::new(Time::new(17, 0), Time::new(9, 0));
    assert_eq!(p.duration(), Duration::from_hm(-8, 0));
}

#[test]
fn period_into_times_returns_endpoints() {
    let from = Time::new(8, 15);
    let to = Time::new(16, 45);
    let p = Period::new(from, to);
    assert_eq!(p.into_times(), (from, to));
}

#[test]
fn period_render_joins_endpoints() {
    let p = Period::new(Time::new(9, 0), Time::new(17, 30));
    assert_eq!(p.render(), "9:0-17:30");
}
