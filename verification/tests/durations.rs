//! Behavior of the signed `Duration` type: composition, decomposition,
//! arithmetic, summation, ordering and rendering.

use flex_cli::time::Duration;

#[test]
fn from_hm_to_hm_roundtrip() {
    assert_eq!(Duration::from_hm(2, 30).to_hm(), (2, 30));
    assert_eq!(Duration::from_hm(0, 45).to_hm(), (0, 45));
    assert_eq!(Duration::from_hm(26, 0).to_hm(), (26, 0));
    assert_eq!(Duration::from_hm(0, 0).to_hm(), (0, 0));
}

#[test]
fn from_hm_combines_minutes() {
    assert_eq!(Duration::from_hm(2, 30), Duration::from_m(150));
    assert_eq!(Duration::from_hm(-2, 0), Duration::from_m(-120));
    assert_eq!(Duration::from_hm(0, -30), Duration::from_m(-30));
}

#[test]
fn to_hm_truncates_toward_zero() {
    assert_eq!(Duration::from_m(90).to_hm(), (1, 30));
    assert_eq!(Duration::from_m(-90).to_hm(), (-1, -30));
    assert_eq!(Duration::from_m(-120).to_hm(), (-2, 0));
    assert_eq!(Duration::from_m(-45).to_hm(), (0, -45));
}

#[test]
fn add_then_sub_cancels() {
    let d1 = Duration::from_m(125);
    let d2 = Duration::from_m(-40);
    assert_eq!(d1.add(d2).sub(d2), d1);
    assert_eq!(d2.add(d1).sub(d1), d2);
}

#[test]
fn add_commutes() {
    let d1 = Duration::from_hm(1, 15);
    let d2 = Duration::from_m(-30);
    assert_eq!(d1.add(d2), d2.add(d1));
}

#[test]
fn add_associates() {
    let d1 = Duration::from_m(10);
    let d2 = Duration::from_m(-25);
    let d3 = Duration::from_m(300);
    assert_eq!(d1.add(d2).add(d3), d1.add(d2.add(d3)));
}

#[test]
fn sum_of_empty_is_zero() {
    let none: Vec<Duration> = vec![];
    assert_eq!(Duration::sum(&none), Duration::from_m(0));
}

#[test]
fn sum_folds_all_entries() {
    let some = vec![Duration::from_m(60), Duration::from_m(-30), Duration::from_m(15)];
    assert_eq!(Duration::sum(&some), Duration::from_m(45));
}

#[test]
fn ordering_follows_minute_count() {
    assert!(Duration::from_m(-5) < Duration::from_m(0));
    assert!(Duration::from_m(61) > Duration::from_hm(1, 0));
    assert_eq!(
        Duration::from_m(90).partial_cmp(&Duration::from_hm(1, 30)),
        Some(std::cmp::Ordering::Equal)
    );
}

#[test]
fn render_joins_hours_and_minutes() {
    assert_eq!(Duration::from_hm(2, 30).render(), "2 hours and 30 minutes");
}

#[test]
fn render_singular_units() {
    assert_eq!(Duration::from_hm(1, 0).render(), "1 hour");
    assert_eq!(Duration::from_m(1).render(), "1 minute");
    assert_eq!(Duration::from_hm(1, 1).render(), "1 hour and 1 minute");
}

#[test]
fn render_omits_zero_units() {
    assert_eq!(Duration::from_m(45).render(), "45 minutes");
    assert_eq!(Duration::from_hm(3, 0).render(), "3 hours");
    assert_eq!(Duration::from_m(0).render(), "");
}

#[test]
fn render_negative_durations() {
    assert_eq!(Duration::from_hm(-2, 0).render(), "-2 hours");
    assert_eq!(Duration::from_m(-90).render(), "-1 hour and -30 minutes");
    assert_eq!(Duration::from_m(-1).render(), "-1 minute");
}
