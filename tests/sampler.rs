use measure::sampler::{rate_line, SelectedUnit, Sampler, WINDOW_MS};
use measure::unit::Unit;

#[test]
fn kilo_window_of_2048_bytes() {
    let mut s = Sampler::new(SelectedUnit::Unit(Unit::Kilo), 0);
    s.record(2048);
    assert_eq!(s.poll_at(WINDOW_MS), Some(String::from("2.0 KiB/s\n")));
    assert_eq!(s.count, 0);
    assert_eq!(s.last_ms, WINDOW_MS);
}

#[test]
fn no_line_within_window() {
    let mut s = Sampler::new(SelectedUnit::Auto, 10_000);
    let mut before = s.count;
    for t in [10_000, 10_001, 10_500, 10_999] {
        s.record(100);
        assert!(s.count > before);
        before = s.count;
        assert_eq!(s.poll_at(t), None);
        assert_eq!(s.poll_at(t), None);
    }
    assert_eq!(s.count, 400);
    assert_eq!(s.last_ms, 10_000);
}

#[test]
fn one_line_per_crossing() {
    let mut s = Sampler::new(SelectedUnit::Auto, 0);
    s.record(42);
    assert_eq!(s.poll_at(1_500), Some(String::from("42.0 B/s\n")));
    assert_eq!(s.count, 0);
    assert_eq!(s.poll_at(1_500), None);
    s.record(200124);
    assert_eq!(s.poll_at(2_499), None);
    assert_eq!(s.poll_at(2_500), Some(String::from("195.4 KiB/s\n")));
    assert_eq!(s.poll_at(2_500), None);
}

#[test]
fn clock_going_back_gives_no_line() {
    let mut s = Sampler::new(SelectedUnit::Auto, 5_000);
    s.record(7);
    assert_eq!(s.poll_at(-1_000_000), None);
    assert_eq!(s.poll_at(i64::MIN), None);
    assert_eq!(s.count, 7);
}

#[test]
fn empty_window_reports_zero() {
    let mut s = Sampler::new(SelectedUnit::Auto, i64::MIN);
    assert_eq!(s.poll_at(i64::MAX), Some(String::from("0.0 B/s\n")));
}

#[test]
fn rate_lines() {
    assert_eq!(rate_line(100, &SelectedUnit::Unit(Unit::Giga)), "0.0 GiB/s\n");
    assert_eq!(rate_line(42, &SelectedUnit::Auto), "42.0 B/s\n");
    assert_eq!(rate_line(200124, &SelectedUnit::Auto), "195.4 KiB/s\n");
    assert_eq!(rate_line(3 << 20, &SelectedUnit::Auto), "3.0 MiB/s\n");
}

#[test]
fn sampler_on_the_clock() {
    let mut s = Sampler::start(SelectedUnit::Unit(Unit::Byte));
    assert_eq!(s.count, 0);
    s.record(5);
    // the window opened just now, so a second has not passed
    assert_eq!(s.poll(), None);
    assert_eq!(s.count, 5);
    assert!(s.last_ms > 1_500_000_000_000);
}

#[test]
fn unit_flags() {
    assert_eq!(SelectedUnit::from_flag(Some("b")), SelectedUnit::Unit(Unit::Byte));
    assert_eq!(SelectedUnit::from_flag(Some("k")), SelectedUnit::Unit(Unit::Kilo));
    assert_eq!(SelectedUnit::from_flag(Some("m")), SelectedUnit::Unit(Unit::Mega));
    assert_eq!(SelectedUnit::from_flag(Some("g")), SelectedUnit::Unit(Unit::Giga));
    assert_eq!(SelectedUnit::from_flag(Some("t")), SelectedUnit::Unit(Unit::Tera));
    assert_eq!(SelectedUnit::from_flag(Some("x")), SelectedUnit::Auto);
    assert_eq!(SelectedUnit::from_flag(Some("kb")), SelectedUnit::Auto);
    assert_eq!(SelectedUnit::from_flag(Some("")), SelectedUnit::Auto);
    assert_eq!(SelectedUnit::from_flag(None), SelectedUnit::Auto);
}
