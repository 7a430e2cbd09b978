use duration_helper::{DurationHelper, Interval};

#[test]
fn test_nanos() {
    assert_eq!(5.nanos(), Interval { secs: 0, nanos: 5 });
}

#[test]
fn test_micros() {
    assert_eq!(5.micros(), Interval { secs: 0, nanos: 5_000 });
}

#[test]
fn test_millis() {
    assert_eq!(5.millis(), Interval { secs: 0, nanos: 5_000_000 });
}

#[test]
fn test_secs() {
    assert_eq!(5.secs(), Interval { secs: 5, nanos: 0 });
}

#[test]
fn test_hours() {
    assert_eq!(5.hours(), Interval { secs: 5 * 60 * 60, nanos: 0 });
}

#[test]
fn test_days() {
    assert_eq!(5.days(), Interval { secs: 5 * 24 * 60 * 60, nanos: 0 });
}

#[test]
fn test_weeks() {
    assert_eq!(5.weeks(), Interval { secs: 5 * 7 * 24 * 60 * 60, nanos: 0 });
}

#[test]
fn test_months() {
    assert_eq!(5.months(), Interval { secs: 5 * 30 * 24 * 60 * 60, nanos: 0 });
}

#[test]
fn test_years() {
    assert_eq!(5.years(), Interval { secs: 5 * 365 * 24 * 60 * 60, nanos: 0 });
}
