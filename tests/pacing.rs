use gitmotion::pacing::calculate_seconds_per_day;

fn value(days: u64) -> (u64, u64) {
    let r = calculate_seconds_per_day(days);
    (r.numerator(), r.denominator())
}

fn as_f64(days: u64) -> f64 {
    let (n, d) = value(days);
    n as f64 / d as f64
}

#[test]
fn zero_days_give_the_floor() {
    assert_eq!(value(0), (1, 100000));
}

#[test]
fn one_day_is_clamped_to_the_ceiling() {
    assert_eq!(value(1), (1, 1));
    assert_eq!(value(41), (1, 1));
}

#[test]
fn interpolated_values_are_exact() {
    // 500 days: target 60 s, 0.12 s per day.
    assert_eq!(value(500), (60000, 500000));
    assert_eq!(calculate_seconds_per_day(500).to_decimal_string(), "0.120000");
    // 1000 days: target 80 s.
    assert_eq!(value(1000), (80000, 1000000));
    assert_eq!(calculate_seconds_per_day(1000).to_decimal_string(), "0.080000");
    // 42 days: 1042 / 1050 of a second.
    assert_eq!(value(42), (41680, 42000));
}

#[test]
fn beyond_threshold_uses_max_duration() {
    assert_eq!(value(1001), (80, 1001));
    assert_eq!(value(2000), (80, 2000));
    assert_eq!(calculate_seconds_per_day(2000).to_decimal_string(), "0.040000");
    assert_eq!(value(8_000_000), (80, 8_000_000));
    assert_eq!(value(8_000_001), (1, 100000));
}

#[test]
fn per_day_time_never_grows_with_more_days() {
    let mut previous = as_f64(1);
    for d in 2..=1500u64 {
        let v = as_f64(d);
        assert!(v <= previous, "day {}", d);
        previous = v;
    }
}

#[test]
fn values_stay_within_floor_and_ceiling() {
    for d in [0u64, 1, 2, 10, 41, 42, 999, 1000, 1001, 50_000, 8_000_000, 8_000_001, u64::MAX] {
        let v = as_f64(d);
        assert!(v >= 0.00001 && v <= 1.0, "day {}", d);
    }
}

#[test]
fn decimal_text_of_bounds() {
    assert_eq!(calculate_seconds_per_day(0).to_decimal_string(), "0.000010");
    assert_eq!(calculate_seconds_per_day(3).to_decimal_string(), "1.000000");
}
