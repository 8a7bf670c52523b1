use muxcore::rational::{rescale_ts, Rational};

#[test]
fn rescale_exact_30_to_1000() {
    let from = Rational::new(1, 30);
    let to = Rational::new(1, 1000);
    // t * 1000 / 30, exactly, when 30 divides t * 1000.
    assert_eq!(rescale_ts(0, from, to), 0);
    assert_eq!(rescale_ts(3, from, to), 100);
    assert_eq!(rescale_ts(30, from, to), 1000);
    assert_eq!(rescale_ts(90, from, to), 3000);
}

#[test]
fn rescale_floors_inexact_values() {
    let from = Rational::new(1, 30);
    let to = Rational::new(1, 1000);
    // 1000/30 = 33.33..., floored.
    assert_eq!(rescale_ts(1, from, to), 33);
    assert_eq!(rescale_ts(2, from, to), 66);
}

#[test]
fn rescale_negative_timestamps() {
    let from = Rational::new(1, 30);
    let to = Rational::new(1, 1000);
    assert_eq!(rescale_ts(-3, from, to), -100);
    // Floored, not truncated: -33.33... goes down to -34.
    assert_eq!(rescale_ts(-1, from, to), -34);
}

#[test]
fn rescale_identity_base() {
    let tb = Rational::new(1, 90000);
    assert_eq!(rescale_ts(12345, tb, tb), 12345);
}

#[test]
fn rescale_saturates_at_i64_range() {
    let from = Rational::new(1, 1);
    let to = Rational::new(1, 1000);
    assert_eq!(rescale_ts(i64::MAX, from, to), i64::MAX);
    assert_eq!(rescale_ts(i64::MIN, from, to), i64::MIN);
}
