use smcont::money::{Money, MoneyError, MAX_SCALE};

fn m(magnitude: i64, scale: u32) -> Money {
    Money { magnitude, scale }
}

#[test]
fn new_accepts_non_negative_scale() {
    assert_eq!(Money::new(1550, 2), Ok(m(1550, 2)));
    assert_eq!(Money::new(-3, 0), Ok(m(-3, 0)));
}

#[test]
fn new_rejects_negative_scale() {
    assert_eq!(Money::new(1550, -1), Err(MoneyError::NegativeScale));
}

#[test]
fn new_rejects_scale_beyond_limit() {
    assert_eq!(Money::new(1, MAX_SCALE as i64 + 1), Err(MoneyError::ScaleTooLarge));
    assert_eq!(Money::new(1, MAX_SCALE as i64), Ok(m(1, MAX_SCALE)));
}

#[test]
fn rescale_up_multiplies() {
    assert_eq!(m(1550, 2).rescale(4), Some(m(155000, 4)));
    assert_eq!(m(-7, 0).rescale(3), Some(m(-7000, 3)));
}

#[test]
fn rescale_down_is_exact_or_refused() {
    assert_eq!(m(155000, 4).rescale(2), Some(m(1550, 2)));
    assert_eq!(m(-7000, 3).rescale(0), Some(m(-7, 0)));
    assert_eq!(m(1555, 2).rescale(1), None);
    assert_eq!(m(-1555, 2).rescale(1), None);
}

#[test]
fn rescale_up_overflow_is_refused() {
    assert_eq!(m(i64::MAX, 0).rescale(1), None);
    assert_eq!(m(i64::MIN, 0).rescale(18), None);
}

#[test]
fn rescale_round_trip_keeps_magnitude() {
    for &(mag, s1, s2) in &[(1550i64, 2u32, 5u32), (-42, 0, 17), (0, 3, 3), (922337203685, 0, 7)] {
        let up = m(mag, s1).rescale(s2).unwrap();
        assert_eq!(up.rescale(s1), Some(m(mag, s1)));
    }
}

#[test]
fn add_aligns_scales() {
    assert_eq!(m(15, 1).add(&m(25, 2)), Some(m(175, 2)));
    assert_eq!(m(1, 0).add(&m(-150, 2)), Some(m(-50, 2)));
}

#[test]
fn add_overflow_is_refused() {
    assert_eq!(m(i64::MAX, 0).add(&m(1, 0)), None);
}

#[test]
fn compare_aligns_scales() {
    assert_eq!(m(15, 1).compare(&m(150, 2)), Some(0));
    assert_eq!(m(15, 1).compare(&m(151, 2)), Some(-1));
    assert_eq!(m(2, 0).compare(&m(199, 2)), Some(1));
    assert_eq!(m(i64::MAX, 0).compare(&m(1, 1)), None);
}

#[test]
fn decimal_rendering() {
    assert_eq!(m(1550, 2).to_decimal_string(), "15.50");
    assert_eq!(m(-5, 2).to_decimal_string(), "-0.05");
    assert_eq!(m(7, 0).to_decimal_string(), "7");
    assert_eq!(m(0, 3).to_decimal_string(), "0.000");
    assert_eq!(m(123456, 3).to_decimal_string(), "123.456");
    assert_eq!(m(i64::MIN, 18).to_decimal_string(), "-9.223372036854775808");
}
