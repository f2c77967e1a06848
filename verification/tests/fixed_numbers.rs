use n3d::fixed::{Fixed, MAX_UNITS};

fn fx(units: i64) -> Fixed {
    Fixed::from_units(units)
}

#[test]
fn renders_whole_numbers_without_fraction() {
    assert_eq!(fx(0).to_text(), "0");
    assert_eq!(fx(140_000).to_text(), "14");
    assert_eq!(Fixed::from_int(5).to_text(), "5");
    assert_eq!(Fixed::from_int(-2).to_text(), "-2");
}

#[test]
fn renders_fractions_without_trailing_zeros() {
    assert_eq!(fx(500).to_text(), "0.05");
    assert_eq!(fx(3_500).to_text(), "0.35");
    assert_eq!(fx(14_500).to_text(), "1.45");
    assert_eq!(fx(4_500).to_text(), "0.45");
    assert_eq!(fx(25).to_text(), "0.0025");
    assert_eq!(fx(10_001).to_text(), "1.0001");
}

#[test]
fn renders_negative_values() {
    assert_eq!(fx(-5_000).to_text(), "-0.5");
    assert_eq!(fx(-123_456).to_text(), "-12.3456");
    assert_eq!(fx(-25_000).to_text(), "-2.5");
}

#[test]
fn arithmetic_is_exact_on_the_grid() {
    assert_eq!(fx(4_000).sub(fx(500)).units, 3_500);
    assert_eq!(fx(15_000).sub(fx(500)).units, 14_500);
    assert_eq!(Fixed::from_int(2).add(Fixed::from_int(3)).units, 50_000);
    assert_eq!(fx(500).mul(fx(500)).units, 25);
    assert_eq!(fx(-15_000).mul(fx(15_000)).units, -22_500);
}

#[test]
fn saturates_at_the_range_edge() {
    assert_eq!(fx(MAX_UNITS).add(fx(MAX_UNITS)).units, MAX_UNITS);
    assert_eq!(fx(-MAX_UNITS).sub(fx(MAX_UNITS)).units, -MAX_UNITS);
    assert_eq!(fx(MAX_UNITS).mul(fx(MAX_UNITS)).units, MAX_UNITS);
    assert_eq!(fx(MAX_UNITS).mul(fx(-MAX_UNITS)).units, -MAX_UNITS);
}

#[test]
fn multiplication_truncates_toward_zero() {
    assert_eq!(fx(3).mul(fx(3)).units, 0);
    assert_eq!(fx(-5).mul(fx(9_999)).units, -4);
    assert_eq!(fx(5).mul(fx(9_999)).units, 4);
}
