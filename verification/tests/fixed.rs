use animated_value::fixed::{Fixed, SCALE};

fn raw(value: i64) -> Fixed {
    Fixed::from_raw(value)
}

#[test]
fn one_whole_is_a_million_millionths() {
    assert_eq!(SCALE, 1_000_000);
    assert_eq!(Fixed::one().raw, 1_000_000);
    assert_eq!(Fixed::zero().raw, 0);
    assert_eq!(Fixed::from_int(10).raw, 10_000_000);
    assert_eq!(Fixed::from_int(-3).raw, -3_000_000);
}

#[test]
fn whole_numbers_out_of_range_are_pinned() {
    assert_eq!(Fixed::from_int(i64::MAX).raw, i64::MAX);
    assert_eq!(Fixed::from_int(i64::MIN).raw, i64::MIN);
    assert_eq!(Fixed::from_int(9_223_372_036_854).raw, 9_223_372_036_854_000_000);
    assert_eq!(Fixed::from_int(9_223_372_036_855).raw, i64::MAX);
}

#[test]
fn sums_and_differences_saturate() {
    assert_eq!(raw(1_500_000).add(raw(2_250_000)).raw, 3_750_000);
    assert_eq!(raw(1_500_000).sub(raw(2_250_000)).raw, -750_000);
    assert_eq!(raw(i64::MAX).add(raw(1)).raw, i64::MAX);
    assert_eq!(raw(i64::MIN).sub(raw(1)).raw, i64::MIN);
    assert_eq!(raw(i64::MIN).add(raw(i64::MAX)).raw, -1);
    assert_eq!(raw(i64::MAX).sub(raw(i64::MIN)).raw, i64::MAX);
}

#[test]
fn negation_and_magnitude_saturate() {
    assert_eq!(raw(7).neg().raw, -7);
    assert_eq!(raw(-7).neg().raw, 7);
    assert_eq!(raw(i64::MIN).neg().raw, i64::MAX);
    assert_eq!(raw(-7).abs().raw, 7);
    assert_eq!(raw(7).abs().raw, 7);
    assert_eq!(raw(i64::MIN).abs().raw, i64::MAX);
}

#[test]
fn products_round_toward_zero() {
    assert_eq!(raw(2_000_000).mul(raw(3_500_000)).raw, 7_000_000);
    assert_eq!(raw(1).mul(raw(500_000)).raw, 0);
    assert_eq!(raw(-1).mul(raw(500_000)).raw, 0);
    assert_eq!(raw(3_333_333).mul(raw(3_000_000)).raw, 9_999_999);
    assert_eq!(raw(-3_333_333).mul(raw(3_000_000)).raw, -9_999_999);
    assert_eq!(raw(-1_500_000).mul(raw(-1_500_000)).raw, 2_250_000);
}

#[test]
fn products_saturate() {
    assert_eq!(raw(i64::MAX).mul(raw(2_000_000)).raw, i64::MAX);
    assert_eq!(raw(i64::MIN).mul(raw(2_000_000)).raw, i64::MIN);
    assert_eq!(raw(i64::MIN).mul(raw(-2_000_000)).raw, i64::MAX);
    assert_eq!(raw(i64::MAX).mul(raw(1_000_000)).raw, i64::MAX);
    assert_eq!(raw(i64::MIN).mul(raw(1_000_000)).raw, i64::MIN);
}

#[test]
fn quotients_round_toward_zero() {
    assert_eq!(raw(10_000_000).div(raw(4_000_000)).raw, 2_500_000);
    assert_eq!(raw(10_000_000).div(raw(3_000_000)).raw, 3_333_333);
    assert_eq!(raw(-10_000_000).div(raw(3_000_000)).raw, -3_333_333);
    assert_eq!(raw(10_000_000).div(raw(-3_000_000)).raw, -3_333_333);
    assert_eq!(raw(-10_000_000).div(raw(-3_000_000)).raw, 3_333_333);
    assert_eq!(raw(1).div(raw(3_000_000)).raw, 0);
    assert_eq!(raw(-1).div(raw(3_000_000)).raw, 0);
}

#[test]
fn quotients_by_zero_are_pinned_by_sign() {
    assert_eq!(raw(1).div(raw(0)).raw, i64::MAX);
    assert_eq!(raw(-1).div(raw(0)).raw, i64::MIN);
    assert_eq!(raw(0).div(raw(0)).raw, 0);
}

#[test]
fn quotients_saturate() {
    assert_eq!(raw(i64::MAX).div(raw(500_000)).raw, i64::MAX);
    assert_eq!(raw(i64::MIN).div(raw(500_000)).raw, i64::MIN);
    assert_eq!(raw(i64::MIN).div(raw(-500_000)).raw, i64::MAX);
    assert_eq!(raw(i64::MIN).div(raw(-1_000_000)).raw, i64::MAX);
    assert_eq!(raw(i64::MAX).div(raw(i64::MIN)).raw, -999_999);
    assert_eq!(raw(i64::MIN).div(raw(i64::MAX)).raw, -1_000_000);
}

#[test]
fn zero_and_one_are_neutral() {
    for value in [0, 1, -1, 123_456_789, -987_654_321, i64::MAX, i64::MIN] {
        let x = raw(value);
        assert_eq!(x.add(Fixed::zero()), x);
        assert_eq!(x.sub(Fixed::zero()), x);
        assert_eq!(x.mul(Fixed::one()), x);
        assert_eq!(Fixed::one().mul(x), x);
        assert_eq!(x.mul(Fixed::zero()), Fixed::zero());
        assert_eq!(x.sub(x), Fixed::zero());
        assert_eq!(Fixed::zero().div(x), Fixed::zero());
    }
}
