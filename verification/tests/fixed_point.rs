use bui::fixed::{Fixed, LIMIT, ONE};

#[test]
fn one_is_sixty_five_thousand_steps() {
    assert_eq!(ONE, 65536);
    assert_eq!(Fixed::one().raw(), 65536);
    assert_eq!(Fixed::zero().raw(), 0);
    assert_eq!(Fixed::from_int(3).raw(), 3 * 65536);
    assert_eq!(Fixed::from_int(-3).raw(), -3 * 65536);
}

#[test]
fn whole_numbers_reach_both_limits() {
    assert_eq!(Fixed::from_int(i32::MIN).raw(), -LIMIT);
    assert_eq!(Fixed::from_int(i32::MAX).raw(), LIMIT - 65536);
}

#[test]
fn a_ratio_is_rounded_down() {
    assert_eq!(Fixed::from_ratio(1, 4).raw(), 16384);
    assert_eq!(Fixed::from_ratio(1, 3).raw(), 21845);
    assert_eq!(Fixed::from_ratio(-1, 3).raw(), -21846);
    assert_eq!(Fixed::from_ratio(1, -3).raw(), -21846);
    assert_eq!(Fixed::from_ratio(-1, -3).raw(), 21845);
    assert_eq!(Fixed::from_ratio(-6, 3).raw(), -2 * 65536);
}

#[test]
fn a_zero_divisor_saturates_by_the_sign_of_the_numerator() {
    assert_eq!(Fixed::from_ratio(5, 0).raw(), LIMIT);
    assert_eq!(Fixed::from_ratio(-5, 0).raw(), -LIMIT);
    assert_eq!(Fixed::from_ratio(0, 0).raw(), 0);
}

#[test]
fn raw_values_saturate_at_the_limit() {
    assert_eq!(Fixed::from_raw(LIMIT).raw(), LIMIT);
    assert_eq!(Fixed::from_raw(LIMIT + 1).raw(), LIMIT);
    assert_eq!(Fixed::from_raw(i64::MAX).raw(), LIMIT);
    assert_eq!(Fixed::from_raw(-LIMIT - 1).raw(), -LIMIT);
    assert_eq!(Fixed::from_raw(i64::MIN).raw(), -LIMIT);
    assert_eq!(Fixed::from_raw(-7).raw(), -7);
    assert_eq!(Fixed::saturate(i128::MAX).raw(), LIMIT);
    assert_eq!(Fixed::saturate(i128::MIN).raw(), -LIMIT);
    assert_eq!(Fixed::saturate(12).raw(), 12);
    assert_eq!(Fixed::from_ratio(i64::MAX, 1).raw(), LIMIT);
    assert_eq!(Fixed::from_ratio(i64::MIN, 1).raw(), -LIMIT);
}

#[test]
fn wide_and_raw_agree() {
    let x = Fixed::from_ratio(-7, 2);
    assert_eq!(x.wide(), x.raw() as i128);
    assert_eq!(x.raw(), -229376);
}

#[test]
fn equal_step_counts_are_equal_values() {
    assert_eq!(Fixed::from_ratio(2, 4), Fixed::from_ratio(1, 2));
    assert_ne!(Fixed::from_ratio(1, 3), Fixed::from_ratio(1, 2));
}
