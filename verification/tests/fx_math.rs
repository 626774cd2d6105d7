use antgine::fx::{fx_add, fx_div, fx_half, fx_len, fx_mul, fx_neg, fx_sub, FX_ONE};

#[test]
fn fixed_point_products_rescale_and_truncate() {
    assert_eq!(fx_mul(3 * FX_ONE, 4 * FX_ONE), 12 * FX_ONE);
    assert_eq!(fx_mul(-3 * FX_ONE, 4 * FX_ONE), -12 * FX_ONE);
    // 1.5 * 1.5 = 2.25 exactly representable.
    assert_eq!(fx_mul(FX_ONE + FX_ONE / 2, FX_ONE + FX_ONE / 2), 2 * FX_ONE + FX_ONE / 4);
    // Truncation goes toward zero for both signs.
    assert_eq!(fx_mul(3, 3), 0);
    assert_eq!(fx_mul(-3, 3), 0);
}

#[test]
fn fixed_point_quotients_carry_the_scale() {
    assert_eq!(fx_div(12 * FX_ONE, 4 * FX_ONE), 3 * FX_ONE);
    assert_eq!(fx_div(FX_ONE, 2 * FX_ONE), FX_ONE / 2);
    assert_eq!(fx_div(-FX_ONE, 2 * FX_ONE), -(FX_ONE / 2));
    assert_eq!(fx_div(FX_ONE, 3 * FX_ONE), 349525);
}

#[test]
fn quotients_by_zero_saturate_toward_the_sign() {
    assert_eq!(fx_div(5, 0), i64::MAX);
    assert_eq!(fx_div(-5, 0), i64::MIN);
    assert_eq!(fx_div(0, 0), 0);
}

#[test]
fn sums_saturate_instead_of_wrapping() {
    assert_eq!(fx_add(i64::MAX, 1), i64::MAX);
    assert_eq!(fx_add(i64::MIN, -1), i64::MIN);
    assert_eq!(fx_sub(i64::MIN, 1), i64::MIN);
    assert_eq!(fx_neg(i64::MIN), i64::MAX);
    assert_eq!(fx_add(40, 2), 42);
}

#[test]
fn halving_truncates_toward_zero() {
    assert_eq!(fx_half(7), 3);
    assert_eq!(fx_half(-7), -3);
    assert_eq!(fx_half(2 * FX_ONE), FX_ONE);
}

#[test]
fn length_of_a_three_four_vector_is_five() {
    assert_eq!(fx_len(3 * FX_ONE, 4 * FX_ONE), 5 * FX_ONE);
    assert_eq!(fx_len(-3 * FX_ONE, 4 * FX_ONE), 5 * FX_ONE);
    assert_eq!(fx_len(0, 0), 0);
    assert_eq!(fx_len(0, -7), 7);
}
