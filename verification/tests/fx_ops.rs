//! Exact-value tests of the saturating fixed-point scalar operations.

use gravity::fx::{fx_add, fx_div, fx_mul, fx_neg, fx_sqrt, fx_sub, FX_ONE};

#[test]
fn add_and_sub_exact() {
    assert_eq!(fx_add(FX_ONE, FX_ONE), 2 * FX_ONE);
    assert_eq!(fx_sub(FX_ONE, 2 * FX_ONE), -FX_ONE);
    assert_eq!(fx_add(-3, 5), 2);
}

#[test]
fn add_saturates() {
    assert_eq!(fx_add(i64::MAX, 1), i64::MAX);
    assert_eq!(fx_add(i64::MIN, -1), i64::MIN);
    assert_eq!(fx_sub(i64::MIN, 1), i64::MIN);
}

#[test]
fn neg_exact_and_saturating() {
    assert_eq!(fx_neg(FX_ONE), -FX_ONE);
    assert_eq!(fx_neg(i64::MIN), i64::MAX);
}

#[test]
fn mul_exact() {
    assert_eq!(fx_mul(FX_ONE, FX_ONE), FX_ONE);
    // 1/2 * 2 == 1
    assert_eq!(fx_mul(FX_ONE / 2, 2 * FX_ONE), FX_ONE);
    // (1/6) * 3 truncates toward zero: one quantum below 1/2
    assert_eq!(fx_mul(FX_ONE / 6, 3 * FX_ONE), 549755813886);
    // sign handling truncates toward zero on both sides
    assert_eq!(fx_mul(-(FX_ONE / 6), 3 * FX_ONE), -549755813886);
}

#[test]
fn mul_saturates() {
    assert_eq!(fx_mul(i64::MAX, i64::MAX), i64::MAX);
    assert_eq!(fx_mul(i64::MAX, -i64::MAX), i64::MIN);
}

#[test]
fn div_exact() {
    assert_eq!(fx_div(FX_ONE, 2 * FX_ONE), FX_ONE / 2);
    assert_eq!(fx_div(FX_ONE, 3 * FX_ONE), 366503875925);
    assert_eq!(fx_div(-FX_ONE, 3 * FX_ONE), -366503875925);
    assert_eq!(fx_div(6 * FX_ONE, 3 * FX_ONE), 2 * FX_ONE);
}

#[test]
fn div_by_zero_saturates_by_sign() {
    assert_eq!(fx_div(FX_ONE, 0), i64::MAX);
    assert_eq!(fx_div(-FX_ONE, 0), i64::MIN);
    assert_eq!(fx_div(0, 0), 0);
}

#[test]
fn sqrt_exact_squares() {
    assert_eq!(fx_sqrt(FX_ONE), FX_ONE);
    assert_eq!(fx_sqrt(4 * FX_ONE), 2 * FX_ONE);
    assert_eq!(fx_sqrt(0), 0);
    assert_eq!(fx_sqrt(-FX_ONE), 0);
}

#[test]
fn sqrt_of_two() {
    // floor(sqrt(2) * 2^40)
    assert_eq!(fx_sqrt(2 * FX_ONE), 1554944255987);
}
