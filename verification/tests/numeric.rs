use flier_core::fx::{abs_fx, clamp_fx, div_fx, lerp_fx, max_fx, min_fx, mul_fx};
use flier_core::vec2::{isqrt, length, normalize_or_zero, FxVec2};
use flier_core::SCALE;

#[test]
fn fixed_point_multiply_truncates_toward_zero() {
    // 1.5 * 1.5 == 2.25
    assert_eq!(mul_fx(98304, 98304), 147456);
    // truncation toward zero on both signs
    assert_eq!(mul_fx(3, 3), 0);
    assert_eq!(mul_fx(-3, 3), 0);
    assert_eq!(mul_fx(-98304, 98304), -147456);
}

#[test]
fn fixed_point_divide_is_exact_scaling() {
    // 1 / 60 in fixed point
    assert_eq!(div_fx(SCALE, 60 * SCALE), 1092);
    assert_eq!(div_fx(-SCALE, 60 * SCALE), -1092);
    // dt / charge duration with the stock tuning
    assert_eq!(div_fx(1092, 49152), 1456);
}

#[test]
fn integer_square_root_brackets() {
    assert_eq!(isqrt(0), 0);
    assert_eq!(isqrt(1), 1);
    assert_eq!(isqrt(3), 1);
    assert_eq!(isqrt(4), 2);
    assert_eq!(isqrt(8589934592), 92681);
    let n: u128 = 123456789;
    let r = isqrt(n);
    assert!((r as u128) * (r as u128) <= n);
    assert!(((r + 1) as u128) * ((r + 1) as u128) > n);
}

#[test]
fn normalize_gives_unit_components() {
    let diag = normalize_or_zero(FxVec2 { x: SCALE, y: SCALE });
    assert_eq!(diag, FxVec2 { x: 46341, y: 46341 });
    let axis = normalize_or_zero(FxVec2 { x: -7 * SCALE, y: 0 });
    assert_eq!(axis, FxVec2 { x: -SCALE, y: 0 });
    let zero = normalize_or_zero(FxVec2 { x: 0, y: 0 });
    assert_eq!(zero, FxVec2 { x: 0, y: 0 });
    assert_eq!(length(FxVec2 { x: 3 * SCALE, y: 4 * SCALE }), 5 * SCALE);
}

#[test]
fn scalar_helpers() {
    assert_eq!(lerp_fx(0, 100 * SCALE, SCALE / 2), 50 * SCALE);
    assert_eq!(lerp_fx(0, 100 * SCALE, 0), 0);
    assert_eq!(lerp_fx(0, 100 * SCALE, SCALE), 100 * SCALE);
    assert_eq!(clamp_fx(5, 0, 3), 3);
    assert_eq!(clamp_fx(-5, 0, 3), 0);
    assert_eq!(min_fx(2, -3), -3);
    assert_eq!(max_fx(2, -3), 2);
    assert_eq!(abs_fx(-42), 42);
}
