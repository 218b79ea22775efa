//! Exact values of the fixed-point kernel: angle reduction, scaled products,
//! the sine and cosine approximations, and the cubic-biased drift.

use rs_lines::fixed::{
    cos_fp, div_trunc, mul_fp, norm_angle, sin_fp, FP_ONE, HALF_PI_FP, PI_FP, SIXTH_PI_FP,
    TWO_PI_FP,
};
use rs_lines::point::Point;

#[test]
fn norm_angle_keeps_small_angles() {
    assert_eq!(norm_angle(0), 0);
    assert_eq!(norm_angle(205887), 205887);
    assert_eq!(norm_angle(411773), 411773);
}

#[test]
fn norm_angle_wraps_negative_and_large() {
    assert_eq!(norm_angle(-14418), 397356);
    assert_eq!(norm_angle(500000), 88226);
    assert_eq!(norm_angle(TWO_PI_FP), 0);
    assert_eq!(norm_angle(-TWO_PI_FP), 0);
}

#[test]
fn mul_fp_rounds_toward_zero() {
    assert_eq!(mul_fp(-3, 2), 0);
    assert_eq!(mul_fp(3, -2), 0);
    assert_eq!(mul_fp(FP_ONE, FP_ONE), FP_ONE);
    assert_eq!(mul_fp(98304, 98304), 147456);
    assert_eq!(mul_fp(655360, 65535), 655350);
}

#[test]
fn div_trunc_rounds_toward_zero() {
    assert_eq!(div_trunc(7, 2), 3);
    assert_eq!(div_trunc(-7, 2), -3);
    assert_eq!(div_trunc(1000, 10), 100);
    assert_eq!(div_trunc(-500, 10), -50);
}

#[test]
fn sine_exact_values() {
    assert_eq!(sin_fp(0), 0);
    assert_eq!(sin_fp(HALF_PI_FP), 65535);
    assert_eq!(sin_fp(PI_FP), 0);
    assert_eq!(sin_fp(308831), -65535);
    assert_eq!(sin_fp(68629), 56679);
}

#[test]
fn cosine_exact_values() {
    assert_eq!(cos_fp(0), 65535);
    assert_eq!(cos_fp(PI_FP), -65535);
    assert_eq!(cos_fp(68629), 32767);
}

#[test]
fn sine_and_cosine_stay_within_one_unit() {
    let mut x: i64 = 0;
    while x < TWO_PI_FP {
        let s = sin_fp(x);
        let c = cos_fp(x);
        assert!(-FP_ONE <= s && s <= FP_ONE);
        assert!(-FP_ONE <= c && c <= FP_ONE);
        x += 997;
    }
}

#[test]
fn drift_exact_values() {
    assert_eq!(Point::drift_of(SIXTH_PI_FP), 9407);
    assert_eq!(Point::drift_of(-SIXTH_PI_FP), 9407);
    assert_eq!(Point::drift_of(30000), 6286);
    assert_eq!(Point::drift_of(-31000), 6936);
    assert_eq!(Point::drift_of(1000), 0);
    assert_eq!(Point::drift_of(0), 0);
}
