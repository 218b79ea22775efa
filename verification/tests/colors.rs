//! The color mapping and the blender: exact channel values, the channel
//! bound, and the fixed-length blend toward a chosen target.

use rs_lines::color::{color_rgb, ColorBlender};
use rs_lines::fixed::{cos_fp, mul_fp, sin_fp, FP_ONE, HALF_PI_FP, PI_FP};

#[test]
fn color_exact_values() {
    assert_eq!(color_rgb(0, HALF_PI_FP), (65534, 0, -1));
    assert_eq!(color_rgb(68629, 68629), (28338, 49018, 32767));
    assert_eq!(color_rgb(0, 0), (0, 0, 65535));
}

#[test]
fn color_channels_follow_the_spherical_formula() {
    // r = sin(z)cos(a), g = sin(z)sin(a), b = cos(z), recomputed from the
    // public trig functions.
    let mut a: i64 = 0;
    while a < HALF_PI_FP {
        let mut z: i64 = 0;
        while z < PI_FP {
            let (r, g, b) = color_rgb(a, z);
            assert_eq!(r, mul_fp(sin_fp(z), cos_fp(a)));
            assert_eq!(g, mul_fp(sin_fp(z), sin_fp(a)));
            assert_eq!(b, cos_fp(z));
            assert!(-FP_ONE <= r && r <= FP_ONE);
            assert!(-FP_ONE <= g && g <= FP_ONE);
            assert!(-FP_ONE <= b && b <= FP_ONE);
            z += 9973;
        }
        a += 9973;
    }
}

#[test]
fn blend_reaches_target_in_blend_steps_calls() {
    // A full transition: the call that adopts the target counts as its first
    // step; after exactly ten calls the counter is back to zero and the
    // angles sit exactly on the chosen target.
    let mut b = ColorBlender::new(0, 0, 10);
    b.next_core(1000, 2000);
    assert_eq!(b.a, 100);
    assert_eq!(b.z, 200);
    assert_eq!(b.steps_left, 9);
    let mut i: u32 = 0;
    while i < 9 {
        b.next_core(0, 0);
        i += 1;
    }
    assert_eq!(b.steps_left, 0);
    assert_eq!(b.a, 1000);
    assert_eq!(b.z, 2000);
    // The very next call adopts a new target.
    b.next_core(500, 700);
    assert_eq!(b.steps_left, 9);
    assert_eq!(b.a, 950);
    assert_eq!(b.z, 1870);
}

#[test]
fn blend_is_continuous_across_target_changes() {
    // No jump is larger than the per-step delta bound of a half turn.
    let mut b = ColorBlender::new(51471, 102943, 4);
    let mut prev_a: i64 = b.a;
    let mut prev_z: i64 = b.z;
    let mut i: u32 = 0;
    while i < 40 {
        b.next();
        assert!((b.a - prev_a).abs() <= HALF_PI_FP);
        assert!((b.z - prev_z).abs() <= PI_FP);
        assert!(0 <= b.a && b.a < HALF_PI_FP);
        assert!(0 <= b.z && b.z < PI_FP);
        prev_a = b.a;
        prev_z = b.z;
        i += 1;
    }
}

#[test]
fn blend_truncation_stops_short_of_an_indivisible_target() {
    // With an indivisible target the per-step delta rounds toward zero and
    // the transition ends within blend-steps units of the target.
    let mut b = ColorBlender::new(0, 0, 10);
    b.next_core(1005, 2007);
    let mut i: u32 = 0;
    while i < 9 {
        b.next_core(0, 0);
        i += 1;
    }
    assert_eq!(b.steps_left, 0);
    assert_eq!(b.a, 1000);
    assert_eq!(b.z, 2000);
}
