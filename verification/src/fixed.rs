//! Fixed-point arithmetic for the animation core.
//!
//! Coordinates, angles and color channels are signed fixed-point numbers with
//! 16 fractional bits: the value `v` stands for the real number `v / FP_ONE`.
//! Angles are measured in radians in the same scale; `sin_fp` and `cos_fp`
//! evaluate a rational approximation of sine and cosine whose results are
//! proved to stay within one unit, which is all the animation relies on.

use vstd::prelude::*;

verus! {

/// One unit: the fixed-point representation of the real number 1.
pub const FP_ONE: i64 = 65536;

/// Pi in fixed-point units.
pub const PI_FP: i64 = 205887;

/// Two pi in fixed-point units; headings are kept in `[0, TWO_PI_FP)`.
pub const TWO_PI_FP: i64 = 411774;

/// Half pi in fixed-point units.
pub const HALF_PI_FP: i64 = 102944;

/// A sixth of pi in fixed-point units; the heading-drift sample range.
pub const SIXTH_PI_FP: i64 = 34314;

/// Largest magnitude accepted by `norm_angle`.
pub const MAX_ANGLE_FP: i64 = 0x1_0000_0000_0000;

/// One squared: the divisor that rescales a product of three fixed-point values.
pub const FP_UNIT_SQ: i64 = FP_ONE * FP_ONE;

/// Largest coordinate value a bound may take (32768 pixels).
pub const MAX_DIM_FP: i64 = 0x8000_0000;

/// Largest step length per tick (100 pixels).
pub const MAX_STEP_FP: i64 = 6553600;

/// Largest heading drift a sample can produce: the cube of a sixth of pi.
pub const MAX_DRIFT_FP: i64 = 9407;

/// An angle reduced into `[0, TWO_PI_FP)`: the Euclidean remainder by `TWO_PI_FP`.
pub open spec fn norm_spec(x: int) -> int {
    x % (TWO_PI_FP as int)
}

/// Reduces an angle into `[0, TWO_PI_FP)`, congruent to the argument modulo a full turn.
pub fn norm_angle(x: i64) -> (r: i64)
    requires
        -MAX_ANGLE_FP <= x <= MAX_ANGLE_FP,
    ensures
        r == norm_spec(x as int),
        0 <= r < TWO_PI_FP,
{
    let m: i64 = x % TWO_PI_FP;
    if m < 0 {
        m + TWO_PI_FP
    } else {
        m
    }
}

/// The scaled product `a * b / FP_ONE`, rounded toward zero.
pub open spec fn mul_fp_spec(a: int, b: int) -> int {
    if a * b >= 0 {
        (a * b) / (FP_ONE as int)
    } else {
        -((-(a * b)) / (FP_ONE as int))
    }
}

/// Multiplies two fixed-point values, rounding toward zero.
pub fn mul_fp(a: i64, b: i64) -> (r: i64)
    requires
        -0x8000_0000 <= a <= 0x8000_0000,
        -0x8000_0000 <= b <= 0x8000_0000,
    ensures
        r == mul_fp_spec(a as int, b as int),
{
    proof {
        assert(-0x4000_0000_0000_0000 <= a * b <= 0x4000_0000_0000_0000) by (nonlinear_arith)
            requires
                -0x8000_0000 <= a <= 0x8000_0000,
                -0x8000_0000 <= b <= 0x8000_0000;
    }
    let p: i64 = a * b;
    if p >= 0 {
        p / FP_ONE
    } else {
        -((-p) / FP_ONE)
    }
}

/// The numerator of the rational sine approximation on `[0, PI_FP]`.
pub open spec fn sin_half_spec(x: int) -> int {
    let u = x * (PI_FP - x);
    (16 * u * FP_ONE) / (5 * (PI_FP as int) * (PI_FP as int) - 4 * u)
}

/// Sine over one full turn: the half-turn approximation, negated on `[PI_FP, TWO_PI_FP)`.
pub open spec fn sin_spec(x: int) -> int {
    if x <= PI_FP {
        sin_half_spec(x)
    } else {
        -sin_half_spec(x - PI_FP)
    }
}

/// Cosine as sine shifted a quarter turn.
pub open spec fn cos_spec(x: int) -> int {
    sin_spec(norm_spec(x + HALF_PI_FP))
}

/// `x * (PI_FP - x)` stays within `[0, PI_FP * PI_FP / 4]` on `[0, PI_FP]`.
proof fn lemma_chord_bounds(x: int)
    by (nonlinear_arith)
    requires
        0 <= x <= PI_FP,
    ensures
        0 <= x * (PI_FP - x),
        4 * (x * (PI_FP - x)) <= (PI_FP as int) * (PI_FP as int),
{
}

/// The rational sine approximation stays within `[0, FP_ONE]` on the half turn.
pub proof fn lemma_sin_half_bounds(x: int)
    requires
        0 <= x <= PI_FP,
    ensures
        0 <= sin_half_spec(x) <= FP_ONE,
{
    lemma_chord_bounds(x);
    let u = x * (PI_FP - x);
    let num = 16 * u * (FP_ONE as int);
    let den = 5 * (PI_FP as int) * (PI_FP as int) - 4 * u;
    assert(den > 0);
    assert(num >= 0);
    vstd::arithmetic::div_mod::lemma_div_pos_is_pos(num, den);
    assert(num <= (FP_ONE as int) * den) by (nonlinear_arith)
        requires
            num == 16 * u * (FP_ONE as int),
            den == 5 * (PI_FP as int) * (PI_FP as int) - 4 * u,
            4 * u <= (PI_FP as int) * (PI_FP as int),
            u >= 0;
    vstd::arithmetic::div_mod::lemma_div_is_ordered(num, (FP_ONE as int) * den, den);
    vstd::arithmetic::div_mod::lemma_div_by_multiple(FP_ONE as int, den);
}

/// Sine stays within one unit over the whole turn.
pub proof fn lemma_sin_bounds(x: int)
    requires
        0 <= x < TWO_PI_FP,
    ensures
        -FP_ONE <= sin_spec(x) <= FP_ONE,
{
    if x <= PI_FP {
        lemma_sin_half_bounds(x);
    } else {
        lemma_sin_half_bounds(x - PI_FP);
    }
}

/// Cosine stays within one unit for any argument.
pub proof fn lemma_cos_bounds(x: int)
    ensures
        -FP_ONE <= cos_spec(x) <= FP_ONE,
{
    vstd::arithmetic::div_mod::lemma_mod_bound(x + HALF_PI_FP, TWO_PI_FP as int);
    lemma_sin_bounds(norm_spec(x + HALF_PI_FP));
}

/// Evaluates the sine approximation on the half turn `[0, PI_FP]`.
fn sin_half(x: i64) -> (r: i64)
    requires
        0 <= x <= PI_FP,
    ensures
        r == sin_half_spec(x as int),
        0 <= r <= FP_ONE,
{
    proof {
        lemma_chord_bounds(x as int);
        lemma_sin_half_bounds(x as int);
    }
    let u: i64 = x * (PI_FP - x);
    let num: i64 = 16 * u * FP_ONE;
    let den: i64 = 5 * PI_FP * PI_FP - 4 * u;
    num / den
}

/// Fixed-point sine of an angle in `[0, TWO_PI_FP)`.
pub fn sin_fp(x: i64) -> (r: i64)
    requires
        0 <= x < TWO_PI_FP,
    ensures
        r == sin_spec(x as int),
        -FP_ONE <= r <= FP_ONE,
{
    if x <= PI_FP {
        sin_half(x)
    } else {
        let v = sin_half(x - PI_FP);
        -v
    }
}

/// Division rounded toward zero, as the blend deltas are computed.
pub open spec fn div_trunc_spec(n: int, d: int) -> int {
    if n >= 0 {
        n / d
    } else {
        -((-n) / d)
    }
}

/// Divides, rounding toward zero.
pub fn div_trunc(n: i64, d: i64) -> (r: i64)
    requires
        1 <= d,
        -0x4000_0000_0000_0000 <= n <= 0x4000_0000_0000_0000,
    ensures
        r == div_trunc_spec(n as int, d as int),
{
    if n >= 0 {
        n / d
    } else {
        -((-n) / d)
    }
}

/// Division toward zero never grows the magnitude, and multiplying back by
/// the divisor stays between zero and the dividend.
pub proof fn lemma_div_trunc_props(n: int, d: int)
    requires
        1 <= d,
    ensures
        n >= 0 ==> 0 <= div_trunc_spec(n, d) <= n && 0 <= d * div_trunc_spec(n, d) <= n,
        n < 0 ==> n <= div_trunc_spec(n, d) <= 0 && n <= d * div_trunc_spec(n, d) <= 0,
{
    let m = abs_spec(n);
    let q = m / d;
    vstd::arithmetic::div_mod::lemma_div_pos_is_pos(m, d);
    vstd::arithmetic::div_mod::lemma_div_is_ordered_by_denominator(m, 1, d);
    vstd::arithmetic::div_mod::lemma_fundamental_div_mod(m, d);
    vstd::arithmetic::div_mod::lemma_mod_bound(m, d);
    vstd::arithmetic::mul::lemma_mul_nonnegative(d, q);
    vstd::arithmetic::mul::lemma_mul_unary_negation(d, q);
}

/// A product of two factors within one unit stays within one unit after
/// rescaling.
pub proof fn lemma_mul_fp_unit_unit(a: int, b: int)
    requires
        -FP_ONE <= a <= FP_ONE,
        -FP_ONE <= b <= FP_ONE,
    ensures
        -FP_ONE <= mul_fp_spec(a, b) <= FP_ONE,
{
    let p = a * b;
    assert(-((FP_ONE as int) * (FP_ONE as int)) <= p <= (FP_ONE as int) * (FP_ONE as int))
        by (nonlinear_arith)
        requires
            -FP_ONE <= a <= FP_ONE,
            -FP_ONE <= b <= FP_ONE,
            p == a * b;
    vstd::arithmetic::div_mod::lemma_div_by_multiple(FP_ONE as int, FP_ONE as int);
    if p >= 0 {
        vstd::arithmetic::div_mod::lemma_div_pos_is_pos(p, FP_ONE as int);
        vstd::arithmetic::div_mod::lemma_div_is_ordered(
            p,
            (FP_ONE as int) * (FP_ONE as int),
            FP_ONE as int,
        );
    } else {
        vstd::arithmetic::div_mod::lemma_div_pos_is_pos(-p, FP_ONE as int);
        vstd::arithmetic::div_mod::lemma_div_is_ordered(
            -p,
            (FP_ONE as int) * (FP_ONE as int),
            FP_ONE as int,
        );
    }
}

/// The magnitude of an integer.
pub open spec fn abs_spec(x: int) -> int {
    if x < 0 {
        -x
    } else {
        x
    }
}

/// The cubic-biased heading drift derived from a sample: the cube of the
/// sample's magnitude, rescaled to fixed-point units.
pub open spec fn drift_spec(s: int) -> int {
    (abs_spec(s) * abs_spec(s) * abs_spec(s)) / (FP_UNIT_SQ as int)
}

/// The cube of a drift-sample magnitude fits a machine word and its rescaled
/// value stays within `MAX_DRIFT_FP`.
pub proof fn lemma_cube_bounds(m: int)
    requires
        0 <= m <= SIXTH_PI_FP,
    ensures
        0 <= m * m <= 1177450596,
        0 <= m * m * m <= 40403039751144,
        0 <= (m * m * m) / (FP_UNIT_SQ as int) <= MAX_DRIFT_FP,
{
    assert(0 <= m * m <= 1177450596) by (nonlinear_arith)
        requires
            0 <= m <= SIXTH_PI_FP;
    assert(0 <= m * m * m <= 40403039751144) by (nonlinear_arith)
        requires
            0 <= m <= SIXTH_PI_FP,
            0 <= m * m <= 1177450596;
    vstd::arithmetic::div_mod::lemma_div_pos_is_pos(m * m * m, FP_UNIT_SQ as int);
    vstd::arithmetic::div_mod::lemma_div_is_ordered(m * m * m, 40403039751144, FP_UNIT_SQ as int);
    assert(40403039751144int / (FP_UNIT_SQ as int) == MAX_DRIFT_FP);
}

/// A fixed-point product with a factor of at most one unit in magnitude keeps
/// the other factor's magnitude.
pub proof fn lemma_mul_fp_unit_bound(a: int, b: int)
    requires
        0 <= a,
        -FP_ONE <= b <= FP_ONE,
    ensures
        -a <= mul_fp_spec(a, b) <= a,
{
    let p = a * b;
    assert(-(a * (FP_ONE as int)) <= p <= a * (FP_ONE as int)) by (nonlinear_arith)
        requires
            0 <= a,
            -FP_ONE <= b <= FP_ONE,
            p == a * b;
    vstd::arithmetic::div_mod::lemma_div_by_multiple(a, FP_ONE as int);
    if p >= 0 {
        vstd::arithmetic::div_mod::lemma_div_pos_is_pos(p, FP_ONE as int);
        vstd::arithmetic::div_mod::lemma_div_is_ordered(p, a * (FP_ONE as int), FP_ONE as int);
    } else {
        vstd::arithmetic::div_mod::lemma_div_pos_is_pos(-p, FP_ONE as int);
        vstd::arithmetic::div_mod::lemma_div_is_ordered(-p, a * (FP_ONE as int), FP_ONE as int);
    }
}

/// Fixed-point cosine of an angle in `[0, TWO_PI_FP)`.
pub fn cos_fp(x: i64) -> (r: i64)
    requires
        0 <= x < TWO_PI_FP,
    ensures
        r == cos_spec(x as int),
        -FP_ONE <= r <= FP_ONE,
{
    let shifted = norm_angle(x + HALF_PI_FP);
    sin_fp(shifted)
}

} // verus!
