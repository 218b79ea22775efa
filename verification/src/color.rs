//! The color blender: a pair of angles that drifts linearly toward a freshly
//! chosen random target over a fixed number of steps, and the spherical
//! mapping from the two angles to an RGB triple.

use vstd::prelude::*;
use crate::fixed::{
    cos_fp, cos_spec, div_trunc, div_trunc_spec, lemma_div_trunc_props, lemma_mul_fp_unit_unit,
    mul_fp, mul_fp_spec, sin_fp, sin_spec, FP_ONE, HALF_PI_FP, PI_FP, TWO_PI_FP,
};
use crate::rng::random_in_range;

verus! {

/// Most blend steps a transition may be configured to take.
pub const MAX_BLEND_STEPS: u32 = 128;

/// The red channel of the color at angles `(a, z)`.
pub open spec fn red_of(a: int, z: int) -> int {
    mul_fp_spec(sin_spec(z), cos_spec(a))
}

/// The green channel of the color at angles `(a, z)`.
pub open spec fn green_of(a: int, z: int) -> int {
    mul_fp_spec(sin_spec(z), sin_spec(a))
}

/// The blue channel of the color at angles `(a, z)`.
pub open spec fn blue_of(z: int) -> int {
    cos_spec(z)
}

/// Color channel law: for angles within one turn each derived channel lies
/// within one unit, and each is exactly the spherical formula of the two
/// angles.
pub proof fn lemma_color_channels(a: int, z: int)
    requires
        0 <= a < TWO_PI_FP,
        0 <= z < TWO_PI_FP,
    ensures
        -FP_ONE <= red_of(a, z) <= FP_ONE,
        -FP_ONE <= green_of(a, z) <= FP_ONE,
        -FP_ONE <= blue_of(z) <= FP_ONE,
        red_of(a, z) == mul_fp_spec(sin_spec(z), cos_spec(a)),
        green_of(a, z) == mul_fp_spec(sin_spec(z), sin_spec(a)),
        blue_of(z) == cos_spec(z),
{
    crate::fixed::lemma_sin_bounds(a);
    crate::fixed::lemma_sin_bounds(z);
    crate::fixed::lemma_cos_bounds(a);
    crate::fixed::lemma_cos_bounds(z);
    lemma_mul_fp_unit_unit(sin_spec(z), cos_spec(a));
    lemma_mul_fp_unit_unit(sin_spec(z), sin_spec(a));
}

/// Evaluates the RGB triple of the color at angles `(a, z)`.
pub fn color_rgb(a: i64, z: i64) -> (rgb: (i64, i64, i64))
    requires
        0 <= a < TWO_PI_FP,
        0 <= z < TWO_PI_FP,
    ensures
        rgb.0 == red_of(a as int, z as int),
        rgb.1 == green_of(a as int, z as int),
        rgb.2 == blue_of(z as int),
        -FP_ONE <= rgb.0 <= FP_ONE,
        -FP_ONE <= rgb.1 <= FP_ONE,
        -FP_ONE <= rgb.2 <= FP_ONE,
{
    proof {
        lemma_color_channels(a as int, z as int);
    }
    let sz = sin_fp(z);
    let ca = cos_fp(a);
    let sa = sin_fp(a);
    let cz = cos_fp(z);
    (mul_fp(sz, ca), mul_fp(sz, sa), cz)
}

/// The blend state: current angles, the per-step delta of the running
/// transition, how many steps of it remain, and the configured length of a
/// full transition.
#[derive(Clone, Copy, PartialEq, Eq, Structural, Debug)]
pub struct ColorBlender {
    pub a: i64,
    pub z: i64,
    pub da: i64,
    pub dz: i64,
    pub steps_left: u32,
    pub blend_steps: u32,
}

/// One call of the blender: when no transition is running, a fresh target
/// `(na, nz)` is adopted and the per-step delta computed; in either case one
/// delta is applied and one remaining step consumed.
pub open spec fn next_spec(b: ColorBlender, na: int, nz: int) -> ColorBlender {
    if b.steps_left == 0 {
        let da = div_trunc_spec(na - b.a, b.blend_steps as int);
        let dz = div_trunc_spec(nz - b.z, b.blend_steps as int);
        ColorBlender {
            a: (b.a + da) as i64,
            z: (b.z + dz) as i64,
            da: da as i64,
            dz: dz as i64,
            steps_left: (b.blend_steps - 1) as u32,
            blend_steps: b.blend_steps,
        }
    } else {
        ColorBlender {
            a: (b.a + b.da) as i64,
            z: (b.z + b.dz) as i64,
            da: b.da,
            dz: b.dz,
            steps_left: (b.steps_left - 1) as u32,
            blend_steps: b.blend_steps,
        }
    }
}

/// A value on the straight line from `v` toward the far end `v + n * dv`
/// stays within the bounds that hold at both ends.
proof fn lemma_line_within(v: int, dv: int, n: int, hi: int)
    by (nonlinear_arith)
    requires
        1 <= n,
        0 <= v < hi,
        0 <= v + n * dv < hi,
    ensures
        0 <= v + dv < hi,
{
}

/// Adopting a fresh target keeps every remaining value of the transition
/// within the target range.
proof fn lemma_adopt_target(v: int, t: int, d: int, hi: int)
    requires
        1 <= d,
        0 <= v < hi,
        0 <= t < hi,
    ensures
        ({
            let q = div_trunc_spec(t - v, d);
            0 <= v + q < hi && 0 <= v + d * q < hi
        }),
{
    lemma_div_trunc_props(t - v, d);
    let q = div_trunc_spec(t - v, d);
    if t - v >= 0 {
        assert(0 <= q * 1 <= q * d) by (nonlinear_arith)
            requires
                0 <= q,
                1 <= d;
        assert(q * d == d * q) by (nonlinear_arith);
    } else {
        assert(q * d <= q * 1 <= 0) by (nonlinear_arith)
            requires
                q <= 0,
                1 <= d;
        assert(q * d == d * q) by (nonlinear_arith);
    }
}

impl ColorBlender {
    /// Angles within their target ranges, now and at the end of the running
    /// transition; deltas bounded by the ranges they move within.
    pub open spec fn wf(self) -> bool {
        &&& 1 <= self.blend_steps <= MAX_BLEND_STEPS
        &&& self.steps_left <= MAX_BLEND_STEPS
        &&& 0 <= self.a < HALF_PI_FP
        &&& 0 <= self.z < PI_FP
        &&& -HALF_PI_FP <= self.da <= HALF_PI_FP
        &&& -PI_FP <= self.dz <= PI_FP
        &&& 0 <= self.a + self.steps_left * self.da < HALF_PI_FP
        &&& 0 <= self.z + self.steps_left * self.dz < PI_FP
    }

    /// A blender at the given angles with no transition running.
    pub fn new(a: i64, z: i64, blend_steps: u32) -> (b: ColorBlender)
        requires
            0 <= a < HALF_PI_FP,
            0 <= z < PI_FP,
            1 <= blend_steps <= MAX_BLEND_STEPS,
        ensures
            b == (ColorBlender { a, z, da: 0i64, dz: 0i64, steps_left: 0u32, blend_steps }),
            b.wf(),
    {
        ColorBlender { a, z, da: 0, dz: 0, steps_left: 0, blend_steps }
    }

    /// Reconfigures the length of future transitions; the running one keeps
    /// its remaining steps.
    pub fn set_blend_steps(&mut self, blend_steps: u32)
        requires
            old(self).wf(),
            1 <= blend_steps <= MAX_BLEND_STEPS,
        ensures
            *final(self) == (ColorBlender { blend_steps, ..*old(self) }),
            final(self).wf(),
    {
        self.blend_steps = blend_steps;
    }

    /// One blend step against the given candidate target, which is adopted
    /// exactly when no transition is running.
    pub fn next_core(&mut self, na: i64, nz: i64)
        requires
            old(self).wf(),
            0 <= na < HALF_PI_FP,
            0 <= nz < PI_FP,
        ensures
            *final(self) == next_spec(*old(self), na as int, nz as int),
            final(self).wf(),
            final(self).blend_steps == old(self).blend_steps,
    {
        if self.steps_left == 0 {
            proof {
                lemma_adopt_target(self.a as int, na as int, self.blend_steps as int, HALF_PI_FP as int);
                lemma_adopt_target(self.z as int, nz as int, self.blend_steps as int, PI_FP as int);
                lemma_div_trunc_props(na - self.a, self.blend_steps as int);
                lemma_div_trunc_props(nz - self.z, self.blend_steps as int);
            }
            let da = div_trunc(na - self.a, self.blend_steps as i64);
            let dz = div_trunc(nz - self.z, self.blend_steps as i64);
            self.da = da;
            self.dz = dz;
            self.steps_left = self.blend_steps;
            proof {
                assert(self.a + self.steps_left * self.da == self.a + self.blend_steps * self.da);
                assert((self.steps_left - 1) * self.da == self.steps_left * self.da - self.da)
                    by (nonlinear_arith);
                assert((self.steps_left - 1) * self.dz == self.steps_left * self.dz - self.dz)
                    by (nonlinear_arith);
            }
        } else {
            proof {
                lemma_line_within(
                    self.a as int,
                    self.da as int,
                    self.steps_left as int,
                    HALF_PI_FP as int,
                );
                lemma_line_within(
                    self.z as int,
                    self.dz as int,
                    self.steps_left as int,
                    PI_FP as int,
                );
                assert((self.steps_left - 1) * self.da == self.steps_left * self.da - self.da)
                    by (nonlinear_arith);
                assert((self.steps_left - 1) * self.dz == self.steps_left * self.dz - self.dz)
                    by (nonlinear_arith);
            }
        }
        self.steps_left = self.steps_left - 1;
        self.a = self.a + self.da;
        self.z = self.z + self.dz;
    }

    /// One blend step against a freshly drawn random target.
    pub fn next(&mut self)
        requires
            old(self).wf(),
        ensures
            final(self).wf(),
            final(self).blend_steps == old(self).blend_steps,
            exists|na: int, nz: int|
                {
                    &&& 0 <= na < HALF_PI_FP
                    &&& 0 <= nz < PI_FP
                    &&& *final(self) == next_spec(*old(self), na, nz)
                },
            old(self).steps_left > 0 ==> *final(self) == next_spec(*old(self), 0, 0),
    {
        let na = random_in_range(0, HALF_PI_FP);
        let nz = random_in_range(0, PI_FP);
        self.next_core(na, nz);
    }
}

} // verus!
