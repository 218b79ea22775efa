//! A bouncing point: a position inside a rectangle together with a heading
//! that reflects off the rectangle's edges. After a bounce the heading picks
//! up a fresh, cubic-biased random drift.

use vstd::prelude::*;
use crate::fixed::{
    cos_spec, drift_spec, mul_fp, mul_fp_spec, norm_angle, norm_spec, sin_spec, cos_fp, sin_fp,
    FP_UNIT_SQ, MAX_DIM_FP, MAX_DRIFT_FP, MAX_STEP_FP, PI_FP, SIXTH_PI_FP, TWO_PI_FP,
};
use crate::fixed::{lemma_cube_bounds, lemma_mul_fp_unit_bound};
use crate::rng::random_in_range;

verus! {

/// A point with a position, a heading and the heading's current drift,
/// all in fixed-point units.
#[derive(Clone, Copy, PartialEq, Eq, Structural, Debug)]
pub struct Point {
    pub x: i64,
    pub y: i64,
    pub a: i64,
    pub da: i64,
}

/// The heading reflected about the vertical axis: pi minus the heading,
/// reduced to a full turn.
pub open spec fn reflect_x_spec(a: int) -> int {
    norm_spec(PI_FP - a)
}

/// The heading reflected about the horizontal axis: the negated heading,
/// reduced to a full turn.
pub open spec fn reflect_y_spec(a: int) -> int {
    norm_spec(-a)
}

/// One step of the bounce state machine, written out as a function of the
/// pre-state, the step length, the bounds, and the two drift samples that
/// would replace the drift after a horizontal or vertical bounce.
pub open spec fn step_spec(p: Point, step: int, w: int, h: int, sx: int, sy: int) -> Point {
    let dx = mul_fp_spec(step, cos_spec(p.a as int));
    let dy = mul_fp_spec(step, sin_spec(p.a as int));
    let a1 = norm_spec(p.a + p.da);
    let x1 = p.x + dx;
    let y1 = p.y + dy;
    let bounce_x = x1 < 0 || x1 > w;
    let x2 = if x1 < 0 { 0 } else if x1 > w { w } else { x1 };
    let a2 = if bounce_x { reflect_x_spec(a1) } else { a1 };
    let da2 = if bounce_x { drift_spec(sx) } else { p.da as int };
    let bounce_y = y1 < 0 || y1 > h;
    let y2 = if y1 < 0 { 0 } else if y1 > h { h } else { y1 };
    let a3 = if bounce_y { reflect_y_spec(a2) } else { a2 };
    let da3 = if bounce_y { drift_spec(sy) } else { da2 };
    Point { x: x2 as i64, y: y2 as i64, a: a3 as i64, da: da3 as i64 }
}

/// The horizontal move a step would make.
pub open spec fn step_dx(p: Point, step: int) -> int {
    mul_fp_spec(step, cos_spec(p.a as int))
}

/// The vertical move a step would make.
pub open spec fn step_dy(p: Point, step: int) -> int {
    mul_fp_spec(step, sin_spec(p.a as int))
}

/// Whether the step would carry the point past the left or right edge.
pub open spec fn crosses_x(p: Point, step: int, w: int) -> bool {
    p.x + step_dx(p, step) < 0 || p.x + step_dx(p, step) > w
}

/// Whether the step would carry the point past the top or bottom edge.
pub open spec fn crosses_y(p: Point, step: int, h: int) -> bool {
    p.y + step_dy(p, step) < 0 || p.y + step_dy(p, step) > h
}

/// Reflection law for the vertical edges: when a step would leave the
/// rectangle horizontally but not vertically, the post-step heading is pi
/// minus the drifted pre-step heading, modulo a full turn.
pub proof fn lemma_reflect_x(p: Point, step: int, w: int, h: int, sx: int, sy: int)
    requires
        p.wf(),
        crosses_x(p, step, w),
        !crosses_y(p, step, h),
    ensures
        step_spec(p, step, w, h, sx, sy).a == reflect_x_spec(norm_spec(p.a + p.da)),
{
    vstd::arithmetic::div_mod::lemma_mod_bound(p.a + p.da, TWO_PI_FP as int);
    vstd::arithmetic::div_mod::lemma_mod_bound(
        PI_FP - norm_spec(p.a + p.da),
        TWO_PI_FP as int,
    );
}

/// Reflection law for the horizontal edges: when a step would leave the
/// rectangle vertically but not horizontally, the post-step heading is the
/// negated drifted pre-step heading, modulo a full turn.
pub proof fn lemma_reflect_y(p: Point, step: int, w: int, h: int, sx: int, sy: int)
    requires
        p.wf(),
        !crosses_x(p, step, w),
        crosses_y(p, step, h),
    ensures
        step_spec(p, step, w, h, sx, sy).a == reflect_y_spec(norm_spec(p.a + p.da)),
{
    vstd::arithmetic::div_mod::lemma_mod_bound(p.a + p.da, TWO_PI_FP as int);
    vstd::arithmetic::div_mod::lemma_mod_bound(
        -norm_spec(p.a + p.da),
        TWO_PI_FP as int,
    );
}

/// When a step would leave the rectangle on both axes, the two reflections
/// compose, vertical edge first.
pub proof fn lemma_reflect_both(p: Point, step: int, w: int, h: int, sx: int, sy: int)
    requires
        p.wf(),
        crosses_x(p, step, w),
        crosses_y(p, step, h),
    ensures
        step_spec(p, step, w, h, sx, sy).a == reflect_y_spec(
            reflect_x_spec(norm_spec(p.a + p.da)),
        ),
{
    vstd::arithmetic::div_mod::lemma_mod_bound(p.a + p.da, TWO_PI_FP as int);
    vstd::arithmetic::div_mod::lemma_mod_bound(
        PI_FP - norm_spec(p.a + p.da),
        TWO_PI_FP as int,
    );
    vstd::arithmetic::div_mod::lemma_mod_bound(
        -reflect_x_spec(norm_spec(p.a + p.da)),
        TWO_PI_FP as int,
    );
}

impl Point {
    /// Position inside the largest rectangle, heading reduced to one turn,
    /// drift within the cubic-biased sample bound.
    pub open spec fn wf(self) -> bool {
        &&& 0 <= self.x <= MAX_DIM_FP
        &&& 0 <= self.y <= MAX_DIM_FP
        &&& 0 <= self.a < TWO_PI_FP
        &&& 0 <= self.da <= MAX_DRIFT_FP
    }

    /// A point at the given position and heading, with no drift yet.
    pub fn new(x: i64, y: i64, a: i64) -> (p: Point)
        requires
            0 <= x <= MAX_DIM_FP,
            0 <= y <= MAX_DIM_FP,
            0 <= a < TWO_PI_FP,
        ensures
            p == (Point { x, y, a, da: 0i64 }),
            p.wf(),
    {
        Point { x, y, a, da: 0 }
    }

    /// The cubic-biased drift derived from a sample: the magnitude of the
    /// sample's cube, scaled back to fixed-point units.
    pub fn drift_of(s: i64) -> (r: i64)
        requires
            -SIXTH_PI_FP <= s <= SIXTH_PI_FP,
        ensures
            r == drift_spec(s as int),
            0 <= r <= MAX_DRIFT_FP,
    {
        let m: i64 = if s < 0 {
            -s
        } else {
            s
        };
        proof {
            lemma_cube_bounds(m as int);
        }
        let cube: i64 = m * m * m;
        cube / FP_UNIT_SQ
    }

    /// Advances the point by `step` along its heading inside the rectangle
    /// `[0, w] x [0, h]`, applying the pending drift to the heading and
    /// reflecting the heading off any edge the move would cross; a bounce
    /// replaces the drift by the one derived from the matching sample.
    pub fn step_core(&mut self, step: i64, w: i64, h: i64, sx: i64, sy: i64)
        requires
            old(self).wf(),
            0 <= step <= MAX_STEP_FP,
            0 <= w <= MAX_DIM_FP,
            0 <= h <= MAX_DIM_FP,
            -SIXTH_PI_FP <= sx <= SIXTH_PI_FP,
            -SIXTH_PI_FP <= sy <= SIXTH_PI_FP,
        ensures
            *final(self) == step_spec(
                *old(self),
                step as int,
                w as int,
                h as int,
                sx as int,
                sy as int,
            ),
            final(self).wf(),
            0 <= final(self).x <= w,
            0 <= final(self).y <= h,
    {
        let c = cos_fp(self.a);
        let s = sin_fp(self.a);
        proof {
            lemma_mul_fp_unit_bound(step as int, c as int);
            lemma_mul_fp_unit_bound(step as int, s as int);
        }
        let dx = mul_fp(step, c);
        let dy = mul_fp(step, s);
        self.a = norm_angle(self.a + self.da);
        self.x = self.x + dx;
        self.y = self.y + dy;
        if self.x < 0 {
            self.a = norm_angle(PI_FP - self.a);
            self.da = Self::drift_of(sx);
            self.x = 0;
        } else if self.x > w {
            self.a = norm_angle(PI_FP - self.a);
            self.da = Self::drift_of(sx);
            self.x = w;
        }
        if self.y < 0 {
            self.a = norm_angle(-self.a);
            self.da = Self::drift_of(sy);
            self.y = 0;
        } else if self.y > h {
            self.a = norm_angle(-self.a);
            self.da = Self::drift_of(sy);
            self.y = h;
        }
    }

    /// Like `step_core`, with the two drift samples drawn fresh from the
    /// random generator.
    pub fn step(&mut self, step: i64, w: i64, h: i64)
        requires
            old(self).wf(),
            0 <= step <= MAX_STEP_FP,
            0 <= w <= MAX_DIM_FP,
            0 <= h <= MAX_DIM_FP,
        ensures
            exists|sx: int, sy: int|
                {
                    &&& -SIXTH_PI_FP <= sx <= SIXTH_PI_FP
                    &&& -SIXTH_PI_FP <= sy <= SIXTH_PI_FP
                    &&& *final(self) == step_spec(
                        *old(self),
                        step as int,
                        w as int,
                        h as int,
                        sx,
                        sy,
                    )
                },
            final(self).wf(),
            0 <= final(self).x <= w,
            0 <= final(self).y <= h,
    {
        let sx = random_in_range(-SIXTH_PI_FP, SIXTH_PI_FP);
        let sy = random_in_range(-SIXTH_PI_FP, SIXTH_PI_FP);
        self.step_core(step, w, h, sx, sy);
    }
}

impl Default for Point {
    /// The origin with a zero heading, as the points start out before they
    /// are placed.
    fn default() -> (p: Point)
        ensures
            p == (Point { x: 0i64, y: 0i64, a: 0i64, da: 0i64 }),
            p.wf(),
    {
        Point { x: 0, y: 0, a: 0, da: 0 }
    }
}

} // verus!
