//! The generator: four bouncing points, one color blender and one primitive
//! history. Each tick advances the color, steps every point against the
//! current bounds, builds one primitive of the active mode from the fresh
//! positions and color, and inserts it into the history.

use vstd::prelude::*;
use crate::color::{blue_of, green_of, next_spec, red_of, ColorBlender, MAX_BLEND_STEPS};
use crate::fixed::{FP_ONE, HALF_PI_FP, MAX_DIM_FP, MAX_STEP_FP, PI_FP, SIXTH_PI_FP};
use crate::history::{hist_insert, Primitive, PrimitiveHistory, Shape, MAX_CAPACITY};
use crate::mode::Mode;
use crate::point::{step_spec, Point};
use crate::rng::random_in_range;

verus! {

/// Largest step length, in pixels, the configuration accepts.
pub const MAX_STEP_PX: u32 = 100;

/// Default step length in pixels.
pub const DEFAULT_STEP_PX: u32 = 10;

/// Default number of steps of a color transition.
pub const DEFAULT_BLEND_STEPS: u32 = 16;

/// Default history capacity.
pub const DEFAULT_CAPACITY: u32 = 64;

/// A configuration the generator refuses, with the offending option.
#[derive(Clone, Copy, PartialEq, Eq, Structural, Debug)]
pub enum ConfigError {
    InvalidStep,
    InvalidBlendSteps,
    InvalidCapacity,
}

/// The fresh drift samples one tick may consume: one per axis for each of
/// the four points.
#[derive(Clone, Copy, PartialEq, Eq, Structural, Debug)]
pub struct DriftSamples {
    pub s0x: i64,
    pub s0y: i64,
    pub s1x: i64,
    pub s1y: i64,
    pub s2x: i64,
    pub s2y: i64,
    pub s3x: i64,
    pub s3y: i64,
}

impl DriftSamples {
    /// Every sample within the drift sample range.
    pub open spec fn wf(self) -> bool {
        &&& -SIXTH_PI_FP <= self.s0x <= SIXTH_PI_FP
        &&& -SIXTH_PI_FP <= self.s0y <= SIXTH_PI_FP
        &&& -SIXTH_PI_FP <= self.s1x <= SIXTH_PI_FP
        &&& -SIXTH_PI_FP <= self.s1y <= SIXTH_PI_FP
        &&& -SIXTH_PI_FP <= self.s2x <= SIXTH_PI_FP
        &&& -SIXTH_PI_FP <= self.s2y <= SIXTH_PI_FP
        &&& -SIXTH_PI_FP <= self.s3x <= SIXTH_PI_FP
        &&& -SIXTH_PI_FP <= self.s3y <= SIXTH_PI_FP
    }
}

/// The generator's mutable state: configuration, the four points, the color
/// blend and the history of primitives.
pub struct LineGenerator {
    pub step_len: i64,
    pub mode: Mode,
    pub p0: Point,
    pub p1: Point,
    pub p2: Point,
    pub p3: Point,
    pub blender: ColorBlender,
    pub history: PrimitiveHistory,
}

/// The shape one tick of the given state would draw: which points it uses is
/// decided by the mode alone.
pub open spec fn shape_of(g: LineGenerator) -> Shape {
    match g.mode {
        Mode::Lines => Shape::Line { x0: g.p0.x, y0: g.p0.y, x1: g.p1.x, y1: g.p1.y },
        Mode::Triangles => Shape::Triangle {
            x0: g.p0.x,
            y0: g.p0.y,
            x1: g.p1.x,
            y1: g.p1.y,
            x2: g.p2.x,
            y2: g.p2.y,
        },
        Mode::Curves => Shape::Curve {
            x0: g.p0.x,
            y0: g.p0.y,
            x1: g.p1.x,
            y1: g.p1.y,
            x2: g.p2.x,
            y2: g.p2.y,
            x3: g.p3.x,
            y3: g.p3.y,
        },
    }
}

/// The primitive one tick of the given state would insert: the mode's shape
/// over the current point positions, colored by the current blend angles.
pub open spec fn current_primitive(g: LineGenerator) -> Primitive {
    Primitive {
        shape: shape_of(g),
        r: red_of(g.blender.a as int, g.blender.z as int) as i64,
        g: green_of(g.blender.a as int, g.blender.z as int) as i64,
        b: blue_of(g.blender.z as int) as i64,
    }
}

impl LineGenerator {
    /// Configuration within its ranges and every component well formed.
    pub open spec fn wf(self) -> bool {
        &&& 0 <= self.step_len <= MAX_STEP_FP
        &&& self.p0.wf()
        &&& self.p1.wf()
        &&& self.p2.wf()
        &&& self.p3.wf()
        &&& self.blender.wf()
        &&& self.history.wf()
    }

    /// A generator from explicit configuration and initial blend angles.
    /// Rejects a zero or over-large step, blend-step count or capacity; the
    /// checks run in that order.
    pub fn new_core(step: u32, blend_steps: u32, capacity: u32, mode: Mode, a0: i64, z0: i64)
        -> (r: Result<LineGenerator, ConfigError>)
        requires
            0 <= a0 < HALF_PI_FP,
            0 <= z0 < PI_FP,
        ensures
            r is Err ==> r == (if step > MAX_STEP_PX {
                Err::<LineGenerator, ConfigError>(ConfigError::InvalidStep)
            } else if blend_steps == 0 || blend_steps > MAX_BLEND_STEPS {
                Err::<LineGenerator, ConfigError>(ConfigError::InvalidBlendSteps)
            } else {
                Err::<LineGenerator, ConfigError>(ConfigError::InvalidCapacity)
            }),
            r is Err <==> (step > MAX_STEP_PX || blend_steps == 0 || blend_steps
                > MAX_BLEND_STEPS || capacity == 0 || capacity > MAX_CAPACITY),
            r is Ok ==> ({
                let g = r->Ok_0;
                &&& g.wf()
                &&& g.step_len == step * FP_ONE
                &&& g.mode == mode
                &&& g.p0 == (Point { x: 0i64, y: 0i64, a: 0i64, da: 0i64 })
                &&& g.p1 == g.p0
                &&& g.p2 == g.p0
                &&& g.p3 == g.p0
                &&& g.blender == (ColorBlender {
                    a: a0,
                    z: z0,
                    da: 0i64,
                    dz: 0i64,
                    steps_left: 0u32,
                    blend_steps,
                })
                &&& g.history@ == Seq::<Primitive>::empty()
                &&& g.history.capacity_spec() == capacity
            }),
    {
        if step > MAX_STEP_PX {
            return Err(ConfigError::InvalidStep);
        }
        if blend_steps == 0 || blend_steps > MAX_BLEND_STEPS {
            return Err(ConfigError::InvalidBlendSteps);
        }
        if capacity == 0 || capacity > MAX_CAPACITY as u32 {
            return Err(ConfigError::InvalidCapacity);
        }
        let origin = Point::new(0, 0, 0);
        Ok(LineGenerator {
            step_len: (step as i64) * FP_ONE,
            mode,
            p0: origin,
            p1: origin,
            p2: origin,
            p3: origin,
            blender: ColorBlender::new(a0, z0, blend_steps),
            history: PrimitiveHistory::new(capacity as usize),
        })
    }

    /// A generator from explicit configuration, with the initial blend
    /// angles drawn fresh from the random generator.
    pub fn new(step: u32, blend_steps: u32, capacity: u32, mode: Mode) -> (r: Result<
        LineGenerator,
        ConfigError,
    >)
        ensures
            r is Err ==> r == (if step > MAX_STEP_PX {
                Err::<LineGenerator, ConfigError>(ConfigError::InvalidStep)
            } else if blend_steps == 0 || blend_steps > MAX_BLEND_STEPS {
                Err::<LineGenerator, ConfigError>(ConfigError::InvalidBlendSteps)
            } else {
                Err::<LineGenerator, ConfigError>(ConfigError::InvalidCapacity)
            }),
            r is Err <==> (step > MAX_STEP_PX || blend_steps == 0 || blend_steps
                > MAX_BLEND_STEPS || capacity == 0 || capacity > MAX_CAPACITY),
            r is Ok ==> ({
                let g = r->Ok_0;
                &&& g.wf()
                &&& g.step_len == step * FP_ONE
                &&& g.mode == mode
                &&& g.history@ == Seq::<Primitive>::empty()
                &&& g.history.capacity_spec() == capacity
            }),
    {
        let a0 = random_in_range(0, HALF_PI_FP);
        let z0 = random_in_range(0, PI_FP);
        Self::new_core(step, blend_steps, capacity, mode, a0, z0)
    }

    /// Places the four points where the animation starts them out within the
    /// given bounds: the edges and thirds of the rectangle, with small
    /// initial headings.
    pub fn place_points(&mut self, w: i64, h: i64)
        requires
            old(self).wf(),
            0 <= w <= MAX_DIM_FP,
            0 <= h <= MAX_DIM_FP,
        ensures
            final(self).wf(),
            final(self).p0 == (Point { x: 0i64, y: (h / 3) as i64, a: 6554i64, da: 0i64 }),
            final(self).p1 == (Point { x: w, y: (h / 6) as i64, a: 397356i64, da: 0i64 }),
            final(self).p2 == (Point { x: (w / 3) as i64, y: 0i64, a: 13107i64, da: 0i64 }),
            final(self).p3 == (Point { x: (w / 3) as i64, y: h, a: 398667i64, da: 0i64 }),
            *final(self) == (LineGenerator {
                p0: final(self).p0,
                p1: final(self).p1,
                p2: final(self).p2,
                p3: final(self).p3,
                ..*old(self)
            }),
    {
        self.p0 = Point::new(0, h / 3, 6554);
        self.p1 = Point::new(w, h / 6, 397356);
        self.p2 = Point::new(w / 3, 0, 13107);
        self.p3 = Point::new(w / 3, h, 398667);
    }

    /// Swaps the active mode; it takes effect on the next tick and leaves
    /// the buffered primitives untouched.
    pub fn set_mode(&mut self, mode: Mode)
        requires
            old(self).wf(),
        ensures
            final(self).wf(),
            *final(self) == (LineGenerator { mode, ..*old(self) }),
    {
        self.mode = mode;
    }

    /// Reconfigures the step length, in pixels; rejects one above the
    /// maximum and leaves the state untouched then.
    pub fn set_step(&mut self, step: u32) -> (r: Result<(), ConfigError>)
        requires
            old(self).wf(),
        ensures
            final(self).wf(),
            step <= MAX_STEP_PX ==> r is Ok && *final(self) == (LineGenerator {
                step_len: (step * FP_ONE) as i64,
                ..*old(self)
            }),
            step > MAX_STEP_PX ==> r == Err::<(), ConfigError>(ConfigError::InvalidStep)
                && *final(self) == *old(self),
    {
        if step > MAX_STEP_PX {
            return Err(ConfigError::InvalidStep);
        }
        self.step_len = (step as i64) * FP_ONE;
        Ok(())
    }

    /// Reconfigures the length of future color transitions; rejects zero or
    /// one above the maximum and leaves the state untouched then.
    pub fn set_blend_steps(&mut self, blend_steps: u32) -> (r: Result<(), ConfigError>)
        requires
            old(self).wf(),
        ensures
            final(self).wf(),
            1 <= blend_steps <= MAX_BLEND_STEPS ==> r is Ok && *final(self) == (LineGenerator {
                blender: (ColorBlender { blend_steps, ..old(self).blender }),
                ..*old(self)
            }),
            !(1 <= blend_steps <= MAX_BLEND_STEPS) ==> r == Err::<(), ConfigError>(
                ConfigError::InvalidBlendSteps,
            ) && *final(self) == *old(self),
    {
        if blend_steps == 0 || blend_steps > MAX_BLEND_STEPS {
            return Err(ConfigError::InvalidBlendSteps);
        }
        self.blender.set_blend_steps(blend_steps);
        Ok(())
    }

    /// The active mode.
    pub fn mode(&self) -> (m: Mode)
        ensures
            m == self.mode,
    {
        self.mode
    }

    /// The configured step length, in pixels.
    pub fn step(&self) -> (s: u32)
        requires
            self.wf(),
        ensures
            s == self.step_len / FP_ONE,
    {
        (self.step_len / FP_ONE) as u32
    }

    /// The configured length of a color transition.
    pub fn blend_steps(&self) -> (b: u32)
        ensures
            b == self.blender.blend_steps,
    {
        self.blender.blend_steps
    }

    /// The configured history capacity.
    pub fn capacity(&self) -> (c: usize)
        ensures
            c == self.history.capacity_spec(),
    {
        self.history.capacity()
    }

    /// One tick against the given drift samples and color target: advances
    /// the color blend, steps all four points inside the bounds, builds the
    /// mode's primitive from the fresh positions and color, and inserts it
    /// into the history.
    pub fn tick_with(&mut self, w: i64, h: i64, na: i64, nz: i64, samples: DriftSamples)
        requires
            old(self).wf(),
            0 <= w <= MAX_DIM_FP,
            0 <= h <= MAX_DIM_FP,
            0 <= na < HALF_PI_FP,
            0 <= nz < PI_FP,
            samples.wf(),
        ensures
            final(self).wf(),
            final(self).mode == old(self).mode,
            final(self).step_len == old(self).step_len,
            final(self).blender == next_spec(old(self).blender, na as int, nz as int),
            final(self).p0 == step_spec(
                old(self).p0,
                old(self).step_len as int,
                w as int,
                h as int,
                samples.s0x as int,
                samples.s0y as int,
            ),
            final(self).p1 == step_spec(
                old(self).p1,
                old(self).step_len as int,
                w as int,
                h as int,
                samples.s1x as int,
                samples.s1y as int,
            ),
            final(self).p2 == step_spec(
                old(self).p2,
                old(self).step_len as int,
                w as int,
                h as int,
                samples.s2x as int,
                samples.s2y as int,
            ),
            final(self).p3 == step_spec(
                old(self).p3,
                old(self).step_len as int,
                w as int,
                h as int,
                samples.s3x as int,
                samples.s3y as int,
            ),
            final(self).history.capacity_spec() == old(self).history.capacity_spec(),
            final(self).history@ == hist_insert(
                old(self).history@,
                old(self).history.capacity_spec(),
                current_primitive(*final(self)),
            ),
            0 <= final(self).p0.x <= w && 0 <= final(self).p0.y <= h,
            0 <= final(self).p1.x <= w && 0 <= final(self).p1.y <= h,
            0 <= final(self).p2.x <= w && 0 <= final(self).p2.y <= h,
            0 <= final(self).p3.x <= w && 0 <= final(self).p3.y <= h,
    {
        self.blender.next_core(na, nz);
        let a = self.blender.a;
        let z = self.blender.z;
        self.p0.step_core(self.step_len, w, h, samples.s0x, samples.s0y);
        self.p1.step_core(self.step_len, w, h, samples.s1x, samples.s1y);
        self.p2.step_core(self.step_len, w, h, samples.s2x, samples.s2y);
        self.p3.step_core(self.step_len, w, h, samples.s3x, samples.s3y);
        let prim = match self.mode {
            Mode::Lines => Primitive::line(&self.p0, &self.p1, a, z),
            Mode::Triangles => Primitive::triangle(&self.p0, &self.p1, &self.p2, a, z),
            Mode::Curves => Primitive::curve(&self.p0, &self.p1, &self.p2, &self.p3, a, z),
        };
        self.history.insert(prim);
    }

    /// One tick against the current bounds, drawing the color target and
    /// the drift samples fresh from the random generator.
    pub fn tick(&mut self, w: i64, h: i64)
        requires
            old(self).wf(),
            0 <= w <= MAX_DIM_FP,
            0 <= h <= MAX_DIM_FP,
        ensures
            final(self).wf(),
            final(self).mode == old(self).mode,
            final(self).step_len == old(self).step_len,
            final(self).history.capacity_spec() == old(self).history.capacity_spec(),
            final(self).history@ == hist_insert(
                old(self).history@,
                old(self).history.capacity_spec(),
                current_primitive(*final(self)),
            ),
            (current_primitive(*final(self)).shape is Line <==> old(self).mode is Lines),
            (current_primitive(*final(self)).shape is Triangle <==> old(self).mode is Triangles),
            (current_primitive(*final(self)).shape is Curve <==> old(self).mode is Curves),
            0 <= final(self).p0.x <= w && 0 <= final(self).p0.y <= h,
            0 <= final(self).p1.x <= w && 0 <= final(self).p1.y <= h,
            0 <= final(self).p2.x <= w && 0 <= final(self).p2.y <= h,
            0 <= final(self).p3.x <= w && 0 <= final(self).p3.y <= h,
    {
        let na = random_in_range(0, HALF_PI_FP);
        let nz = random_in_range(0, PI_FP);
        let samples = DriftSamples {
            s0x: random_in_range(-SIXTH_PI_FP, SIXTH_PI_FP),
            s0y: random_in_range(-SIXTH_PI_FP, SIXTH_PI_FP),
            s1x: random_in_range(-SIXTH_PI_FP, SIXTH_PI_FP),
            s1y: random_in_range(-SIXTH_PI_FP, SIXTH_PI_FP),
            s2x: random_in_range(-SIXTH_PI_FP, SIXTH_PI_FP),
            s2y: random_in_range(-SIXTH_PI_FP, SIXTH_PI_FP),
            s3x: random_in_range(-SIXTH_PI_FP, SIXTH_PI_FP),
            s3y: random_in_range(-SIXTH_PI_FP, SIXTH_PI_FP),
        };
        self.tick_with(w, h, na, nz, samples);
    }

    /// The visible primitives, oldest first, ready to be replayed onto a
    /// drawing surface.
    pub fn render_list(&self) -> (r: Vec<Primitive>)
        requires
            self.wf(),
        ensures
            r@ == self.history@,
    {
        self.history.render_list()
    }
}

} // verus!
