//! Drawable primitives and their history: a fixed-capacity ring buffer that
//! overwrites its oldest entry once full and replays its contents
//! oldest-to-newest for redraw.

use vstd::prelude::*;
use crate::color::{blue_of, color_rgb, green_of, red_of};
use crate::fixed::{FP_ONE, TWO_PI_FP};
use crate::point::Point;

verus! {

/// Most primitives a history may be configured to keep.
pub const MAX_CAPACITY: usize = 256;

/// A drawable shape: a line segment, a triangle, or a cubic curve given by
/// its four control points, in fixed-point coordinates.
#[derive(Clone, Copy, PartialEq, Eq, Structural, Debug)]
pub enum Shape {
    Line { x0: i64, y0: i64, x1: i64, y1: i64 },
    Triangle { x0: i64, y0: i64, x1: i64, y1: i64, x2: i64, y2: i64 },
    Curve { x0: i64, y0: i64, x1: i64, y1: i64, x2: i64, y2: i64, x3: i64, y3: i64 },
}

/// A shape with the RGB color frozen when it was created; never mutated
/// afterwards.
#[derive(Clone, Copy, PartialEq, Eq, Structural, Debug)]
pub struct Primitive {
    pub shape: Shape,
    pub r: i64,
    pub g: i64,
    pub b: i64,
}

impl Primitive {
    /// A primitive of the given shape, colored by the color at angles
    /// `(a, z)`.
    pub fn new_for(shape: Shape, a: i64, z: i64) -> (p: Primitive)
        requires
            0 <= a < TWO_PI_FP,
            0 <= z < TWO_PI_FP,
        ensures
            p.shape == shape,
            p.r == red_of(a as int, z as int),
            p.g == green_of(a as int, z as int),
            p.b == blue_of(z as int),
            -FP_ONE <= p.r <= FP_ONE,
            -FP_ONE <= p.g <= FP_ONE,
            -FP_ONE <= p.b <= FP_ONE,
    {
        let (r, g, b) = color_rgb(a, z);
        Primitive { shape, r, g, b }
    }

    /// A line segment between two points.
    pub fn line(p0: &Point, p1: &Point, a: i64, z: i64) -> (p: Primitive)
        requires
            0 <= a < TWO_PI_FP,
            0 <= z < TWO_PI_FP,
        ensures
            p.shape == (Shape::Line { x0: p0.x, y0: p0.y, x1: p1.x, y1: p1.y }),
            p.r == red_of(a as int, z as int),
            p.g == green_of(a as int, z as int),
            p.b == blue_of(z as int),
    {
        Self::new_for(Shape::Line { x0: p0.x, y0: p0.y, x1: p1.x, y1: p1.y }, a, z)
    }

    /// A triangle through three points.
    pub fn triangle(p0: &Point, p1: &Point, p2: &Point, a: i64, z: i64) -> (p: Primitive)
        requires
            0 <= a < TWO_PI_FP,
            0 <= z < TWO_PI_FP,
        ensures
            p.shape == (Shape::Triangle {
                x0: p0.x,
                y0: p0.y,
                x1: p1.x,
                y1: p1.y,
                x2: p2.x,
                y2: p2.y,
            }),
            p.r == red_of(a as int, z as int),
            p.g == green_of(a as int, z as int),
            p.b == blue_of(z as int),
    {
        Self::new_for(
            Shape::Triangle { x0: p0.x, y0: p0.y, x1: p1.x, y1: p1.y, x2: p2.x, y2: p2.y },
            a,
            z,
        )
    }

    /// A cubic curve on four control points.
    pub fn curve(p0: &Point, p1: &Point, p2: &Point, p3: &Point, a: i64, z: i64) -> (p:
        Primitive)
        requires
            0 <= a < TWO_PI_FP,
            0 <= z < TWO_PI_FP,
        ensures
            p.shape == (Shape::Curve {
                x0: p0.x,
                y0: p0.y,
                x1: p1.x,
                y1: p1.y,
                x2: p2.x,
                y2: p2.y,
                x3: p3.x,
                y3: p3.y,
            }),
            p.r == red_of(a as int, z as int),
            p.g == green_of(a as int, z as int),
            p.b == blue_of(z as int),
    {
        Self::new_for(
            Shape::Curve {
                x0: p0.x,
                y0: p0.y,
                x1: p1.x,
                y1: p1.y,
                x2: p2.x,
                y2: p2.y,
                x3: p3.x,
                y3: p3.y,
            },
            a,
            z,
        )
    }
}

/// What one insertion does to the visible primitives: append while the
/// history still fills up, otherwise drop the oldest and append.
pub open spec fn hist_insert(s: Seq<Primitive>, cap: int, p: Primitive) -> Seq<Primitive> {
    if s.len() < cap {
        s.push(p)
    } else {
        s.drop_first().push(p)
    }
}

/// A whole run of insertions, oldest first.
pub open spec fn hist_insert_all(s: Seq<Primitive>, cap: int, ps: Seq<Primitive>) -> Seq<
    Primitive,
>
    decreases ps.len(),
{
    if ps.len() == 0 {
        s
    } else {
        hist_insert_all(hist_insert(s, cap, ps.first()), cap, ps.drop_first())
    }
}

/// Insertions compose: running two batches is running their concatenation.
proof fn lemma_hist_insert_all_append(s: Seq<Primitive>, cap: int, ps: Seq<Primitive>, qs: Seq<
    Primitive,
>)
    ensures
        hist_insert_all(s, cap, ps + qs) == hist_insert_all(hist_insert_all(s, cap, ps), cap, qs),
    decreases ps.len(),
{
    if ps.len() == 0 {
        assert(ps + qs =~= qs);
    } else {
        assert((ps + qs).drop_first() =~= ps.drop_first() + qs);
        lemma_hist_insert_all_append(hist_insert(s, cap, ps.first()), cap, ps.drop_first(), qs);
    }
}

/// While everything still fits, insertions just append.
proof fn lemma_fill_general(s: Seq<Primitive>, cap: int, ps: Seq<Primitive>)
    requires
        s.len() + ps.len() <= cap,
    ensures
        hist_insert_all(s, cap, ps) == s + ps,
    decreases ps.len(),
{
    if ps.len() == 0 {
        assert(s + ps =~= s);
    } else {
        lemma_fill_general(s.push(ps.first()), cap, ps.drop_first());
        assert(s.push(ps.first()) + ps.drop_first() =~= s + ps);
    }
}

/// Once the history is full, a run of insertions keeps exactly the newest
/// `cap` of the old contents followed by the new ones.
proof fn lemma_overwrite_general(s: Seq<Primitive>, cap: int, ps: Seq<Primitive>)
    requires
        s.len() == cap,
        1 <= cap,
    ensures
        hist_insert_all(s, cap, ps) == (s + ps).skip(ps.len() as int),
    decreases ps.len(),
{
    if ps.len() == 0 {
        assert((s + ps).skip(0) =~= s);
    } else {
        let p = ps.first();
        lemma_overwrite_general(s.drop_first().push(p), cap, ps.drop_first());
        assert(s.drop_first().push(p) + ps.drop_first() =~= (s + ps).drop_first());
        assert((s + ps).drop_first().skip(ps.len() - 1) =~= (s + ps).skip(ps.len() as int));
    }
}

/// Ring buffer fill law: inserting at most `cap` primitives into an empty
/// history leaves exactly those primitives, in insertion order.
pub proof fn lemma_history_fill(cap: int, ps: Seq<Primitive>)
    requires
        1 <= cap,
        ps.len() <= cap,
    ensures
        hist_insert_all(Seq::empty(), cap, ps) == ps,
{
    lemma_fill_general(Seq::empty(), cap, ps);
    assert(Seq::empty() + ps =~= ps);
}

/// Overwrite law: inserting `cap` or more primitives into an empty history
/// leaves exactly the most recent `cap` of them, in insertion order; the
/// older ones are gone.
pub proof fn lemma_history_overwrite(cap: int, ps: Seq<Primitive>)
    requires
        1 <= cap,
        ps.len() >= cap,
    ensures
        hist_insert_all(Seq::empty(), cap, ps) == ps.skip(ps.len() - cap),
{
    let head = ps.take(cap);
    let tail = ps.skip(cap);
    assert(head + tail =~= ps);
    lemma_hist_insert_all_append(Seq::empty(), cap, head, tail);
    lemma_history_fill(cap, head);
    lemma_overwrite_general(head, cap, tail);
    assert((head + tail).skip(tail.len() as int) =~= ps.skip(ps.len() - cap));
}

/// The fixed-capacity ring buffer of primitives. Its view is the sequence of
/// visible primitives, oldest first.
pub struct PrimitiveHistory {
    buf: Vec<Primitive>,
    ix: usize,
    cap: usize,
}

impl View for PrimitiveHistory {
    type V = Seq<Primitive>;

    /// The visible primitives, oldest first: the whole buffer while it fills
    /// up, and the buffer split at the write cursor once it is full.
    closed spec fn view(&self) -> Seq<Primitive> {
        if self.buf@.len() < self.cap {
            self.buf@
        } else {
            self.buf@.skip(self.ix as int) + self.buf@.take(self.ix as int)
        }
    }
}

impl PrimitiveHistory {
    /// The configured capacity.
    pub closed spec fn capacity_spec(self) -> int {
        self.cap as int
    }

    /// The buffer never exceeds its capacity and the write cursor stays
    /// inside it; while the history fills up the cursor rests at the start.
    pub closed spec fn wf(self) -> bool {
        &&& 1 <= self.cap <= MAX_CAPACITY
        &&& self.buf@.len() <= self.cap
        &&& self.ix < self.cap
        &&& self.buf@.len() < self.cap ==> self.ix == 0
    }

    /// The capacity, as the callers see it.
    pub fn capacity(&self) -> (c: usize)
        ensures
            c == self.capacity_spec(),
    {
        self.cap
    }

    /// An empty history for the given capacity.
    pub fn new(cap: usize) -> (h: PrimitiveHistory)
        requires
            1 <= cap <= MAX_CAPACITY,
        ensures
            h.wf(),
            h@ == Seq::<Primitive>::empty(),
            h.capacity_spec() == cap,
    {
        let h = PrimitiveHistory { buf: Vec::new(), ix: 0, cap };
        proof {
            assert(h@ =~= Seq::<Primitive>::empty());
        }
        h
    }

    /// Writes the primitive at the cursor, overwriting the oldest entry once
    /// the capacity is reached, and advances the cursor circularly.
    pub fn insert(&mut self, p: Primitive)
        requires
            old(self).wf(),
        ensures
            final(self).wf(),
            final(self)@ == hist_insert(old(self)@, old(self).capacity_spec(), p),
            final(self).capacity_spec() == old(self).capacity_spec(),
    {
        if self.buf.len() < self.cap {
            self.buf.push(p);
            proof {
                assert(self@ =~= hist_insert(old(self)@, old(self).capacity_spec(), p));
            }
        } else {
            self.buf[self.ix] = p;
            let next = self.ix + 1;
            self.ix = if next == self.cap {
                0
            } else {
                next
            };
            proof {
                assert(self@ =~= hist_insert(old(self)@, old(self).capacity_spec(), p));
            }
        }
    }

    /// The visible primitives, oldest first, ready to be replayed onto a
    /// drawing surface.
    pub fn render_list(&self) -> (r: Vec<Primitive>)
        requires
            self.wf(),
        ensures
            r@ == self@,
    {
        let mut out: Vec<Primitive> = Vec::new();
        if self.buf.len() < self.cap {
            let mut i: usize = 0;
            while i < self.buf.len()
                invariant
                    i <= self.buf@.len(),
                    self.buf@.len() < self.cap,
                    out@ == self.buf@.take(i as int),
                decreases self.buf@.len() - i,
            {
                out.push(self.buf[i]);
                proof {
                    assert(out@ =~= self.buf@.take(i + 1));
                }
                i = i + 1;
            }
            proof {
                assert(self.buf@.take(self.buf@.len() as int) =~= self.buf@);
            }
        } else {
            let mut k: usize = 0;
            while k < self.cap
                invariant
                    self.wf(),
                    self.buf@.len() == self.cap,
                    k <= self.cap,
                    out@ == self@.take(k as int),
                decreases self.cap - k,
            {
                let idx = if self.ix + k < self.cap {
                    self.ix + k
                } else {
                    self.ix + k - self.cap
                };
                out.push(self.buf[idx]);
                proof {
                    assert(self@[k as int] == self.buf@[idx as int]);
                    assert(out@ =~= self@.take(k + 1));
                }
                k = k + 1;
            }
            proof {
                assert(self@.take(self.cap as int) =~= self@);
            }
        }
        out
    }
}

} // verus!
