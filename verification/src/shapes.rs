//! Grid shapes: rectangles, lines and triangles rasterised onto integer
//! points.
//!
//! A line holds the points of an interpolated walk from its start to its
//! end, one step per unit of the longer axis delta; a triangle holds the
//! points of every line from its start to a point of the opposite edge.

use vstd::prelude::*;
use vstd::arithmetic::div_mod::{lemma_div_is_ordered, lemma_div_multiples_vanish};
use vstd::arithmetic::mul::{lemma_mul_inequality, lemma_mul_is_commutative};
use crate::point::{IVec2, Point2d, Position};

verus! {

/// An axis-aligned rectangle, both corners included.
#[derive(Clone, Copy, Debug, PartialEq, Eq, Structural)]
pub struct Rectangle {
    pub min: IVec2,
    pub max: IVec2,
}

impl Rectangle {
    /// A rectangle spanning the two corners; callers hand the lesser corner
    /// first.
    pub fn new<P: Point2d, Q: Point2d>(min: P, max: Q) -> (r: Rectangle)
        ensures
            r.min.x as int == min.spec_x(),
            r.min.y as int == min.spec_y(),
            r.max.x as int == max.spec_x(),
            r.max.y as int == max.spec_y(),
    {
        Rectangle { min: min.as_ivec2(), max: max.as_ivec2() }
    }

    /// The lesser corner.
    pub fn min(&self) -> (r: IVec2)
        ensures
            r == self.min,
    {
        self.min
    }

    /// The greater corner.
    pub fn max(&self) -> (r: IVec2)
        ensures
            r == self.max,
    {
        self.max
    }
}

/// The `k`-th point of a row-major walk over the rectangle spanning `min`
/// to `min + max_offset` (both corners included), or none once `k` passes
/// the point count.
#[verifier::opaque]
pub open spec fn spec_rect_point(min: IVec2, max_offset: IVec2, k: int) -> Option<IVec2> {
    let w = max_offset.x as int + 1;
    let h = max_offset.y as int + 1;
    if 0 <= k < w * h {
        Some(IVec2 { x: (min.x + k % w) as i32, y: (min.y + k / w) as i32 })
    } else {
        None
    }
}

/// An iterator over the points of a rectangle in row-major order, both
/// corners included.
pub struct RectIter {
    offset: IVec2,
    max_offset: IVec2,
    /// The minimum corner point of the rect.
    pub min: IVec2,
}

impl RectIter {
    #[verifier::type_invariant]
    spec fn wf(&self) -> bool {
        &&& 0 <= self.max_offset.x < i32::MAX
        &&& 0 <= self.max_offset.y < i32::MAX
        &&& self.min.x + self.max_offset.x <= i32::MAX
        &&& self.min.y + self.max_offset.y <= i32::MAX
        &&& 0 <= self.offset.x <= self.max_offset.x
        &&& 0 <= self.offset.y <= self.max_offset.y + 1
        &&& (self.offset.y == self.max_offset.y + 1 ==> self.offset.x == 0)
    }

    /// The span being iterated, as the greatest offset from `min`.
    pub closed spec fn spec_max_offset(&self) -> IVec2 {
        self.max_offset
    }

    /// The minimum corner point of the rect.
    pub closed spec fn spec_min(&self) -> IVec2 {
        self.min
    }

    /// How many points have been produced so far.
    pub closed spec fn spec_index(&self) -> int {
        self.offset.y * (self.max_offset.x + 1) + self.offset.x
    }

    /// The next point to be produced, or none when the iteration is over.
    pub closed spec fn spec_peek(&self) -> Option<IVec2> {
        if self.offset.y > self.max_offset.y {
            None
        } else {
            Some(IVec2 {
                x: (self.min.x + self.offset.x) as i32,
                y: (self.min.y + self.offset.y) as i32,
            })
        }
    }

    /// How many points remain to be produced.
    pub closed spec fn spec_remaining(&self) -> int {
        (self.max_offset.y + 1 - self.offset.y) * (self.max_offset.x + 1) - self.offset.x
    }

    pub fn new<P: Point2d, Q: Point2d>(min: P, max: Q) -> (r: RectIter)
        requires
            min.spec_x() <= max.spec_x(),
            min.spec_y() <= max.spec_y(),
            max.spec_x() - min.spec_x() < i32::MAX,
            max.spec_y() - min.spec_y() < i32::MAX,
        ensures
            r.spec_min().x as int == min.spec_x(),
            r.spec_min().y as int == min.spec_y(),
            r.spec_max_offset().x as int == max.spec_x() - min.spec_x(),
            r.spec_max_offset().y as int == max.spec_y() - min.spec_y(),
            r.spec_index() == 0,
            r.spec_peek() == Some(r.spec_min()),
    {
        let min = min.as_ivec2();
        let max = max.as_ivec2();
        let size = IVec2 { x: max.x - min.x, y: max.y - min.y };
        RectIter { min, max_offset: size, offset: IVec2 { x: 0, y: 0 } }
    }

    /// Produces the `spec_index()`-th row-major point of the rectangle — so
    /// the whole walk yields `min`, the rest of its row, then the following
    /// rows, each point exactly once — then none forever.
    pub fn next(&mut self) -> (r: Option<IVec2>)
        ensures
            r == old(self).spec_peek(),
            r == spec_rect_point(old(self).spec_min(), old(self).spec_max_offset(), old(
                self).spec_index()),
            final(self).spec_min() == old(self).spec_min(),
            final(self).spec_max_offset() == old(self).spec_max_offset(),
            final(self).spec_remaining() >= 0,
            r is Some ==> final(self).spec_index() == old(self).spec_index() + 1,
            r is Some ==> final(self).spec_remaining() < old(self).spec_remaining(),
            r is None <==> old(self).spec_index() == (old(self).spec_max_offset().x as int + 1) * (
            old(self).spec_max_offset().y as int + 1),
            r is None ==> *final(self) == *old(self),
            r matches Some(p) ==> old(self).spec_min().x <= p.x <= old(self).spec_min().x + old(
                self).spec_max_offset().x && old(self).spec_min().y <= p.y <= old(
                self).spec_min().y + old(self).spec_max_offset().y,
    {
        proof {
            use_type_invariant(&*self);
            reveal(spec_rect_point);
            let w = self.max_offset.x as int + 1;
            let h = self.max_offset.y as int + 1;
            let ox = self.offset.x as int;
            let oy = self.offset.y as int;
            if self.offset.y > self.max_offset.y {
                assert(self.spec_index() == w * h) by (nonlinear_arith)
                    requires
                        ox == 0,
                        oy == h,
                        self.spec_index() == oy * w + ox,
                ;
            } else {
                assert(0 <= oy * w + ox < w * h && oy * w + ox + 1 <= w * h) by (nonlinear_arith)
                    requires
                        0 <= ox < w,
                        0 <= oy < h,
                ;
                vstd::arithmetic::div_mod::lemma_fundamental_div_mod_converse(oy * w + ox, w, oy,
                    ox);
            }
        }
        if self.offset.y > self.max_offset.y {
            proof {
                assert(self.spec_remaining() == 0);
            }
            return None;
        }
        let p = IVec2 { x: self.min.x + self.offset.x, y: self.min.y + self.offset.y };
        let mut nx = self.offset.x + 1;
        let mut ny = self.offset.y;
        if nx > self.max_offset.x {
            nx = 0;
            ny = self.offset.y + 1;
        }
        let ghost pre = self.offset;
        self.offset = IVec2 { x: nx, y: ny };
        proof {
            assert((self.max_offset.y + 1 - self.offset.y) * (self.max_offset.x + 1)
                - self.offset.x < (self.max_offset.y + 1 - pre.y) * (self.max_offset.x + 1)
                - pre.x && self.offset.y * (self.max_offset.x + 1) + self.offset.x == pre.y * (
            self.max_offset.x + 1) + pre.x + 1) by (nonlinear_arith)
                requires
                    0 <= pre.x <= self.max_offset.x,
                    pre.y <= self.max_offset.y,
                    self.offset.y == pre.y && self.offset.x == pre.x + 1 || self.offset.y == pre.y
                        + 1 && self.offset.x == 0 && pre.x == self.max_offset.x,
            ;
            assert((self.max_offset.y + 1 - self.offset.y) * (self.max_offset.x + 1)
                - self.offset.x >= 0) by (nonlinear_arith)
                requires
                    0 <= self.offset.x <= self.max_offset.x,
                    0 <= self.offset.y <= self.max_offset.y + 1,
                    self.offset.y == self.max_offset.y + 1 ==> self.offset.x == 0,
                    0 <= self.max_offset.x,
            ;
        }
        Some(p)
    }
}

/// The magnitude of the difference of two coordinates.
pub open spec fn spec_abs_diff(a: int, b: int) -> int {
    if a >= b {
        a - b
    } else {
        b - a
    }
}

/// How many unit steps a line walk takes: the larger axis delta.
pub open spec fn spec_max_delta(a: IVec2, b: IVec2) -> int {
    let dx = spec_abs_diff(a.x as int, b.x as int);
    let dy = spec_abs_diff(a.y as int, b.y as int);
    if dx >= dy {
        dx
    } else {
        dy
    }
}

/// One axis of a line walk: `a` moved toward `b` by `step` of `md` equal
/// parts, the fraction truncated toward `a`.
pub open spec fn spec_axis_lerp(a: int, b: int, step: int, md: int) -> int {
    if a <= b {
        a + (b - a) * step / md
    } else {
        a - (a - b) * step / md
    }
}

/// The point a line walk from `a` to `b` passes at `step`.
pub open spec fn spec_line_point(a: IVec2, b: IVec2, step: int) -> IVec2 {
    let md = spec_max_delta(a, b);
    if md == 0 {
        a
    } else {
        IVec2 {
            x: spec_axis_lerp(a.x as int, b.x as int, step, md) as i32,
            y: spec_axis_lerp(a.y as int, b.y as int, step, md) as i32,
        }
    }
}

/// Whether the line walk from `a` to `b` passes through `p`.
pub open spec fn spec_line_contains(a: IVec2, b: IVec2, p: IVec2) -> bool {
    exists|k: int| 0 <= k <= spec_max_delta(a, b) && spec_line_point(a, b, k) == p
}

/// One axis of a line walk; the result stays between the endpoints.
fn axis_lerp(a: i32, b: i32, step: u64, md: u64) -> (r: i32)
    requires
        0 < md < 0x1_0000_0000,
        step <= md,
        spec_abs_diff(a as int, b as int) <= md,
    ensures
        r as int == spec_axis_lerp(a as int, b as int, step as int, md as int),
{
    if a <= b {
        let diff = ((b as i64) - (a as i64)) as u64;
        proof {
            lemma_axis_lerp_bounds(diff as int, step as int, md as int);
        }
        let off = diff * step / md;
        ((a as i64) + (off as i64)) as i32
    } else {
        let diff = ((a as i64) - (b as i64)) as u64;
        proof {
            lemma_axis_lerp_bounds(diff as int, step as int, md as int);
        }
        let off = diff * step / md;
        ((a as i64) - (off as i64)) as i32
    }
}

/// The interpolation offset never overflows and never passes the full
/// delta: `diff * step / md <= diff` when `step <= md`.
proof fn lemma_axis_lerp_bounds(diff: int, step: int, md: int)
    requires
        0 < md < 0x1_0000_0000,
        0 <= step <= md,
        0 <= diff <= md,
    ensures
        diff * step <= u64::MAX,
        diff * step / md <= diff,
{
    lemma_mul_inequality(step, md, diff);
    lemma_mul_is_commutative(md, diff);
    lemma_mul_is_commutative(step, diff);
    lemma_div_is_ordered(diff * step, md * diff, md);
    lemma_div_multiples_vanish(diff, md);
    assert(diff * step <= u64::MAX) by (nonlinear_arith)
        requires
            0 <= diff < 0x1_0000_0000,
            0 <= step < 0x1_0000_0000,
    ;
}

/// A straight line between two grid points.
#[derive(Clone, Copy, Debug, PartialEq, Eq, Structural)]
pub struct Line {
    start: IVec2,
    end: IVec2,
}

impl Line {
    /// Where the line starts.
    pub closed spec fn spec_start(&self) -> IVec2 {
        self.start
    }

    /// Where the line ends.
    pub closed spec fn spec_end(&self) -> IVec2 {
        self.end
    }

    pub fn new<P: Point2d, Q: Point2d>(start: P, end: Q) -> (r: Line)
        ensures
            r.spec_start().x as int == start.spec_x(),
            r.spec_start().y as int == start.spec_y(),
            r.spec_end().x as int == end.spec_x(),
            r.spec_end().y as int == end.spec_y(),
    {
        Line { start: start.as_ivec2(), end: end.as_ivec2() }
    }

    /// The points of the walk from start to end, in walk order: one per
    /// step of the longer axis delta, endpoints included.
    pub fn get_points(&self) -> (r: Vec<IVec2>)
        ensures
            r@.len() == spec_max_delta(self.spec_start(), self.spec_end()) + 1,
            forall|k: int|
                0 <= k < r@.len() ==> r@[k] == spec_line_point(self.spec_start(), self.spec_end(),
                    k),
    {
        let dx = abs_diff_u64(self.start.x, self.end.x);
        let dy = abs_diff_u64(self.start.y, self.end.y);
        let md = if dx >= dy {
            dx
        } else {
            dy
        };
        let mut points: Vec<IVec2> = Vec::new();
        if md == 0 {
            points.push(self.start);
            return points;
        }
        let mut step: u64 = 0;
        while step <= md
            invariant
                0 < md,
                md == spec_max_delta(self.spec_start(), self.spec_end()),
                step <= md + 1,
                points@.len() == step,
                forall|k: int|
                    0 <= k < step ==> points@[k] == spec_line_point(self.spec_start(),
                        self.spec_end(), k),
            decreases md + 1 - step,
        {
            let x = axis_lerp(self.start.x, self.end.x, step, md);
            let y = axis_lerp(self.start.y, self.end.y, step, md);
            points.push(IVec2 { x, y });
            step += 1;
        }
        points
    }

    /// How many points the walk passes: the longer axis delta plus one.
    pub fn get_count(&self) -> (r: usize)
        ensures
            r == spec_max_delta(self.spec_start(), self.spec_end()) + 1,
    {
        self.get_points().len()
    }

    /// Whether the walk passes through the given point.
    pub fn contains<P: Point2d>(&self, point: P) -> (r: bool)
        ensures
            r == spec_line_contains(self.spec_start(), self.spec_end(), (IVec2 {
                x: point.spec_x() as i32,
                y: point.spec_y() as i32,
            })),
    {
        let p = point.as_ivec2();
        let points = self.get_points();
        let found = vec_contains(&points, p);
        proof {
            let a = self.spec_start();
            let b = self.spec_end();
            let md = spec_max_delta(a, b);
            if points@.contains(p) {
                let idx = choose|i: int| 0 <= i < points@.len() && points@[i] == p;
                assert(0 <= idx <= md && spec_line_point(a, b, idx) == p);
            }
            if spec_line_contains(a, b, p) {
                let k = choose|k: int| 0 <= k <= md && spec_line_point(a, b, k) == p;
                assert(points@[k] == p);
            }
        }
        found
    }
}

/// The magnitude of the difference of two coordinates.
fn abs_diff_u64(a: i32, b: i32) -> (r: u64)
    ensures
        r as int == spec_abs_diff(a as int, b as int),
{
    if a >= b {
        ((a as i64) - (b as i64)) as u64
    } else {
        ((b as i64) - (a as i64)) as u64
    }
}

/// Whether `v` holds `p`.
fn vec_contains(v: &Vec<IVec2>, p: IVec2) -> (r: bool)
    ensures
        r == v@.contains(p),
{
    let n = v.len();
    let mut i: usize = 0;
    while i < n
        invariant
            n == v@.len(),
            i <= n,
            forall|j: int| 0 <= j < i ==> v@[j] != p,
        decreases n - i,
    {
        if v[i] == p {
            return true;
        }
        i += 1;
    }
    false
}

/// Append `q` unless it is already present; keeps the vector free of
/// duplicates.
fn push_unique(out: &mut Vec<IVec2>, q: IVec2)
    requires
        old(out)@.no_duplicates(),
    ensures
        final(out)@.no_duplicates(),
        forall|p: IVec2| #![trigger final(out)@.contains(p)] #![trigger old(out)@.contains(p)]
            final(out)@.contains(p) <==> (old(out)@.contains(p) || p == q),
{
    if !vec_contains(out, q) {
        out.push(q);
        proof {
            assert forall|p: IVec2|
                out@.contains(p) <==> (old(out)@.contains(p) || p == q) by {
                if old(out)@.contains(p) {
                    let i = choose|i: int| 0 <= i < old(out)@.len() && old(out)@[i] == p;
                    assert(out@[i] == p);
                }
                if p == q {
                    assert(out@[out@.len() - 1] == p);
                }
                if out@.contains(p) {
                    let i = choose|i: int| 0 <= i < out@.len() && out@[i] == p;
                    if i < out@.len() - 1 {
                        assert(old(out)@[i] == p);
                    }
                }
            }
        }
    }
}

/// Append every point of the line from `a` to `b` that is not already
/// present.
fn append_line_points(out: &mut Vec<IVec2>, a: IVec2, b: IVec2)
    requires
        old(out)@.no_duplicates(),
    ensures
        final(out)@.no_duplicates(),
        forall|p: IVec2| #![trigger final(out)@.contains(p)] #![trigger old(out)@.contains(p)]
            final(out)@.contains(p) <==> (old(out)@.contains(p) || spec_line_contains(a, b, p)),
{
    let pts = Line::new(a, b).get_points();
    let ghost md = spec_max_delta(a, b);
    let n = pts.len();
    let mut j: usize = 0;
    while j < n
        invariant
            n == pts@.len(),
            n == md + 1,
            forall|k: int| 0 <= k < n ==> pts@[k] == spec_line_point(a, b, k),
            j <= n,
            out@.no_duplicates(),
            forall|p: IVec2|
                out@.contains(p) <==> (old(out)@.contains(p) || exists|k: int|
                    0 <= k < j && spec_line_point(a, b, k) == p),
        decreases n - j,
    {
        let ghost pre = out@;
        push_unique(out, pts[j]);
        proof {
            assert forall|p: IVec2|
                out@.contains(p) <==> (old(out)@.contains(p) || exists|k: int|
                    0 <= k < j + 1 && spec_line_point(a, b, k) == p) by {
                if out@.contains(p) {
                    if !pre.contains(p) {
                        assert(0 <= j < j + 1 && spec_line_point(a, b, j as int) == p);
                    }
                }
                if exists|k: int| 0 <= k < j + 1 && spec_line_point(a, b, k) == p {
                    let k = choose|k: int| 0 <= k < j + 1 && spec_line_point(a, b, k) == p;
                    if k < j {
                        assert(pre.contains(p));
                    } else {
                        assert(p == pts@[j as int]);
                    }
                }
            }
        }
        j += 1;
    }
    proof {
        assert forall|p: IVec2|
            out@.contains(p) <==> (old(out)@.contains(p) || spec_line_contains(a, b, p)) by {
            if spec_line_contains(a, b, p) {
                let k = choose|k: int| 0 <= k <= md && spec_line_point(a, b, k) == p;
                assert(0 <= k < n && spec_line_point(a, b, k) == p);
            }
            if out@.contains(p) && !old(out)@.contains(p) {
                let k = choose|k: int| 0 <= k < n && spec_line_point(a, b, k) == p;
                assert(0 <= k <= md && spec_line_point(a, b, k) == p);
            }
        }
    }
}

/// A filled triangle on the grid, drawn as every line from `start` to a
/// point of the walk from `point1` to `point2`.
#[derive(Clone, Copy, Debug, PartialEq, Eq, Structural)]
pub struct Triangle {
    pub start: IVec2,
    pub point1: IVec2,
    pub point2: IVec2,
}

/// Whether the triangle's fill passes through `p`.
pub open spec fn spec_triangle_contains(t: Triangle, p: IVec2) -> bool {
    exists|k: int|
        0 <= k <= spec_max_delta(t.spec_point1(), t.spec_point2()) && spec_line_contains(
            t.spec_start(), spec_line_point(t.spec_point1(), t.spec_point2(), k), p)
}

/// Whether the triangle's border passes through `p`.
pub open spec fn spec_triangle_border_contains(t: Triangle, p: IVec2) -> bool {
    ||| spec_line_contains(t.spec_start(), t.spec_point1(), p)
    ||| spec_line_contains(t.spec_point1(), t.spec_point2(), p)
    ||| spec_line_contains(t.spec_point2(), t.spec_start(), p)
}

/// The points of the triangle's fill.
pub open spec fn spec_triangle_points(t: Triangle) -> Set<IVec2> {
    Set::new(|p: IVec2| spec_triangle_contains(t, p))
}

/// The points of the triangle's border.
pub open spec fn spec_triangle_border_points(t: Triangle) -> Set<IVec2> {
    Set::new(|p: IVec2| spec_triangle_border_contains(t, p))
}

impl Triangle {
    /// The apex corner.
    pub closed spec fn spec_start(&self) -> IVec2 {
        self.start
    }

    /// One corner of the opposite edge.
    pub closed spec fn spec_point1(&self) -> IVec2 {
        self.point1
    }

    /// The other corner of the opposite edge.
    pub closed spec fn spec_point2(&self) -> IVec2 {
        self.point2
    }

    pub fn new(start: Position, point1: Position, point2: Position) -> (r: Triangle)
        ensures
            r.spec_start() == start,
            r.spec_point1() == point1,
            r.spec_point2() == point2,
    {
        Triangle { start, point1, point2 }
    }

    /// The points of the fill, each once, in drawing order.
    pub fn get_positions(&self) -> (r: Vec<IVec2>)
        ensures
            r@.no_duplicates(),
            forall|p: IVec2| r@.contains(p) <==> spec_triangle_contains(*self, p),
    {
        let ends = Line::new(self.point1, self.point2).get_points();
        let ghost md = spec_max_delta(self.point1, self.point2);
        let n = ends.len();
        let mut out: Vec<IVec2> = Vec::new();
        let mut i: usize = 0;
        while i < n
            invariant
                n == ends@.len(),
                n == md + 1,
                forall|k: int|
                    0 <= k < n ==> ends@[k] == spec_line_point(self.point1, self.point2, k),
                i <= n,
                out@.no_duplicates(),
                forall|p: IVec2|
                    out@.contains(p) <==> exists|k: int|
                        0 <= k < i && spec_line_contains(self.spec_start(), spec_line_point(
                            self.spec_point1(), self.spec_point2(), k), p),
            decreases n - i,
        {
            let ghost pre = out@;
            append_line_points(&mut out, self.start, ends[i]);
            proof {
                assert forall|p: IVec2|
                    out@.contains(p) <==> exists|k: int|
                        0 <= k < i + 1 && spec_line_contains(self.spec_start(), spec_line_point(
                            self.spec_point1(), self.spec_point2(), k), p) by {
                    if out@.contains(p) {
                        if pre.contains(p) {
                            let k = choose|k: int|
                                0 <= k < i && spec_line_contains(self.spec_start(),
                                    spec_line_point(self.spec_point1(), self.spec_point2(), k), p);
                            assert(0 <= k < i + 1 && spec_line_contains(self.spec_start(),
                                spec_line_point(self.spec_point1(), self.spec_point2(), k), p));
                        } else {
                            assert(0 <= i < i + 1 && spec_line_contains(self.spec_start(),
                                spec_line_point(self.spec_point1(), self.spec_point2(), i as int),
                                p));
                        }
                    }
                    if exists|k: int|
                        0 <= k < i + 1 && spec_line_contains(self.spec_start(), spec_line_point(
                            self.spec_point1(), self.spec_point2(), k), p) {
                        let k = choose|k: int|
                            0 <= k < i + 1 && spec_line_contains(self.spec_start(),
                                spec_line_point(self.spec_point1(), self.spec_point2(), k), p);
                        if k < i {
                            assert(pre.contains(p));
                        }
                    }
                }
            }
            i += 1;
        }
        proof {
            assert forall|p: IVec2|
                out@.contains(p) <==> spec_triangle_contains(*self, p) by {
                if spec_triangle_contains(*self, p) {
                    let k = choose|k: int|
                        0 <= k <= md && spec_line_contains(self.spec_start(), spec_line_point(
                            self.spec_point1(), self.spec_point2(), k), p);
                    assert(0 <= k < n && spec_line_contains(self.spec_start(), spec_line_point(
                        self.spec_point1(), self.spec_point2(), k), p));
                }
                if out@.contains(p) {
                    let k = choose|k: int|
                        0 <= k < n && spec_line_contains(self.spec_start(), spec_line_point(
                            self.spec_point1(), self.spec_point2(), k), p);
                    assert(0 <= k <= md && spec_line_contains(self.spec_start(), spec_line_point(
                        self.spec_point1(), self.spec_point2(), k), p));
                }
            }
        }
        out
    }

    /// Whether the fill passes through the given position.
    pub fn contains(&self, position: Position) -> (r: bool)
        ensures
            r == spec_triangle_contains(*self, position),
    {
        let positions = self.get_positions();
        vec_contains(&positions, position)
    }

    /// How many points the fill holds.
    pub fn get_count(&self) -> (r: usize)
        ensures
            r == spec_triangle_points(*self).len(),
    {
        let positions = self.get_positions();
        proof {
            positions@.unique_seq_to_set();
            assert(positions@.to_set() =~= spec_triangle_points(*self));
        }
        positions.len()
    }

    /// The points of the border, each once, in drawing order.
    pub fn get_border_positions(&self) -> (r: Vec<IVec2>)
        ensures
            r@.no_duplicates(),
            forall|p: IVec2| r@.contains(p) <==> spec_triangle_border_contains(*self, p),
    {
        let mut out: Vec<IVec2> = Vec::new();
        let ghost s0 = out@;
        append_line_points(&mut out, self.start, self.point1);
        let ghost s1 = out@;
        append_line_points(&mut out, self.point1, self.point2);
        let ghost s2 = out@;
        append_line_points(&mut out, self.point2, self.start);
        proof {
            assert forall|p: IVec2|
                out@.contains(p) <==> spec_triangle_border_contains(*self, p) by {
                assert(!s0.contains(p));
                assert(s1.contains(p) <==> spec_line_contains(self.start, self.point1, p));
                assert(s2.contains(p) <==> (s1.contains(p) || spec_line_contains(self.point1,
                    self.point2, p)));
                assert(out@.contains(p) <==> (s2.contains(p) || spec_line_contains(self.point2,
                    self.start, p)));
            }
        }
        out
    }

    /// Whether the border passes through the given position.
    pub fn border_contains(&self, position: Position) -> (r: bool)
        ensures
            r == spec_triangle_border_contains(*self, position),
    {
        let positions = self.get_border_positions();
        vec_contains(&positions, position)
    }

    /// How many points the border holds.
    pub fn get_border_count(&self) -> (r: usize)
        ensures
            r == spec_triangle_border_points(*self).len(),
    {
        let positions = self.get_border_positions();
        proof {
            positions@.unique_seq_to_set();
            assert(positions@.to_set() =~= spec_triangle_border_points(*self));
        }
        positions.len()
    }
}

/// The points of the cursor shape drawn over the player: a small triangle
/// hanging off the given position.
pub fn draw_shape(position: Position) -> (r: Vec<IVec2>)
    requires
        position.x <= i32::MAX - 3,
        position.y <= i32::MAX - 5,
    ensures
        r@.no_duplicates(),
        forall|p: IVec2|
            r@.contains(p) <==> spec_triangle_contains(Triangle::spec_cursor_shape(position), p),
{
    let shape = Triangle::new(position, IVec2 { x: position.x + 3, y: position.y + 5 }, IVec2 {
        x: position.x + 3,
        y: position.y + 2,
    });
    shape.get_positions()
}

impl Triangle {
    /// The cursor triangle drawn at a position.
    pub open spec fn spec_cursor_shape(position: Position) -> Triangle {
        Triangle {
            start: position,
            point1: IVec2 { x: (position.x + 3) as i32, y: (position.y + 5) as i32 },
            point2: IVec2 { x: (position.x + 3) as i32, y: (position.y + 2) as i32 },
        }
    }
}

} // verus!
