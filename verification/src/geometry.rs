//! Axis-aligned rectangles and velocities with integer coordinates.
//!
//! The x axis points right and the y axis points down, so the top edge of a
//! rectangle is its smallest y and the left edge its smallest x. Coordinates
//! are stored in `i32`; the mathematical models use unbounded integers, and
//! every contract of this crate is stated over the models.

use vstd::math::{max, min};
use vstd::prelude::*;

verus! {

/// The mathematical model of a rectangle: corner and size as unbounded integers.
pub struct RectModel {
    pub x: int,
    pub y: int,
    pub w: int,
    pub h: int,
}

impl RectModel {
    /// Both sizes are strictly positive.
    pub open spec fn wf(self) -> bool {
        self.w > 0 && self.h > 0
    }

    pub open spec fn left(self) -> int {
        self.x
    }

    pub open spec fn right(self) -> int {
        self.x + self.w
    }

    pub open spec fn top(self) -> int {
        self.y
    }

    pub open spec fn bottom(self) -> int {
        self.y + self.h
    }

    /// Every field can be stored in an `i32`.
    pub open spec fn fits(self) -> bool {
        &&& i32::MIN <= self.x <= i32::MAX
        &&& i32::MIN <= self.y <= i32::MAX
        &&& i32::MIN <= self.w <= i32::MAX
        &&& i32::MIN <= self.h <= i32::MAX
    }
}

/// The mathematical model of a velocity: displacement per step along each axis.
pub struct VelocityModel {
    pub x: int,
    pub y: int,
}

impl VelocityModel {
    /// Both components can be stored in an `i32`.
    pub open spec fn fits(self) -> bool {
        &&& i32::MIN <= self.x <= i32::MAX
        &&& i32::MIN <= self.y <= i32::MAX
    }
}

/// Width of the strip that the horizontal extents of `a` and `b` share.
/// Zero when they only touch, negative when a gap lies between them.
pub open spec fn overlap_width(a: RectModel, b: RectModel) -> int {
    min(a.right(), b.right()) - max(a.left(), b.left())
}

/// Height of the strip that the vertical extents of `a` and `b` share.
pub open spec fn overlap_height(a: RectModel, b: RectModel) -> int {
    min(a.bottom(), b.bottom()) - max(a.top(), b.top())
}

/// `a` and `b` share a region of positive area. Rectangles that only share
/// an edge or a corner do not overlap.
pub open spec fn overlapping(a: RectModel, b: RectModel) -> bool {
    overlap_width(a, b) > 0 && overlap_height(a, b) > 0
}

/// The region that `a` and `b` share; meaningful when they overlap.
pub open spec fn intersection(a: RectModel, b: RectModel) -> RectModel {
    RectModel {
        x: max(a.left(), b.left()),
        y: max(a.top(), b.top()),
        w: overlap_width(a, b),
        h: overlap_height(a, b),
    }
}

/// `v` held between `lo` and `hi`; meaningful when `lo <= hi`.
pub open spec fn clamped(v: int, lo: int, hi: int) -> int {
    if v < lo {
        lo
    } else if v > hi {
        hi
    } else {
        v
    }
}

/// The quotient of `a` by a positive `b`, rounded toward zero.
pub open spec fn quotient_toward_zero(a: int, b: int) -> int {
    if a >= 0 {
        a / b
    } else {
        -((-a) / b)
    }
}

/// Divides `a` by a positive `b`, rounding toward zero.
pub fn div_toward_zero(a: i64, b: i64) -> (q: i64)
    requires
        b > 0,
        a > i64::MIN,
    ensures
        q == quotient_toward_zero(a as int, b as int),
{
    if a >= 0 {
        a / b
    } else {
        -((-a) / b)
    }
}

/// A rectangle: top-left corner `(x, y)`, width `w` and height `h`.
#[derive(Clone, Copy, Debug, PartialEq, Eq, Structural)]
pub struct Rect {
    pub x: i32,
    pub y: i32,
    pub w: i32,
    pub h: i32,
}

impl View for Rect {
    type V = RectModel;

    open spec fn view(&self) -> RectModel {
        RectModel { x: self.x as int, y: self.y as int, w: self.w as int, h: self.h as int }
    }
}

/// Displacement per step, in the same units as the rectangles.
#[derive(Clone, Copy, Debug, PartialEq, Eq, Structural)]
pub struct Velocity {
    pub x: i32,
    pub y: i32,
}

impl View for Velocity {
    type V = VelocityModel;

    open spec fn view(&self) -> VelocityModel {
        VelocityModel { x: self.x as int, y: self.y as int }
    }
}

impl Velocity {
    /// The velocity of `x` units to the right and `y` units down per step.
    pub fn new(x: i32, y: i32) -> (v: Velocity)
        ensures
            v == (Velocity { x, y }),
    {
        Velocity { x, y }
    }
}

impl Rect {
    /// The rectangle with its top-left corner at `(x, y)`, `w` wide and
    /// `h` high.
    pub fn new(x: i32, y: i32, w: i32, h: i32) -> (r: Rect)
        requires
            w > 0,
            h > 0,
        ensures
            r == (Rect { x, y, w, h }),
            r@.wf(),
    {
        Rect { x, y, w, h }
    }

    /// Whether both sizes are strictly positive.
    pub fn is_wf(&self) -> (ok: bool)
        ensures
            ok == self@.wf(),
    {
        self.w > 0 && self.h > 0
    }

    /// The region shared with `other`, or `None` when the two rectangles
    /// share no region of positive area.
    pub fn intersect(&self, other: &Rect) -> (r: Option<Rect>)
        ensures
            r is Some <==> overlapping(self@, other@),
            r matches Some(i) ==> i@ == intersection(self@, other@) && i@.wf(),
    {
        let left: i64 = if self.x >= other.x { self.x as i64 } else { other.x as i64 };
        let top: i64 = if self.y >= other.y { self.y as i64 } else { other.y as i64 };
        let self_right: i64 = self.x as i64 + self.w as i64;
        let other_right: i64 = other.x as i64 + other.w as i64;
        let self_bottom: i64 = self.y as i64 + self.h as i64;
        let other_bottom: i64 = other.y as i64 + other.h as i64;
        let right: i64 = if self_right <= other_right { self_right } else { other_right };
        let bottom: i64 = if self_bottom <= other_bottom { self_bottom } else { other_bottom };
        let w: i64 = right - left;
        let h: i64 = bottom - top;
        if w <= 0 || h <= 0 {
            None
        } else {
            assert(w <= self.w && h <= self.h);
            Some(Rect { x: left as i32, y: top as i32, w: w as i32, h: h as i32 })
        }
    }

    /// Whether the two rectangles share a region of positive area.
    pub fn overlaps(&self, other: &Rect) -> (hit: bool)
        ensures
            hit == overlapping(self@, other@),
    {
        self.intersect(other).is_some()
    }
}

/// Overlap does not depend on the order of the two rectangles.
pub proof fn lemma_overlap_symmetric(a: RectModel, b: RectModel)
    ensures
        overlap_width(a, b) == overlap_width(b, a),
        overlap_height(a, b) == overlap_height(b, a),
        overlapping(a, b) == overlapping(b, a),
        intersection(a, b) == intersection(b, a),
{
}

/// Only rectangles of positive size overlap anything, and what two
/// rectangles share lies inside both of them.
pub proof fn lemma_overlap_within(a: RectModel, b: RectModel)
    requires
        overlapping(a, b),
    ensures
        a.wf(),
        b.wf(),
        intersection(a, b).wf(),
        a.left() <= intersection(a, b).left(),
        intersection(a, b).right() <= a.right(),
        a.top() <= intersection(a, b).top(),
        intersection(a, b).bottom() <= a.bottom(),
        overlap_width(a, b) <= a.w,
        overlap_height(a, b) <= a.h,
{
}

/// Rectangles that share exactly an edge do not overlap.
pub proof fn lemma_touching_is_not_overlap(a: RectModel, b: RectModel)
    requires
        a.wf(),
        b.wf(),
        a.right() == b.left() || a.left() == b.right() || a.bottom() == b.top() || a.top()
            == b.bottom(),
    ensures
        !overlapping(a, b),
{
}

} // verus!
