//! Points, rectangles, circles and segments over [`Scalar`] coordinates.
use vstd::prelude::*;

use crate::scalar::Scalar;

verus! {

/// A point; `y` grows downward.
#[derive(Clone, Copy, Debug, PartialEq, Eq, Structural)]
pub struct Point {
    pub x: Scalar,
    pub y: Scalar,
}

impl Point {
    pub fn new(x: Scalar, y: Scalar) -> (r: Point)
        ensures
            r.x == x,
            r.y == y,
    {
        Point { x, y }
    }

    /// The origin, `(0.0, 0.0)`.
    pub fn zero() -> (r: Point)
        ensures
            r == Point::spec_zero(),
    {
        Point { x: Scalar::zero(), y: Scalar::zero() }
    }

    pub open spec fn spec_zero() -> Point {
        Point { x: Scalar { bits: 0 }, y: Scalar { bits: 0 } }
    }

    /// Neither coordinate is NaN.
    pub open spec fn is_number(self) -> bool {
        !self.x.is_nan() && !self.y.is_nan()
    }
}

/// An axis-aligned rectangle by its four edges; `top` is the smaller `y`.
#[derive(Clone, Copy, Debug, PartialEq, Eq, Structural)]
pub struct Rect {
    pub top: Scalar,
    pub right: Scalar,
    pub bottom: Scalar,
    pub left: Scalar,
}

/// The smallest rectangle that holds the two points.
pub open spec fn spec_rect_from_points(a: Point, b: Point) -> Rect {
    Rect {
        top: a.y.spec_min(b.y),
        right: a.x.spec_max(b.x),
        bottom: a.y.spec_max(b.y),
        left: a.x.spec_min(b.x),
    }
}

/// The smallest rectangle that holds `r` and `p`.
pub open spec fn spec_grow_to(r: Rect, p: Point) -> Rect {
    Rect {
        top: r.top.spec_min(p.y),
        right: r.right.spec_max(p.x),
        bottom: r.bottom.spec_max(p.y),
        left: r.left.spec_min(p.x),
    }
}

impl Rect {
    /// The rectangle with all four edges at `0.0`.
    pub fn zero() -> (r: Rect)
        ensures
            r.top.bits == 0,
            r.right.bits == 0,
            r.bottom.bits == 0,
            r.left.bits == 0,
    {
        Rect { top: Scalar::zero(), right: Scalar::zero(), bottom: Scalar::zero(), left: Scalar::zero() }
    }

    pub fn from_top_right_bottom_left(top: Scalar, right: Scalar, bottom: Scalar, left: Scalar) -> (r: Rect)
        ensures
            r == (Rect { top, right, bottom, left }),
    {
        Rect { top, right, bottom, left }
    }

    /// The smallest rectangle that holds both points.
    pub fn from_points(a: Point, b: Point) -> (r: Rect)
        ensures
            r == spec_rect_from_points(a, b),
    {
        Rect { top: a.y.min(b.y), right: a.x.max(b.x), bottom: a.y.max(b.y), left: a.x.min(b.x) }
    }

    /// The smallest rectangle that holds `self` and `point`.
    pub fn grow_to(&self, point: Point) -> (r: Rect)
        ensures
            r == spec_grow_to(*self, point),
    {
        Rect {
            top: self.top.min(point.y),
            right: self.right.max(point.x),
            bottom: self.bottom.max(point.y),
            left: self.left.min(point.x),
        }
    }

    /// The point lies inside or on the edge, by float order.
    pub open spec fn holds(self, p: Point) -> bool {
        &&& self.left.key() <= p.x.key() <= self.right.key()
        &&& self.top.key() <= p.y.key() <= self.bottom.key()
    }

    pub fn top_left(&self) -> (r: Point)
        ensures
            r.x == self.left,
            r.y == self.top,
    {
        Point { x: self.left, y: self.top }
    }

    pub fn bottom_right(&self) -> (r: Point)
        ensures
            r.x == self.right,
            r.y == self.bottom,
    {
        Point { x: self.right, y: self.bottom }
    }
}

/// A circle by its center and radius.
#[derive(Clone, Copy, Debug, PartialEq, Eq, Structural)]
pub struct Circle {
    pub center: Point,
    pub radius: Scalar,
}

impl Circle {
    pub fn new(center: Point, radius: Scalar) -> (r: Circle)
        ensures
            r.center == center,
            r.radius == radius,
    {
        Circle { center, radius }
    }

    /// A circle around the origin.
    pub fn from_radius(radius: Scalar) -> (r: Circle)
        ensures
            r.center.x.bits == 0,
            r.center.y.bits == 0,
            r.radius == radius,
    {
        Circle { center: Point::zero(), radius }
    }

    /// The circle of radius `1.0` around the origin.
    pub fn unit() -> (r: Circle)
        ensures
            r.center.x.bits == 0,
            r.center.y.bits == 0,
            r.radius.bits == crate::scalar::ONE_BITS,
    {
        Circle::from_radius(Scalar::one())
    }
}

/// A straight segment between two points.
#[derive(Clone, Copy, Debug, PartialEq, Eq, Structural)]
pub struct LineSegment {
    pub from: Point,
    pub to: Point,
}

impl LineSegment {
    pub fn new(from: Point, to: Point) -> (r: LineSegment)
        ensures
            r.from == from,
            r.to == to,
    {
        LineSegment { from, to }
    }
}

} // verus!
