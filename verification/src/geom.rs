//! Integer 2D points and axis-aligned rectangles: the play, spawn and safe
//! areas of the shooter prototype, with containment and clamping.

use vstd::prelude::*;

verus! {

use crate::COORD_BOUND;

/// A 2D point with integer coordinates.
#[derive(Clone, Copy, Debug, PartialEq, Eq, Structural)]
pub struct Point {
    pub x: i64,
    pub y: i64,
}

impl Point {
    /// True when both coordinates are within the global coordinate bound.
    pub open spec fn wf(self) -> bool {
        -COORD_BOUND <= self.x <= COORD_BOUND && -COORD_BOUND <= self.y <= COORD_BOUND
    }

    pub fn new(x: i64, y: i64) -> (r: Point)
        ensures
            r.x == x,
            r.y == y,
    {
        Point { x, y }
    }
}

/// An axis-aligned rectangle given by its minimum and maximum corners,
/// both corners inclusive for containment.
#[derive(Clone, Copy, Debug, PartialEq, Eq, Structural)]
pub struct Rect {
    pub min_x: i64,
    pub min_y: i64,
    pub max_x: i64,
    pub max_y: i64,
}

impl Rect {
    /// Corners are ordered and within the global coordinate bound.
    pub open spec fn wf(self) -> bool {
        &&& -COORD_BOUND <= self.min_x <= self.max_x <= COORD_BOUND
        &&& -COORD_BOUND <= self.min_y <= self.max_y <= COORD_BOUND
    }

    /// Containment, inclusive of the edges.
    pub open spec fn spec_contains(self, p: Point) -> bool {
        self.min_x <= p.x <= self.max_x && self.min_y <= p.y <= self.max_y
    }

    pub fn new(min_x: i64, min_y: i64, max_x: i64, max_y: i64) -> (r: Rect)
        requires
            -COORD_BOUND <= min_x <= max_x <= COORD_BOUND,
            -COORD_BOUND <= min_y <= max_y <= COORD_BOUND,
        ensures
            r.wf(),
            r == (Rect { min_x, min_y, max_x, max_y }),
    {
        Rect { min_x, min_y, max_x, max_y }
    }

    /// Whether `p` lies inside the rectangle, edges included.
    pub fn contains(&self, p: Point) -> (r: bool)
        ensures
            r == self.spec_contains(p),
    {
        self.min_x <= p.x && p.x <= self.max_x && self.min_y <= p.y && p.y <= self.max_y
    }

    /// The four corners in the order the spawners read them:
    /// left-top, left-bottom, right-top, right-bottom.
    pub fn corners(&self) -> (r: (Point, Point, Point, Point))
        ensures
            r.0 == (Point { x: self.min_x, y: self.max_y }),
            r.1 == (Point { x: self.min_x, y: self.min_y }),
            r.2 == (Point { x: self.max_x, y: self.max_y }),
            r.3 == (Point { x: self.max_x, y: self.min_y }),
    {
        (
            Point { x: self.min_x, y: self.max_y },
            Point { x: self.min_x, y: self.min_y },
            Point { x: self.max_x, y: self.max_y },
            Point { x: self.max_x, y: self.min_y },
        )
    }
}

/// `v` clamped into `[lo, hi]`.
pub open spec fn spec_clamp(v: int, lo: int, hi: int) -> int {
    if v < lo {
        lo
    } else if v > hi {
        hi
    } else {
        v
    }
}

/// Clamp a coordinate into an inclusive interval.
pub fn clamp_i64(v: i64, lo: i64, hi: i64) -> (r: i64)
    requires
        lo <= hi,
    ensures
        r == spec_clamp(v as int, lo as int, hi as int),
        lo <= r <= hi,
{
    if v < lo {
        lo
    } else if v > hi {
        hi
    } else {
        v
    }
}

/// Keep a point within the play area by clamping each coordinate, the way
/// the player ship is held inside the level bounds after moving.
pub fn clamp_to_rect(p: Point, bounds: &Rect) -> (r: Point)
    requires
        bounds.wf(),
    ensures
        r.x == spec_clamp(p.x as int, bounds.min_x as int, bounds.max_x as int),
        r.y == spec_clamp(p.y as int, bounds.min_y as int, bounds.max_y as int),
        bounds.spec_contains(r),
        bounds.spec_contains(p) ==> r == p,
{
    Point {
        x: clamp_i64(p.x, bounds.min_x, bounds.max_x),
        y: clamp_i64(p.y, bounds.min_y, bounds.max_y),
    }
}

/// A circle collision shape: every collider in the shooter prototype is a
/// circle centred on its entity.
#[derive(Clone, Copy, Debug, PartialEq, Eq, Structural)]
pub struct Circle {
    pub center: Point,
    pub radius: i64,
}

impl Circle {
    pub open spec fn wf(self) -> bool {
        self.center.wf() && 0 <= self.radius <= COORD_BOUND
    }

    pub fn new(center: Point, radius: i64) -> (r: Circle)
        ensures
            r.center == center,
            r.radius == radius,
    {
        Circle { center, radius }
    }
}

/// Two circles overlap when the distance between their centres is strictly
/// below the sum of their radii; circles that merely touch do not overlap,
/// matching a separating-axis test.
pub open spec fn spec_circles_overlap(a: Circle, b: Circle) -> bool {
    let dx = a.center.x - b.center.x;
    let dy = a.center.y - b.center.y;
    let rs = a.radius + b.radius;
    dx * dx + dy * dy < rs * rs
}

/// Exact narrow-phase overlap test on integer circles.
pub fn circles_overlap(a: &Circle, b: &Circle) -> (r: bool)
    requires
        a.wf(),
        b.wf(),
    ensures
        r == spec_circles_overlap(*a, *b),
{
    let dx: i64 = a.center.x - b.center.x;
    let dy: i64 = a.center.y - b.center.y;
    let rs: i64 = a.radius + b.radius;
    proof {
        assert(dx * dx <= 4_000_000_000_000_000_000) by (nonlinear_arith)
            requires -2_000_000_000 <= dx <= 2_000_000_000;
        assert(dy * dy <= 4_000_000_000_000_000_000) by (nonlinear_arith)
            requires -2_000_000_000 <= dy <= 2_000_000_000;
        assert(dx * dx >= 0) by (nonlinear_arith);
        assert(dy * dy >= 0) by (nonlinear_arith);
        assert(rs * rs <= 4_000_000_000_000_000_000) by (nonlinear_arith)
            requires 0 <= rs <= 2_000_000_000;
        assert(rs * rs >= 0) by (nonlinear_arith);
    }
    dx * dx + dy * dy < rs * rs
}

} // verus!
