use vstd::prelude::*;

verus! {

/// A point in arena coordinates.
#[derive(Clone, Copy, PartialEq, Eq, Structural, Debug)]
pub struct Point {
    pub x: i64,
    pub y: i64,
}

/// A velocity, in arena units per second along each axis.
#[derive(Clone, Copy, PartialEq, Eq, Structural, Debug)]
pub struct Velocity {
    pub x: i64,
    pub y: i64,
}

/// An axis-aligned rectangle given by its two corners.
#[derive(Clone, Copy, PartialEq, Eq, Structural, Debug)]
pub struct Bounds {
    pub min: Point,
    pub max: Point,
}

impl Point {
    pub fn new(x: i64, y: i64) -> (r: Point)
        ensures
            r.x == x,
            r.y == y,
    {
        Point { x, y }
    }
}

impl Velocity {
    pub fn new(x: i64, y: i64) -> (r: Velocity)
        ensures
            r.x == x,
            r.y == y,
    {
        Velocity { x, y }
    }
}

impl Bounds {
    /// The rectangle is not empty on either axis.
    pub open spec fn wf(self) -> bool {
        self.min.x < self.max.x && self.min.y < self.max.y
    }

    pub fn from_min_max(min: Point, max: Point) -> (r: Bounds)
        ensures
            r.min == min,
            r.max == max,
    {
        Bounds { min, max }
    }

    /// A circle of radius `radius` around `center` lies inside the rectangle
    /// (touching a wall counts as inside).
    pub open spec fn holds_circle(self, center: Point, radius: int) -> bool {
        &&& self.min.x + radius <= center.x <= self.max.x - radius
        &&& self.min.y + radius <= center.y <= self.max.y - radius
    }
}

} // verus!
