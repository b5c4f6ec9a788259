//! Integer 2D coordinates on the radar map.

use vstd::prelude::*;

verus! {

/// An exact integer 2D coordinate. The map's y axis grows southward, so
/// moving north decreases `y`.
#[derive(Debug, Clone, Copy, PartialEq, Eq, Structural)]
pub struct Point {
    pub x: i32,
    pub y: i32,
}

impl Point {
    /// The origin.
    pub fn zero() -> (r: Point)
        ensures
            r == (Point { x: 0, y: 0 }),
    {
        Point::new(0, 0)
    }

    pub fn new(x: i32, y: i32) -> (r: Point)
        ensures
            r == (Point { x, y }),
    {
        Point { x, y }
    }

    /// Componentwise vector addition.
    pub fn add(&self, other: &Point) -> (r: Point)
        requires
            i32::MIN <= self.x + other.x <= i32::MAX,
            i32::MIN <= self.y + other.y <= i32::MAX,
        ensures
            r.x == self.x + other.x,
            r.y == self.y + other.y,
    {
        Point::new(self.x + other.x, self.y + other.y)
    }

    /// Componentwise vector subtraction.
    pub fn sub(&self, other: &Point) -> (r: Point)
        requires
            i32::MIN <= self.x - other.x <= i32::MAX,
            i32::MIN <= self.y - other.y <= i32::MAX,
        ensures
            r.x == self.x - other.x,
            r.y == self.y - other.y,
    {
        Point::new(self.x - other.x, self.y - other.y)
    }

    /// Exact equality of both coordinates.
    pub fn equals(&self, other: &Point) -> (r: bool)
        ensures
            r == (self == other),
    {
        self.x == other.x && self.y == other.y
    }
}

} // verus!
