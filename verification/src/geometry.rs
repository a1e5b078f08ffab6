//! Points and axis-aligned boxes on fixed-point coordinates.

use vstd::prelude::*;
use crate::units::{within_span, SPAN};

verus! {

/// A point, or a displacement, in the plane.
#[derive(Clone, Copy, Debug, PartialEq, Eq, Structural)]
pub struct Point {
    pub x: i64,
    pub y: i64,
}

impl Point {
    /// Whether both coordinates are within the accepted magnitude.
    pub open spec fn bounded(self) -> bool {
        within_span(self.x as int) && within_span(self.y as int)
    }

    pub fn new(x: i64, y: i64) -> (p: Point)
        ensures
            p == (Point { x, y }),
    {
        Point { x, y }
    }

    /// Tests at run time whether both coordinates are within the accepted magnitude.
    pub fn is_bounded(&self) -> (b: bool)
        ensures
            b == self.bounded(),
    {
        -SPAN <= self.x && self.x <= SPAN && -SPAN <= self.y && self.y <= SPAN
    }
}

/// An axis-aligned bounding box, given by its lowest and highest corner.
#[derive(Clone, Copy, Debug, PartialEq, Eq, Structural)]
pub struct Aabb {
    pub min: Point,
    pub max: Point,
}

impl Aabb {
    /// The lowest corner is not above or right of the highest one.
    pub open spec fn wf(self) -> bool {
        self.min.x <= self.max.x && self.min.y <= self.max.y
    }

    /// Both corners are within twice the accepted magnitude.
    pub open spec fn bounded(self) -> bool {
        &&& -2 * SPAN <= self.min.x <= 2 * SPAN
        &&& -2 * SPAN <= self.min.y <= 2 * SPAN
        &&& -2 * SPAN <= self.max.x <= 2 * SPAN
        &&& -2 * SPAN <= self.max.y <= 2 * SPAN
    }

    /// The box with the given center that reaches `half_size` to each side.
    pub open spec fn from_center(center: Point, half_size: Point) -> Aabb {
        Aabb {
            min: Point { x: (center.x - half_size.x) as i64, y: (center.y - half_size.y) as i64 },
            max: Point { x: (center.x + half_size.x) as i64, y: (center.y + half_size.y) as i64 },
        }
    }

    /// Whether `p` is the exact center of the box.
    pub open spec fn centered_at(self, p: Point) -> bool {
        self.min.x + self.max.x == 2 * p.x && self.min.y + self.max.y == 2 * p.y
    }

    /// Width of the box.
    pub open spec fn width(self) -> int {
        self.max.x - self.min.x
    }

    /// Height of the box.
    pub open spec fn height(self) -> int {
        self.max.y - self.min.y
    }

    /// Two boxes intersect when they overlap on both axes; touching edges count.
    pub open spec fn overlaps(self, other: Aabb) -> bool {
        &&& self.min.x <= other.max.x
        &&& self.max.x >= other.min.x
        &&& self.min.y <= other.max.y
        &&& self.max.y >= other.min.y
    }

    /// Builds the box with the given center and half size.
    pub fn new(center: Point, half_size: Point) -> (b: Aabb)
        requires
            half_size.x >= 0,
            half_size.y >= 0,
            i64::MIN <= center.x - half_size.x,
            i64::MIN <= center.y - half_size.y,
            center.x + half_size.x <= i64::MAX,
            center.y + half_size.y <= i64::MAX,
        ensures
            b == Aabb::from_center(center, half_size),
            b.min.x == center.x - half_size.x,
            b.min.y == center.y - half_size.y,
            b.max.x == center.x + half_size.x,
            b.max.y == center.y + half_size.y,
            b.wf(),
            b.centered_at(center),
    {
        Aabb {
            min: Point { x: center.x - half_size.x, y: center.y - half_size.y },
            max: Point { x: center.x + half_size.x, y: center.y + half_size.y },
        }
    }

    /// Whether this box and `other` intersect.
    pub fn intersects(&self, other: &Aabb) -> (b: bool)
        ensures
            b == self.overlaps(*other),
    {
        let x_overlaps = self.min.x <= other.max.x && self.max.x >= other.min.x;
        let y_overlaps = self.min.y <= other.max.y && self.max.y >= other.min.y;
        x_overlaps && y_overlaps
    }

    /// The corners of the box in drawing order, closed: from the lowest
    /// corner counterclockwise and back to it.
    pub fn outline(&self) -> (points: [Point; 5])
        ensures
            points[0] == self.min,
            points[1] == (Point { x: self.max.x, y: self.min.y }),
            points[2] == self.max,
            points[3] == (Point { x: self.min.x, y: self.max.y }),
            points[4] == self.min,
    {
        [
            self.min,
            Point { x: self.max.x, y: self.min.y },
            self.max,
            Point { x: self.min.x, y: self.max.y },
            self.min,
        ]
    }

    /// Tests at run time whether both corners are within twice the accepted magnitude.
    pub fn is_bounded(&self) -> (b: bool)
        ensures
            b == self.bounded(),
    {
        -2 * SPAN <= self.min.x && self.min.x <= 2 * SPAN && -2 * SPAN <= self.min.y
            && self.min.y <= 2 * SPAN && -2 * SPAN <= self.max.x && self.max.x <= 2 * SPAN
            && -2 * SPAN <= self.max.y && self.max.y <= 2 * SPAN
    }
}

/// Intersection is symmetric.
pub proof fn overlaps_is_symmetric(a: Aabb, b: Aabb)
    ensures
        a.overlaps(b) == b.overlaps(a),
{
}

} // verus!
