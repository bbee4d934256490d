//! Points, vectors and sizes on an integer pixel grid.

use vstd::prelude::*;

verus! {

/// A position in a two-dimensional coordinate space.
#[derive(Clone, Copy, Debug, PartialEq, Eq, Structural)]
pub struct Point {
    pub x: i32,
    pub y: i32,
}

/// A displacement between two points.
#[derive(Clone, Copy, Debug, PartialEq, Eq, Structural)]
pub struct Vector {
    pub x: i32,
    pub y: i32,
}

/// An amount of space in two dimensions. Nothing here asks that the two
/// extents be positive: whoever computes a layout decides what a negative
/// extent means.
#[derive(Clone, Copy, Debug, PartialEq, Eq, Structural)]
pub struct Size {
    pub width: i32,
    pub height: i32,
}

impl Point {
    /// The point with the given coordinates.
    pub fn new(x: i32, y: i32) -> (point: Point)
        ensures
            point.x == x,
            point.y == y,
    {
        Point { x, y }
    }

    /// Whether the point that lies `translation` away from this one has
    /// coordinates that fit in an `i32`.
    pub open spec fn reaches(self, translation: Vector) -> bool {
        &&& i32::MIN <= self.x + translation.x <= i32::MAX
        &&& i32::MIN <= self.y + translation.y <= i32::MAX
    }

    /// The point that lies `translation` away from this one. It is the
    /// coordinate-wise sum wherever [`Point::reaches`] holds.
    pub open spec fn moved_by(self, translation: Vector) -> Point {
        Point { x: (self.x + translation.x) as i32, y: (self.y + translation.y) as i32 }
    }
}

impl Vector {
    /// The vector with the given components.
    pub fn new(x: i32, y: i32) -> (vector: Vector)
        ensures
            vector.x == x,
            vector.y == y,
    {
        Vector { x, y }
    }

    /// Whether the component-wise sum of the two vectors fits in `i32`s.
    pub open spec fn adds_to(self, other: Vector) -> bool {
        &&& i32::MIN <= self.x + other.x <= i32::MAX
        &&& i32::MIN <= self.y + other.y <= i32::MAX
    }

    /// The component-wise sum of the two vectors, wherever
    /// [`Vector::adds_to`] holds.
    pub open spec fn plus(self, other: Vector) -> Vector {
        Vector { x: (self.x + other.x) as i32, y: (self.y + other.y) as i32 }
    }
}

impl Size {
    /// The size with the given extents.
    pub fn new(width: i32, height: i32) -> (size: Size)
        ensures
            size.width == width,
            size.height == height,
    {
        Size { width, height }
    }
}

impl core::ops::Add<Vector> for Point {
    type Output = Point;

    /// Moves the point by `translation`.
    fn add(self, translation: Vector) -> (moved: Point) {
        Point { x: self.x + translation.x, y: self.y + translation.y }
    }
}

impl vstd::std_specs::ops::AddSpecImpl<Vector> for Point {
    open spec fn obeys_add_spec() -> bool {
        true
    }

    open spec fn add_req(self, translation: Vector) -> bool {
        self.reaches(translation)
    }

    open spec fn add_spec(self, translation: Vector) -> Point {
        self.moved_by(translation)
    }
}

impl core::ops::Add<Vector> for Vector {
    type Output = Vector;

    /// Adds the two vectors component by component.
    fn add(self, other: Vector) -> (sum: Vector) {
        Vector { x: self.x + other.x, y: self.y + other.y }
    }
}

impl vstd::std_specs::ops::AddSpecImpl<Vector> for Vector {
    open spec fn obeys_add_spec() -> bool {
        true
    }

    open spec fn add_req(self, other: Vector) -> bool {
        self.adds_to(other)
    }

    open spec fn add_spec(self, other: Vector) -> Vector {
        self.plus(other)
    }
}

/// Moving a point by one vector and then by another leaves it where moving
/// it once by their sum does, as long as every sum on the way fits.
pub proof fn lemma_moves_compose(start: Point, first: Vector, second: Vector)
    requires
        start.reaches(first),
        start.moved_by(first).reaches(second),
        first.adds_to(second),
    ensures
        start.reaches(first.plus(second)),
        start.moved_by(first).moved_by(second) == start.moved_by(first.plus(second)),
{
}

} // verus!
