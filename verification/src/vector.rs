//! Three-component fixed-point vectors and their mathematical counterpart.

use vstd::prelude::*;

verus! {

/// A point of three-dimensional space with unbounded integer coordinates, in
/// the unit of the vector it is the view of: thousandths of a world unit for
/// a [`Vec3`], parts of a thousandth for a [`FineVec3`].
pub struct Point {
    /// Lateral coordinate.
    pub x: int,
    /// Vertical coordinate.
    pub y: int,
    /// Forward coordinate.
    pub z: int,
}

impl Point {
    /// Component-wise difference `self - other`.
    pub open spec fn minus(self, other: Point) -> Point {
        Point { x: self.x - other.x, y: self.y - other.y, z: self.z - other.z }
    }

    /// The square of the Euclidean distance between two points.
    pub open spec fn distance_squared(self, other: Point) -> int {
        (self.x - other.x) * (self.x - other.x) + (self.y - other.y) * (self.y - other.y) + (
        self.z - other.z) * (self.z - other.z)
    }

    /// Every coordinate multiplied by `k`.
    pub open spec fn scaled(self, k: int) -> Point {
        Point { x: self.x * k, y: self.y * k, z: self.z * k }
    }

    /// Whether every coordinate fits a double machine word.
    pub open spec fn representable_wide(self) -> bool {
        &&& i128::MIN <= self.x <= i128::MAX
        &&& i128::MIN <= self.y <= i128::MAX
        &&& i128::MIN <= self.z <= i128::MAX
    }

    /// Whether every coordinate fits a machine word.
    pub open spec fn representable(self) -> bool {
        &&& i64::MIN <= self.x <= i64::MAX
        &&& i64::MIN <= self.y <= i64::MAX
        &&& i64::MIN <= self.z <= i64::MAX
    }
}

/// A point or a direction; each component counts thousandths of a world unit.
#[derive(Clone, Copy, Debug, PartialEq, Eq, Structural)]
pub struct Vec3 {
    /// Lateral component.
    pub x: i64,
    /// Vertical component.
    pub y: i64,
    /// Forward component.
    pub z: i64,
}

impl View for Vec3 {
    type V = Point;

    open spec fn view(&self) -> Point {
        Point { x: self.x as int, y: self.y as int, z: self.z as int }
    }
}

/// A point or a direction at fine resolution: each component counts parts of
/// a thousandth of a world unit, a thousand million parts to the thousandth.
#[derive(Clone, Copy, Debug, PartialEq, Eq, Structural)]
pub struct FineVec3 {
    /// Lateral component.
    pub x: i128,
    /// Vertical component.
    pub y: i128,
    /// Forward component.
    pub z: i128,
}

impl View for FineVec3 {
    type V = Point;

    open spec fn view(&self) -> Point {
        Point { x: self.x as int, y: self.y as int, z: self.z as int }
    }
}

impl Vec3 {
    /// The vector with the given components.
    pub fn new(x: i64, y: i64, z: i64) -> (v: Vec3)
        ensures
            v == (Vec3 { x, y, z }),
    {
        Vec3 { x, y, z }
    }

    /// The origin.
    pub fn zero() -> (v: Vec3)
        ensures
            v == (Vec3 { x: 0, y: 0, z: 0 }),
    {
        Vec3 { x: 0, y: 0, z: 0 }
    }
}

} // verus!
