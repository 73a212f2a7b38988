//! Integer vectors: the vectors that a rig stores (`Vec3`), the wider
//! points that sums of them fit in (`Position`), and what both stand for in
//! contracts (`Vector`).

use vstd::prelude::*;

verus! {

/// A vector of mathematical integers: what `Vec3` and `Position` stand for
/// in contracts.
pub struct Vector {
    pub x: int,
    pub y: int,
    pub z: int,
}

impl Vector {
    pub open spec fn plus(self, other: Vector) -> Vector {
        Vector { x: self.x + other.x, y: self.y + other.y, z: self.z + other.z }
    }

    pub open spec fn minus(self, other: Vector) -> Vector {
        Vector { x: self.x - other.x, y: self.y - other.y, z: self.z - other.z }
    }

    /// Every component multiplied by `factor`.
    pub open spec fn times(self, factor: int) -> Vector {
        Vector { x: self.x * factor, y: self.y * factor, z: self.z * factor }
    }

    pub open spec fn dot(self, other: Vector) -> int {
        self.x * other.x + self.y * other.y + self.z * other.z
    }

    /// The right-handed cross product `self x other`.
    pub open spec fn cross(self, other: Vector) -> Vector {
        Vector {
            x: self.y * other.z - self.z * other.y,
            y: self.z * other.x - self.x * other.z,
            z: self.x * other.y - self.y * other.x,
        }
    }

    pub open spec fn is_zero(self) -> bool {
        self.x == 0 && self.y == 0 && self.z == 0
    }

    /// Every component is at most `bound` in magnitude.
    pub open spec fn within(self, bound: int) -> bool {
        &&& -bound <= self.x <= bound
        &&& -bound <= self.y <= bound
        &&& -bound <= self.z <= bound
    }
}

/// A vector of three 32-bit integers: look-at points, zoom offsets, the up
/// direction and the corners of a bounding box.
#[derive(Clone, Copy, Debug, PartialEq, Eq, Structural)]
pub struct Vec3 {
    pub x: i32,
    pub y: i32,
    pub z: i32,
}

impl View for Vec3 {
    type V = Vector;

    open spec fn view(&self) -> Vector {
        Vector { x: self.x as int, y: self.y as int, z: self.z as int }
    }
}

impl Default for Vec3 {
    /// The zero vector.
    fn default() -> (v: Self)
        ensures
            v == (Vec3 { x: 0, y: 0, z: 0 }),
    {
        Vec3 { x: 0, y: 0, z: 0 }
    }
}

impl Vec3 {
    pub fn new(x: i32, y: i32, z: i32) -> (v: Self)
        ensures
            v == (Vec3 { x, y, z }),
    {
        Vec3 { x, y, z }
    }

    /// Component by component, the smaller of the two.
    pub open spec fn lower(self, other: Vec3) -> Vec3 {
        Vec3 {
            x: if self.x <= other.x { self.x } else { other.x },
            y: if self.y <= other.y { self.y } else { other.y },
            z: if self.z <= other.z { self.z } else { other.z },
        }
    }

    /// Component by component, the larger of the two.
    pub open spec fn upper(self, other: Vec3) -> Vec3 {
        Vec3 {
            x: if self.x >= other.x { self.x } else { other.x },
            y: if self.y >= other.y { self.y } else { other.y },
            z: if self.z >= other.z { self.z } else { other.z },
        }
    }

    /// Every component of `self` is at most that of `other`.
    pub open spec fn le(self, other: Vec3) -> bool {
        self.x <= other.x && self.y <= other.y && self.z <= other.z
    }

    /// Component by component, the smaller of the two.
    pub fn min(self, other: Vec3) -> (v: Vec3)
        ensures
            v == self.lower(other),
    {
        Vec3 {
            x: if self.x <= other.x { self.x } else { other.x },
            y: if self.y <= other.y { self.y } else { other.y },
            z: if self.z <= other.z { self.z } else { other.z },
        }
    }

    /// Component by component, the larger of the two.
    pub fn max(self, other: Vec3) -> (v: Vec3)
        ensures
            v == self.upper(other),
    {
        Vec3 {
            x: if self.x >= other.x { self.x } else { other.x },
            y: if self.y >= other.y { self.y } else { other.y },
            z: if self.z >= other.z { self.z } else { other.z },
        }
    }
}

/// The largest magnitude of a `Position` component that the rig accepts for a
/// camera: any point a rig can place a camera at lies well within it.
pub const POSITION_LIMIT: i64 = 0x2_0000_0000;

/// A point in world space with 64-bit components: where a camera stands.
#[derive(Clone, Copy, Debug, PartialEq, Eq, Structural)]
pub struct Position {
    pub x: i64,
    pub y: i64,
    pub z: i64,
}

impl View for Position {
    type V = Vector;

    open spec fn view(&self) -> Vector {
        Vector { x: self.x as int, y: self.y as int, z: self.z as int }
    }
}

impl Position {
    pub fn new(x: i64, y: i64, z: i64) -> (p: Self)
        ensures
            p == (Position { x, y, z }),
    {
        Position { x, y, z }
    }

    /// Whether every component is within `POSITION_LIMIT` of zero.
    pub fn in_range(&self) -> (r: bool)
        ensures
            r == self@.within(POSITION_LIMIT as int),
    {
        -POSITION_LIMIT <= self.x && self.x <= POSITION_LIMIT && -POSITION_LIMIT <= self.y
            && self.y <= POSITION_LIMIT && -POSITION_LIMIT <= self.z && self.z
            <= POSITION_LIMIT
    }

    /// `point + offset`, which always fits.
    pub fn offset_from(point: Vec3, offset: Vec3) -> (p: Position)
        ensures
            p@ == point@.plus(offset@),
            p@.within(POSITION_LIMIT as int),
    {
        Position {
            x: point.x as i64 + offset.x as i64,
            y: point.y as i64 + offset.y as i64,
            z: point.z as i64 + offset.z as i64,
        }
    }
}

} // verus!
