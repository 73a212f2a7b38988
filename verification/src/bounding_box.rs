//! The axis-aligned box that a look-at point is kept in.

use vstd::prelude::*;
use crate::scalar::clamp;
use crate::scalar::clamp_i128;
use crate::vec3::Vec3;
use crate::vec3::Vector;

verus! {

/// An axis-aligned box given by its lowest and highest corner.
#[derive(Clone, Copy, Debug, PartialEq, Eq, Structural)]
pub struct BoundingBox {
    a: Vec3,
    b: Vec3,
}

impl Default for BoundingBox {
    /// The box that holds every `Vec3`.
    fn default() -> (bounds: Self)
        ensures
            bounds.min_corner() == (Vec3 { x: i32::MIN, y: i32::MIN, z: i32::MIN }),
            bounds.max_corner() == (Vec3 { x: i32::MAX, y: i32::MAX, z: i32::MAX }),
            bounds.well_formed(),
    {
        BoundingBox {
            a: Vec3 { x: i32::MIN, y: i32::MIN, z: i32::MIN },
            b: Vec3 { x: i32::MAX, y: i32::MAX, z: i32::MAX },
        }
    }
}

impl BoundingBox {
    /// The lowest corner is nowhere above the highest. Every `BoundingBox`
    /// that a program holds is well formed.
    #[verifier::type_invariant]
    pub closed spec fn well_formed(self) -> bool {
        self.a.le(self.b)
    }

    /// The corner with the lowest coordinates.
    pub closed spec fn min_corner(self) -> Vec3 {
        self.a
    }

    /// The corner with the highest coordinates.
    pub closed spec fn max_corner(self) -> Vec3 {
        self.b
    }

    /// `p` lies in the box, faces included.
    pub open spec fn contains(self, p: Vector) -> bool {
        &&& self.min_corner().x <= p.x <= self.max_corner().x
        &&& self.min_corner().y <= p.y <= self.max_corner().y
        &&& self.min_corner().z <= p.z <= self.max_corner().z
    }

    /// `p` with each coordinate brought into the box, independently of the
    /// other two.
    pub open spec fn clamped(self, p: Vector) -> Vector {
        Vector {
            x: clamp(p.x, self.min_corner().x as int, self.max_corner().x as int),
            y: clamp(p.y, self.min_corner().y as int, self.max_corner().y as int),
            z: clamp(p.z, self.min_corner().z as int, self.max_corner().z as int),
        }
    }

    /// A box is told by its corners.
    pub proof fn lemma_same_corners(self, other: BoundingBox)
        requires
            self.min_corner() == other.min_corner(),
            self.max_corner() == other.max_corner(),
        ensures
            self == other,
    {
    }

    /// In a well-formed box, clamping lands inside the box and leaves the
    /// points of the box where they are.
    pub proof fn lemma_clamped(self, p: Vector)
        requires
            self.well_formed(),
        ensures
            self.contains(self.clamped(p)),
            self.contains(p) ==> self.clamped(p) == p,
            self.clamped(self.clamped(p)) == self.clamped(p),
    {
    }

    /// The box spanned by two opposite corners, given in any order.
    pub fn new(a: Vec3, b: Vec3) -> (bounds: Self)
        ensures
            bounds.min_corner() == a.lower(b),
            bounds.max_corner() == a.upper(b),
            bounds.well_formed(),
    {
        BoundingBox { a: a.min(b), b: a.max(b) }
    }

    /// The lowest corner.
    pub fn min(&self) -> (v: Vec3)
        ensures
            v == self.min_corner(),
    {
        self.a
    }

    /// The highest corner.
    pub fn max(&self) -> (v: Vec3)
        ensures
            v == self.max_corner(),
    {
        self.b
    }

    /// The point of the box nearest to `position`: each coordinate is
    /// clamped on its own axis.
    pub fn clamp(&self, position: Vec3) -> (v: Vec3)
        ensures
            v@ == self.clamped(position@),
            self.contains(v@),
    {
        self.clamp_wide(position.x as i128, position.y as i128, position.z as i128)
    }

    /// As `clamp`, for a point whose coordinates may lie far outside the
    /// range of a `Vec3`.
    pub fn clamp_wide(&self, x: i128, y: i128, z: i128) -> (v: Vec3)
        ensures
            v@ == self.clamped(Vector { x: x as int, y: y as int, z: z as int }),
            self.contains(v@),
    {
        proof {
            use_type_invariant(self);
        }
        Vec3 {
            x: clamp_i128(x, self.a.x as i128, self.b.x as i128) as i32,
            y: clamp_i128(y, self.a.y as i128, self.b.y as i128) as i32,
            z: clamp_i128(z, self.a.z as i128, self.b.z as i128) as i32,
        }
    }
}

} // verus!
