//! Triangle meshes in integers: vertices with a position, a normal and
//! texture coordinates, and a list of indices, three to a triangle.

use vstd::prelude::*;
use crate::vec3::Vec3;
use crate::vec3::Vector;

verus! {

/// Texture coordinates. Both are 0 or 1 in every mesh of this library.
#[derive(Clone, Copy, Debug, PartialEq, Eq, Structural)]
pub struct Uv {
    pub u: u32,
    pub v: u32,
}

/// A vertex in mathematical integers.
pub struct VertexView {
    pub position: Vector,
    pub normal: Vector,
    pub u: int,
    pub v: int,
}

/// A vertex of a mesh. The position is in world units; the normal is a unit
/// vector along an axis.
#[derive(Clone, Copy, Debug, PartialEq, Eq, Structural)]
pub struct Vertex {
    pub position: Vec3,
    pub normal: Vec3,
    pub uv: Uv,
}

impl View for Vertex {
    type V = VertexView;

    open spec fn view(&self) -> VertexView {
        VertexView {
            position: self.position@,
            normal: self.normal@,
            u: self.uv.u as int,
            v: self.uv.v as int,
        }
    }
}

/// A triangle list: every three indices name the vertices of one triangle.
#[derive(Debug)]
pub struct MeshData {
    pub vertices: Vec<Vertex>,
    pub indices: Vec<u32>,
}

impl MeshData {
    /// Every index names a vertex of the mesh, and the indices come in
    /// threes.
    pub open spec fn closed(&self) -> bool {
        &&& self.indices@.len() % 3 == 0
        &&& forall|k: int|
            0 <= k < self.indices@.len() ==> (#[trigger] self.indices@[k]) < self.vertices@.len()
    }

    /// Whether every index names a vertex of the mesh, and the indices come
    /// in threes.
    pub fn is_closed(&self) -> (r: bool)
        ensures
            r == self.closed(),
    {
        if self.indices.len() % 3 != 0 {
            return false;
        }
        let mut k: usize = 0;
        while k < self.indices.len()
            invariant
                k <= self.indices@.len(),
                forall|j: int| 0 <= j < k ==> (#[trigger] self.indices@[j]) < self.vertices@.len(),
            decreases self.indices@.len() - k,
        {
            if self.indices[k] as usize >= self.vertices.len() {
                return false;
            }
            k += 1;
        }
        true
    }
}

} // verus!
