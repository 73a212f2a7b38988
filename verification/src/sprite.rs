//! Sprite meshes: a rectangle in the xy plane with a front and a back, lit
//! from either side or, as a sheet of paper, from above.

use vstd::prelude::*;
use crate::grid::half;
use crate::mesh::MeshData;
use crate::mesh::Uv;
use crate::mesh::Vertex;
use crate::mesh::VertexView;
use crate::scalar::lemma_div_toward_zero_bound;
use crate::scalar::quotient;
use crate::vec3::Vec3;
use crate::vec3::Vector;

verus! {

/// A vector of two 32-bit integers.
#[derive(Clone, Copy, Debug, PartialEq, Eq, Structural)]
pub struct Vec2 {
    pub x: i32,
    pub y: i32,
}

impl Vec2 {
    pub fn new(x: i32, y: i32) -> (v: Self)
        ensures
            v == (Vec2 { x, y }),
    {
        Vec2 { x, y }
    }
}

/// The indices of a sprite: two triangles for the front, which faces +z, and
/// two for the back.
pub open spec fn quad_indices() -> Seq<u32> {
    seq![0u32, 2u32, 1u32, 0u32, 3u32, 2u32, 6u32, 4u32, 5u32, 7u32, 4u32, 6u32]
}

/// Vertex `i` (0 to 7) of a sprite of the given size: the four corners of
/// the front, counterclockwise from the lower left, then those of the back.
/// The image is mirrored where `flip` is set. `front` and `back` are the
/// normals of the two sides.
pub open spec fn quad_vertex(size: Vec2, flip: bool, front: Vector, back: Vector, i: int)
    -> VertexView {
    let extent_x = half(size.x as int);
    let extent_y = half(size.y as int);
    let corner = i % 4;
    let left: int = if flip {
        1
    } else {
        0
    };
    VertexView {
        position: Vector {
            x: if corner == 0 || corner == 1 {
                -extent_x
            } else {
                extent_x
            },
            y: if corner == 0 || corner == 3 {
                -extent_y
            } else {
                extent_y
            },
            z: 0,
        },
        normal: if i < 4 {
            front
        } else {
            back
        },
        u: if corner == 0 || corner == 1 {
            left
        } else {
            1 - left
        },
        v: if corner == 0 || corner == 3 {
            1
        } else {
            0
        },
    }
}

/// Whether `mesh` is the mesh of a sprite.
pub open spec fn is_quad_mesh(
    mesh: &MeshData,
    size: Vec2,
    flip: bool,
    front: Vector,
    back: Vector,
) -> bool {
    &&& mesh.vertices@.len() == 8
    &&& forall|i: int|
        0 <= i < 8 ==> (#[trigger] mesh.vertices@[i])@ == quad_vertex(size, flip, front, back, i)
    &&& mesh.indices@ == quad_indices()
}

/// The mesh of a sprite.
fn quad_mesh(size: Vec2, flip: bool, front: Vec3, back: Vec3) -> (mesh: MeshData)
    ensures
        is_quad_mesh(&mesh, size, flip, front@, back@),
        mesh.closed(),
{
    proof {
        lemma_div_toward_zero_bound(size.x as int, 2, 0x4000_0000);
        lemma_div_toward_zero_bound(size.y as int, 2, 0x4000_0000);
    }
    let extent_x: i32 = quotient(size.x as i128, 2) as i32;
    let extent_y: i32 = quotient(size.y as i128, 2) as i32;
    let (u_left, u_right): (u32, u32) = if flip {
        (1, 0)
    } else {
        (0, 1)
    };
    let mut vertices: Vec<Vertex> = Vec::new();
    let mut side: u32 = 0;
    while side < 2
        invariant
            side <= 2,
            vertices@.len() == 4 * side,
            extent_x == half(size.x as int),
            extent_y == half(size.y as int),
            -0x4000_0000 <= extent_x <= 0x4000_0000,
            -0x4000_0000 <= extent_y <= 0x4000_0000,
            u_left == (if flip {
                1u32
            } else {
                0u32
            }),
            u_right == 1 - u_left,
            forall|i: int|
                0 <= i < 4 * side ==> (#[trigger] vertices@[i])@ == quad_vertex(
                    size,
                    flip,
                    front@,
                    back@,
                    i,
                ),
        decreases 2 - side,
    {
        let normal: Vec3 = if side == 0 {
            front
        } else {
            back
        };
        vertices.push(
            Vertex {
                position: Vec3 { x: -extent_x, y: -extent_y, z: 0 },
                normal,
                uv: Uv { u: u_left, v: 1 },
            },
        );
        vertices.push(
            Vertex {
                position: Vec3 { x: -extent_x, y: extent_y, z: 0 },
                normal,
                uv: Uv { u: u_left, v: 0 },
            },
        );
        vertices.push(
            Vertex {
                position: Vec3 { x: extent_x, y: extent_y, z: 0 },
                normal,
                uv: Uv { u: u_right, v: 0 },
            },
        );
        vertices.push(
            Vertex {
                position: Vec3 { x: extent_x, y: -extent_y, z: 0 },
                normal,
                uv: Uv { u: u_right, v: 1 },
            },
        );
        side += 1;
    }
    let mut indices: Vec<u32> = Vec::new();
    indices.push(0);
    indices.push(2);
    indices.push(1);
    indices.push(0);
    indices.push(3);
    indices.push(2);
    indices.push(6);
    indices.push(4);
    indices.push(5);
    indices.push(7);
    indices.push(4);
    indices.push(6);
    assert(indices@ =~= quad_indices());
    MeshData { vertices, indices }
}

/// A rectangular sprite that stands upright in the xy plane, centred on the
/// origin.
#[derive(Clone, Copy, Debug, PartialEq, Eq, Structural)]
pub struct QuadSprite {
    size: Vec2,
    flip: bool,
}

impl QuadSprite {
    /// Width and height, in world units.
    pub closed spec fn size(self) -> Vec2 {
        self.size
    }

    /// Whether the image is mirrored.
    pub closed spec fn is_flipped(self) -> bool {
        self.flip
    }

    /// A sprite of the given size, not mirrored.
    pub fn new(size: Vec2) -> (sprite: Self)
        ensures
            sprite.size() == size,
            !sprite.is_flipped(),
    {
        Self { size, flip: false }
    }

    /// The sprite, mirrored. Mirroring it again leaves it mirrored.
    pub fn flipped(self) -> (sprite: Self)
        ensures
            sprite.size() == self.size(),
            sprite.is_flipped(),
    {
        Self { size: self.size, flip: true }
    }

    /// The mesh of the sprite. The front is lit from +z, the back from -z.
    pub fn mesh(&self) -> (mesh: MeshData)
        ensures
            is_quad_mesh(
                &mesh,
                self.size(),
                self.is_flipped(),
                Vector { x: 0, y: 0, z: 1 },
                Vector { x: 0, y: 0, z: -1 },
            ),
            mesh.closed(),
    {
        quad_mesh(self.size, self.flip, Vec3 { x: 0, y: 0, z: 1 }, Vec3 { x: 0, y: 0, z: -1 })
    }
}

/// A sprite that takes the light as the ground does: both of its sides are
/// lit from above.
#[derive(Clone, Copy, Debug, PartialEq, Eq, Structural)]
pub struct PaperSprite(pub QuadSprite);

impl PaperSprite {
    /// The mesh of the sprite. Every normal points up.
    pub fn mesh(&self) -> (mesh: MeshData)
        ensures
            is_quad_mesh(
                &mesh,
                self.0.size(),
                self.0.is_flipped(),
                Vector { x: 0, y: 1, z: 0 },
                Vector { x: 0, y: 1, z: 0 },
            ),
            mesh.closed(),
    {
        let quad = self.0;
        quad_mesh(quad.size, quad.flip, Vec3 { x: 0, y: 1, z: 0 }, Vec3 { x: 0, y: 1, z: 0 })
    }
}

} // verus!
