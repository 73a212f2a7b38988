//! Grid meshes: a plane and a box whose faces are cut into rows and
//! columns of quads, so that a grid material can draw one cell on each.

use vstd::prelude::*;
use crate::mesh::MeshData;
use crate::mesh::Uv;
use crate::mesh::Vertex;
use crate::mesh::VertexView;
use crate::scalar::div_toward_zero;
use crate::scalar::lemma_div_toward_zero_bound;
use crate::scalar::quotient;
use crate::vec3::Vec3;
use crate::vec3::Vector;

verus! {

/// A vector of three unsigned 32-bit integers.
#[derive(Clone, Copy, Debug, PartialEq, Eq, Structural)]
pub struct UVec3 {
    pub x: u32,
    pub y: u32,
    pub z: u32,
}

impl UVec3 {
    pub fn new(x: u32, y: u32, z: u32) -> (v: Self)
        ensures
            v == (UVec3 { x, y, z }),
    {
        UVec3 { x, y, z }
    }
}

/// The six faces of a box, in the order in which a `GridBox` lays them out.
/// The front face looks along +y, the top face along +z, the right face
/// along +x; back, bottom and left look the other way.
#[derive(Clone, Copy, Debug, PartialEq, Eq, Structural)]
pub enum Face {
    Front,
    Back,
    Top,
    Bottom,
    Right,
    Left,
}

/// Half of `size`, rounded toward zero: how far a face lies from the centre.
pub open spec fn half(size: int) -> int {
    div_toward_zero(size, 2)
}

/// The coordinate of lattice point `i` of `steps + 1` points spread evenly
/// over `size` and centred on zero, rounded toward zero.
pub open spec fn spread(i: int, steps: int, size: int) -> int {
    div_toward_zero(size * (2 * i - steps), 2 * steps)
}

/// Where the corner `k` (0 to 5) of a quad's two triangles lies, counted in
/// vertices from the quad's first vertex. `step` is the distance to the
/// vertex one row further. The order of the corners decides which way each
/// triangle faces.
pub open spec fn corner_offset(face: Face, k: int, step: int) -> int {
    match face {
        Face::Front => if k == 0 {
            step + 1
        } else if k == 1 {
            1
        } else if k == 2 {
            step
        } else if k == 3 {
            0
        } else if k == 4 {
            step
        } else {
            1
        },
        Face::Back | Face::Top => if k == 0 {
            1
        } else if k == 1 {
            step + 1
        } else if k == 2 {
            step
        } else if k == 3 {
            step
        } else if k == 4 {
            0
        } else {
            1
        },
        Face::Bottom | Face::Right => if k == 0 {
            step + 1
        } else if k == 1 {
            1
        } else if k == 2 {
            step
        } else if k == 3 {
            step
        } else if k == 4 {
            1
        } else {
            0
        },
        Face::Left => if k == 0 {
            1
        } else if k == 1 {
            step + 1
        } else if k == 2 {
            step
        } else if k == 3 {
            1
        } else if k == 4 {
            step
        } else {
            0
        },
    }
}

/// A box with a grid on each face. Every face has a vertex on each crossing
/// of its grid, so that every cell of the grid is a quad of its own.
#[derive(Clone, Copy, Debug, PartialEq, Eq, Structural)]
pub struct GridBox {
    /// The extent of the box along each axis, in world units.
    pub size: Vec3,
    /// How many grid lines cut the box along each axis, between its faces.
    pub subdivisions: UVec3,
}

impl GridBox {
    /// Vertices along x: two for the faces and one for each subdivision.
    pub open spec fn x_count(self) -> int {
        self.subdivisions.x + 2
    }

    /// Vertices along y.
    pub open spec fn y_count(self) -> int {
        self.subdivisions.y + 2
    }

    /// Vertices along z.
    pub open spec fn z_count(self) -> int {
        self.subdivisions.z + 2
    }

    /// Rows of vertices on a face.
    pub open spec fn rows(self, face: Face) -> int {
        match face {
            Face::Front | Face::Back => self.z_count(),
            _ => self.y_count(),
        }
    }

    /// Vertices in each row of a face.
    pub open spec fn columns(self, face: Face) -> int {
        match face {
            Face::Right | Face::Left => self.z_count(),
            _ => self.x_count(),
        }
    }

    /// Vertices on a face.
    pub open spec fn face_vertices(self, face: Face) -> int {
        self.rows(face) * self.columns(face)
    }

    /// Quads on a face.
    pub open spec fn face_quads(self, face: Face) -> int {
        (self.rows(face) - 1) * (self.columns(face) - 1)
    }

    /// The place of a face's first vertex among the vertices of the mesh.
    pub open spec fn first_vertex(self, face: Face) -> int {
        let front = self.face_vertices(Face::Front);
        let top = self.face_vertices(Face::Top);
        let right = self.face_vertices(Face::Right);
        match face {
            Face::Front => 0,
            Face::Back => front,
            Face::Top => 2 * front,
            Face::Bottom => 2 * front + top,
            Face::Right => 2 * front + 2 * top,
            Face::Left => 2 * front + 2 * top + right,
        }
    }

    /// The place of a face's first index among the indices of the mesh.
    pub open spec fn first_index(self, face: Face) -> int {
        let front = 6 * self.face_quads(Face::Front);
        let top = 6 * self.face_quads(Face::Top);
        let right = 6 * self.face_quads(Face::Right);
        match face {
            Face::Front => 0,
            Face::Back => front,
            Face::Top => 2 * front,
            Face::Bottom => 2 * front + top,
            Face::Right => 2 * front + 2 * top,
            Face::Left => 2 * front + 2 * top + right,
        }
    }

    /// Vertices of the whole mesh.
    pub open spec fn vertex_count(self) -> int {
        2 * self.face_vertices(Face::Front) + 2 * self.face_vertices(Face::Top) + 2
            * self.face_vertices(Face::Right)
    }

    /// Indices of the whole mesh: six for each quad.
    pub open spec fn index_count(self) -> int {
        12 * self.face_quads(Face::Front) + 12 * self.face_quads(Face::Top) + 12 * self.face_quads(
            Face::Right,
        )
    }

    /// The vertex at `row` and `column` of a face. Its position is spread
    /// over the face, its normal looks out of the face, and its texture
    /// coordinates alternate between 0 and 1 from one grid line to the next.
    pub open spec fn vertex(self, face: Face, row: int, column: int) -> VertexView {
        let across_x = spread(column, self.x_count() - 1, self.size.x as int);
        let across_z = spread(column, self.z_count() - 1, self.size.z as int);
        let down_y = spread(row, self.y_count() - 1, self.size.y as int);
        let down_z = spread(row, self.z_count() - 1, self.size.z as int);
        let (position, normal) = match face {
            Face::Front => (
                Vector { x: across_x, y: half(self.size.y as int), z: down_z },
                Vector { x: 0, y: 1, z: 0 },
            ),
            Face::Back => (
                Vector { x: across_x, y: -half(self.size.y as int), z: down_z },
                Vector { x: 0, y: -1, z: 0 },
            ),
            Face::Top => (
                Vector { x: across_x, y: down_y, z: half(self.size.z as int) },
                Vector { x: 0, y: 0, z: 1 },
            ),
            Face::Bottom => (
                Vector { x: across_x, y: down_y, z: -half(self.size.z as int) },
                Vector { x: 0, y: 0, z: -1 },
            ),
            Face::Right => (
                Vector { x: half(self.size.x as int), y: down_y, z: across_z },
                Vector { x: 1, y: 0, z: 0 },
            ),
            Face::Left => (
                Vector { x: -half(self.size.x as int), y: down_y, z: across_z },
                Vector { x: -1, y: 0, z: 0 },
            ),
        };
        VertexView { position, normal, u: column % 2, v: row % 2 }
    }

    /// The place among the vertices of the mesh of the vertex at `row` and
    /// `column` of a face.
    pub open spec fn vertex_slot(self, face: Face, row: int, column: int) -> int {
        self.first_vertex(face) + row * self.columns(face) + column
    }

    /// The index at corner `k` of the quad at `row` and `column` of a face.
    /// The quad's first vertex is found with the vertex count along x as
    /// the length of a row, on every face.
    pub open spec fn corner(self, face: Face, row: int, column: int, k: int) -> int {
        self.first_vertex(face) + row * self.x_count() + column + corner_offset(
            face,
            k,
            self.columns(face),
        )
    }

    /// The place among the indices of the mesh of corner `k` of the quad at
    /// `row` and `column` of a face.
    pub open spec fn index_slot(self, face: Face, row: int, column: int, k: int) -> int {
        self.first_index(face) + 6 * (row * (self.columns(face) - 1) + column) + k
    }

    /// The largest index that the quads of a face name.
    pub open spec fn last_index(self, face: Face) -> int {
        self.first_vertex(face) + (self.rows(face) - 2) * self.x_count() + 2 * self.columns(face)
            - 1
    }

    /// Whether a face can be told in 32-bit indices.
    pub open spec fn face_fits(self, face: Face) -> bool {
        &&& self.first_vertex(face) + self.face_vertices(face) <= u32::MAX
        &&& self.last_index(face) <= u32::MAX
    }

    /// Whether the mesh can be told in 32-bit indices: it has no more
    /// vertices, and names no larger index, than a `u32` holds.
    pub open spec fn fits(self) -> bool {
        self.vertex_count() <= u32::MAX && self.last_index(Face::Left) <= u32::MAX
    }

    /// Whether the vertices and indices of a face stand where the face
    /// belongs in the mesh: its vertices row by row from its first vertex,
    /// its quads row by row from its first index, six indices to a quad.
    pub open spec fn lays_out(self, vertices: Seq<Vertex>, indices: Seq<u32>, face: Face) -> bool {
        &&& forall|row: int, column: int|
            0 <= row < self.rows(face) && 0 <= column < self.columns(face)
                ==> vertices[#[trigger] self.vertex_slot(face, row, column)]@ == self.vertex(
                face,
                row,
                column,
            )
        &&& forall|row: int, column: int, k: int|
            0 <= row < self.rows(face) - 1 && 0 <= column < self.columns(face) - 1 && 0 <= k < 6
                ==> indices[#[trigger] self.index_slot(face, row, column, k)] == self.corner(
                face,
                row,
                column,
                k,
            )
    }

    /// Whether `mesh` is the mesh of this box: the six faces in order.
    pub open spec fn describes(self, mesh: &MeshData) -> bool {
        &&& mesh.vertices@.len() == self.vertex_count()
        &&& mesh.indices@.len() == self.index_count()
        &&& forall|face: Face| #[trigger] self.lays_out(mesh.vertices@, mesh.indices@, face)
    }
}

/// Cells of a grid of `columns` columns, counted row by row, come in the
/// order of their rows and, within a row, of their columns.
pub proof fn lemma_cell_order(row: int, column: int, later_row: int, later_column: int, columns: int)
    requires
        0 <= row,
        0 <= column < columns,
        0 <= later_column,
        row < later_row || (row == later_row && column < later_column),
    ensures
        0 <= row * columns + column < later_row * columns + later_column,
{
    assert(0 <= row * columns && (row < later_row ==> row * columns + columns <= later_row
        * columns)) by (nonlinear_arith)
        requires
            0 <= row,
            0 < columns,
            row <= later_row,
    ;
}

/// One coordinate of a lattice point.
fn spread_coordinate(i: u64, steps: u64, size: i32) -> (r: i32)
    requires
        1 <= steps <= 0x1_0000_0000,
        i <= steps,
    ensures
        r == spread(i as int, steps as int, size as int),
{
    let twice: i128 = 2 * (i as i128) - steps as i128;
    assert(-0x8000_0000 * steps <= size * twice <= 0x8000_0000 * steps) by (nonlinear_arith)
        requires
            -0x8000_0000 <= size <= 0x8000_0000,
            -steps <= twice <= steps,
    ;
    assert(0x8000_0000 * steps == 0x4000_0000 * (2 * steps)) by (nonlinear_arith);
    assert(0 <= 0x8000_0000 * steps <= 0x8000_0000 * 0x1_0000_0000) by (nonlinear_arith)
        requires
            0 <= steps <= 0x1_0000_0000,
    ;
    proof {
        lemma_div_toward_zero_bound(size * twice, 2 * steps, 0x4000_0000);
    }
    quotient((size as i128) * twice, 2 * (steps as i128)) as i32
}

/// Half of `size`, rounded toward zero.
fn half_of(size: i32) -> (r: i32)
    ensures
        r == half(size as int),
        -0x4000_0000 <= r <= 0x4000_0000,
{
    proof {
        lemma_div_toward_zero_bound(size as int, 2, 0x4000_0000);
    }
    quotient(size as i128, 2) as i32
}

/// The six corner offsets of a quad, in order.
fn corner_offsets(face: Face, step: u64) -> (offsets: [u64; 6])
    requires
        step < 0x1_0000_0000,
    ensures
        forall|k: int| 0 <= k < 6 ==> offsets@[k] == corner_offset(face, k, step as int),
{
    match face {
        Face::Front => [step + 1, 1, step, 0, step, 1],
        Face::Back | Face::Top => [1, step + 1, step, step, 0, 1],
        Face::Bottom | Face::Right => [step + 1, 1, step, step, 1, 0],
        Face::Left => [1, step + 1, step, 1, step, 0],
    }
}

impl GridBox {
    /// Rows of vertices on a face.
    fn row_count(&self, face: Face) -> (rows: u64)
        ensures
            rows == self.rows(face),
            2 <= rows <= 0x1_0000_0001,
    {
        match face {
            Face::Front | Face::Back => self.subdivisions.z as u64 + 2,
            _ => self.subdivisions.y as u64 + 2,
        }
    }

    /// Vertices in each row of a face.
    fn column_count(&self, face: Face) -> (columns: u64)
        ensures
            columns == self.columns(face),
            2 <= columns <= 0x1_0000_0001,
    {
        match face {
            Face::Right | Face::Left => self.subdivisions.z as u64 + 2,
            _ => self.subdivisions.x as u64 + 2,
        }
    }

    /// The vertex at `row` and `column` of a face.
    fn place(&self, face: Face, row: u64, column: u64) -> (vertex: Vertex)
        requires
            row < self.rows(face),
            column < self.columns(face),
        ensures
            vertex@ == self.vertex(face, row as int, column as int),
    {
        let x_steps: u64 = self.subdivisions.x as u64 + 1;
        let y_steps: u64 = self.subdivisions.y as u64 + 1;
        let z_steps: u64 = self.subdivisions.z as u64 + 1;
        let (position, normal) = match face {
            Face::Front => (
                Vec3 {
                    x: spread_coordinate(column, x_steps, self.size.x),
                    y: half_of(self.size.y),
                    z: spread_coordinate(row, z_steps, self.size.z),
                },
                Vec3 { x: 0, y: 1, z: 0 },
            ),
            Face::Back => (
                Vec3 {
                    x: spread_coordinate(column, x_steps, self.size.x),
                    y: -half_of(self.size.y),
                    z: spread_coordinate(row, z_steps, self.size.z),
                },
                Vec3 { x: 0, y: -1, z: 0 },
            ),
            Face::Top => (
                Vec3 {
                    x: spread_coordinate(column, x_steps, self.size.x),
                    y: spread_coordinate(row, y_steps, self.size.y),
                    z: half_of(self.size.z),
                },
                Vec3 { x: 0, y: 0, z: 1 },
            ),
            Face::Bottom => (
                Vec3 {
                    x: spread_coordinate(column, x_steps, self.size.x),
                    y: spread_coordinate(row, y_steps, self.size.y),
                    z: -half_of(self.size.z),
                },
                Vec3 { x: 0, y: 0, z: -1 },
            ),
            Face::Right => (
                Vec3 {
                    x: half_of(self.size.x),
                    y: spread_coordinate(row, y_steps, self.size.y),
                    z: spread_coordinate(column, z_steps, self.size.z),
                },
                Vec3 { x: 1, y: 0, z: 0 },
            ),
            Face::Left => (
                Vec3 {
                    x: -half_of(self.size.x),
                    y: spread_coordinate(row, y_steps, self.size.y),
                    z: spread_coordinate(column, z_steps, self.size.z),
                },
                Vec3 { x: -1, y: 0, z: 0 },
            ),
        };
        Vertex { position, normal, uv: Uv { u: (column % 2) as u32, v: (row % 2) as u32 } }
    }

    /// Appends the vertices of a face, row by row.
    fn push_vertices(&self, face: Face, mesh: &mut MeshData)
        requires
            old(mesh).vertices@.len() == self.first_vertex(face),
            self.first_vertex(face) + self.face_vertices(face) <= u32::MAX,
        ensures
            final(mesh).indices@ == old(mesh).indices@,
            final(mesh).vertices@.len() == self.first_vertex(face) + self.face_vertices(face),
            forall|k: int|
                0 <= k < self.first_vertex(face) ==> #[trigger] final(mesh).vertices@[k] == old(mesh).vertices@[k],
            forall|row: int, column: int|
                0 <= row < self.rows(face) && 0 <= column < self.columns(face) ==> final(mesh).vertices@[#[trigger] self.vertex_slot(face, row, column)]@ == self.vertex(
                    face,
                    row,
                    column,
                ),
    {
        let rows: u64 = self.row_count(face);
        let columns: u64 = self.column_count(face);
        let ghost before = mesh.vertices@;
        let ghost indices = mesh.indices@;
        let ghost first = self.first_vertex(face);
        let mut row: u64 = 0;
        while row < rows
            invariant
                row <= rows,
                rows == self.rows(face),
                columns == self.columns(face),
                2 <= columns,
                first == self.first_vertex(face),
                first == before.len(),
                mesh.indices@ == indices,
                mesh.vertices@.len() == first + row * columns,
                forall|k: int| 0 <= k < first ==> #[trigger] mesh.vertices@[k] == before[k],
                forall|r: int, c: int|
                    0 <= r < row && 0 <= c < columns ==> mesh.vertices@[#[trigger] self.vertex_slot(
                        face,
                        r,
                        c,
                    )]@ == self.vertex(face, r, c),
            decreases rows - row,
        {
            let mut column: u64 = 0;
            while column < columns
                invariant
                    row < rows,
                    column <= columns,
                    rows == self.rows(face),
                    columns == self.columns(face),
                    2 <= columns,
                    first == self.first_vertex(face),
                    first == before.len(),
                    mesh.indices@ == indices,
                    mesh.vertices@.len() == first + row * columns + column,
                    forall|k: int| 0 <= k < first ==> #[trigger] mesh.vertices@[k] == before[k],
                    forall|r: int, c: int|
                        (0 <= r < row && 0 <= c < columns) || (r == row && 0 <= c < column)
                            ==> mesh.vertices@[#[trigger] self.vertex_slot(face, r, c)]@
                            == self.vertex(face, r, c),
                decreases columns - column,
            {
                let vertex = self.place(face, row, column);
                let ghost earlier = mesh.vertices@;
                mesh.vertices.push(vertex);
                proof {
                    assert(0 <= row * columns) by (nonlinear_arith)
                        requires
                            0 <= row,
                            0 <= columns,
                    ;
                    assert forall|r: int, c: int|
                        (0 <= r < row && 0 <= c < columns) || (r == row && 0 <= c < column + 1)
                            implies mesh.vertices@[#[trigger] self.vertex_slot(face, r, c)]@
                        == self.vertex(face, r, c) by {
                        if r == row && c == column {
                            assert(self.vertex_slot(face, r, c) == earlier.len());
                        } else {
                            lemma_cell_order(r, c, row as int, column as int, columns as int);
                            assert(self.vertex_slot(face, r, c) < earlier.len());
                            assert(mesh.vertices@[self.vertex_slot(face, r, c)]
                                == earlier[self.vertex_slot(face, r, c)]);
                        }
                    }
                }
                column += 1;
            }
            proof {
                assert((row + 1) * columns == row * columns + columns) by (nonlinear_arith);
            }
            row += 1;
        }
    }

    /// Appends the indices of a face, quad by quad and row by row.
    fn push_indices(&self, face: Face, first: u32, mesh: &mut MeshData)
        requires
            first == self.first_vertex(face),
            old(mesh).indices@.len() == self.first_index(face),
            self.face_fits(face),
        ensures
            final(mesh).vertices@ == old(mesh).vertices@,
            final(mesh).indices@.len() == self.first_index(face) + 6 * self.face_quads(face),
            forall|k: int|
                0 <= k < self.first_index(face) ==> #[trigger] final(mesh).indices@[k] == old(mesh).indices@[k],
            forall|row: int, column: int, k: int|
                0 <= row < self.rows(face) - 1 && 0 <= column < self.columns(face) - 1 && 0 <= k
                    < 6 ==> final(mesh).indices@[#[trigger] self.index_slot(face, row, column, k)]
                    == self.corner(face, row, column, k),
    {
        let rows: u64 = self.row_count(face);
        let columns: u64 = self.column_count(face);
        let stride: u64 = self.subdivisions.x as u64 + 2;
        let ghost before = mesh.indices@;
        let ghost vertices = mesh.vertices@;
        let ghost start = self.first_index(face);
        proof {
            self.lemma_face_bounds(face);
        }
        let offsets: [u64; 6] = corner_offsets(face, columns);
        let mut row: u64 = 0;
        while row < rows - 1
            invariant
                row <= rows - 1,
                rows == self.rows(face),
                columns == self.columns(face),
                stride == self.x_count(),
                2 <= rows,
                2 <= columns < 0x1_0000_0000,
                first == self.first_vertex(face),
                self.face_fits(face),
                start == self.first_index(face),
                start == before.len(),
                mesh.vertices@ == vertices,
                mesh.indices@.len() == start + 6 * (row * (columns - 1)),
                forall|k: int| 0 <= k < 6 ==> offsets@[k] == corner_offset(face, k, columns as int),
                forall|k: int| 0 <= k < start ==> #[trigger] mesh.indices@[k] == before[k],
                forall|r: int, c: int, k: int|
                    0 <= r < row && 0 <= c < columns - 1 && 0 <= k < 6
                        ==> mesh.indices@[#[trigger] self.index_slot(face, r, c, k)]
                        == self.corner(face, r, c, k),
            decreases rows - row,
        {
            let mut column: u64 = 0;
            while column < columns - 1
                invariant
                    row < rows - 1,
                    column <= columns - 1,
                    rows == self.rows(face),
                    columns == self.columns(face),
                    stride == self.x_count(),
                    2 <= rows,
                    2 <= columns < 0x1_0000_0000,
                    first == self.first_vertex(face),
                    self.face_fits(face),
                    start == self.first_index(face),
                    start == before.len(),
                    mesh.vertices@ == vertices,
                    mesh.indices@.len() == start + 6 * (row * (columns - 1) + column),
                    forall|k: int|
                        0 <= k < 6 ==> offsets@[k] == corner_offset(face, k, columns as int),
                    forall|k: int| 0 <= k < start ==> #[trigger] mesh.indices@[k] == before[k],
                    forall|r: int, c: int, k: int|
                        ((0 <= r < row && 0 <= c < columns - 1) || (r == row && 0 <= c < column))
                            && 0 <= k < 6 ==> mesh.indices@[#[trigger] self.index_slot(
                            face,
                            r,
                            c,
                            k,
                        )] == self.corner(face, r, c, k),
                decreases columns - column,
            {
                proof {
                    self.lemma_quad_bounds(face, row as int, column as int);
                }
                let base: u64 = first as u64 + row * stride + column;
                let ghost earlier = mesh.indices@;
                mesh.indices.push((base + offsets[0]) as u32);
                mesh.indices.push((base + offsets[1]) as u32);
                mesh.indices.push((base + offsets[2]) as u32);
                mesh.indices.push((base + offsets[3]) as u32);
                mesh.indices.push((base + offsets[4]) as u32);
                mesh.indices.push((base + offsets[5]) as u32);
                proof {
                    assert(0 <= row * (columns - 1)) by (nonlinear_arith)
                        requires
                            0 <= row,
                            1 <= columns,
                    ;
                    assert forall|r: int, c: int, k: int|
                        ((0 <= r < row && 0 <= c < columns - 1) || (r == row && 0 <= c < column
                            + 1)) && 0 <= k < 6 implies mesh.indices@[#[trigger] self.index_slot(
                        face,
                        r,
                        c,
                        k,
                    )] == self.corner(face, r, c, k) by {
                        if r == row && c == column {
                            assert(self.index_slot(face, r, c, k) == earlier.len() + k);
                        } else {
                            lemma_cell_order(r, c, row as int, column as int, columns - 1);
                            assert(self.index_slot(face, r, c, k) < earlier.len());
                            assert(mesh.indices@[self.index_slot(face, r, c, k)]
                                == earlier[self.index_slot(face, r, c, k)]);
                        }
                    }
                }
                column += 1;
            }
            proof {
                assert((row + 1) * (columns - 1) == row * (columns - 1) + (columns - 1))
                    by (nonlinear_arith);
            }
            row += 1;
        }
    }

    /// On a face that fits, rows and columns are 32-bit numbers.
    proof fn lemma_face_bounds(self, face: Face)
        requires
            self.face_fits(face),
        ensures
            2 <= self.rows(face) < 0x8000_0000,
            2 <= self.columns(face) < 0x8000_0000,
            0 <= self.first_vertex(face),
    {
        let rows = self.rows(face);
        let columns = self.columns(face);
        assert(2 * rows <= rows * columns && 2 * columns <= rows * columns) by (nonlinear_arith)
            requires
                2 <= rows,
                2 <= columns,
        ;
        self.lemma_first_vertex_is_natural(face);
    }

    /// No face starts before the first vertex.
    proof fn lemma_first_vertex_is_natural(self, face: Face)
        ensures
            0 <= self.first_vertex(face),
            0 <= self.first_index(face),
            0 <= self.face_vertices(face),
            0 <= self.face_quads(face),
    {
        let x = self.x_count();
        let y = self.y_count();
        let z = self.z_count();
        assert(0 <= z * x && 0 <= y * x && 0 <= y * z && 0 <= (z - 1) * (x - 1) && 0 <= (y - 1) * (x
            - 1) && 0 <= (y - 1) * (z - 1)) by (nonlinear_arith)
            requires
                2 <= x,
                2 <= y,
                2 <= z,
        ;
    }

    /// The corners of a quad are indices that a `u32` holds.
    proof fn lemma_quad_bounds(self, face: Face, row: int, column: int)
        requires
            self.face_fits(face),
            0 <= row < self.rows(face) - 1,
            0 <= column < self.columns(face) - 1,
        ensures
            0 <= row * self.x_count(),
            self.first_vertex(face) + row * self.x_count() + column + self.columns(face) + 1
                <= self.last_index(face),
            forall|k: int|
                0 <= k < 6 ==> 0 <= #[trigger] self.corner(face, row, column, k) <= u32::MAX,
    {
        let rows = self.rows(face);
        let x = self.x_count();
        self.lemma_first_vertex_is_natural(face);
        assert(0 <= row * x <= (rows - 2) * x) by (nonlinear_arith)
            requires
                0 <= row <= rows - 2,
                0 <= x,
        ;
    }

    /// A face stays laid out when vertices and indices are appended behind
    /// it.
    proof fn lemma_face_kept(
        self,
        face: Face,
        vertices: Seq<Vertex>,
        indices: Seq<u32>,
        more_vertices: Seq<Vertex>,
        more_indices: Seq<u32>,
    )
        requires
            self.lays_out(vertices, indices, face),
            self.first_vertex(face) + self.face_vertices(face) <= vertices.len(),
            self.first_index(face) + 6 * self.face_quads(face) <= indices.len(),
            forall|k: int| 0 <= k < vertices.len() ==> #[trigger] more_vertices[k] == vertices[k],
            forall|k: int| 0 <= k < indices.len() ==> #[trigger] more_indices[k] == indices[k],
        ensures
            self.lays_out(more_vertices, more_indices, face),
    {
        self.lemma_first_vertex_is_natural(face);
        assert forall|row: int, column: int|
            0 <= row < self.rows(face) && 0 <= column < self.columns(face)
                implies more_vertices[#[trigger] self.vertex_slot(face, row, column)]@
            == self.vertex(face, row, column) by {
            lemma_cell_order(row, column, self.rows(face), 0, self.columns(face));
            assert(more_vertices[self.vertex_slot(face, row, column)] == vertices[self.vertex_slot(
                face,
                row,
                column,
            )]);
        }
        assert forall|row: int, column: int, k: int|
            0 <= row < self.rows(face) - 1 && 0 <= column < self.columns(face) - 1 && 0 <= k
                < 6 implies more_indices[#[trigger] self.index_slot(face, row, column, k)]
            == self.corner(face, row, column, k) by {
            lemma_cell_order(row, column, self.rows(face) - 1, 0, self.columns(face) - 1);
            assert(more_indices[self.index_slot(face, row, column, k)] == indices[self.index_slot(
                face,
                row,
                column,
                k,
            )]);
        }
    }

    /// Appends a face: its vertices, then its indices.
    fn push_face(&self, face: Face, mesh: &mut MeshData)
        requires
            old(mesh).vertices@.len() == self.first_vertex(face),
            old(mesh).indices@.len() == self.first_index(face),
            self.face_fits(face),
        ensures
            final(mesh).vertices@.len() == self.first_vertex(face) + self.face_vertices(face),
            final(mesh).indices@.len() == self.first_index(face) + 6 * self.face_quads(face),
            forall|k: int|
                0 <= k < old(mesh).vertices@.len() ==> #[trigger] final(mesh).vertices@[k] == old(mesh).vertices@[k],
            forall|k: int|
                0 <= k < old(mesh).indices@.len() ==> #[trigger] final(mesh).indices@[k] == old(mesh).indices@[k],
            self.lays_out(final(mesh).vertices@, final(mesh).indices@, face),
    {
        let first: u32 = mesh.vertices.len() as u32;
        self.push_vertices(face, mesh);
        self.push_indices(face, first, mesh);
    }

    /// Where the whole mesh fits, so does each face.
    proof fn lemma_faces_fit(self)
        requires
            self.fits(),
        ensures
            forall|face: Face| #[trigger] self.face_fits(face),
    {
        let x = self.x_count();
        let y = self.y_count();
        let z = self.z_count();
        self.lemma_first_vertex_is_natural(Face::Front);
        assert((z - 2) * x + 2 * x == z * x && (y - 2) * x + 2 * x == y * x) by (nonlinear_arith);
        assert forall|face: Face| #[trigger] self.face_fits(face) by {
            match face {
                Face::Front => {},
                Face::Back => {},
                Face::Top => {},
                Face::Bottom => {},
                Face::Right => {},
                Face::Left => {},
            }
        }
    }

    /// The mesh of the box, or `None` where it has more vertices, or names a
    /// larger index, than a `u32` holds.
    pub fn mesh(&self) -> (result: Option<MeshData>)
        ensures
            match result {
                Some(mesh) => self.fits() && self.describes(&mesh),
                None => !self.fits(),
            },
    {
        let x: u128 = self.subdivisions.x as u128 + 2;
        let y: u128 = self.subdivisions.y as u128 + 2;
        let z: u128 = self.subdivisions.z as u128 + 2;
        assert(0 <= z * x <= 0x1_0000_0001 * 0x1_0000_0001 && 0 <= y * x <= 0x1_0000_0001
            * 0x1_0000_0001 && 0 <= y * z <= 0x1_0000_0001 * 0x1_0000_0001 && 0 <= (y - 2) * x
            <= 0x1_0000_0001 * 0x1_0000_0001) by (nonlinear_arith)
            requires
                2 <= x <= 0x1_0000_0001,
                2 <= y <= 0x1_0000_0001,
                2 <= z <= 0x1_0000_0001,
        ;
        let front: u128 = z * x;
        let top: u128 = y * x;
        let right: u128 = y * z;
        let total: u128 = 2 * front + 2 * top + 2 * right;
        let last: u128 = 2 * front + 2 * top + right + (y - 2) * x + 2 * z - 1;
        if total > u32::MAX as u128 || last > u32::MAX as u128 {
            return None;
        }
        proof {
            self.lemma_faces_fit();
            assert(self.face_fits(Face::Front));
            assert(self.face_fits(Face::Back));
            assert(self.face_fits(Face::Top));
            assert(self.face_fits(Face::Bottom));
            assert(self.face_fits(Face::Right));
            assert(self.face_fits(Face::Left));
            self.lemma_first_vertex_is_natural(Face::Front);
        }
        let mut mesh = MeshData { vertices: Vec::new(), indices: Vec::new() };
        self.push_face(Face::Front, &mut mesh);
        let ghost v1 = mesh.vertices@;
        let ghost i1 = mesh.indices@;
        self.push_face(Face::Back, &mut mesh);
        let ghost v2 = mesh.vertices@;
        let ghost i2 = mesh.indices@;
        proof {
            self.lemma_face_kept(Face::Front, v1, i1, v2, i2);
        }
        self.push_face(Face::Top, &mut mesh);
        let ghost v3 = mesh.vertices@;
        let ghost i3 = mesh.indices@;
        proof {
            self.lemma_face_kept(Face::Front, v2, i2, v3, i3);
            self.lemma_face_kept(Face::Back, v2, i2, v3, i3);
        }
        self.push_face(Face::Bottom, &mut mesh);
        let ghost v4 = mesh.vertices@;
        let ghost i4 = mesh.indices@;
        proof {
            self.lemma_face_kept(Face::Front, v3, i3, v4, i4);
            self.lemma_face_kept(Face::Back, v3, i3, v4, i4);
            self.lemma_face_kept(Face::Top, v3, i3, v4, i4);
        }
        self.push_face(Face::Right, &mut mesh);
        let ghost v5 = mesh.vertices@;
        let ghost i5 = mesh.indices@;
        proof {
            self.lemma_face_kept(Face::Front, v4, i4, v5, i5);
            self.lemma_face_kept(Face::Back, v4, i4, v5, i5);
            self.lemma_face_kept(Face::Top, v4, i4, v5, i5);
            self.lemma_face_kept(Face::Bottom, v4, i4, v5, i5);
        }
        self.push_face(Face::Left, &mut mesh);
        let ghost v6 = mesh.vertices@;
        let ghost i6 = mesh.indices@;
        proof {
            self.lemma_face_kept(Face::Front, v5, i5, v6, i6);
            self.lemma_face_kept(Face::Back, v5, i5, v6, i6);
            self.lemma_face_kept(Face::Top, v5, i5, v6, i6);
            self.lemma_face_kept(Face::Bottom, v5, i5, v6, i6);
            self.lemma_face_kept(Face::Right, v5, i5, v6, i6);
            assert forall|face: Face| #[trigger] self.lays_out(v6, i6, face) by {
                match face {
                    Face::Front => {},
                    Face::Back => {},
                    Face::Top => {},
                    Face::Bottom => {},
                    Face::Right => {},
                    Face::Left => {},
                }
            }
        }
        Some(mesh)
    }
}

/// A square plane in the xz plane, centred on the origin and facing up, with
/// a grid on it.
#[derive(Clone, Copy, Debug, PartialEq, Eq, Structural)]
pub struct GridPlane {
    /// The length of each side, in world units.
    pub size: i32,
    /// How many grid lines cut the plane in each direction, between its
    /// edges.
    pub subdivisions: u32,
}

impl GridPlane {
    /// Vertices along each side.
    pub open spec fn count(self) -> int {
        self.subdivisions + 2
    }

    /// Vertices of the whole mesh.
    pub open spec fn vertex_count(self) -> int {
        self.count() * self.count()
    }

    /// Six indices for each quad.
    pub open spec fn index_count(self) -> int {
        6 * ((self.count() - 1) * (self.count() - 1))
    }

    /// The vertex at `row` (along z) and `column` (along x).
    pub open spec fn vertex(self, row: int, column: int) -> VertexView {
        VertexView {
            position: Vector {
                x: spread(column, self.count() - 1, self.size as int),
                y: 0,
                z: spread(row, self.count() - 1, self.size as int),
            },
            normal: Vector { x: 0, y: 1, z: 0 },
            u: column % 2,
            v: row % 2,
        }
    }

    /// The index at corner `k` of the quad at `row` and `column`.
    pub open spec fn corner(self, row: int, column: int, k: int) -> int {
        row * self.count() + column + corner_offset(Face::Front, k, self.count())
    }

    /// Whether the mesh can be told in 32-bit indices.
    pub open spec fn fits(self) -> bool {
        self.vertex_count() <= u32::MAX
    }

    /// Whether `mesh` is the mesh of this plane: its vertices row by row,
    /// its quads row by row, six indices to a quad.
    pub open spec fn describes(self, mesh: &MeshData) -> bool {
        &&& mesh.vertices@.len() == self.vertex_count()
        &&& mesh.indices@.len() == self.index_count()
        &&& forall|row: int, column: int|
            0 <= row < self.count() && 0 <= column < self.count() ==> mesh.vertices@[#[trigger] cell(
                row,
                column,
                self.count(),
            )]@ == self.vertex(row, column)
        &&& forall|row: int, column: int, k: int|
            0 <= row < self.count() - 1 && 0 <= column < self.count() - 1 && 0 <= k < 6
                ==> mesh.indices@[#[trigger] corner_slot(row, column, k, self.count() - 1)]
                == self.corner(row, column, k)
    }

    /// The box of no height that has this plane as its front face.
    pub open spec fn flat_box(self) -> GridBox {
        GridBox {
            size: Vec3 { x: self.size, y: 0, z: self.size },
            subdivisions: UVec3 { x: self.subdivisions, y: 0, z: self.subdivisions },
        }
    }

    /// The mesh of the plane, or `None` where it has more vertices than a
    /// `u32` holds.
    pub fn mesh(&self) -> (result: Option<MeshData>)
        ensures
            match result {
                Some(mesh) => self.fits() && self.describes(&mesh),
                None => !self.fits(),
            },
    {
        let count: u64 = self.subdivisions as u64 + 2;
        assert(0 <= count * count <= 0x1_0000_0001 * 0x1_0000_0001) by (nonlinear_arith)
            requires
                2 <= count <= 0x1_0000_0001,
        ;
        if (count as u128) * (count as u128) > u32::MAX as u128 {
            return None;
        }
        let flat = GridBox {
            size: Vec3 { x: self.size, y: 0, z: self.size },
            subdivisions: UVec3 { x: self.subdivisions, y: 0, z: self.subdivisions },
        };
        proof {
            assert((count - 2) * count + 2 * count == count * count) by (nonlinear_arith);
            assert(flat.face_fits(Face::Front));
        }
        let mut mesh = MeshData { vertices: Vec::new(), indices: Vec::new() };
        flat.push_face(Face::Front, &mut mesh);
        proof {
            assert(0int / 2 == 0);
            assert forall|row: int, column: int|
                0 <= row < self.count() && 0 <= column < self.count()
                    implies mesh.vertices@[#[trigger] cell(row, column, self.count())]@
                == self.vertex(row, column) by {
                assert(cell(row, column, self.count()) == flat.vertex_slot(
                    Face::Front,
                    row,
                    column,
                ));
            }
            assert forall|row: int, column: int, k: int|
                0 <= row < self.count() - 1 && 0 <= column < self.count() - 1 && 0 <= k
                    < 6 implies mesh.indices@[#[trigger] corner_slot(
                row,
                column,
                k,
                self.count() - 1,
            )] == self.corner(row, column, k) by {
                assert(corner_slot(row, column, k, self.count() - 1) == flat.index_slot(
                    Face::Front,
                    row,
                    column,
                    k,
                ));
            }
        }
        Some(mesh)
    }
}

/// The place of the cell at `row` and `column` among the cells of a grid of
/// `columns` columns, counted row by row.
pub open spec fn cell(row: int, column: int, columns: int) -> int {
    row * columns + column
}

/// The place of corner `k` of the quad at `row` and `column` among the
/// indices of a grid of `columns` quads to a row, six indices to a quad.
pub open spec fn corner_slot(row: int, column: int, k: int, columns: int) -> int {
    6 * cell(row, column, columns) + k
}

/// Every place below `6 * rows * columns` is the place of one corner of one
/// quad of a grid of `rows` rows and `columns` columns of quads.
pub proof fn lemma_corner_of_slot(k: int, rows: int, columns: int) -> (found: (int, int, int))
    requires
        0 < columns,
        0 <= k < 6 * (rows * columns),
    ensures
        0 <= found.0 < rows,
        0 <= found.1 < columns,
        0 <= found.2 < 6,
        corner_slot(found.0, found.1, found.2, columns) == k,
{
    let quad = k / 6;
    let corner = k % 6;
    let row = quad / columns;
    let column = quad % columns;
    assert(quad == row * columns + column && 0 <= column < columns && (0 <= quad < rows * columns
        ==> 0 <= row < rows)) by (nonlinear_arith)
        requires
            row == quad / columns,
            column == quad % columns,
            0 < columns,
    ;
    (row, column, corner)
}

impl GridPlane {
    /// Every index of a plane's mesh names one of its vertices.
    pub proof fn lemma_mesh_closed(self, mesh: &MeshData)
        requires
            self.describes(mesh),
        ensures
            mesh.closed(),
    {
        let count = self.count();
        let quads = (count - 1) * (count - 1);
        assert forall|k: int| 0 <= k < mesh.indices@.len() implies (#[trigger] mesh.indices@[k])
            < mesh.vertices@.len() by {
            let (row, column, corner) = lemma_corner_of_slot(k, count - 1, count - 1);
            assert(mesh.indices@[corner_slot(row, column, corner, count - 1)] == self.corner(
                row,
                column,
                corner,
            ));
            assert(row * count + column + count + 1 < count * count) by (nonlinear_arith)
                requires
                    0 <= row <= count - 2,
                    0 <= column <= count - 2,
            ;
        }
    }
}

impl GridBox {
    /// Every index of a box's mesh names one of its vertices, provided the
    /// box has no subdivisions along y or no more along x than along z.
    pub proof fn lemma_mesh_closed(self, mesh: &MeshData)
        requires
            self.describes(mesh),
            self.subdivisions.y == 0 || self.subdivisions.x <= self.subdivisions.z,
        ensures
            mesh.closed(),
    {
        let x = self.x_count();
        let y = self.y_count();
        let z = self.z_count();
        self.lemma_first_vertex_is_natural(Face::Front);
        assert((z - 2) * x + 2 * x == z * x && (y - 2) * x + 2 * x == y * x) by (nonlinear_arith);
        assert((y - 2) * x + 2 * z <= y * z) by (nonlinear_arith)
            requires
                y == 2 || x <= z,
                2 <= y,
                2 <= x,
                2 <= z,
        ;
        assert forall|k: int| 0 <= k < mesh.indices@.len() implies (#[trigger] mesh.indices@[k])
            < mesh.vertices@.len() by {
            let face = if k < self.first_index(Face::Back) {
                Face::Front
            } else if k < self.first_index(Face::Top) {
                Face::Back
            } else if k < self.first_index(Face::Bottom) {
                Face::Top
            } else if k < self.first_index(Face::Right) {
                Face::Bottom
            } else if k < self.first_index(Face::Left) {
                Face::Right
            } else {
                Face::Left
            };
            let local = k - self.first_index(face);
            let (row, column, corner) = lemma_corner_of_slot(
                local,
                self.rows(face) - 1,
                self.columns(face) - 1,
            );
            assert(self.index_slot(face, row, column, corner) == k);
            assert(self.lays_out(mesh.vertices@, mesh.indices@, face));
            assert(mesh.indices@[self.index_slot(face, row, column, corner)] == self.corner(
                face,
                row,
                column,
                corner,
            ));
            assert(0 <= row * x <= (self.rows(face) - 2) * x) by (nonlinear_arith)
                requires
                    0 <= row <= self.rows(face) - 2,
                    0 <= x,
            ;
        }
    }
}

} // verus!
