use text_gem::grid::{Face, GridBox, GridPlane, UVec3};
use text_gem::mesh::{MeshData, Uv, Vertex};
use text_gem::sprite::{PaperSprite, QuadSprite, Vec2};
use text_gem::vec3::Vec3;

/// A face's quads as a loop over rows and columns writes them down.
fn face_indices(
    indices: &mut Vec<u32>,
    offset: u32,
    rows: u32,
    columns: u32,
    row_length: u32,
    order: [usize; 6],
) {
    for row in 0..rows - 1 {
        for column in 0..columns - 1 {
            let quad = offset + row * row_length + column;
            let corners = [quad, quad + 1, quad + columns, quad + columns + 1];
            for k in order {
                indices.push(corners[k]);
            }
        }
    }
}

const FRONT: [usize; 6] = [3, 1, 2, 0, 2, 1];
const BACK: [usize; 6] = [1, 3, 2, 2, 0, 1];
const BOTTOM: [usize; 6] = [3, 1, 2, 2, 1, 0];
const LEFT: [usize; 6] = [1, 3, 2, 1, 2, 0];

fn plane_indices(subdivisions: u32) -> Vec<u32> {
    let count = subdivisions + 2;
    let mut indices = Vec::new();
    face_indices(&mut indices, 0, count, count, count, FRONT);
    indices
}

fn box_indices(subdivisions: UVec3) -> Vec<u32> {
    let x = subdivisions.x + 2;
    let y = subdivisions.y + 2;
    let z = subdivisions.z + 2;
    let mut indices = Vec::new();
    let mut offset = 0;
    face_indices(&mut indices, offset, z, x, x, FRONT);
    offset += z * x;
    face_indices(&mut indices, offset, z, x, x, BACK);
    offset += z * x;
    face_indices(&mut indices, offset, y, x, x, BACK);
    offset += y * x;
    face_indices(&mut indices, offset, y, x, x, BOTTOM);
    offset += y * x;
    face_indices(&mut indices, offset, y, z, x, BOTTOM);
    offset += y * z;
    face_indices(&mut indices, offset, y, z, x, LEFT);
    indices
}

/// `(-0.5 + i / steps) * size`, as a real number.
fn along(i: u32, steps: u32, size: i32) -> f64 {
    (-0.5 + i as f64 / steps as f64) * size as f64
}

/// Whether `coordinate` is `real` rounded toward zero, as far as the
/// rounding of `real` itself lets one tell.
fn near(coordinate: i32, real: f64) -> bool {
    let slack = 1e-6;
    (coordinate as f64 - real).abs() < 1.0 + slack && (coordinate as f64).abs() <= real.abs() + slack
}

fn check_box_vertices(grid: GridBox, mesh: &MeshData) {
    let x = grid.subdivisions.x + 2;
    let y = grid.subdivisions.y + 2;
    let z = grid.subdivisions.z + 2;
    let faces = [
        (Face::Front, z, x),
        (Face::Back, z, x),
        (Face::Top, y, x),
        (Face::Bottom, y, x),
        (Face::Right, y, z),
        (Face::Left, y, z),
    ];
    let mut slot = 0;
    for (face, rows, columns) in faces {
        for row in 0..rows {
            for column in 0..columns {
                let vertex = mesh.vertices[slot];
                slot += 1;
                let across_x = along(column, x - 1, grid.size.x);
                let across_z = along(column, z - 1, grid.size.z);
                let down_y = along(row, y - 1, grid.size.y);
                let down_z = along(row, z - 1, grid.size.z);
                let (px, py, pz, normal) = match face {
                    Face::Front => (across_x, grid.size.y as f64 / 2.0, down_z, Vec3::new(0, 1, 0)),
                    Face::Back => (across_x, grid.size.y as f64 / -2.0, down_z, Vec3::new(0, -1, 0)),
                    Face::Top => (across_x, down_y, grid.size.z as f64 / 2.0, Vec3::new(0, 0, 1)),
                    Face::Bottom => (across_x, down_y, grid.size.z as f64 / -2.0, Vec3::new(0, 0, -1)),
                    Face::Right => (grid.size.x as f64 / 2.0, down_y, across_z, Vec3::new(1, 0, 0)),
                    Face::Left => (grid.size.x as f64 / -2.0, down_y, across_z, Vec3::new(-1, 0, 0)),
                };
                assert!(near(vertex.position.x, px));
                assert!(near(vertex.position.y, py));
                assert!(near(vertex.position.z, pz));
                assert_eq!(vertex.normal, normal);
                assert_eq!(vertex.uv, Uv { u: column % 2, v: row % 2 });
            }
        }
    }
    assert_eq!(slot, mesh.vertices.len());
}

#[test]
fn the_smallest_plane_is_one_quad() {
    let mesh = GridPlane { size: 10, subdivisions: 0 }.mesh().unwrap();
    let up = Vec3::new(0, 1, 0);
    assert_eq!(
        mesh.vertices,
        vec![
            Vertex { position: Vec3::new(-5, 0, -5), normal: up, uv: Uv { u: 0, v: 0 } },
            Vertex { position: Vec3::new(5, 0, -5), normal: up, uv: Uv { u: 1, v: 0 } },
            Vertex { position: Vec3::new(-5, 0, 5), normal: up, uv: Uv { u: 0, v: 1 } },
            Vertex { position: Vec3::new(5, 0, 5), normal: up, uv: Uv { u: 1, v: 1 } },
        ]
    );
    assert_eq!(mesh.indices, vec![3, 1, 2, 0, 2, 1]);
    assert!(mesh.is_closed());
}

#[test]
fn a_plane_has_a_vertex_on_every_crossing() {
    let mesh = GridPlane { size: 3000, subdivisions: 2 }.mesh().unwrap();
    let positions: Vec<(i32, i32, i32)> =
        mesh.vertices.iter().map(|v| (v.position.x, v.position.y, v.position.z)).collect();
    let mut expected = Vec::new();
    for z in [-1500, -500, 500, 1500] {
        for x in [-1500, -500, 500, 1500] {
            expected.push((x, 0, z));
        }
    }
    assert_eq!(positions, expected);
    let parities: Vec<(u32, u32)> = mesh.vertices.iter().map(|v| (v.uv.u, v.uv.v)).collect();
    assert_eq!(&parities[..6], &[(0, 0), (1, 0), (0, 0), (1, 0), (0, 1), (1, 1)]);
    assert_eq!(mesh.indices.len(), 54);
    assert_eq!(&mesh.indices[..12], &[5, 1, 4, 0, 4, 1, 6, 2, 5, 1, 5, 2]);
    assert_eq!(&mesh.indices[48..], &[15, 11, 14, 10, 14, 11]);
}

#[test]
fn plane_indices_follow_the_quads() {
    for subdivisions in [0, 1, 2, 3, 7, 100] {
        let mesh = GridPlane { size: 3000, subdivisions }.mesh().unwrap();
        let count = (subdivisions + 2) as usize;
        assert_eq!(mesh.vertices.len(), count * count);
        assert_eq!(mesh.indices.len(), 6 * (count - 1) * (count - 1));
        assert_eq!(mesh.indices, plane_indices(subdivisions));
        assert!(mesh.is_closed());
    }
}

#[test]
fn plane_positions_round_toward_the_centre() {
    let mesh = GridPlane { size: 10, subdivisions: 2 }.mesh().unwrap();
    let row: Vec<i32> = mesh.vertices[..4].iter().map(|v| v.position.x).collect();
    assert_eq!(row, vec![-5, -1, 1, 5]);
    let odd = GridPlane { size: 7, subdivisions: 0 }.mesh().unwrap();
    assert_eq!(odd.vertices[0].position, Vec3::new(-3, 0, -3));
    assert_eq!(odd.vertices[3].position, Vec3::new(3, 0, 3));
    let mirrored = GridPlane { size: -10, subdivisions: 0 }.mesh().unwrap();
    assert_eq!(mirrored.vertices[0].position, Vec3::new(5, 0, 5));
    let wide = GridPlane { size: i32::MIN, subdivisions: 1 }.mesh().unwrap();
    assert_eq!(wide.vertices[0].position, Vec3::new(1 << 30, 0, 1 << 30));
    assert_eq!(wide.vertices[4].position, Vec3::new(0, 0, 0));
    assert_eq!(wide.vertices[8].position, Vec3::new(-(1 << 30), 0, -(1 << 30)));
}

#[test]
fn a_plane_too_fine_for_its_indices_has_no_mesh() {
    assert!(GridPlane { size: 1, subdivisions: 65_534 }.mesh().is_none());
    assert!(GridPlane { size: 1, subdivisions: u32::MAX }.mesh().is_none());
    assert!(GridPlane { size: 1, subdivisions: u32::MAX - 1 }.mesh().is_none());
}

#[test]
fn the_smallest_box_has_six_quads() {
    let grid = GridBox { size: Vec3::new(2, 4, 6), subdivisions: UVec3::new(0, 0, 0) };
    let mesh = grid.mesh().unwrap();
    assert_eq!(mesh.vertices.len(), 24);
    assert_eq!(mesh.indices.len(), 36);
    let corners = |from: usize| -> Vec<(i32, i32, i32)> {
        mesh.vertices[from..from + 4]
            .iter()
            .map(|v| (v.position.x, v.position.y, v.position.z))
            .collect()
    };
    assert_eq!(corners(0), vec![(-1, 2, -3), (1, 2, -3), (-1, 2, 3), (1, 2, 3)]);
    assert_eq!(corners(4), vec![(-1, -2, -3), (1, -2, -3), (-1, -2, 3), (1, -2, 3)]);
    assert_eq!(corners(8), vec![(-1, -2, 3), (1, -2, 3), (-1, 2, 3), (1, 2, 3)]);
    assert_eq!(corners(12), vec![(-1, -2, -3), (1, -2, -3), (-1, 2, -3), (1, 2, -3)]);
    assert_eq!(corners(16), vec![(1, -2, -3), (1, -2, 3), (1, 2, -3), (1, 2, 3)]);
    assert_eq!(corners(20), vec![(-1, -2, -3), (-1, -2, 3), (-1, 2, -3), (-1, 2, 3)]);
    assert_eq!(
        mesh.indices,
        vec![
            3, 1, 2, 0, 2, 1, // front
            5, 7, 6, 6, 4, 5, // back
            9, 11, 10, 10, 8, 9, // top
            15, 13, 14, 14, 13, 12, // bottom
            19, 17, 18, 18, 17, 16, // right
            21, 23, 22, 21, 22, 20, // left
        ]
    );
    assert!(mesh.is_closed());
    check_box_vertices(grid, &mesh);
}

#[test]
fn box_meshes_follow_their_faces() {
    for (x, y, z) in [(0, 0, 0), (1, 0, 1), (2, 3, 4), (4, 3, 2), (5, 0, 2), (0, 6, 1), (20, 0, 20)] {
        let grid = GridBox { size: Vec3::new(6000, 30, -6001), subdivisions: UVec3::new(x, y, z) };
        let mesh = grid.mesh().unwrap();
        let (xc, yc, zc) = ((x + 2) as usize, (y + 2) as usize, (z + 2) as usize);
        assert_eq!(mesh.vertices.len(), 2 * (zc * xc + yc * xc + yc * zc));
        assert_eq!(
            mesh.indices.len(),
            12 * ((zc - 1) * (xc - 1) + (yc - 1) * (xc - 1) + (yc - 1) * (zc - 1))
        );
        assert_eq!(mesh.indices, box_indices(grid.subdivisions));
        check_box_vertices(grid, &mesh);
    }
}

#[test]
fn a_box_is_closed_when_flat_or_no_finer_along_x_than_along_z() {
    for (x, y, z, closed) in [
        (200, 0, 200, true),
        (3, 0, 1, true),
        (2, 5, 2, true),
        (1, 5, 4, true),
        (3, 1, 0, false),
        (2, 1, 1, false),
    ] {
        let grid = GridBox { size: Vec3::new(10, 10, 10), subdivisions: UVec3::new(x, y, z) };
        assert_eq!(grid.mesh().unwrap().is_closed(), closed);
    }
}

#[test]
fn side_faces_count_their_rows_by_the_vertices_along_x() {
    let grid = GridBox { size: Vec3::new(10, 10, 10), subdivisions: UVec3::new(3, 1, 0) };
    let mesh = grid.mesh().unwrap();
    // vertices: 2 * (2 * 5) + 2 * (3 * 5) + 2 * (3 * 2); the right face starts at 50
    assert_eq!(mesh.vertices.len(), 62);
    let right = 6 * 2 * (4 + 8);
    assert_eq!(&mesh.indices[right..right + 6], &[53, 51, 52, 52, 51, 50]);
    assert_eq!(&mesh.indices[right + 6..right + 12], &[58, 56, 57, 57, 56, 55]);
    assert_eq!(&mesh.indices[right + 12..right + 18], &[57, 59, 58, 57, 58, 56]);
    assert_eq!(&mesh.indices[right + 18..], &[62, 64, 63, 62, 63, 61]);
}

#[test]
fn a_box_too_fine_for_its_indices_has_no_mesh() {
    let size = Vec3::new(1, 1, 1);
    assert!(GridBox { size, subdivisions: UVec3::new(u32::MAX, 0, 0) }.mesh().is_none());
    assert!(GridBox { size, subdivisions: UVec3::new(0, u32::MAX, 0) }.mesh().is_none());
    assert!(GridBox { size, subdivisions: UVec3::new(0, 0, u32::MAX) }.mesh().is_none());
    assert!(GridBox { size, subdivisions: UVec3::new(46_340, 0, 46_340) }.mesh().is_none());
    assert!(
        GridBox { size, subdivisions: UVec3::new(u32::MAX, u32::MAX, u32::MAX) }.mesh().is_none()
    );
}

#[test]
fn an_open_mesh_is_told_from_a_closed_one() {
    let mut mesh = GridPlane { size: 4, subdivisions: 0 }.mesh().unwrap();
    assert!(mesh.is_closed());
    mesh.indices.push(0);
    assert!(!mesh.is_closed());
    mesh.indices.push(1);
    mesh.indices.push(3);
    assert!(mesh.is_closed());
    mesh.indices[8] = 4;
    assert!(!mesh.is_closed());
    assert!(MeshData { vertices: Vec::new(), indices: Vec::new() }.is_closed());
    assert!(!MeshData { vertices: Vec::new(), indices: vec![0, 0, 0] }.is_closed());
}

#[test]
fn a_sprite_has_a_front_and_a_back() {
    let mesh = QuadSprite::new(Vec2::new(32, 48)).mesh();
    let front = Vec3::new(0, 0, 1);
    let back = Vec3::new(0, 0, -1);
    assert_eq!(
        mesh.vertices,
        vec![
            Vertex { position: Vec3::new(-16, -24, 0), normal: front, uv: Uv { u: 0, v: 1 } },
            Vertex { position: Vec3::new(-16, 24, 0), normal: front, uv: Uv { u: 0, v: 0 } },
            Vertex { position: Vec3::new(16, 24, 0), normal: front, uv: Uv { u: 1, v: 0 } },
            Vertex { position: Vec3::new(16, -24, 0), normal: front, uv: Uv { u: 1, v: 1 } },
            Vertex { position: Vec3::new(-16, -24, 0), normal: back, uv: Uv { u: 0, v: 1 } },
            Vertex { position: Vec3::new(-16, 24, 0), normal: back, uv: Uv { u: 0, v: 0 } },
            Vertex { position: Vec3::new(16, 24, 0), normal: back, uv: Uv { u: 1, v: 0 } },
            Vertex { position: Vec3::new(16, -24, 0), normal: back, uv: Uv { u: 1, v: 1 } },
        ]
    );
    assert_eq!(mesh.indices, vec![0, 2, 1, 0, 3, 2, 6, 4, 5, 7, 4, 6]);
    assert!(mesh.is_closed());
}

#[test]
fn a_flipped_sprite_mirrors_its_image() {
    let plain = QuadSprite::new(Vec2::new(32, 32)).mesh();
    let flipped = QuadSprite::new(Vec2::new(32, 32)).flipped().mesh();
    let twice = QuadSprite::new(Vec2::new(32, 32)).flipped().flipped().mesh();
    for i in 0..8 {
        assert_eq!(flipped.vertices[i].position, plain.vertices[i].position);
        assert_eq!(flipped.vertices[i].normal, plain.vertices[i].normal);
        assert_eq!(flipped.vertices[i].uv.u, 1 - plain.vertices[i].uv.u);
        assert_eq!(flipped.vertices[i].uv.v, plain.vertices[i].uv.v);
    }
    assert_eq!(flipped.indices, plain.indices);
    assert_eq!(twice.vertices, flipped.vertices);
    assert_eq!(QuadSprite::new(Vec2::new(1, 2)).flipped(), QuadSprite::new(Vec2::new(1, 2)).flipped().flipped());
    assert_ne!(QuadSprite::new(Vec2::new(1, 2)).flipped(), QuadSprite::new(Vec2::new(1, 2)));
}

#[test]
fn a_paper_sprite_is_lit_from_above() {
    let paper = PaperSprite(QuadSprite::new(Vec2::new(32, 32)).flipped()).mesh();
    let quad = QuadSprite::new(Vec2::new(32, 32)).flipped().mesh();
    assert_eq!(paper.vertices.len(), 8);
    for i in 0..8 {
        assert_eq!(paper.vertices[i].normal, Vec3::new(0, 1, 0));
        assert_eq!(paper.vertices[i].position, quad.vertices[i].position);
        assert_eq!(paper.vertices[i].uv, quad.vertices[i].uv);
    }
    assert_eq!(paper.indices, vec![0, 2, 1, 0, 3, 2, 6, 4, 5, 7, 4, 6]);
    assert!(paper.is_closed());
}

#[test]
fn sprite_extents_round_toward_zero() {
    let odd = QuadSprite::new(Vec2::new(5, -7)).mesh();
    assert_eq!(odd.vertices[0].position, Vec3::new(-2, 3, 0));
    assert_eq!(odd.vertices[2].position, Vec3::new(2, -3, 0));
    let wide = QuadSprite::new(Vec2::new(i32::MIN, i32::MAX)).mesh();
    assert_eq!(wide.vertices[0].position, Vec3::new(1 << 30, -((1 << 30) - 1), 0));
    assert_eq!(wide.vertices[2].position, Vec3::new(-(1 << 30), (1 << 30) - 1, 0));
}
