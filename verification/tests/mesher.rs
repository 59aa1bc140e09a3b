use voxel_mesh::face::Face;
use voxel_mesh::grid::VoxelGrid;
use voxel_mesh::lattice::Point;
use voxel_mesh::mesh::{build_mesh, MeshError};
use voxel_mesh::quads::{visible_faces, Quad};
use voxel_mesh::shade::Rgba;
use voxel_mesh::texture::TexCoord;
use voxel_mesh::voxel::Voxel;

fn point(x: u32, y: u32, z: u32) -> Point {
    Point { x, y, z }
}

fn grid_with(dim: u32, voxels: &[(u32, u32, u32, u8)]) -> VoxelGrid {
    let mut grid = VoxelGrid::new(dim).unwrap();
    for &(x, y, z, code) in voxels {
        grid.set(point(x, y, z), Voxel(code)).unwrap();
    }
    grid
}

const FACES: [Face; 6] = [Face::NegX, Face::NegY, Face::NegZ, Face::PosX, Face::PosY, Face::PosZ];

#[test]
fn single_voxel_yields_six_quads() {
    let grid = grid_with(3, &[(1, 1, 1, 1)]);
    let quads = visible_faces(&grid);
    let expected: Vec<Quad> =
        FACES.iter().map(|&face| Quad { face, minimum: point(1, 1, 1) }).collect();
    assert_eq!(quads, expected);

    let mesh = build_mesh(&grid, &quads, vec![0; 24]).unwrap();
    assert_eq!(mesh.num_quads(), 6);
    assert_eq!(mesh.positions.len(), 24);
    assert_eq!(mesh.normals.len(), 24);
    assert_eq!(mesh.tex_coords.len(), 24);
    assert_eq!(mesh.colors.len(), 24);
    assert_eq!(mesh.indices.len(), 36);
    let tile = [
        TexCoord { u: 576, v: 576 },
        TexCoord { u: 640, v: 576 },
        TexCoord { u: 576, v: 640 },
        TexCoord { u: 640, v: 640 },
    ];
    for k in 0..6 {
        assert_eq!(&mesh.tex_coords[4 * k..4 * k + 4], &tile);
        assert_eq!(mesh.voxels[k], Voxel(1));
    }
    for corner in &mesh.tex_coords {
        let u = corner.u as f32 / 1024.0;
        let v = corner.v as f32 / 1024.0;
        assert!(u == 9.0 / 16.0 || u == 10.0 / 16.0);
        assert!(v == 9.0 / 16.0 || v == 10.0 / 16.0);
    }
}

#[test]
fn empty_grid_yields_nothing() {
    for dim in [1u32, 2, 3, 5, 22] {
        let grid = VoxelGrid::new(dim).unwrap();
        let quads = visible_faces(&grid);
        assert!(quads.is_empty());
        let mesh = build_mesh(&grid, &quads, Vec::new()).unwrap();
        assert_eq!(mesh.num_quads(), 0);
        assert_eq!(mesh.num_vertices(), 0);
        assert_eq!(mesh.num_indices(), 0);
        assert!(mesh.colors.is_empty());
    }
}

#[test]
fn single_voxel_geometry() {
    let grid = grid_with(5, &[(2, 1, 3, 2)]);
    let quads = visible_faces(&grid);
    let mesh = build_mesh(&grid, &quads, vec![3; 24]).unwrap();
    let p = |x, y, z| point(x, y, z);
    let expected_positions = vec![
        // -X: U runs along Z, V along Y
        p(2, 1, 3), p(2, 1, 4), p(2, 2, 3), p(2, 2, 4),
        // -Y: U runs along Z, V along X
        p(2, 1, 3), p(2, 1, 4), p(3, 1, 3), p(3, 1, 4),
        // -Z: U runs along X, V along Y
        p(2, 1, 3), p(3, 1, 3), p(2, 2, 3), p(3, 2, 3),
        // +X
        p(3, 1, 3), p(3, 1, 4), p(3, 2, 3), p(3, 2, 4),
        // +Y
        p(2, 2, 3), p(2, 2, 4), p(3, 2, 3), p(3, 2, 4),
        // +Z
        p(2, 1, 4), p(3, 1, 4), p(2, 2, 4), p(3, 2, 4),
    ];
    assert_eq!(mesh.positions, expected_positions);
    let expected_normals: [(i32, i32, i32); 6] =
        [(-1, 0, 0), (0, -1, 0), (0, 0, -1), (1, 0, 0), (0, 1, 0), (0, 0, 1)];
    for k in 0..6 {
        for j in 0..4 {
            let n = mesh.normals[4 * k + j];
            assert_eq!((n.x, n.y, n.z), expected_normals[k]);
        }
    }
    let ccw = [0u32, 1, 2, 1, 3, 2];
    let cw = [0u32, 2, 1, 1, 2, 3];
    let expected_winding = [ccw, cw, cw, cw, ccw, ccw];
    for k in 0..6 {
        for j in 0..6 {
            assert_eq!(mesh.indices[6 * k + j], 4 * k as u32 + expected_winding[k][j]);
        }
    }
    let tile = [
        TexCoord { u: 960, v: 960 },
        TexCoord { u: 1024, v: 960 },
        TexCoord { u: 960, v: 1024 },
        TexCoord { u: 1024, v: 1024 },
    ];
    for k in 0..6 {
        assert_eq!(&mesh.tex_coords[4 * k..4 * k + 4], &tile);
    }
    assert!(mesh.colors.iter().all(|c| *c == Rgba { r: 75, g: 75, b: 75, a: 100 }));
}

#[test]
fn unmapped_code_shows_whole_atlas() {
    let grid = grid_with(3, &[(1, 1, 1, 7)]);
    let quads = visible_faces(&grid);
    let mesh = build_mesh(&grid, &quads, vec![9; 24]).unwrap();
    let t = |u, v| TexCoord { u, v };
    let plain = [t(0, 1024), t(1024, 1024), t(0, 0), t(1024, 0)];
    let flipped = [t(1024, 1024), t(0, 1024), t(1024, 0), t(0, 0)];
    let expected = [plain, flipped, flipped, flipped, plain, plain];
    for k in 0..6 {
        assert_eq!(&mesh.tex_coords[4 * k..4 * k + 4], &expected[k]);
        assert_eq!(mesh.voxels[k], Voxel(7));
    }
    assert!(mesh.colors.iter().all(|c| *c == Rgba { r: 100, g: 100, b: 100, a: 100 }));
}

#[test]
fn faces_between_solid_voxels_are_culled() {
    // An opaque voxel next to a translucent one along x, and an opaque pair
    // along y.
    let grid = grid_with(5, &[(1, 1, 1, 2), (2, 1, 1, 1), (1, 2, 1, 2)]);
    let quads = visible_faces(&grid);
    for quad in &quads {
        let here = grid.get(quad.minimum);
        let there = grid.get(quad.face.neighbor_of(quad.minimum));
        assert_ne!(here, Voxel(0));
        assert_eq!(there, Voxel(0));
    }
    // 3 voxels with 6 faces each, minus 2 shared faces seen from both sides.
    assert_eq!(quads.len(), 3 * 6 - 2 * 2);
    assert!(!quads.contains(&Quad { face: Face::PosX, minimum: point(1, 1, 1) }));
    assert!(!quads.contains(&Quad { face: Face::NegX, minimum: point(2, 1, 1) }));
    assert!(!quads.contains(&Quad { face: Face::PosY, minimum: point(1, 1, 1) }));
    assert!(!quads.contains(&Quad { face: Face::NegY, minimum: point(1, 2, 1) }));
    assert!(quads.contains(&Quad { face: Face::PosX, minimum: point(2, 1, 1) }));
}

#[test]
fn quads_come_face_by_face_in_scan_order() {
    let grid = grid_with(5, &[(3, 1, 1, 2), (1, 1, 1, 2), (1, 3, 1, 1), (1, 1, 3, 2), (2, 2, 2, 1)]);
    let quads = visible_faces(&grid);
    let scan = [point(1, 1, 1), point(3, 1, 1), point(1, 3, 1), point(2, 2, 2), point(1, 1, 3)];
    let mut expected = Vec::new();
    for face in FACES {
        for minimum in scan {
            expected.push(Quad { face, minimum });
        }
    }
    assert_eq!(quads, expected);
}

#[test]
fn meshing_twice_gives_the_same_mesh() {
    let grid = grid_with(6, &[(1, 1, 1, 1), (2, 1, 1, 2), (4, 4, 4, 2), (3, 2, 1, 1)]);
    let first = visible_faces(&grid);
    let second = visible_faces(&grid);
    assert_eq!(first, second);
    let ao: Vec<u8> = (0..first.len() * 4).map(|i| (i % 5) as u8).collect();
    let a = build_mesh(&grid, &first, ao.clone()).unwrap();
    let b = build_mesh(&grid, &second, ao).unwrap();
    assert_eq!(a.positions, b.positions);
    assert_eq!(a.normals, b.normals);
    assert_eq!(a.tex_coords, b.tex_coords);
    assert_eq!(a.colors, b.colors);
    assert_eq!(a.indices, b.indices);
    assert_eq!(a.voxels, b.voxels);
    assert_eq!(a.num_vertices(), 4 * a.num_quads());
    assert_eq!(a.num_indices(), 6 * a.num_quads());
}

#[test]
fn build_mesh_rejects_bad_input() {
    let grid = grid_with(3, &[(1, 1, 1, 1)]);
    let quads = visible_faces(&grid);
    assert_eq!(build_mesh(&grid, &quads, vec![0; 23]).unwrap_err(), MeshError::OcclusionLength);
    assert_eq!(build_mesh(&grid, &quads, Vec::new()).unwrap_err(), MeshError::OcclusionLength);
    let stray = vec![Quad { face: Face::NegX, minimum: point(1, 3, 1) }];
    assert_eq!(build_mesh(&grid, &stray, vec![0; 4]).unwrap_err(), MeshError::QuadOutsideGrid);
    assert_eq!(build_mesh(&grid, &stray, vec![0; 3]).unwrap_err(), MeshError::OcclusionLength);
}

#[test]
fn random_volume_meshes_every_exposed_face_once() {
    let dim = 22;
    let grid = VoxelGrid::random(dim).unwrap();
    let quads = visible_faces(&grid);

    // The same faces, found by looking at every cell and every side in turn.
    let mut expected = Vec::new();
    for face in FACES {
        for z in 1..dim - 1 {
            for y in 1..dim - 1 {
                for x in 1..dim - 1 {
                    let p = point(x, y, z);
                    if grid.get(p) != Voxel(0) && grid.get(face.neighbor_of(p)) == Voxel(0) {
                        expected.push(Quad { face, minimum: p });
                    }
                }
            }
        }
    }
    assert_eq!(quads, expected);
    assert!(!quads.is_empty());

    let ao: Vec<u8> = (0..4 * quads.len()).map(|i| (i % 7) as u8).collect();
    let mesh = build_mesh(&grid, &quads, ao.clone()).unwrap();
    assert_eq!(mesh.num_quads(), quads.len());
    assert_eq!(mesh.num_vertices(), 4 * quads.len());
    assert_eq!(mesh.num_indices(), 6 * quads.len());
    assert_eq!(mesh.normals.len(), 4 * quads.len());
    assert_eq!(mesh.tex_coords.len(), 4 * quads.len());
    assert_eq!(mesh.colors.len(), 4 * quads.len());
    for (k, quad) in quads.iter().enumerate() {
        assert_eq!(mesh.voxels[k], grid.get(quad.minimum));
        for j in 0..6 {
            let index = mesh.indices[6 * k + j] as usize;
            assert!(4 * k <= index && index < 4 * k + 4);
        }
        let low = if mesh.voxels[k] == Voxel(1) { 576 } else { 960 };
        for j in 0..4 {
            let t = mesh.tex_coords[4 * k + j];
            assert_eq!(t.u, low + 64 * (j as u32 % 2));
            assert_eq!(t.v, low + 64 * (j as u32 / 2));
        }
    }
    assert_eq!(mesh.colors, voxel_mesh::shade::ao_convert(ao, 0));
}
