use block_mesh::ndshape::{RuntimeShape, Shape};
use voxel_mesh::grid::{GridError, VoxelGrid, GENERATED_CODES, MAX_DIM};
use voxel_mesh::lattice::Point;
use voxel_mesh::voxel::Voxel;

fn point(x: u32, y: u32, z: u32) -> Point {
    Point { x, y, z }
}

fn on_border(dim: u32, p: Point) -> bool {
    [p.x, p.y, p.z].iter().any(|&c| c == 0 || c == dim - 1)
}

#[test]
fn new_grid_is_empty() {
    let grid = VoxelGrid::new(4).unwrap();
    assert_eq!(grid.dim(), 4);
    assert_eq!(grid.cells().len(), 64);
    assert!(grid.cells().iter().all(|v| *v == Voxel(0)));
}

#[test]
fn unsupported_side_lengths() {
    assert!(VoxelGrid::new(0).is_none());
    assert!(VoxelGrid::new(MAX_DIM + 1).is_none());
    assert!(VoxelGrid::new(u32::MAX).is_none());
    assert!(VoxelGrid::new(1).is_some());
    assert!(VoxelGrid::random(0).is_none());
    assert!(VoxelGrid::random(MAX_DIM + 1).is_none());
    assert_eq!(VoxelGrid::from_cells(0, Vec::new()).unwrap_err(), GridError::Dimension);
    assert_eq!(VoxelGrid::from_cells(MAX_DIM + 1, Vec::new()).unwrap_err(), GridError::Dimension);
    assert_eq!(VoxelGrid::from_interior(0, &Vec::new()).unwrap_err(), GridError::Dimension);
    assert_eq!(
        VoxelGrid::from_interior(MAX_DIM + 1, &Vec::new()).unwrap_err(),
        GridError::Dimension
    );
}

#[test]
fn largest_side_length_fits_a_32_bit_index() {
    let max = MAX_DIM as u64;
    assert!(max * max * max <= u32::MAX as u64);
    assert!((max + 1) * (max + 1) * (max + 1) > u32::MAX as u64);
}

#[test]
fn layout_is_row_major() {
    let grid = VoxelGrid::new(5).unwrap();
    assert_eq!(grid.linearize(point(0, 0, 0)), 0);
    assert_eq!(grid.linearize(point(1, 0, 0)), 1);
    assert_eq!(grid.linearize(point(0, 1, 0)), 5);
    assert_eq!(grid.linearize(point(0, 0, 1)), 25);
    assert_eq!(grid.linearize(point(1, 2, 3)), 86);
    assert_eq!(grid.linearize(point(4, 4, 4)), 124);
    let shape = RuntimeShape::<u32, 3>::new([5, 5, 5]);
    for z in 0..5 {
        for y in 0..5 {
            for x in 0..5 {
                assert_eq!(grid.linearize(point(x, y, z)), shape.linearize([x, y, z]));
            }
        }
    }
}

#[test]
fn set_then_get() {
    let mut grid = VoxelGrid::new(4).unwrap();
    assert_eq!(grid.set(point(1, 2, 1), Voxel(2)), Ok(()));
    assert_eq!(grid.get(point(1, 2, 1)), Voxel(2));
    assert_eq!(grid.cells()[1 + 4 * 2 + 16], Voxel(2));
    assert_eq!(grid.cells().iter().filter(|v| **v != Voxel(0)).count(), 1);
    assert_eq!(grid.set(point(1, 2, 1), Voxel(0)), Ok(()));
    assert_eq!(grid.get(point(1, 2, 1)), Voxel(0));
}

#[test]
fn set_rejects_border_and_outside() {
    let mut grid = VoxelGrid::new(4).unwrap();
    assert_eq!(grid.set(point(0, 1, 1), Voxel(1)), Err(GridError::Border));
    assert_eq!(grid.set(point(1, 3, 1), Voxel(2)), Err(GridError::Border));
    assert_eq!(grid.set(point(1, 1, 0), Voxel(9)), Err(GridError::Border));
    assert_eq!(grid.set(point(4, 1, 1), Voxel(1)), Err(GridError::OutOfBounds));
    assert_eq!(grid.set(point(1, 1, 7), Voxel(0)), Err(GridError::OutOfBounds));
    assert_eq!(grid.set(point(0, 0, 0), Voxel(0)), Ok(()));
    assert!(grid.cells().iter().all(|v| *v == Voxel(0)));
}

#[test]
fn contains_and_interior() {
    let grid = VoxelGrid::new(4).unwrap();
    assert!(grid.contains(point(0, 0, 0)));
    assert!(grid.contains(point(3, 3, 3)));
    assert!(!grid.contains(point(4, 0, 0)));
    assert!(!grid.contains(point(0, 0, 4)));
    assert!(grid.is_interior(point(1, 1, 1)));
    assert!(grid.is_interior(point(2, 2, 2)));
    assert!(!grid.is_interior(point(0, 1, 1)));
    assert!(!grid.is_interior(point(1, 3, 1)));
    assert!(!grid.is_interior(point(1, 1, 4)));
    let tiny = VoxelGrid::new(2).unwrap();
    assert!(!tiny.is_interior(point(0, 0, 0)));
    assert!(!tiny.is_interior(point(1, 1, 1)));
}

#[test]
fn from_cells_checks_length_and_border() {
    assert_eq!(VoxelGrid::from_cells(3, vec![Voxel(0); 26]).unwrap_err(), GridError::Length);
    assert_eq!(VoxelGrid::from_cells(3, vec![Voxel(0); 28]).unwrap_err(), GridError::Length);
    let mut cells = vec![Voxel(0); 27];
    cells[13] = Voxel(2);
    let grid = VoxelGrid::from_cells(3, cells.clone()).unwrap();
    assert_eq!(grid.get(point(1, 1, 1)), Voxel(2));
    assert_eq!(grid.cells(), &cells);
    for i in (0..27).filter(|&i| i != 13) {
        let mut bad = vec![Voxel(0); 27];
        bad[i] = Voxel(1);
        assert_eq!(VoxelGrid::from_cells(3, bad).unwrap_err(), GridError::Border);
    }
    assert_eq!(VoxelGrid::from_cells(1, vec![Voxel(1)]).unwrap_err(), GridError::Border);
    assert!(VoxelGrid::from_cells(1, vec![Voxel(0)]).is_ok());
}

#[test]
fn from_interior_places_voxels_in_scan_order() {
    let interior: Vec<Voxel> = (1..=8).map(Voxel).collect();
    let grid = VoxelGrid::from_interior(4, &interior).unwrap();
    assert_eq!(grid.dim(), 4);
    assert_eq!(grid.get(point(1, 1, 1)), Voxel(1));
    assert_eq!(grid.get(point(2, 1, 1)), Voxel(2));
    assert_eq!(grid.get(point(1, 2, 1)), Voxel(3));
    assert_eq!(grid.get(point(2, 2, 1)), Voxel(4));
    assert_eq!(grid.get(point(1, 1, 2)), Voxel(5));
    assert_eq!(grid.get(point(2, 1, 2)), Voxel(6));
    assert_eq!(grid.get(point(1, 2, 2)), Voxel(7));
    assert_eq!(grid.get(point(2, 2, 2)), Voxel(8));
    for z in 0..4 {
        for y in 0..4 {
            for x in 0..4 {
                if on_border(4, point(x, y, z)) {
                    assert_eq!(grid.get(point(x, y, z)), Voxel(0));
                }
            }
        }
    }
    assert_eq!(VoxelGrid::from_interior(4, &interior[..7].to_vec()).unwrap_err(), GridError::Length);
    assert_eq!(VoxelGrid::from_interior(2, &interior).unwrap_err(), GridError::Length);
    assert!(VoxelGrid::from_interior(2, &Vec::new()).is_ok());
    assert!(VoxelGrid::from_interior(3, &vec![Voxel(9)]).is_ok());
}

#[test]
fn random_grid_keeps_border_empty_and_codes_small() {
    let dim = 22;
    let grid = VoxelGrid::random(dim).unwrap();
    assert_eq!(grid.dim(), dim);
    assert_eq!(grid.cells().len(), 22 * 22 * 22);
    let mut seen = [0usize; 3];
    for z in 0..dim {
        for y in 0..dim {
            for x in 0..dim {
                let voxel = grid.get(point(x, y, z));
                assert!(voxel.0 < GENERATED_CODES);
                if on_border(dim, point(x, y, z)) {
                    assert_eq!(voxel, Voxel(0));
                } else {
                    seen[voxel.0 as usize] += 1;
                }
            }
        }
    }
    assert_eq!(seen.iter().sum::<usize>(), 20 * 20 * 20);
    // With 8000 draws from three codes, each code turns up.
    assert!(seen.iter().all(|&n| n > 0));
}

#[test]
fn random_small_grids_are_empty() {
    for dim in [1u32, 2] {
        let grid = VoxelGrid::random(dim).unwrap();
        assert!(grid.cells().iter().all(|v| *v == Voxel(0)));
    }
}
