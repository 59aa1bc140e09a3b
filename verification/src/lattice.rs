//! Lattice points and the row-major layout of a cubic volume.
//!
//! A cube of side `side` stores the cell at `(x, y, z)` at linear index
//! `x + side * (y + side * z)`: stepping through the storage walks `x` first,
//! then `y`, then `z`.

use vstd::arithmetic::div_mod::{
    lemma_fundamental_div_mod,
    lemma_fundamental_div_mod_converse,
    lemma_multiply_divide_lt,
};
use vstd::prelude::*;

verus! {

/// A point of the integer lattice with non-negative coordinates.
#[derive(Clone, Copy, Debug, PartialEq, Eq, Hash, Structural)]
pub struct Point {
    pub x: u32,
    pub y: u32,
    pub z: u32,
}

/// The number of cells in a cube of the given side.
pub open spec fn volume(side: int) -> int {
    side * (side * side)
}

/// Whether all three coordinates lie in `[0, side)`.
pub open spec fn in_cube(side: int, x: int, y: int, z: int) -> bool {
    0 <= x < side && 0 <= y < side && 0 <= z < side
}

/// Row-major linear index of `(x, y, z)` in a cube of the given side.
pub open spec fn linear_index(side: int, x: int, y: int, z: int) -> int {
    x + side * (y + side * z)
}

/// The coordinates stored at linear index `i` in a cube of the given side.
pub open spec fn coords_of(side: int, i: int) -> (int, int, int) {
    (i % side, (i / side) % side, (i / side) / side)
}

/// Linear indices of cells inside the cube are in range, and taking the
/// coordinates of the index gives the cell back.
pub proof fn lemma_index_of_cell(side: int, x: int, y: int, z: int)
    requires
        in_cube(side, x, y, z),
    ensures
        0 <= linear_index(side, x, y, z) < volume(side),
        coords_of(side, linear_index(side, x, y, z)) == (x, y, z),
{
    let row = y + side * z;
    let i = x + side * row;
    assert(0 <= side * z <= side * (side - 1)) by (nonlinear_arith)
        requires
            0 <= z <= side - 1,
            0 < side,
    ;
    assert(0 <= row <= side * side - 1) by (nonlinear_arith)
        requires
            0 <= y <= side - 1,
            0 <= side * z <= side * (side - 1),
            row == y + side * z,
    ;
    assert(0 <= i <= side * (side * side) - 1) by (nonlinear_arith)
        requires
            0 <= x <= side - 1,
            0 <= row <= side * side - 1,
            0 < side,
            i == x + side * row,
    ;
    assert(i == row * side + x) by (nonlinear_arith)
        requires
            i == x + side * row,
    ;
    lemma_fundamental_div_mod_converse(i, side, row, x);
    assert(row == z * side + y) by (nonlinear_arith)
        requires
            row == y + side * z,
    ;
    lemma_fundamental_div_mod_converse(row, side, z, y);
}

/// Every linear index below the volume belongs to exactly the cell that
/// `coords_of` names.
pub proof fn lemma_cell_of_index(side: int, i: int)
    requires
        0 < side,
        0 <= i < volume(side),
    ensures
        ({
            let (x, y, z) = coords_of(side, i);
            in_cube(side, x, y, z) && linear_index(side, x, y, z) == i
        }),
{
    let row = i / side;
    lemma_fundamental_div_mod(i, side);
    lemma_fundamental_div_mod(row, side);
    lemma_multiply_divide_lt(i, side, side * side);
    lemma_multiply_divide_lt(row, side, side);
    assert(0 <= row) by (nonlinear_arith)
        requires
            0 <= i,
            0 < side,
            row == i / side,
    ;
    assert(0 <= row / side) by (nonlinear_arith)
        requires
            0 <= row,
            0 < side,
    ;
}

/// Two cells of the cube with the same linear index are the same cell.
pub proof fn lemma_index_injective(side: int, a: (int, int, int), b: (int, int, int))
    requires
        in_cube(side, a.0, a.1, a.2),
        in_cube(side, b.0, b.1, b.2),
        linear_index(side, a.0, a.1, a.2) == linear_index(side, b.0, b.1, b.2),
    ensures
        a == b,
{
    lemma_index_of_cell(side, a.0, a.1, a.2);
    lemma_index_of_cell(side, b.0, b.1, b.2);
}

/// The `j`-th interior cell of a cube of side `dim`, counting along `x`
/// first, then `y`, then `z`. Interior cells are those with every
/// coordinate in `[1, dim - 2]`.
pub open spec fn interior_point(dim: int, j: int) -> Point {
    let (x, y, z) = coords_of(dim - 2, j);
    Point { x: (x + 1) as u32, y: (y + 1) as u32, z: (z + 1) as u32 }
}

/// The number of interior cells of a cube of side `dim`.
pub open spec fn interior_count(dim: int) -> int {
    if dim < 3 {
        0
    } else {
        volume(dim - 2)
    }
}

/// All interior cells of a cube of side `dim` in scan order.
pub open spec fn interior_points(dim: int) -> Seq<Point> {
    Seq::new(interior_count(dim) as nat, |j: int| interior_point(dim, j))
}

/// The interior cells are exactly the cells with every coordinate in
/// `[1, dim - 2]`.
pub proof fn lemma_interior_points(dim: int, p: Point)
    requires
        dim <= u32::MAX,
    ensures
        interior_points(dim).contains(p) <==> (1 <= p.x <= dim - 2 && 1 <= p.y <= dim - 2 && 1
            <= p.z <= dim - 2),
{
    let side = dim - 2;
    let points = interior_points(dim);
    if points.contains(p) {
        let j = choose|j: int| 0 <= j < points.len() && points[j] == p;
        lemma_cell_of_index(side, j);
    }
    if 1 <= p.x <= dim - 2 && 1 <= p.y <= dim - 2 && 1 <= p.z <= dim - 2 {
        let j = linear_index(side, p.x - 1, p.y - 1, p.z - 1);
        lemma_index_of_cell(side, p.x - 1, p.y - 1, p.z - 1);
        assert(points[j] == p);
    }
}

/// No interior cell is listed twice.
pub proof fn lemma_interior_points_distinct(dim: int)
    requires
        dim <= u32::MAX,
    ensures
        interior_points(dim).no_duplicates(),
{
    let points = interior_points(dim);
    assert forall|i: int, j: int|
        0 <= i < points.len() && 0 <= j < points.len() && i != j implies points[i] != points[j] by {
        lemma_cell_of_index(dim - 2, i);
        lemma_cell_of_index(dim - 2, j);
    }
}

} // verus!
