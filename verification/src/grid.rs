//! The voxel volume: a cube of voxels whose outermost layer stays empty.

use crate::backend::random_below;
use crate::lattice::{
    coords_of,
    in_cube,
    interior_count,
    interior_point,
    lemma_cell_of_index,
    lemma_index_injective,
    lemma_index_of_cell,
    linear_index,
    volume,
    Point,
};
use crate::voxel::Voxel;
use vstd::prelude::*;

verus! {

/// The largest supported side length: the cube of any larger side has more
/// cells than a 32-bit linear index can address.
pub const MAX_DIM: u32 = 1625;

/// The number of type codes that a generated grid draws from: the codes
/// below this number.
pub const GENERATED_CODES: u8 = 3;

/// Why a grid could not be built or changed.
#[derive(Clone, Copy, Debug, PartialEq, Eq, Structural)]
pub enum GridError {
    /// The side length is zero or exceeds [`MAX_DIM`].
    Dimension,
    /// The number of cells is not the cube of the side length.
    Length,
    /// A solid voxel would sit in the outermost layer.
    Border,
    /// The point lies outside the grid.
    OutOfBounds,
}

/// The mathematical content of a [`VoxelGrid`].
pub struct GridView {
    /// Side length of the cube.
    pub dim: int,
    /// The voxels in row-major order.
    pub cells: Seq<Voxel>,
}

impl GridView {
    /// Whether `p` names a cell of the grid.
    pub open spec fn contains(self, p: Point) -> bool {
        p.x < self.dim && p.y < self.dim && p.z < self.dim
    }

    /// Whether `p` has a coordinate on the first or last layer of some axis.
    pub open spec fn on_border(self, p: Point) -> bool {
        ||| p.x == 0
        ||| p.y == 0
        ||| p.z == 0
        ||| p.x == self.dim - 1
        ||| p.y == self.dim - 1
        ||| p.z == self.dim - 1
    }

    /// Whether `p` is a cell with a neighbour on every side.
    pub open spec fn interior(self, p: Point) -> bool {
        self.contains(p) && !self.on_border(p)
    }

    /// The position of cell `p` in `cells`.
    pub open spec fn index_of(self, p: Point) -> int {
        linear_index(self.dim, p.x as int, p.y as int, p.z as int)
    }

    /// The voxel stored at `p`.
    pub open spec fn at(self, p: Point) -> Voxel {
        self.cells[self.index_of(p)]
    }

    /// The border invariant: no solid voxel in the outermost layer.
    pub open spec fn border_empty(self) -> bool {
        forall|p: Point| self.contains(p) && self.on_border(p) ==> !(#[trigger] self.at(p)).is_solid()
    }

    /// Well-formedness: a supported side length, one voxel per cell, and an
    /// empty border.
    pub open spec fn wf(self) -> bool {
        &&& 1 <= self.dim <= MAX_DIM
        &&& self.cells.len() == volume(self.dim)
        &&& self.border_empty()
    }

    /// The grid with the voxel at `p` replaced by `voxel`.
    pub open spec fn with_voxel(self, p: Point, voxel: Voxel) -> GridView {
        GridView { dim: self.dim, cells: self.cells.update(self.index_of(p), voxel) }
    }
}

/// What [`VoxelGrid::from_cells`] makes of a side length and a cell sequence.
pub open spec fn checked_cells(dim: int, cells: Seq<Voxel>) -> Result<GridView, GridError> {
    let grid = GridView { dim, cells };
    if !(1 <= dim <= MAX_DIM) {
        Err(GridError::Dimension)
    } else if cells.len() != volume(dim) {
        Err(GridError::Length)
    } else if !grid.border_empty() {
        Err(GridError::Border)
    } else {
        Ok(grid)
    }
}

/// The cells of a cube of side `dim` whose interior cells hold `interior` in
/// scan order and whose border is empty.
pub open spec fn filled_cells(dim: int, interior: Seq<Voxel>) -> Seq<Voxel> {
    Seq::new(
        volume(dim) as nat,
        |i: int|
            {
                let (x, y, z) = coords_of(dim, i);
                if in_cube(dim - 2, x - 1, y - 1, z - 1) {
                    interior[linear_index(dim - 2, x - 1, y - 1, z - 1)]
                } else {
                    Voxel(0)
                }
            },
    )
}

/// What [`VoxelGrid::from_interior`] makes of a side length and the voxels
/// of the interior.
pub open spec fn checked_interior(dim: int, interior: Seq<Voxel>) -> Result<GridView, GridError> {
    if !(1 <= dim <= MAX_DIM) {
        Err(GridError::Dimension)
    } else if interior.len() != interior_count(dim) {
        Err(GridError::Length)
    } else {
        Ok(GridView { dim, cells: filled_cells(dim, interior) })
    }
}

/// The cube of a supported side length fits a 32-bit index.
pub proof fn lemma_volume_bound(dim: int)
    requires
        1 <= dim <= MAX_DIM,
    ensures
        1 <= dim * dim <= 2640625,
        1 <= volume(dim) <= 4291015625,
        volume(dim) <= u32::MAX,
{
    assert(1 <= dim * dim <= 2640625) by (nonlinear_arith)
        requires
            1 <= dim <= 1625,
    ;
    assert(1 <= dim * (dim * dim) <= 4291015625) by (nonlinear_arith)
        requires
            1 <= dim <= 1625,
            1 <= dim * dim <= 2640625,
    ;
}

/// A cube of voxels addressed by lattice points, with an empty border.
#[derive(Clone, Debug, PartialEq, Eq)]
pub struct VoxelGrid {
    dim: u32,
    cells: Vec<Voxel>,
}

impl View for VoxelGrid {
    type V = GridView;

    closed spec fn view(&self) -> GridView {
        GridView { dim: self.dim as int, cells: self.cells@ }
    }
}

impl VoxelGrid {
    /// An all-empty grid of side `dim`, if that side length is supported.
    pub fn new(dim: u32) -> (grid: Option<VoxelGrid>)
        ensures
            grid.is_some() <==> 1 <= dim <= MAX_DIM,
            grid matches Some(g) ==> {
                &&& g@.wf()
                &&& g@.dim == dim
                &&& forall|i: int| 0 <= i < g@.cells.len() ==> g@.cells[i] == Voxel(0)
            },
    {
        if dim < 1 || dim > MAX_DIM {
            return None;
        }
        proof {
            lemma_volume_bound(dim as int);
        }
        let side: usize = dim as usize;
        let count: usize = side * (side * side);
        let mut cells: Vec<Voxel> = Vec::with_capacity(count);
        let mut i: usize = 0;
        while i < count
            invariant
                i <= count,
                cells@.len() == i,
                forall|j: int| 0 <= j < i ==> cells@[j] == Voxel(0),
            decreases count - i,
        {
            cells.push(Voxel(0));
            i += 1;
        }
        let grid = VoxelGrid { dim, cells };
        proof {
            assert forall|p: Point| grid@.contains(p) && grid@.on_border(p) implies !(
            #[trigger] grid@.at(p)).is_solid() by {
                lemma_index_of_cell(dim as int, p.x as int, p.y as int, p.z as int);
            }
        }
        Some(grid)
    }

    /// A grid over the given cells in row-major order.
    ///
    /// Rejects an unsupported side length, a cell count that is not the cube
    /// of the side, and cells that put a solid voxel on the border.
    pub fn from_cells(dim: u32, cells: Vec<Voxel>) -> (grid: Result<VoxelGrid, GridError>)
        ensures
            match checked_cells(dim as int, cells@) {
                Ok(view) => grid matches Ok(g) && g@ == view && g@.wf(),
                Err(error) => grid matches Err(e) && e == error,
            },
    {
        if dim < 1 || dim > MAX_DIM {
            return Err(GridError::Dimension);
        }
        proof {
            lemma_volume_bound(dim as int);
        }
        let side: usize = dim as usize;
        let count: usize = side * (side * side);
        if cells.len() != count {
            return Err(GridError::Length);
        }
        let ghost view = GridView { dim: dim as int, cells: cells@ };
        let mut i: usize = 0;
        while i < count
            invariant
                1 <= dim <= MAX_DIM,
                side == dim,
                count == volume(dim as int),
                cells@.len() == count,
                i <= count,
                view == (GridView { dim: dim as int, cells: cells@ }),
                forall|p: Point|
                    view.contains(p) && view.on_border(p) && view.index_of(p) < i ==> !(
                    #[trigger] view.at(p)).is_solid(),
            decreases count - i,
        {
            let x: usize = i % side;
            let y: usize = (i / side) % side;
            let z: usize = (i / side) / side;
            let last: usize = side - 1;
            let border = x == 0 || y == 0 || z == 0 || x == last || y == last || z == last;
            proof {
                lemma_cell_of_index(dim as int, i as int);
            }
            if border && cells[i].0 != 0 {
                proof {
                    let p = Point { x: x as u32, y: y as u32, z: z as u32 };
                    assert(view.at(p).is_solid());
                }
                return Err(GridError::Border);
            }
            proof {
                assert forall|p: Point|
                    view.contains(p) && view.on_border(p) && view.index_of(p) < i + 1 implies !(
                #[trigger] view.at(p)).is_solid() by {
                    if view.index_of(p) == i {
                        lemma_index_of_cell(dim as int, p.x as int, p.y as int, p.z as int);
                    }
                }
            }
            i += 1;
        }
        proof {
            assert forall|p: Point| view.contains(p) && view.on_border(p) implies !(
            #[trigger] view.at(p)).is_solid() by {
                lemma_index_of_cell(dim as int, p.x as int, p.y as int, p.z as int);
            }
        }
        Ok(VoxelGrid { dim, cells })
    }

    /// A grid of side `dim` whose interior cells hold `interior` in scan
    /// order (along `x` first, then `y`, then `z`) and whose border is empty.
    ///
    /// Rejects an unsupported side length, and a voxel count other than the
    /// number of interior cells.
    pub fn from_interior(dim: u32, interior: &Vec<Voxel>) -> (grid: Result<VoxelGrid, GridError>)
        ensures
            match checked_interior(dim as int, interior@) {
                Ok(view) => grid matches Ok(g) && g@ == view && g@.wf(),
                Err(error) => grid matches Err(e) && e == error,
            },
    {
        if dim < 1 || dim > MAX_DIM {
            return Err(GridError::Dimension);
        }
        proof {
            lemma_volume_bound(dim as int);
            if dim >= 3 {
                lemma_volume_bound(dim - 2);
            }
        }
        let side: usize = dim as usize;
        let inner: usize = if dim < 3 {
            0
        } else {
            side - 2
        };
        let inner_count: usize = if dim < 3 {
            0
        } else {
            inner * (inner * inner)
        };
        if interior.len() != inner_count {
            return Err(GridError::Length);
        }
        let count: usize = side * (side * side);
        let ghost target = filled_cells(dim as int, interior@);
        let mut cells: Vec<Voxel> = Vec::with_capacity(count);
        let mut i: usize = 0;
        while i < count
            invariant
                1 <= dim <= MAX_DIM,
                side == dim,
                dim >= 3 ==> inner == dim - 2,
                count == volume(dim as int),
                interior@.len() == interior_count(dim as int),
                target == filled_cells(dim as int, interior@),
                i <= count,
                cells@ == target.take(i as int),
            decreases count - i,
        {
            let x: usize = i % side;
            let y: usize = (i / side) % side;
            let z: usize = (i / side) / side;
            proof {
                lemma_cell_of_index(dim as int, i as int);
            }
            let voxel = if 1 <= x && 1 <= y && 1 <= z && x + 1 < side && y + 1 < side && z + 1
                < side {
                proof {
                    lemma_volume_bound(dim - 2);
                    lemma_index_of_cell(dim - 2, x - 1, y - 1, z - 1);
                    assert(0 <= inner * (z - 1) <= (y - 1) + inner * (z - 1) <= linear_index(
                        dim - 2,
                        x - 1,
                        y - 1,
                        z - 1,
                    )) by (nonlinear_arith)
                        requires
                            1 <= x,
                            1 <= y,
                            1 <= z,
                            1 <= inner == dim - 2,
                    ;
                }
                interior[(x - 1) + inner * ((y - 1) + inner * (z - 1))]
            } else {
                Voxel(0)
            };
            cells.push(voxel);
            assert(cells@ =~= target.take(i + 1));
            i += 1;
        }
        assert(cells@ =~= target);
        let grid = VoxelGrid { dim, cells };
        proof {
            assert forall|p: Point| grid@.contains(p) && grid@.on_border(p) implies !(
            #[trigger] grid@.at(p)).is_solid() by {
                lemma_index_of_cell(dim as int, p.x as int, p.y as int, p.z as int);
            }
        }
        Ok(grid)
    }

    /// A grid of side `dim` whose interior cells each hold a type code drawn
    /// at random from the codes below [`GENERATED_CODES`], if that side
    /// length is supported. The border stays empty.
    pub fn random(dim: u32) -> (grid: Option<VoxelGrid>)
        ensures
            grid.is_some() <==> 1 <= dim <= MAX_DIM,
            grid matches Some(g) ==> {
                &&& g@.wf()
                &&& g@.dim == dim
                &&& forall|i: int| 0 <= i < g@.cells.len() ==> g@.cells[i].0 < GENERATED_CODES
            },
    {
        if dim < 1 || dim > MAX_DIM {
            return None;
        }
        proof {
            if dim >= 3 {
                lemma_volume_bound(dim - 2);
            }
        }
        let inner: usize = if dim < 3 {
            0
        } else {
            (dim - 2) as usize
        };
        let inner_count: usize = if dim < 3 {
            0
        } else {
            inner * (inner * inner)
        };
        let mut interior: Vec<Voxel> = Vec::with_capacity(inner_count);
        let mut j: usize = 0;
        while j < inner_count
            invariant
                j <= inner_count,
                interior@.len() == j,
                forall|k: int| 0 <= k < j ==> interior@[k].0 < GENERATED_CODES,
            decreases inner_count - j,
        {
            interior.push(Voxel(random_below(GENERATED_CODES)));
            j += 1;
        }
        match VoxelGrid::from_interior(dim, &interior) {
            Ok(grid) => {
                proof {
                    assert forall|i: int| 0 <= i < grid@.cells.len() implies grid@.cells[i].0
                        < GENERATED_CODES by {
                        let (x, y, z) = coords_of(dim as int, i);
                        if in_cube(dim - 2, x - 1, y - 1, z - 1) {
                            lemma_index_of_cell(dim - 2, x - 1, y - 1, z - 1);
                        }
                    }
                }
                Some(grid)
            },
            Err(_) => None,
        }
    }

    /// The side length.
    pub fn dim(&self) -> (dim: u32)
        ensures
            dim == self@.dim,
    {
        self.dim
    }

    /// The voxels in row-major order.
    pub fn cells(&self) -> (cells: &Vec<Voxel>)
        ensures
            cells@ == self@.cells,
    {
        &self.cells
    }

    /// Whether `p` names a cell of this grid.
    pub fn contains(&self, p: Point) -> (inside: bool)
        ensures
            inside == self@.contains(p),
    {
        p.x < self.dim && p.y < self.dim && p.z < self.dim
    }

    /// Whether `p` names a cell that has a neighbour on every side.
    pub fn is_interior(&self, p: Point) -> (inside: bool)
        ensures
            inside == self@.interior(p),
    {
        self.contains(p) && 1 <= p.x && 1 <= p.y && 1 <= p.z && p.x + 1 < self.dim && p.y + 1
            < self.dim && p.z + 1 < self.dim
    }

    /// The position of cell `p` in the row-major cell sequence.
    pub fn linearize(&self, p: Point) -> (index: u32)
        requires
            self@.wf(),
            self@.contains(p),
        ensures
            index == self@.index_of(p),
            index < self@.cells.len(),
    {
        proof {
            lemma_volume_bound(self.dim as int);
            lemma_index_of_cell(self.dim as int, p.x as int, p.y as int, p.z as int);
            assert(0 <= p.y + self.dim * p.z <= linear_index(
                self.dim as int,
                p.x as int,
                p.y as int,
                p.z as int,
            )) by (nonlinear_arith)
                requires
                    0 <= p.x,
                    0 <= p.y,
                    0 <= p.z,
                    1 <= self.dim,
            ;
            assert(0 <= self.dim * p.z <= p.y + self.dim * p.z) by (nonlinear_arith)
                requires
                    0 <= p.y,
                    0 <= p.z,
                    1 <= self.dim,
            ;
        }
        p.x + self.dim * (p.y + self.dim * p.z)
    }

    /// The voxel stored at `p`.
    pub fn get(&self, p: Point) -> (voxel: Voxel)
        requires
            self@.wf(),
            self@.contains(p),
        ensures
            voxel == self@.at(p),
    {
        let index = self.linearize(p);
        self.cells[index as usize]
    }

    /// Stores `voxel` at `p`.
    ///
    /// Rejects a point outside the grid, and a solid voxel on the border;
    /// the grid is then left as it was.
    pub fn set(&mut self, p: Point, voxel: Voxel) -> (outcome: Result<(), GridError>)
        requires
            old(self)@.wf(),
        ensures
            final(self)@.wf(),
            !old(self)@.contains(p) ==> outcome == Err::<(), GridError>(GridError::OutOfBounds)
                && final(self)@ == old(self)@,
            old(self)@.contains(p) && old(self)@.on_border(p) && voxel.is_solid() ==> outcome
                == Err::<(), GridError>(GridError::Border) && final(self)@ == old(self)@,
            old(self)@.contains(p) && !(old(self)@.on_border(p) && voxel.is_solid()) ==> outcome
                == Ok::<(), GridError>(()) && final(self)@ == old(self)@.with_voxel(p, voxel),
    {
        if !self.contains(p) {
            return Err(GridError::OutOfBounds);
        }
        let last: u32 = self.dim - 1;
        let border = p.x == 0 || p.y == 0 || p.z == 0 || p.x == last || p.y == last || p.z
            == last;
        if border && voxel.0 != 0 {
            return Err(GridError::Border);
        }
        let index = self.linearize(p);
        let ghost before = self@;
        self.cells.set(index as usize, voxel);
        proof {
            let after = self@;
            assert forall|q: Point| after.contains(q) && after.on_border(q) implies !(
            #[trigger] after.at(q)).is_solid() by {
                lemma_index_of_cell(before.dim, q.x as int, q.y as int, q.z as int);
                if before.index_of(q) == before.index_of(p) {
                    lemma_index_injective(
                        before.dim,
                        (q.x as int, q.y as int, q.z as int),
                        (p.x as int, p.y as int, p.z as int),
                    );
                } else {
                    assert(before.at(q) == after.at(q));
                }
            }
        }
        Ok(())
    }
}

/// Replacing one voxel leaves every other cell as it was.
pub proof fn lemma_with_voxel_at(grid: GridView, p: Point, voxel: Voxel, q: Point)
    requires
        grid.wf(),
        grid.contains(p),
        grid.contains(q),
    ensures
        grid.with_voxel(p, voxel).at(q) == if q == p {
            voxel
        } else {
            grid.at(q)
        },
{
    lemma_index_of_cell(grid.dim, p.x as int, p.y as int, p.z as int);
    lemma_index_of_cell(grid.dim, q.x as int, q.y as int, q.z as int);
    if grid.index_of(q) == grid.index_of(p) {
        lemma_index_injective(
            grid.dim,
            (q.x as int, q.y as int, q.z as int),
            (p.x as int, p.y as int, p.z as int),
        );
    }
}

/// In a grid built from its interior, the `j`-th interior cell holds the
/// `j`-th voxel handed in.
pub proof fn lemma_filled_interior(dim: int, interior: Seq<Voxel>, j: int)
    requires
        3 <= dim <= MAX_DIM,
        interior.len() == interior_count(dim),
        0 <= j < interior.len(),
    ensures
        (GridView { dim, cells: filled_cells(dim, interior) }).interior(interior_point(dim, j)),
        (GridView { dim, cells: filled_cells(dim, interior) }).at(interior_point(dim, j))
            == interior[j],
{
    let p = interior_point(dim, j);
    lemma_cell_of_index(dim - 2, j);
    lemma_index_of_cell(dim, p.x as int, p.y as int, p.z as int);
}

} // verus!
