//! Visible-face meshing: one unit quad for every face of a solid voxel that
//! looks onto empty space.

use crate::backend::block_faces;
use crate::face::{face_at, Face, FACE_COUNT};
use crate::grid::{GridView, VoxelGrid};
use crate::lattice::{
    interior_points,
    lemma_index_of_cell,
    lemma_interior_points,
    lemma_interior_points_distinct,
    Point,
};
use vstd::prelude::*;

verus! {

/// One face of one voxel: the cell's minimum corner and the side it is on.
#[derive(Clone, Copy, Debug, PartialEq, Eq, Hash, Structural)]
pub struct Quad {
    pub face: Face,
    pub minimum: Point,
}

impl GridView {
    /// Whether face `face` of the voxel at `p` is to be drawn: the voxel is
    /// solid and the cell it looks onto is empty.
    pub open spec fn exposed(self, p: Point, face: Face) -> bool {
        self.at(p).is_solid() && !self.at(face.neighbor(p)).is_solid()
    }

    /// Whether the cell that the voxel at `p` looks onto through `face` is
    /// empty.
    pub open spec fn faces_empty(self, p: Point, face: Face) -> bool {
        !self.at(face.neighbor(p)).is_solid()
    }

    /// Whether a translucency-aware culling pass keeps face `face` of the
    /// voxel at `p`: the voxel is solid, and its neighbour is either empty or
    /// a translucent voxel in front of an opaque one.
    pub open spec fn culling_keeps(self, p: Point, face: Face) -> bool {
        let here = self.at(p).visibility();
        let there = self.at(face.neighbor(p)).visibility();
        !(here is Empty) && (there is Empty || (there is Translucent && here is Opaque))
    }
}

/// [`GridView::exposed`] as a predicate on cells.
pub open spec fn exposed_on(grid: GridView, face: Face) -> spec_fn(Point) -> bool {
    |p: Point| grid.exposed(p, face)
}

/// [`GridView::faces_empty`] as a predicate on cells.
pub open spec fn faces_empty_on(grid: GridView, face: Face) -> spec_fn(Point) -> bool {
    |p: Point| grid.faces_empty(p, face)
}

/// [`GridView::culling_keeps`] as a predicate on cells.
pub open spec fn culling_keeps_on(grid: GridView, face: Face) -> spec_fn(Point) -> bool {
    |p: Point| grid.culling_keeps(p, face)
}

/// The cells whose face `face` is drawn, in scan order.
pub open spec fn visible_cells(grid: GridView, face: Face) -> Seq<Point> {
    interior_points(grid.dim).filter(exposed_on(grid, face))
}

/// The quads on side `face` of the given cells.
pub open spec fn quads_on(face: Face, cells: Seq<Point>) -> Seq<Quad> {
    Seq::new(cells.len(), |i: int| Quad { face, minimum: cells[i] })
}

/// The quads of the first `count` faces in meshing order.
pub open spec fn quads_through(grid: GridView, count: int) -> Seq<Quad>
    decreases count,
{
    if count <= 0 {
        Seq::empty()
    } else {
        quads_through(grid, count - 1) + quads_on(
            face_at(count - 1),
            visible_cells(grid, face_at(count - 1)),
        )
    }
}

/// All quads of the grid: face by face in meshing order, and within one
/// face in scan order of the cells.
pub open spec fn visible_quads(grid: GridView) -> Seq<Quad> {
    quads_through(grid, FACE_COUNT as int)
}

/// Filtering twice keeps what a single filter by both predicates keeps.
pub proof fn lemma_filter_twice<A>(
    s: Seq<A>,
    first: spec_fn(A) -> bool,
    second: spec_fn(A) -> bool,
    both: spec_fn(A) -> bool,
)
    requires
        forall|a: A| #[trigger] both(a) <==> first(a) && second(a),
    ensures
        s.filter(first).filter(second) == s.filter(both),
    decreases s.len(),
{
    reveal(Seq::filter);
    if s.len() > 0 {
        let rest = s.drop_last();
        lemma_filter_twice(rest, first, second, both);
        if first(s.last()) {
            rest.filter(first).lemma_filter_push(s.last(), second);
        }
    }
}

/// A quad is among the quads on `face` of `cells` exactly if it is on that
/// face and its cell is among `cells`.
pub proof fn lemma_quads_on_contains(face: Face, cells: Seq<Point>, quad: Quad)
    ensures
        quads_on(face, cells).contains(quad) <==> (quad.face == face && cells.contains(
            quad.minimum,
        )),
{
    let quads = quads_on(face, cells);
    if quads.contains(quad) {
        let i = choose|i: int| 0 <= i < quads.len() && quads[i] == quad;
        assert(cells[i] == quad.minimum);
    }
    if quad.face == face && cells.contains(quad.minimum) {
        let i = choose|i: int| 0 <= i < cells.len() && cells[i] == quad.minimum;
        assert(quads[i] == quad);
    }
}

/// A cell has its face `face` drawn exactly if it is an interior cell whose
/// voxel is solid and looks onto an empty cell.
pub proof fn lemma_visible_cells_contains(grid: GridView, face: Face, p: Point)
    requires
        grid.dim <= u32::MAX,
    ensures
        visible_cells(grid, face).contains(p) <==> (grid.interior(p) && grid.exposed(p, face)),
{
    let points = interior_points(grid.dim);
    let keep = exposed_on(grid, face);
    lemma_interior_points(grid.dim, p);
    if points.filter(keep).contains(p) {
        points.lemma_filter_contains_rev(keep, p);
        let i = choose|i: int| 0 <= i < points.filter(keep).len() && points.filter(keep)[i] == p;
        points.lemma_filter_pred(keep, i);
    }
    if grid.interior(p) && grid.exposed(p, face) {
        let j = choose|j: int| 0 <= j < points.len() && points[j] == p;
        points.lemma_filter_contains(keep, j);
    }
}

/// A grid too small to have interior cells has no quads.
pub proof fn lemma_small_grid_has_no_quads(grid: GridView, count: int)
    requires
        grid.dim < 3,
    ensures
        quads_through(grid, count) == Seq::<Quad>::empty(),
    decreases count,
{
    reveal(Seq::filter);
    if count > 0 {
        lemma_small_grid_has_no_quads(grid, count - 1);
        let face = face_at(count - 1);
        assert(visible_cells(grid, face) == Seq::<Point>::empty());
        assert(quads_through(grid, count) =~= Seq::<Quad>::empty());
    }
}

/// Meshes the grid: one unit quad for every face of a solid voxel that
/// looks onto an empty cell, and no other quad.
///
/// The quads come face by face in meshing order; within one face, by
/// ascending `z`, then `y`, then `x` of their cell.
pub fn visible_faces(grid: &VoxelGrid) -> (quads: Vec<Quad>)
    requires
        grid@.wf(),
    ensures
        quads@ == visible_quads(grid@),
        forall|i: int|
            0 <= i < quads@.len() ==> {
                let quad = #[trigger] quads@[i];
                &&& grid@.interior(quad.minimum)
                &&& grid@.at(quad.minimum).is_solid()
                &&& !grid@.at(quad.face.neighbor(quad.minimum)).is_solid()
            },
{
    let mut quads: Vec<Quad> = Vec::new();
    let dim = grid.dim();
    proof {
        assert forall|i: int| 0 <= i < visible_quads(grid@).len() implies {
            let quad = #[trigger] visible_quads(grid@)[i];
            &&& grid@.interior(quad.minimum)
            &&& grid@.at(quad.minimum).is_solid()
            &&& !grid@.at(quad.face.neighbor(quad.minimum)).is_solid()
        } by {
            lemma_quads_are_exposed(grid@, i);
        }
    }
    if dim < 3 {
        proof {
            lemma_small_grid_has_no_quads(grid@, FACE_COUNT as int);
        }
        return quads;
    }
    let faces = Face::all();
    let groups = block_faces(grid.cells(), dim, 0, dim - 1);
    let mut f: usize = 0;
    while f < FACE_COUNT
        invariant
            f <= FACE_COUNT,
            grid@.wf(),
            3 <= dim == grid@.dim,
            groups@.len() == 6,
            forall|i: int| 0 <= i < 6 ==> #[trigger] faces@[i] == face_at(i),
            forall|g: int|
                0 <= g < 6 ==> (#[trigger] groups@[g])@ == interior_points(dim as int).filter(
                    culling_keeps_on(grid@, face_at(g)),
                ),
            quads@ == quads_through(grid@, f as int),
        decreases FACE_COUNT - f,
    {
        let face = faces[f];
        let group = &groups[f];
        let ghost before = quads@;
        let ghost keep = faces_empty_on(grid@, face);
        let ghost points = interior_points(dim as int);
        let mut i: usize = 0;
        while i < group.len()
            invariant
                i <= group@.len(),
                grid@.wf(),
                3 <= dim == grid@.dim,
                points == interior_points(dim as int),
                keep == faces_empty_on(grid@, face),
                group@ == points.filter(culling_keeps_on(grid@, face)),
                quads@ == before + quads_on(face, group@.take(i as int).filter(keep)),
            decreases group@.len() - i,
        {
            let p = group[i];
            proof {
                points.lemma_filter_contains_rev(culling_keeps_on(grid@, face), p);
                lemma_interior_points(dim as int, p);
            }
            let there = grid.get(face.neighbor_of(p));
            proof {
                let seen = group@.take(i as int);
                assert(group@.take(i + 1) == seen.push(p));
                seen.lemma_filter_push(p, keep);
            }
            if there.0 == 0 {
                quads.push(Quad { face, minimum: p });
            }
            i += 1;
        }
        proof {
            assert(group@.take(group@.len() as int) == group@);
            lemma_filter_twice(
                points,
                culling_keeps_on(grid@, face),
                keep,
                exposed_on(grid@, face),
            );
        }
        f += 1;
    }
    quads
}

/// No quad is emitted for an empty voxel, none towards a solid neighbour,
/// and none outside the interior of the grid.
pub proof fn lemma_quads_are_exposed(grid: GridView, i: int)
    requires
        grid.wf(),
        0 <= i < visible_quads(grid).len(),
    ensures
        grid.interior(visible_quads(grid)[i].minimum),
        grid.at(visible_quads(grid)[i].minimum).is_solid(),
        !grid.at(visible_quads(grid)[i].face.neighbor(visible_quads(grid)[i].minimum)).is_solid(),
{
    let quad = visible_quads(grid)[i];
    assert(visible_quads(grid).contains(quad));
    lemma_quads_through_contains(grid, FACE_COUNT as int, quad);
}

/// Every face of a solid voxel that looks onto an empty cell is meshed.
pub proof fn lemma_exposed_faces_are_meshed(grid: GridView, p: Point, face: Face)
    requires
        grid.wf(),
        grid.contains(p),
        grid.exposed(p, face),
    ensures
        visible_quads(grid).contains(Quad { face, minimum: p }),
{
    assert(!grid.on_border(p));
    lemma_quads_through_contains(grid, FACE_COUNT as int, Quad { face, minimum: p });
}

/// A quad is among those of the first `count` faces exactly if its face is
/// one of them and its cell is an interior cell whose voxel is solid and
/// looks onto an empty cell.
pub proof fn lemma_quads_through_contains(grid: GridView, count: int, quad: Quad)
    requires
        grid.dim <= u32::MAX,
        0 <= count <= FACE_COUNT,
    ensures
        quads_through(grid, count).contains(quad) <==> (quad.face.ordinal() < count
            && grid.interior(quad.minimum) && grid.exposed(quad.minimum, quad.face)),
    decreases count,
{
    if count > 0 {
        let face = face_at(count - 1);
        let earlier = quads_through(grid, count - 1);
        let latest = quads_on(face, visible_cells(grid, face));
        lemma_quads_through_contains(grid, count - 1, quad);
        lemma_quads_on_contains(face, visible_cells(grid, face), quad);
        lemma_visible_cells_contains(grid, face, quad.minimum);
        if (earlier + latest).contains(quad) {
            let k = choose|k: int| 0 <= k < (earlier + latest).len() && (earlier + latest)[k] == quad;
            if k < earlier.len() {
                assert(earlier[k] == quad);
            } else {
                assert(latest[k - earlier.len()] == quad);
            }
        }
        if earlier.contains(quad) {
            let k = choose|k: int| 0 <= k < earlier.len() && earlier[k] == quad;
            assert((earlier + latest)[k] == quad);
        }
        if latest.contains(quad) {
            let k = choose|k: int| 0 <= k < latest.len() && latest[k] == quad;
            assert((earlier + latest)[earlier.len() + k] == quad);
        }
    }
}

/// Filtering a sequence without repetitions leaves no repetitions.
pub proof fn lemma_filter_distinct<A>(s: Seq<A>, keep: spec_fn(A) -> bool)
    requires
        s.no_duplicates(),
    ensures
        s.filter(keep).no_duplicates(),
    decreases s.len(),
{
    reveal(Seq::filter);
    if s.len() > 0 {
        let rest = s.drop_last();
        let kept = rest.filter(keep);
        lemma_filter_distinct(rest, keep);
        if keep(s.last()) {
            assert forall|i: int| 0 <= i < kept.len() implies kept[i] != s.last() by {
                if kept[i] == s.last() {
                    assert(kept.contains(s.last()));
                    rest.lemma_filter_contains_rev(keep, s.last());
                    let j = choose|j: int| 0 <= j < rest.len() && rest[j] == s.last();
                    assert(s[j] == s[s.len() - 1]);
                }
            }
        }
    }
}

/// No quad is listed twice among those of the first `count` faces.
pub proof fn lemma_quads_distinct(grid: GridView, count: int)
    requires
        grid.dim <= u32::MAX,
        0 <= count <= FACE_COUNT,
    ensures
        quads_through(grid, count).no_duplicates(),
    decreases count,
{
    if count > 0 {
        let face = face_at(count - 1);
        let cells = visible_cells(grid, face);
        let earlier = quads_through(grid, count - 1);
        let latest = quads_on(face, cells);
        lemma_quads_distinct(grid, count - 1);
        lemma_interior_points_distinct(grid.dim);
        lemma_filter_distinct(interior_points(grid.dim), exposed_on(grid, face));
        assert forall|i: int, j: int| 0 <= i < earlier.len() && 0 <= j < latest.len() implies earlier[i]
            != latest[j] by {
            assert(earlier.contains(earlier[i]));
            lemma_quads_through_contains(grid, count - 1, earlier[i]);
        }
        vstd::seq_lib::lemma_no_dup_in_concat(earlier, latest);
    }
}

/// Each face of a solid voxel that looks onto an empty cell is meshed
/// exactly once: the quads hold it, and hold nothing twice.
pub proof fn lemma_each_face_meshed_once(grid: GridView, p: Point, face: Face)
    requires
        grid.wf(),
        grid.contains(p),
        grid.exposed(p, face),
    ensures
        visible_quads(grid).contains(Quad { face, minimum: p }),
        visible_quads(grid).no_duplicates(),
{
    lemma_exposed_faces_are_meshed(grid, p, face);
    lemma_quads_distinct(grid, FACE_COUNT as int);
}

/// A grid without solid voxels has no quads.
pub proof fn lemma_empty_grid_has_no_quads(grid: GridView)
    requires
        grid.wf(),
        forall|i: int| 0 <= i < grid.cells.len() ==> !(#[trigger] grid.cells[i]).is_solid(),
    ensures
        visible_quads(grid).len() == 0,
{
    if visible_quads(grid).len() > 0 {
        let p = visible_quads(grid)[0].minimum;
        lemma_quads_are_exposed(grid, 0);
        lemma_index_of_cell(grid.dim, p.x as int, p.y as int, p.z as int);
    }
}

} // verus!
