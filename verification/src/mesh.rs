//! Assembly of quads into a triangle mesh.
//!
//! Every quad contributes four vertices and six indices of its own; no
//! vertex is shared between quads. Vertex attributes are exact integers:
//! positions in voxel units, texture coordinates in texels, colours in
//! hundredths.

use crate::backend::{quad_corners, quad_mesh_indices, signed_normal};
use crate::face::Normal;
use crate::grid::{GridView, VoxelGrid};
use crate::lattice::Point;
use crate::quads::{lemma_quads_are_exposed, visible_quads, Quad};
use crate::shade::{ao_convert, swatches, Rgba};
use crate::texture::{quad_tex_coords, quad_tex_corners, TexCoord};
use vstd::prelude::*;

verus! {

/// Why a mesh could not be assembled.
#[derive(Clone, Copy, Debug, PartialEq, Eq, Structural)]
pub enum MeshError {
    /// The quads have more vertices than a 32-bit index can number.
    TooManyVertices,
    /// The number of occlusion samples is not four per quad.
    OcclusionLength,
    /// A quad names a cell outside the grid.
    QuadOutsideGrid,
}

/// A triangle mesh of unit quads.
#[derive(Clone, Debug, PartialEq, Eq)]
pub struct Mesh {
    /// Vertex positions in voxel units, four per quad.
    pub positions: Vec<Point>,
    /// Vertex normals, four per quad and the same for all four.
    pub normals: Vec<Normal>,
    /// Vertex texture coordinates in texels, four per quad.
    pub tex_coords: Vec<TexCoord>,
    /// Vertex colours, four per quad.
    pub colors: Vec<Rgba>,
    /// Triangle corners as vertex numbers, six per quad.
    pub indices: Vec<u32>,
    /// The voxel each quad belongs to, one per quad.
    pub voxels: Vec<crate::voxel::Voxel>,
}

/// The mathematical content of a [`Mesh`].
pub struct MeshView {
    pub positions: Seq<Point>,
    pub normals: Seq<Normal>,
    pub tex_coords: Seq<TexCoord>,
    pub colors: Seq<Rgba>,
    pub indices: Seq<u32>,
    pub voxels: Seq<crate::voxel::Voxel>,
}

impl View for Mesh {
    type V = MeshView;

    open spec fn view(&self) -> MeshView {
        MeshView {
            positions: self.positions@,
            normals: self.normals@,
            tex_coords: self.tex_coords@,
            colors: self.colors@,
            indices: self.indices@,
            voxels: self.voxels@,
        }
    }
}

impl Mesh {
    /// The number of quads in the mesh.
    pub fn num_quads(&self) -> (count: usize)
        ensures
            count == self@.voxels.len(),
    {
        self.voxels.len()
    }

    /// The number of vertices in the mesh.
    pub fn num_vertices(&self) -> (count: usize)
        ensures
            count == self@.positions.len(),
    {
        self.positions.len()
    }

    /// The number of indices in the mesh.
    pub fn num_indices(&self) -> (count: usize)
        ensures
            count == self@.indices.len(),
    {
        self.indices.len()
    }
}

/// The mesh of the given quads over `grid`, shaded by the occlusion
/// samples `ao`.
///
/// Vertex `4 * k + j` is corner `j` of quad `k`; index `6 * k + j` is corner
/// `j` of the two triangles of quad `k`.
pub open spec fn mesh_of(grid: GridView, quads: Seq<Quad>, ao: Seq<u8>) -> MeshView {
    MeshView {
        positions: Seq::new(
            4 * quads.len(),
            |i: int| quads[i / 4].face.corners(quads[i / 4].minimum)[i % 4],
        ),
        normals: Seq::new(4 * quads.len(), |i: int| quads[i / 4].face.normal()),
        tex_coords: Seq::new(
            4 * quads.len(),
            |i: int| quad_tex_coords(grid.at(quads[i / 4].minimum), quads[i / 4].face)[i % 4],
        ),
        colors: swatches(ao),
        indices: Seq::new(
            6 * quads.len(),
            |i: int| (4 * (i / 6) + quads[i / 6].face.winding()[i % 6]) as u32,
        ),
        voxels: Seq::new(quads.len(), |k: int| grid.at(quads[k].minimum)),
    }
}

/// What [`build_mesh`] makes of a grid, quads and occlusion samples.
pub open spec fn assembled(grid: GridView, quads: Seq<Quad>, ao: Seq<u8>) -> Result<
    MeshView,
    MeshError,
> {
    if 4 * quads.len() > u32::MAX {
        Err(MeshError::TooManyVertices)
    } else if ao.len() != 4 * quads.len() {
        Err(MeshError::OcclusionLength)
    } else if exists|k: int| 0 <= k < quads.len() && !grid.contains((#[trigger] quads[k]).minimum) {
        Err(MeshError::QuadOutsideGrid)
    } else {
        Ok(mesh_of(grid, quads, ao))
    }
}

/// Assembles quads into a mesh, in the order given.
///
/// Positions, normals and winding of a quad follow from its face; its
/// texture coordinates from the type code of the voxel at its cell; the colour
/// of its `j`-th corner from sample `4 * k + j` of `ao`, where `k` is the
/// quad's place in `quads`.
///
/// Fails if the vertices cannot be numbered with 32 bits, if `ao` does not
/// hold four samples per quad, or if a quad lies outside the grid, in this
/// order of precedence.
pub fn build_mesh(grid: &VoxelGrid, quads: &Vec<Quad>, ao: Vec<u8>) -> (mesh: Result<
    Mesh,
    MeshError,
>)
    requires
        grid@.wf(),
    ensures
        match assembled(grid@, quads@, ao@) {
            Ok(view) => mesh matches Ok(m) && m@ == view,
            Err(error) => mesh matches Err(e) && e == error,
        },
        mesh matches Ok(m) ==> {
            &&& m@.positions.len() == 4 * quads@.len()
            &&& m@.normals.len() == 4 * quads@.len()
            &&& m@.tex_coords.len() == 4 * quads@.len()
            &&& m@.colors.len() == 4 * quads@.len()
            &&& m@.indices.len() == 6 * quads@.len()
            &&& m@.voxels.len() == quads@.len()
        },
{
    let count = quads.len();
    if count > 0x3fff_ffff {
        return Err(MeshError::TooManyVertices);
    }
    if ao.len() != 4 * count {
        return Err(MeshError::OcclusionLength);
    }
    let mut positions: Vec<Point> = Vec::with_capacity(4 * count);
    let mut normals: Vec<Normal> = Vec::with_capacity(4 * count);
    let mut tex_coords: Vec<TexCoord> = Vec::with_capacity(4 * count);
    let mut indices: Vec<u32> = if count <= usize::MAX / 6 {
        Vec::with_capacity(6 * count)
    } else {
        Vec::new()
    };
    let mut voxels: Vec<crate::voxel::Voxel> = Vec::with_capacity(count);
    let ghost full = mesh_of(grid@, quads@, ao@);
    let mut k: usize = 0;
    while k < count
        invariant
            k <= count == quads@.len() <= 0x3fff_ffff,
            ao@.len() == 4 * count,
            grid@.wf(),
            full == mesh_of(grid@, quads@, ao@),
            forall|j: int| 0 <= j < k ==> grid@.contains((#[trigger] quads@[j]).minimum),
            positions@ == full.positions.take(4 * k),
            normals@ == full.normals.take(4 * k),
            tex_coords@ == full.tex_coords.take(4 * k),
            indices@ == full.indices.take(6 * k),
            voxels@ == full.voxels.take(k as int),
        decreases count - k,
    {
        let quad = quads[k];
        if !grid.contains(quad.minimum) {
            return Err(MeshError::QuadOutsideGrid);
        }
        let start: u32 = (4 * k) as u32;
        let position = quad.face.index();
        let winding = quad_mesh_indices(position, start);
        let corners = quad_corners(position, quad.minimum);
        let normal = signed_normal(position);
        let voxel = grid.get(quad.minimum);
        let texels = quad_tex_corners(voxel, quad.face, quad.minimum);
        indices.push(winding[0]);
        indices.push(winding[1]);
        indices.push(winding[2]);
        indices.push(winding[3]);
        indices.push(winding[4]);
        indices.push(winding[5]);
        positions.push(corners[0]);
        positions.push(corners[1]);
        positions.push(corners[2]);
        positions.push(corners[3]);
        normals.push(normal);
        normals.push(normal);
        normals.push(normal);
        normals.push(normal);
        tex_coords.push(texels[0]);
        tex_coords.push(texels[1]);
        tex_coords.push(texels[2]);
        tex_coords.push(texels[3]);
        voxels.push(voxel);
        proof {
            assert(positions@ =~= full.positions.take(4 * (k + 1)));
            assert(normals@ =~= full.normals.take(4 * (k + 1)));
            assert(tex_coords@ =~= full.tex_coords.take(4 * (k + 1)));
            assert(indices@ =~= full.indices.take(6 * (k + 1)));
            assert(voxels@ =~= full.voxels.take(k + 1));
        }
        k += 1;
    }
    let colors = ao_convert(ao, 4 * count);
    proof {
        assert(positions@ =~= full.positions);
        assert(normals@ =~= full.normals);
        assert(tex_coords@ =~= full.tex_coords);
        assert(indices@ =~= full.indices);
        assert(voxels@ =~= full.voxels);
    }
    Ok(Mesh { positions, normals, tex_coords, colors, indices, voxels })
}

/// A mesh has four vertices and six indices for each of its quads.
pub proof fn lemma_mesh_sizes(grid: GridView, quads: Seq<Quad>, ao: Seq<u8>)
    requires
        assembled(grid, quads, ao) is Ok,
    ensures
        ({
            let mesh = assembled(grid, quads, ao)->Ok_0;
            &&& mesh.positions.len() == 4 * quads.len()
            &&& mesh.normals.len() == 4 * quads.len()
            &&& mesh.tex_coords.len() == 4 * quads.len()
            &&& mesh.colors.len() == 4 * quads.len()
            &&& mesh.indices.len() == 6 * quads.len()
            &&& mesh.voxels.len() == quads.len()
        }),
{
}

/// Vertex `4 * k + j` of a mesh is corner `j` of its quad `k`, and index
/// `6 * k + j` is the `j`-th triangle corner of that quad: every four
/// consecutive vertices belong to one quad, and every six consecutive
/// indices name vertices of one quad.
pub proof fn lemma_mesh_of_quad(grid: GridView, quads: Seq<Quad>, ao: Seq<u8>, k: int)
    requires
        assembled(grid, quads, ao) is Ok,
        0 <= k < quads.len(),
    ensures
        ({
            let mesh = assembled(grid, quads, ao)->Ok_0;
            let quad = quads[k];
            let voxel = grid.at(quad.minimum);
            &&& mesh.voxels[k] == voxel
            &&& mesh.positions.subrange(4 * k, 4 * k + 4) == quad.face.corners(quad.minimum)
            &&& mesh.normals.subrange(4 * k, 4 * k + 4) == Seq::new(4, |j: int| quad.face.normal())
            &&& mesh.tex_coords.subrange(4 * k, 4 * k + 4) == quad_tex_coords(voxel, quad.face)
            &&& mesh.colors.subrange(4 * k, 4 * k + 4) == swatches(ao.subrange(4 * k, 4 * k + 4))
            &&& forall|j: int|
                0 <= j < 6 ==> #[trigger] mesh.indices[6 * k + j] == 4 * k + quad.face.winding()[j]
            &&& forall|j: int| 0 <= j < 6 ==> 4 * k <= #[trigger] mesh.indices[6 * k + j] < 4 * k + 4
        }),
{
    let mesh = assembled(grid, quads, ao)->Ok_0;
    let quad = quads[k];
    let voxel = grid.at(quad.minimum);
    assert(mesh.positions.subrange(4 * k, 4 * k + 4) =~= quad.face.corners(quad.minimum));
    assert(mesh.normals.subrange(4 * k, 4 * k + 4) =~= Seq::new(4, |j: int| quad.face.normal()));
    assert(mesh.tex_coords.subrange(4 * k, 4 * k + 4) =~= quad_tex_coords(voxel, quad.face));
    assert(mesh.colors.subrange(4 * k, 4 * k + 4) =~= swatches(ao.subrange(4 * k, 4 * k + 4)));
    assert forall|j: int| 0 <= j < 6 implies #[trigger] mesh.indices[6 * k + j] == 4 * k
        + quad.face.winding()[j] by {
        assert((6 * k + j) / 6 == k && (6 * k + j) % 6 == j);
    }
    assert forall|j: int| 0 <= j < 6 implies 4 * k <= #[trigger] mesh.indices[6 * k + j] < 4 * k
        + 4 by {
        assert(mesh.indices[6 * k + j] == 4 * k + quad.face.winding()[j]);
    }
}

/// The quads that [`visible_quads`] gives for a well-formed grid always
/// assemble, provided their vertices can be numbered and there are four
/// occlusion samples for each.
pub proof fn lemma_visible_quads_assemble(grid: GridView, ao: Seq<u8>)
    requires
        grid.wf(),
        4 * visible_quads(grid).len() <= u32::MAX,
        ao.len() == 4 * visible_quads(grid).len(),
    ensures
        assembled(grid, visible_quads(grid), ao) == Ok::<MeshView, MeshError>(
            mesh_of(grid, visible_quads(grid), ao),
        ),
{
    let quads = visible_quads(grid);
    assert forall|k: int| 0 <= k < quads.len() implies grid.contains((#[trigger] quads[k]).minimum) by {
        lemma_quads_are_exposed(grid, k);
    }
}

/// Meshing is a function of the grid and the occlusion samples alone:
/// whatever two runs on the same input return, they return the same.
pub proof fn lemma_meshing_is_repeatable(
    grid: GridView,
    ao: Seq<u8>,
    first_quads: Seq<Quad>,
    second_quads: Seq<Quad>,
    first: Result<MeshView, MeshError>,
    second: Result<MeshView, MeshError>,
)
    requires
        first_quads == visible_quads(grid),
        second_quads == visible_quads(grid),
        first == assembled(grid, first_quads, ao),
        second == assembled(grid, second_quads, ao),
    ensures
        first_quads == second_quads,
        first == second,
{
}

} // verus!
