//! Calls into the `block-mesh` and `rand` crates.
//!
//! Nothing in this module is proved: each contract restates what the called
//! function does, and the rest of the library is verified against it.

use crate::face::{face_at, Normal};
use crate::grid::{GridView, MAX_DIM};
use crate::lattice::{interior_points, volume, Point};
use crate::quads::culling_keeps_on;
use crate::texture::TexCoord;
use crate::voxel::Voxel;
use block_mesh::ndshape::RuntimeShape;
use block_mesh::{visible_block_faces, UnitQuadBuffer, UnorientedUnitQuad, RIGHT_HANDED_Y_UP_CONFIG};
use rand::Rng;
use vstd::prelude::*;

verus! {

/// `block_mesh::visible_block_faces` over the whole cube `[low, high]^3` of
/// a row-major cell array, with the faces of
/// `block_mesh::RIGHT_HANDED_Y_UP_CONFIG`.
///
/// The pass visits the interior cells along `x` first, then `y`, then `z`.
/// For each solid voxel and each face in turn it looks at the adjoining
/// cell, and appends the voxel's cell to that face's group when the
/// adjoining cell is empty, or is translucent while the voxel is opaque.
/// Group `f` of the result belongs to the face at position `f`.
#[verifier::external_body]
pub(crate) fn block_faces(cells: &Vec<Voxel>, dim: u32, low: u32, high: u32) -> (groups: Vec<
    Vec<Point>,
>)
    requires
        3 <= dim <= MAX_DIM,
        cells@.len() == volume(dim as int),
        low == 0,
        high == dim - 1,
    ensures
        groups@.len() == 6,
        forall|f: int|
            0 <= f < 6 ==> (#[trigger] groups@[f])@ == interior_points(dim as int).filter(
                culling_keeps_on(GridView { dim: dim as int, cells: cells@ }, face_at(f)),
            ),
{
    let mut buffer = UnitQuadBuffer::new();
    let shape = RuntimeShape::<u32, 3>::new([dim; 3]);
    let faces = &RIGHT_HANDED_Y_UP_CONFIG.faces;
    visible_block_faces(cells.as_slice(), &shape, [low; 3], [high; 3], faces, &mut buffer);
    buffer.groups.into_iter().map(
        |group|
            group.into_iter().map(
                |quad| Point { x: quad.minimum[0], y: quad.minimum[1], z: quad.minimum[2] },
            ).collect(),
    ).collect()
}

/// `block_mesh::OrientedBlockFace::quad_corners` of the unit quad at
/// `minimum`, on the face at `position` in
/// `block_mesh::RIGHT_HANDED_Y_UP_CONFIG`.
///
/// The first corner is `minimum`, moved one step along the normal's axis on
/// a positive face; the others add one step along `U`, along `V`, and along
/// both.
#[verifier::external_body]
pub(crate) fn quad_corners(position: usize, minimum: Point) -> (corners: [Point; 4])
    requires
        position < 6,
        minimum.x < u32::MAX,
        minimum.y < u32::MAX,
        minimum.z < u32::MAX,
    ensures
        corners@ == face_at(position as int).corners(minimum),
{
    let quad = UnorientedUnitQuad { minimum: [minimum.x, minimum.y, minimum.z] };
    let face = RIGHT_HANDED_Y_UP_CONFIG.faces[position];
    face.quad_corners(&quad.into()).map(|c| Point { x: c.x, y: c.y, z: c.z })
}

/// `block_mesh::OrientedBlockFace::signed_normal` of the face at `position`
/// in `block_mesh::RIGHT_HANDED_Y_UP_CONFIG`: the unit vector of the
/// normal's axis times the face's sign.
#[verifier::external_body]
pub(crate) fn signed_normal(position: usize) -> (normal: Normal)
    requires
        position < 6,
    ensures
        normal == face_at(position as int).normal(),
{
    let n = RIGHT_HANDED_Y_UP_CONFIG.faces[position].signed_normal();
    Normal { x: n.x, y: n.y, z: n.z }
}

/// `block_mesh::OrientedBlockFace::quad_mesh_indices` of the face at
/// `position` in `block_mesh::RIGHT_HANDED_Y_UP_CONFIG`: the six vertex
/// numbers of the quad's two triangles, counted from `start`, in the
/// winding that makes both triangles face outwards.
#[verifier::external_body]
pub(crate) fn quad_mesh_indices(position: usize, start: u32) -> (indices: [u32; 6])
    requires
        position < 6,
        start + 3 <= u32::MAX,
    ensures
        forall|j: int|
            0 <= j < 6 ==> #[trigger] indices@[j] == start + face_at(position as int).winding()[j],
{
    RIGHT_HANDED_Y_UP_CONFIG.faces[position].quad_mesh_indices(start)
}

/// `block_mesh::OrientedBlockFace::tex_coords` of the unit quad at `minimum`,
/// on the face at `position` in `block_mesh::RIGHT_HANDED_Y_UP_CONFIG`, with
/// that configuration's `u_flip_face`.
///
/// The result stretches the whole texture over the quad; each coordinate is
/// 0 or 1. `flip_v` puts the texture's origin at its top left.
#[verifier::external_body]
pub(crate) fn tex_coords(position: usize, flip_v: bool, minimum: Point) -> (coords: [TexCoord; 4])
    requires
        position < 6,
    ensures
        forall|j: int|
            0 <= j < 4 ==> (#[trigger] coords@[j]).u == face_at(position as int).unit_tex_coords(
                flip_v,
            )[j].0 && coords@[j].v == face_at(position as int).unit_tex_coords(flip_v)[j].1,
{
    let quad = UnorientedUnitQuad { minimum: [minimum.x, minimum.y, minimum.z] };
    let face = RIGHT_HANDED_Y_UP_CONFIG.faces[position];
    let u_flip_face = RIGHT_HANDED_Y_UP_CONFIG.u_flip_face;
    face.tex_coords(u_flip_face, flip_v, &quad.into()).map(
        |uv| TexCoord { u: uv[0] as u32, v: uv[1] as u32 },
    )
}

/// `rand::Rng::gen_range` on the thread-local generator of
/// `rand::thread_rng`, over `0..bound`: some value below `bound`.
#[verifier::external_body]
pub(crate) fn random_below(bound: u8) -> (value: u8)
    requires
        bound > 0,
    ensures
        value < bound,
{
    rand::thread_rng().gen_range(0..bound)
}

} // verus!
