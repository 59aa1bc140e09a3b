//! Texture-atlas coordinates of a quad, chosen by the type code of its
//! voxel.
//!
//! The atlas is a square of [`TEXTURE_SIZE`] texels holding square tiles of
//! [`TILE_SIZE`] texels. A type code with a tile shows the tile on the
//! diagonal of the atlas whose far corner is `tile` tiles from the origin.
//! A type code without a tile shows the whole atlas.

use crate::backend::tex_coords;
use crate::face::Face;
use crate::lattice::Point;
use crate::voxel::Voxel;
use vstd::prelude::*;

verus! {

/// Side length of one atlas tile, in texels.
pub const TILE_SIZE: u32 = 64;

/// Side length of the whole atlas, in texels.
pub const TEXTURE_SIZE: u32 = 1024;

/// A position in the texture atlas, in texels from its origin.
///
/// Dividing both components by [`TEXTURE_SIZE`] gives the usual coordinates
/// in `[0, 1]`.
#[derive(Clone, Copy, Debug, PartialEq, Eq, Hash, Structural)]
pub struct TexCoord {
    pub u: u32,
    pub v: u32,
}

/// The atlas tile of a type code: tile 10 for code 1, tile 16 for code 2,
/// none for any other code.
pub open spec fn tile_of(voxel: Voxel) -> Option<int> {
    if voxel.0 == 1 {
        Some(10)
    } else if voxel.0 == 2 {
        Some(16)
    } else {
        None
    }
}

/// The corners of a tile, in the corner order of a quad.
pub open spec fn tile_corners(tile: int) -> Seq<TexCoord> {
    let low = ((tile - 1) * TILE_SIZE) as u32;
    let high = (tile * TILE_SIZE) as u32;
    seq![
        TexCoord { u: low, v: low },
        TexCoord { u: high, v: low },
        TexCoord { u: low, v: high },
        TexCoord { u: high, v: high },
    ]
}

/// The corners of the whole atlas as face `face` shows it.
pub open spec fn atlas_corners(face: Face) -> Seq<TexCoord> {
    Seq::new(
        4,
        |j: int|
            TexCoord {
                u: (face.unit_tex_coords(true)[j].0 * TEXTURE_SIZE) as u32,
                v: (face.unit_tex_coords(true)[j].1 * TEXTURE_SIZE) as u32,
            },
    )
}

/// The texture coordinates of the four corners of a quad on `face` of the
/// given voxel.
pub open spec fn quad_tex_coords(voxel: Voxel, face: Face) -> Seq<TexCoord> {
    match tile_of(voxel) {
        Some(tile) => tile_corners(tile),
        None => atlas_corners(face),
    }
}

/// The atlas tile of a voxel's type code, if it has one.
pub fn tile_offset(voxel: Voxel) -> (tile: Option<u32>)
    ensures
        match tile_of(voxel) {
            Some(t) => tile == Some(t as u32),
            None => tile.is_none(),
        },
{
    if voxel.0 == 1 {
        Some(10)
    } else if voxel.0 == 2 {
        Some(16)
    } else {
        None
    }
}

/// The texture coordinates of the four corners of the quad at `minimum` on
/// `face`, for the given voxel.
///
/// Type code 1 maps to the square from 9/16 to 10/16 of the atlas in both
/// directions, type code 2 to the square from 15/16 to 16/16. A code
/// without a tile keeps the coordinates that stretch the whole atlas over
/// the face.
pub fn quad_tex_corners(voxel: Voxel, face: Face, minimum: Point) -> (corners: [TexCoord; 4])
    ensures
        corners@ == quad_tex_coords(voxel, face),
        voxel.0 == 1 ==> corners@ == seq![
            TexCoord { u: 576, v: 576 },
            TexCoord { u: 640, v: 576 },
            TexCoord { u: 576, v: 640 },
            TexCoord { u: 640, v: 640 },
        ],
        voxel.0 == 2 ==> corners@ == seq![
            TexCoord { u: 960, v: 960 },
            TexCoord { u: 1024, v: 960 },
            TexCoord { u: 960, v: 1024 },
            TexCoord { u: 1024, v: 1024 },
        ],
{
    match tile_offset(voxel) {
        Some(tile) => {
            let low: u32 = (tile - 1) * TILE_SIZE;
            let high: u32 = tile * TILE_SIZE;
            let corners = [
                TexCoord { u: low, v: low },
                TexCoord { u: high, v: low },
                TexCoord { u: low, v: high },
                TexCoord { u: high, v: high },
            ];
            assert(corners@ =~= quad_tex_coords(voxel, face));
            corners
        },
        None => {
            let unit = tex_coords(face.index(), true, minimum);
            let corners = [
                TexCoord { u: unit[0].u * TEXTURE_SIZE, v: unit[0].v * TEXTURE_SIZE },
                TexCoord { u: unit[1].u * TEXTURE_SIZE, v: unit[1].v * TEXTURE_SIZE },
                TexCoord { u: unit[2].u * TEXTURE_SIZE, v: unit[2].v * TEXTURE_SIZE },
                TexCoord { u: unit[3].u * TEXTURE_SIZE, v: unit[3].v * TEXTURE_SIZE },
            ];
            assert(corners@ =~= quad_tex_coords(voxel, face));
            corners
        },
    }
}

/// In sixteenths of the atlas, the tile of type code 1 spans 9 to 10 and the
/// tile of type code 2 spans 15 to 16, in both directions.
pub proof fn lemma_tile_fractions(voxel: Voxel, face: Face, j: int)
    requires
        0 <= j < 4,
    ensures
        voxel.0 == 1 ==> {
            let c = quad_tex_coords(voxel, face)[j];
            &&& 16 * c.u == if j == 1 || j == 3 {
                10 * TEXTURE_SIZE
            } else {
                9 * TEXTURE_SIZE
            }
            &&& 16 * c.v == if j == 2 || j == 3 {
                10 * TEXTURE_SIZE
            } else {
                9 * TEXTURE_SIZE
            }
        },
        voxel.0 == 2 ==> {
            let c = quad_tex_coords(voxel, face)[j];
            &&& 16 * c.u == if j == 1 || j == 3 {
                16 * TEXTURE_SIZE
            } else {
                15 * TEXTURE_SIZE
            }
            &&& 16 * c.v == if j == 2 || j == 3 {
                16 * TEXTURE_SIZE
            } else {
                15 * TEXTURE_SIZE
            }
        },
{
}

} // verus!
