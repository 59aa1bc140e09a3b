//! Face-culling mesher for cubic voxel volumes.
//!
//! A [`VoxelGrid`] holds one byte-sized [`Voxel`] per lattice cell. Meshing
//! turns every exposed voxel face into one unit [`Quad`] and assembles the
//! quads into a [`Mesh`] with texture-atlas coordinates and per-vertex
//! occlusion shading. All geometry is kept in exact integer units; callers
//! scale it to whatever their renderer expects.

mod backend;
pub mod face;
pub mod grid;
pub mod lattice;
pub mod mesh;
pub mod quads;
pub mod shade;
pub mod state;
pub mod texture;
pub mod voxel;

pub use face::{Axis, Face, Normal, FACE_COUNT};
pub use grid::{GridError, GridView, VoxelGrid, GENERATED_CODES, MAX_DIM};
pub use lattice::Point;
pub use mesh::{build_mesh, Mesh, MeshError, MeshView};
pub use quads::{visible_faces, Quad};
pub use shade::{ao_color, ao_convert, Rgba};
pub use state::AppState;
pub use texture::{quad_tex_corners, tile_offset, TexCoord, TEXTURE_SIZE, TILE_SIZE};
pub use voxel::{Visibility, Voxel};
