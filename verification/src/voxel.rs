//! Voxels and the part each type code plays in meshing.

use vstd::prelude::*;

verus! {

/// How a voxel influences mesh generation.
#[derive(Clone, Copy, Debug, PartialEq, Eq, Structural)]
pub enum Visibility {
    /// Produces no geometry.
    Empty,
    /// Produces geometry; light passes through.
    Translucent,
    /// Produces geometry; light does not pass through.
    Opaque,
}

/// One cell of a voxel volume, identified by its type code.
///
/// Code 0 is empty space, code 1 is translucent, every other code is opaque.
#[derive(Clone, Copy, Debug, PartialEq, Eq, Hash, Structural)]
pub struct Voxel(pub u8);

impl Voxel {
    /// Empty space.
    pub fn empty_voxel() -> (voxel: Voxel)
        ensures
            voxel == Voxel(0),
    {
        Voxel(0)
    }

    /// The translucent voxel.
    pub fn a1_voxel() -> (voxel: Voxel)
        ensures
            voxel == Voxel(1),
    {
        Voxel(1)
    }

    /// The first opaque voxel.
    pub fn a2_voxel() -> (voxel: Voxel)
        ensures
            voxel == Voxel(2),
    {
        Voxel(2)
    }

    /// The visibility class of this type code.
    pub open spec fn visibility(self) -> Visibility {
        if self.0 == 0 {
            Visibility::Empty
        } else if self.0 == 1 {
            Visibility::Translucent
        } else {
            Visibility::Opaque
        }
    }

    /// Whether this voxel produces any geometry at all.
    pub open spec fn is_solid(self) -> bool {
        self.0 != 0
    }

    /// The class under which coplanar faces of equal voxels may be merged.
    pub fn merge_value(&self) -> (value: u8)
        ensures
            value == self.0,
    {
        self.0
    }

    /// The merge class seen from a neighbouring voxel: twice the type code.
    pub fn merge_value_facing_neighbour(&self) -> (value: u8)
        requires
            self.0 <= 127,
        ensures
            value == 2 * self.0,
    {
        self.0 * 2
    }

    /// The visibility class of this voxel: empty for type code 0,
    /// translucent for type code 1, opaque for every other code.
    pub fn get_visibility(&self) -> (visibility: Visibility)
        ensures
            visibility == self.visibility(),
    {
        if self.0 == 0 {
            Visibility::Empty
        } else if self.0 == 1 {
            Visibility::Translucent
        } else {
            Visibility::Opaque
        }
    }
}

/// `block_mesh::VoxelVisibility`, which the meshing pass asks of every voxel.
#[verifier::external_type_specification]
pub struct ExVoxelVisibility(block_mesh::VoxelVisibility);

/// What `block_mesh` sees of a voxel: the visibility class of its type code.
impl block_mesh::Voxel for Voxel {
    fn get_visibility(&self) -> block_mesh::VoxelVisibility
        returns
            class_for_meshing(self.visibility()),
    {
        match Voxel::get_visibility(self) {
            Visibility::Empty => block_mesh::VoxelVisibility::Empty,
            Visibility::Translucent => block_mesh::VoxelVisibility::Translucent,
            Visibility::Opaque => block_mesh::VoxelVisibility::Opaque,
        }
    }
}

/// The `block_mesh` name of a visibility class.
pub open spec fn class_for_meshing(visibility: Visibility) -> block_mesh::VoxelVisibility {
    match visibility {
        Visibility::Empty => block_mesh::VoxelVisibility::Empty,
        Visibility::Translucent => block_mesh::VoxelVisibility::Translucent,
        Visibility::Opaque => block_mesh::VoxelVisibility::Opaque,
    }
}

impl Default for Voxel {
    fn default() -> (voxel: Self)
        ensures
            voxel == Voxel(0),
    {
        Voxel(0)
    }
}

} // verus!
