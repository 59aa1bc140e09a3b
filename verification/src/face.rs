//! The six faces of a unit cube in a right-handed coordinate system with
//! the Y axis pointing up, and the geometry of a unit quad on each.
//!
//! Every face has a local frame `{N, U, V}`: `N` is the axis of its normal,
//! `U` and `V` span the face. The four corners of a quad are listed as
//! `(min U, min V)`, `(max U, min V)`, `(min U, max V)`, `(max U, max V)`.

use crate::lattice::Point;
use vstd::prelude::*;

verus! {

/// One of the three coordinate axes.
#[derive(Clone, Copy, Debug, PartialEq, Eq, Hash, Structural)]
pub enum Axis {
    X,
    Y,
    Z,
}

/// A vector with signed integer components.
#[derive(Clone, Copy, Debug, PartialEq, Eq, Hash, Structural)]
pub struct Normal {
    pub x: i32,
    pub y: i32,
    pub z: i32,
}

/// A face of the unit cube, named by the direction of its outward normal.
///
/// The variants stand in the order in which faces are meshed.
#[derive(Clone, Copy, Debug, PartialEq, Eq, Hash, Structural)]
pub enum Face {
    NegX,
    NegY,
    NegZ,
    PosX,
    PosY,
    PosZ,
}

/// The number of faces of a cube.
pub const FACE_COUNT: usize = 6;

/// `p` moved by `by` along `axis`.
pub open spec fn shifted(p: Point, axis: Axis, by: int) -> Point {
    match axis {
        Axis::X => Point { x: (p.x + by) as u32, y: p.y, z: p.z },
        Axis::Y => Point { x: p.x, y: (p.y + by) as u32, z: p.z },
        Axis::Z => Point { x: p.x, y: p.y, z: (p.z + by) as u32 },
    }
}

/// The face with the given position in meshing order.
pub open spec fn face_at(ordinal: int) -> Face {
    if ordinal == 0 {
        Face::NegX
    } else if ordinal == 1 {
        Face::NegY
    } else if ordinal == 2 {
        Face::NegZ
    } else if ordinal == 3 {
        Face::PosX
    } else if ordinal == 4 {
        Face::PosY
    } else {
        Face::PosZ
    }
}

impl Face {
    /// The position of this face in meshing order.
    pub open spec fn ordinal(self) -> int {
        match self {
            Face::NegX => 0,
            Face::NegY => 1,
            Face::NegZ => 2,
            Face::PosX => 3,
            Face::PosY => 4,
            Face::PosZ => 5,
        }
    }

    /// The axis `N` of the normal.
    pub open spec fn axis(self) -> Axis {
        match self {
            Face::NegX | Face::PosX => Axis::X,
            Face::NegY | Face::PosY => Axis::Y,
            Face::NegZ | Face::PosZ => Axis::Z,
        }
    }

    /// Whether the normal points towards larger coordinates.
    pub open spec fn positive(self) -> bool {
        self is PosX || self is PosY || self is PosZ
    }

    /// The sign of the normal: `1` or `-1`.
    pub open spec fn sign(self) -> int {
        if self.positive() {
            1
        } else {
            -1
        }
    }

    /// The axis `U` of the face frame.
    pub open spec fn u_axis(self) -> Axis {
        match self.axis() {
            Axis::X => Axis::Z,
            Axis::Y => Axis::Z,
            Axis::Z => Axis::X,
        }
    }

    /// The axis `V` of the face frame.
    pub open spec fn v_axis(self) -> Axis {
        match self.axis() {
            Axis::X => Axis::Y,
            Axis::Y => Axis::X,
            Axis::Z => Axis::Y,
        }
    }

    /// The outward unit normal.
    pub open spec fn normal(self) -> Normal {
        match self {
            Face::NegX => Normal { x: -1i32, y: 0, z: 0 },
            Face::NegY => Normal { x: 0, y: -1i32, z: 0 },
            Face::NegZ => Normal { x: 0, y: 0, z: -1i32 },
            Face::PosX => Normal { x: 1, y: 0, z: 0 },
            Face::PosY => Normal { x: 0, y: 1, z: 0 },
            Face::PosZ => Normal { x: 0, y: 0, z: 1 },
        }
    }

    /// The cell that touches cell `p` through this face.
    pub open spec fn neighbor(self, p: Point) -> Point {
        shifted(p, self.axis(), self.sign())
    }

    /// The four corners of the unit quad that covers this face of the cell
    /// with minimum corner `minimum`.
    pub open spec fn corners(self, minimum: Point) -> Seq<Point> {
        let base = if self.positive() {
            shifted(minimum, self.axis(), 1)
        } else {
            minimum
        };
        seq![
            base,
            shifted(base, self.u_axis(), 1),
            shifted(base, self.v_axis(), 1),
            shifted(shifted(base, self.u_axis(), 1), self.v_axis(), 1),
        ]
    }

    /// Whether listing the corners in order walks the quad counter-clockwise
    /// when seen from outside the cube.
    pub open spec fn counter_clockwise(self) -> bool {
        self is NegX || self is PosY || self is PosZ
    }

    /// The corner numbers of the two triangles of a quad, wound so that both
    /// face outwards.
    pub open spec fn winding(self) -> Seq<int> {
        if self.counter_clockwise() {
            seq![0, 1, 2, 1, 3, 2]
        } else {
            seq![0, 2, 1, 1, 2, 3]
        }
    }

    /// Whether the texture runs against the `U` axis on this face.
    pub open spec fn flips_u(self) -> bool {
        self is NegY || self is NegZ || self is PosX
    }

    /// Texture coordinates of the four corners when the whole texture is
    /// stretched over the face, in units of the texture's side. With
    /// `flip_v` the texture's origin is at its top left, else at its bottom
    /// left.
    pub open spec fn unit_tex_coords(self, flip_v: bool) -> Seq<(int, int)> {
        if self.flips_u() {
            if flip_v {
                seq![(1, 1), (0, 1), (1, 0), (0, 0)]
            } else {
                seq![(1, 0), (0, 0), (1, 1), (0, 1)]
            }
        } else {
            if flip_v {
                seq![(0, 1), (1, 1), (0, 0), (1, 0)]
            } else {
                seq![(0, 0), (1, 0), (0, 1), (1, 1)]
            }
        }
    }

    /// All six faces in meshing order.
    pub fn all() -> (faces: [Face; 6])
        ensures
            forall|i: int| 0 <= i < 6 ==> #[trigger] faces@[i] == face_at(i),
    {
        [Face::NegX, Face::NegY, Face::NegZ, Face::PosX, Face::PosY, Face::PosZ]
    }

    /// The cell that touches cell `p` through this face.
    pub fn neighbor_of(self, p: Point) -> (q: Point)
        requires
            1 <= p.x < u32::MAX,
            1 <= p.y < u32::MAX,
            1 <= p.z < u32::MAX,
        ensures
            q == self.neighbor(p),
    {
        match self {
            Face::NegX => Point { x: p.x - 1, y: p.y, z: p.z },
            Face::NegY => Point { x: p.x, y: p.y - 1, z: p.z },
            Face::NegZ => Point { x: p.x, y: p.y, z: p.z - 1 },
            Face::PosX => Point { x: p.x + 1, y: p.y, z: p.z },
            Face::PosY => Point { x: p.x, y: p.y + 1, z: p.z },
            Face::PosZ => Point { x: p.x, y: p.y, z: p.z + 1 },
        }
    }

    /// The position of this face in meshing order.
    pub fn index(self) -> (index: usize)
        ensures
            index == self.ordinal(),
            index < FACE_COUNT,
            face_at(index as int) == self,
    {
        match self {
            Face::NegX => 0,
            Face::NegY => 1,
            Face::NegZ => 2,
            Face::PosX => 3,
            Face::PosY => 4,
            Face::PosZ => 5,
        }
    }

    /// The face at the given position in meshing order, if there is one.
    pub fn from_index(index: usize) -> (face: Option<Face>)
        ensures
            face.is_some() <==> index < FACE_COUNT,
            face matches Some(f) ==> f == face_at(index as int) && f.ordinal() == index,
    {
        if index == 0 {
            Some(Face::NegX)
        } else if index == 1 {
            Some(Face::NegY)
        } else if index == 2 {
            Some(Face::NegZ)
        } else if index == 3 {
            Some(Face::PosX)
        } else if index == 4 {
            Some(Face::PosY)
        } else if index == 5 {
            Some(Face::PosZ)
        } else {
            None
        }
    }
}

} // verus!
