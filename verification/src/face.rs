//! The six faces of the cube and their axes.

use vstd::prelude::*;

verus! {

/// One of the six faces of the cube.  The declaration order fixes a total
/// order on faces (via [`Face::rank`]) that the move canonicalisation and the
/// coordinate functions rely on.
#[derive(Clone, Copy, PartialEq, Eq, Structural, Debug, Hash)]
pub enum Face {
    Front,
    Back,
    Left,
    Right,
    Up,
    Down,
}

/// The three rotation axes; each axis carries an opposite pair of faces.
#[derive(Clone, Copy, PartialEq, Eq, Structural, Debug)]
pub enum Axis {
    UD,
    FB,
    LR,
}

impl Face {
    /// The axis the face belongs to.
    pub open spec fn axis_spec(self) -> Axis {
        match self {
            Face::Up | Face::Down => Axis::UD,
            Face::Front | Face::Back => Axis::FB,
            Face::Left | Face::Right => Axis::LR,
        }
    }

    /// The position of the face in the fixed total order.
    pub open spec fn rank_spec(self) -> int {
        match self {
            Face::Front => 0,
            Face::Back => 1,
            Face::Left => 2,
            Face::Right => 3,
            Face::Up => 4,
            Face::Down => 5,
        }
    }

    /// The axis the face belongs to.
    pub fn axis(self) -> (r: Axis)
        ensures
            r == self.axis_spec(),
    {
        match self {
            Face::Up | Face::Down => Axis::UD,
            Face::Front | Face::Back => Axis::FB,
            Face::Left | Face::Right => Axis::LR,
        }
    }

    /// The position of the face in the fixed total order.
    pub fn rank(self) -> (r: u8)
        ensures
            r as int == self.rank_spec(),
    {
        match self {
            Face::Front => 0,
            Face::Back => 1,
            Face::Left => 2,
            Face::Right => 3,
            Face::Up => 4,
            Face::Down => 5,
        }
    }

    /// Whether two faces lie on the same axis.
    pub fn same_axis(a: Face, b: Face) -> (r: bool)
        ensures
            r == (a.axis_spec() == b.axis_spec()),
    {
        let ax = a.axis();
        let bx = b.axis();
        match (ax, bx) {
            (Axis::UD, Axis::UD) => true,
            (Axis::FB, Axis::FB) => true,
            (Axis::LR, Axis::LR) => true,
            _ => false,
        }
    }

    /// All six faces, in declaration order.
    pub fn all() -> (r: Vec<Face>)
        ensures
            r@ == all_faces(),
    {
        let faces = vec![
            Face::Front,
            Face::Back,
            Face::Left,
            Face::Right,
            Face::Up,
            Face::Down,
        ];
        proof {
            assert(faces@ =~= all_faces());
        }
        faces
    }
}

/// The six faces in declaration order.
pub open spec fn all_faces() -> Seq<Face> {
    seq![Face::Front, Face::Back, Face::Left, Face::Right, Face::Up, Face::Down]
}

} // verus!
