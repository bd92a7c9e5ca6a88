//! Sticker positions named by cubie and shown face.
//!
//! The canonical traversal order of all 54 positions is fixed here, because
//! the coordinate functions are defined relative to it.

use vstd::prelude::*;

use crate::face::{Axis, Face};

verus! {

/// A sticker position: the centre of a face, the sticker on face `a` of the
/// edge cubie shared by `a` and `b`, or the sticker on face `a` of the corner
/// cubie shared by `a`, `b` and `c`.
#[derive(Clone, Copy, PartialEq, Eq, Structural, Debug)]
pub enum Location {
    Center(Face),
    Edge(Face, Face),
    Corner(Face, Face, Face),
}

impl Location {
    /// Whether the location names an actual sticker: edge faces lie on two
    /// different axes, corner faces on three, and the trailing corner faces
    /// are in face order.
    pub open spec fn wf(self) -> bool {
        match self {
            Location::Center(_) => true,
            Location::Edge(a, b) => a.axis_spec() != b.axis_spec(),
            Location::Corner(a, b, c) => a.axis_spec() != b.axis_spec() && a.axis_spec()
                != c.axis_spec() && b.axis_spec() != c.axis_spec() && b.rank_spec() < c.rank_spec(),
        }
    }

    /// All 54 sticker positions in canonical order: the 6 centres, the 24
    /// edge stickers grouped two per edge cubie, then the 24 corner stickers
    /// grouped three per corner cubie.
    #[verifier::rlimit(100)]
    pub fn all() -> (r: Vec<Location>)
        ensures
            r@ == all_locations(),
    {
        let mut v: Vec<Location> = Vec::new();
        v.push(Location::Center(Face::Front));
        v.push(Location::Center(Face::Back));
        v.push(Location::Center(Face::Left));
        v.push(Location::Center(Face::Right));
        v.push(Location::Center(Face::Up));
        v.push(Location::Center(Face::Down));
        v.push(Location::Edge(Face::Front, Face::Left));
        v.push(Location::Edge(Face::Left, Face::Front));
        v.push(Location::Edge(Face::Front, Face::Right));
        v.push(Location::Edge(Face::Right, Face::Front));
        v.push(Location::Edge(Face::Front, Face::Up));
        v.push(Location::Edge(Face::Up, Face::Front));
        v.push(Location::Edge(Face::Front, Face::Down));
        v.push(Location::Edge(Face::Down, Face::Front));
        v.push(Location::Edge(Face::Back, Face::Left));
        v.push(Location::Edge(Face::Left, Face::Back));
        v.push(Location::Edge(Face::Back, Face::Right));
        v.push(Location::Edge(Face::Right, Face::Back));
        v.push(Location::Edge(Face::Back, Face::Up));
        v.push(Location::Edge(Face::Up, Face::Back));
        v.push(Location::Edge(Face::Back, Face::Down));
        v.push(Location::Edge(Face::Down, Face::Back));
        v.push(Location::Edge(Face::Left, Face::Up));
        v.push(Location::Edge(Face::Up, Face::Left));
        v.push(Location::Edge(Face::Left, Face::Down));
        v.push(Location::Edge(Face::Down, Face::Left));
        v.push(Location::Edge(Face::Right, Face::Up));
        v.push(Location::Edge(Face::Up, Face::Right));
        v.push(Location::Edge(Face::Right, Face::Down));
        v.push(Location::Edge(Face::Down, Face::Right));
        v.push(Location::Corner(Face::Front, Face::Left, Face::Up));
        v.push(Location::Corner(Face::Left, Face::Front, Face::Up));
        v.push(Location::Corner(Face::Up, Face::Front, Face::Left));
        v.push(Location::Corner(Face::Front, Face::Left, Face::Down));
        v.push(Location::Corner(Face::Left, Face::Front, Face::Down));
        v.push(Location::Corner(Face::Down, Face::Front, Face::Left));
        v.push(Location::Corner(Face::Front, Face::Right, Face::Up));
        v.push(Location::Corner(Face::Right, Face::Front, Face::Up));
        v.push(Location::Corner(Face::Up, Face::Front, Face::Right));
        v.push(Location::Corner(Face::Front, Face::Right, Face::Down));
        v.push(Location::Corner(Face::Right, Face::Front, Face::Down));
        v.push(Location::Corner(Face::Down, Face::Front, Face::Right));
        v.push(Location::Corner(Face::Back, Face::Left, Face::Up));
        v.push(Location::Corner(Face::Left, Face::Back, Face::Up));
        v.push(Location::Corner(Face::Up, Face::Back, Face::Left));
        v.push(Location::Corner(Face::Back, Face::Left, Face::Down));
        v.push(Location::Corner(Face::Left, Face::Back, Face::Down));
        v.push(Location::Corner(Face::Down, Face::Back, Face::Left));
        v.push(Location::Corner(Face::Back, Face::Right, Face::Up));
        v.push(Location::Corner(Face::Right, Face::Back, Face::Up));
        v.push(Location::Corner(Face::Up, Face::Back, Face::Right));
        v.push(Location::Corner(Face::Back, Face::Right, Face::Down));
        v.push(Location::Corner(Face::Right, Face::Back, Face::Down));
        v.push(Location::Corner(Face::Down, Face::Back, Face::Right));
        proof {
            assert(v@ =~= all_locations());
        }
        v
    }
}

/// The canonical traversal order of all 54 sticker positions.
pub open spec fn all_locations() -> Seq<Location> {
    centre_locations() + edge_locations() + corner_locations()
}

/// The 6 centres in face order.
pub open spec fn centre_locations() -> Seq<Location> {
    seq![
        Location::Center(Face::Front),
        Location::Center(Face::Back),
        Location::Center(Face::Left),
        Location::Center(Face::Right),
        Location::Center(Face::Up),
        Location::Center(Face::Down),
    ]
}

/// The 24 edge stickers: the 12 edge cubies in canonical order, two stickers
/// each.
pub open spec fn edge_locations() -> Seq<Location> {
    seq![
        Location::Edge(Face::Front, Face::Left),
        Location::Edge(Face::Left, Face::Front),
        Location::Edge(Face::Front, Face::Right),
        Location::Edge(Face::Right, Face::Front),
        Location::Edge(Face::Front, Face::Up),
        Location::Edge(Face::Up, Face::Front),
        Location::Edge(Face::Front, Face::Down),
        Location::Edge(Face::Down, Face::Front),
        Location::Edge(Face::Back, Face::Left),
        Location::Edge(Face::Left, Face::Back),
        Location::Edge(Face::Back, Face::Right),
        Location::Edge(Face::Right, Face::Back),
        Location::Edge(Face::Back, Face::Up),
        Location::Edge(Face::Up, Face::Back),
        Location::Edge(Face::Back, Face::Down),
        Location::Edge(Face::Down, Face::Back),
        Location::Edge(Face::Left, Face::Up),
        Location::Edge(Face::Up, Face::Left),
        Location::Edge(Face::Left, Face::Down),
        Location::Edge(Face::Down, Face::Left),
        Location::Edge(Face::Right, Face::Up),
        Location::Edge(Face::Up, Face::Right),
        Location::Edge(Face::Right, Face::Down),
        Location::Edge(Face::Down, Face::Right),
    ]
}

/// The 24 corner stickers: the 8 corner cubies in canonical order, three
/// stickers each.
pub open spec fn corner_locations() -> Seq<Location> {
    seq![
        Location::Corner(Face::Front, Face::Left, Face::Up),
        Location::Corner(Face::Left, Face::Front, Face::Up),
        Location::Corner(Face::Up, Face::Front, Face::Left),
        Location::Corner(Face::Front, Face::Left, Face::Down),
        Location::Corner(Face::Left, Face::Front, Face::Down),
        Location::Corner(Face::Down, Face::Front, Face::Left),
        Location::Corner(Face::Front, Face::Right, Face::Up),
        Location::Corner(Face::Right, Face::Front, Face::Up),
        Location::Corner(Face::Up, Face::Front, Face::Right),
        Location::Corner(Face::Front, Face::Right, Face::Down),
        Location::Corner(Face::Right, Face::Front, Face::Down),
        Location::Corner(Face::Down, Face::Front, Face::Right),
        Location::Corner(Face::Back, Face::Left, Face::Up),
        Location::Corner(Face::Left, Face::Back, Face::Up),
        Location::Corner(Face::Up, Face::Back, Face::Left),
        Location::Corner(Face::Back, Face::Left, Face::Down),
        Location::Corner(Face::Left, Face::Back, Face::Down),
        Location::Corner(Face::Down, Face::Back, Face::Left),
        Location::Corner(Face::Back, Face::Right, Face::Up),
        Location::Corner(Face::Right, Face::Back, Face::Up),
        Location::Corner(Face::Up, Face::Back, Face::Right),
        Location::Corner(Face::Back, Face::Right, Face::Down),
        Location::Corner(Face::Right, Face::Back, Face::Down),
        Location::Corner(Face::Down, Face::Back, Face::Right),
    ]
}

} // verus!
