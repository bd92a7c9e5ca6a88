//! Anything that behaves like a cube: a solved value and a move action.

use vstd::prelude::*;

use crate::moves::Move;
use crate::surface::{apply_seq, apply_spec, solved_spec, Cube};

verus! {

/// A cube-like state: a distinguished solved value and an action of the
/// move alphabet, with the action's meaning pinned by spec functions.
pub trait CubeLike: Sized {
    /// The solved value.
    spec fn solved_value() -> Self;

    /// The value after one move.
    spec fn apply_value(self, m: Move) -> Self;

    /// The solved value.
    fn solved() -> (r: Self)
        ensures
            r == Self::solved_value(),
    ;

    /// The value after one move.
    fn apply(self, m: Move) -> (r: Self)
        ensures
            r == self.apply_value(m),
    ;
}

/// Folding a move sequence over a cube-like value; each type's own
/// `apply_all` is specified against this fold.

pub open spec fn apply_seq_like<C: CubeLike>(c: C, s: Seq<Move>) -> C
    decreases s.len(),
{
    if s.len() == 0 {
        c
    } else {
        apply_seq_like(c.apply_value(s[0]), s.skip(1))
    }
}

/// On sticker cubes the generic fold is the sticker-level fold.
pub proof fn lemma_apply_seq_like_cube(c: Cube, s: Seq<Move>)
    ensures
        apply_seq_like(c, s) == apply_seq(c, s),
    decreases s.len(),
{
    if s.len() > 0 {
        lemma_apply_seq_like_cube(apply_spec(c, s[0]), s.skip(1));
    }
}

impl CubeLike for Cube {
    open spec fn solved_value() -> Cube {
        solved_spec()
    }

    open spec fn apply_value(self, m: Move) -> Cube {
        apply_spec(self, m)
    }

    fn solved() -> (r: Cube) {
        Cube::solved()
    }

    fn apply(self, m: Move) -> (r: Cube) {
        let mut c = self;
        c.rotate(m);
        c
    }
}

/// A cubie-level cube representation; a placeholder with no state yet, on
/// which every move acts trivially.
#[derive(Clone, Copy, PartialEq, Eq, Structural, Debug)]
pub struct CubieCube {}

impl CubeLike for CubieCube {
    open spec fn solved_value() -> CubieCube {
        CubieCube {  }
    }

    open spec fn apply_value(self, m: Move) -> CubieCube {
        self
    }

    fn solved() -> (r: CubieCube) {
        CubieCube {  }
    }

    fn apply(self, m: Move) -> (r: CubieCube) {
        self
    }
}

impl CubieCube {
    /// The value after a whole sequence; every sequence acts trivially.
    pub fn apply_all(self, moves: &[Move]) -> (r: CubieCube)
        ensures
            r == apply_seq_like(self, moves@),
    {
        proof {
            lemma_cubie_apply_seq(self, moves@);
        }
        self
    }
}

/// Move sequences act trivially on the placeholder cubie cube.
proof fn lemma_cubie_apply_seq(c: CubieCube, s: Seq<Move>)
    ensures
        apply_seq_like(c, s) == c,
    decreases s.len(),
{
    if s.len() > 0 {
        lemma_cubie_apply_seq(c, s.skip(1));
    }
}

} // verus!
