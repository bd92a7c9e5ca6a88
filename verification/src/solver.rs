//! What every solver offers: build once from a challenge, then turn
//! scrambled cubes into solving move sequences.

use vstd::prelude::*;

use crate::challenge::{Challenge, Evaluator};
use crate::moves::Move;
use crate::surface::{apply_seq, solved_spec, Cube};

verus! {

/// A cube solver for a given cost model.  `init` may take substantial time
/// while tables are built; any sequence `solve` returns is proved to solve
/// its cube, and `None` concedes the search was cut off.
pub trait Solver<E: Evaluator>: Sized {
    /// Whatever `init` must establish for `solve` to run.
    spec fn ready(&self) -> bool;

    /// Build the solver for a challenge.
    fn init(challenge: Challenge<E>) -> (s: Self)
        ensures
            s.ready(),
    ;

    /// A move sequence that takes `cube` to the solved cube, or `None` when
    /// the solver's bounded search gave up.
    fn solve(&self, cube: Cube) -> (r: Option<Vec<Move>>)
        requires
            self.ready(),
        ensures
            r matches Some(s) ==> apply_seq(cube, s@) == solved_spec(),
    ;
}

} // verus!
