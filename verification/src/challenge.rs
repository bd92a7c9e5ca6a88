//! The caller-supplied cost model, and the challenge that bundles it.
//!
//! Costs are whole milliseconds carried as `u64`.  Every evaluator gives its
//! cost model twice: as spec functions that contracts reason about, and as
//! executable functions proved to agree with them.  A proof obligation caps
//! the cost of a single move so that summed costs stay inside `u64`.

use vstd::prelude::*;

use crate::moves::Move;

verus! {

/// No single move may cost more than this many milliseconds (about 49
/// days): the cap keeps every cost a search can add up inside a `u64`.
pub const MAX_MOVE_COST_MS: u64 = 0x1_0000_0000;

/// The longest move sequence an evaluator is asked to price.
pub const MAX_EVAL_LEN: usize = 0x10000;

/// A cost model on move sequences.
///
/// `spec_eval` is the cost of executing a sequence in order; `spec_min_time`
/// is a lower bound on the cost any longer sequence pays for containing it,
/// used while building heuristic tables.
pub trait Evaluator: Sized {
    /// The cost in milliseconds of executing `seq` in order.
    spec fn spec_eval(&self, seq: Seq<Move>) -> int;

    /// A lower bound on the cost contributed by `seq` wherever it occurs
    /// inside a longer sequence.
    spec fn spec_min_time(&self, seq: Seq<Move>) -> int;

    /// Costs are non-negative and at most [`MAX_MOVE_COST_MS`] per move.
    proof fn lemma_cost_model(&self, seq: Seq<Move>)
        ensures
            0 <= self.spec_eval(seq) <= seq.len() * (MAX_MOVE_COST_MS as int),
            0 <= self.spec_min_time(seq) <= seq.len() * (MAX_MOVE_COST_MS as int),
    ;

    /// The cost of executing `seq` in order.
    fn eval(&self, seq: &[Move]) -> (r: u64)
        requires
            seq@.len() <= MAX_EVAL_LEN,
        ensures
            r as int == self.spec_eval(seq@),
    ;

    /// The guaranteed cost contribution of `seq` inside a longer sequence.
    fn min_time(&self, seq: &[Move]) -> (r: u64)
        requires
            seq@.len() <= MAX_EVAL_LEN,
        ensures
            r as int == self.spec_min_time(seq@),
    ;
}

/// A solving challenge: an informational inspection allowance and the cost
/// model the solution should minimise.
pub struct Challenge<E: Evaluator> {
    /// Inspection time in milliseconds; carried through but not consumed by
    /// the solver core.
    pub inspection: u64,
    /// The cost model.
    pub evaluator: E,
}

/// The cost model that charges the same price for every move; the classical
/// move-count objective scaled by `per_move` milliseconds.
#[derive(Clone, Copy, PartialEq, Eq, Structural, Debug)]
pub struct UniformEvaluator {
    /// The price of one move in milliseconds.
    pub per_move: u32,
}

impl Evaluator for UniformEvaluator {
    open spec fn spec_eval(&self, seq: Seq<Move>) -> int {
        seq.len() * (self.per_move as int)
    }

    open spec fn spec_min_time(&self, seq: Seq<Move>) -> int {
        seq.len() * (self.per_move as int)
    }

    proof fn lemma_cost_model(&self, seq: Seq<Move>) {
        assert(0 <= seq.len() * (self.per_move as int) <= seq.len() * (MAX_MOVE_COST_MS as int))
            by (nonlinear_arith)
            requires
                0 <= (self.per_move as int) <= (MAX_MOVE_COST_MS as int),
        ;
    }

    fn eval(&self, seq: &[Move]) -> (r: u64) {
        let n = seq.len();
        proof {
            assert((n as int) * (self.per_move as int) < 0x1_0000_0000_0000_0000)
                by (nonlinear_arith)
                requires
                    n <= MAX_EVAL_LEN,
                    self.per_move <= 0xFFFF_FFFFu32,
            ;
        }
        (n as u64) * (self.per_move as u64)
    }

    fn min_time(&self, seq: &[Move]) -> (r: u64) {
        let n = seq.len();
        proof {
            assert((n as int) * (self.per_move as int) < 0x1_0000_0000_0000_0000)
                by (nonlinear_arith)
                requires
                    n <= MAX_EVAL_LEN,
                    self.per_move <= 0xFFFF_FFFFu32,
            ;
        }
        (n as u64) * (self.per_move as u64)
    }
}

} // verus!
