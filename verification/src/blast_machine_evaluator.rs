//! The "blast machine" cost model: a quarter turn costs 10 ms, a half turn
//! 14 ms, and any move on the same axis as the move before it is free.

use vstd::prelude::*;

use crate::challenge::{Evaluator, MAX_MOVE_COST_MS};
use crate::moves::{Direction, Move};

verus! {

/// See the module documentation.
#[derive(Clone, Copy, PartialEq, Eq, Structural, Debug)]
pub struct BlastMachineEvaluator;

/// The price of `m` when it follows `prev`: free on a repeated axis, 14 ms
/// for a half turn, 10 ms otherwise.
pub open spec fn blast_cost(prev: Option<Move>, m: Move) -> int {
    match prev {
        Some(p) if p.face.axis_spec() == m.face.axis_spec() => 0,
        _ => if m.direction == Direction::Double {
            14
        } else {
            10
        },
    }
}

/// The cost of `seq` when the move before its first element was `prev`.
pub open spec fn blast_eval_from(prev: Option<Move>, seq: Seq<Move>) -> int
    decreases seq.len(),
{
    if seq.len() == 0 {
        0
    } else {
        blast_cost(prev, seq[0]) + blast_eval_from(Some(seq[0]), seq.skip(1))
    }
}

/// The last move of `seq`, or `prev` when `seq` is empty.
pub open spec fn last_or(prev: Option<Move>, seq: Seq<Move>) -> Option<Move> {
    if seq.len() == 0 {
        prev
    } else {
        Some(seq.last())
    }
}

/// Appending one move adds its price in the context of the sequence's last
/// move.
pub proof fn lemma_blast_push(prev: Option<Move>, seq: Seq<Move>, m: Move)
    ensures
        blast_eval_from(prev, seq.push(m)) == blast_eval_from(prev, seq) + blast_cost(
            last_or(prev, seq),
            m,
        ),
    decreases seq.len(),
{
    if seq.len() == 0 {
        assert(seq.push(m)[0] == m);
        assert(seq.push(m).skip(1) =~= Seq::<Move>::empty());
        assert(blast_eval_from(Some(m), Seq::<Move>::empty()) == 0);
        assert(blast_eval_from(prev, seq.push(m)) == blast_cost(prev, m));
    } else {
        assert(seq.push(m)[0] == seq[0]);
        assert(seq.push(m).skip(1) =~= seq.skip(1).push(m));
        lemma_blast_push(Some(seq[0]), seq.skip(1), m);
        assert(blast_eval_from(prev, seq.push(m)) == blast_cost(prev, seq[0]) + blast_eval_from(
            Some(seq[0]),
            seq.skip(1).push(m),
        ));
        assert(last_or(Some(seq[0]), seq.skip(1)) == last_or(prev, seq));
    }
}

/// Blast costs are non-negative and at most 14 ms per move.
pub proof fn lemma_blast_bound(prev: Option<Move>, seq: Seq<Move>)
    ensures
        0 <= blast_eval_from(prev, seq) <= seq.len() * 14,
    decreases seq.len(),
{
    if seq.len() > 0 {
        lemma_blast_bound(Some(seq[0]), seq.skip(1));
    }
}

impl Evaluator for BlastMachineEvaluator {
    open spec fn spec_eval(&self, seq: Seq<Move>) -> int {
        blast_eval_from(None, seq)
    }

    /// Dropping the first and last move: the first may become free in
    /// context, and nothing after the last is promised.
    open spec fn spec_min_time(&self, seq: Seq<Move>) -> int {
        if seq.len() < 2 {
            0
        } else {
            blast_eval_from(None, seq.subrange(1, seq.len() - 1))
        }
    }

    proof fn lemma_cost_model(&self, seq: Seq<Move>) {
        lemma_blast_bound(None, seq);
        assert(seq.len() * 14 <= seq.len() * (MAX_MOVE_COST_MS as int)) by (nonlinear_arith)
            requires
                14 <= (MAX_MOVE_COST_MS as int),
        ;
        if seq.len() >= 2 {
            let inner = seq.subrange(1, seq.len() - 1);
            lemma_blast_bound(None, inner);
            assert(inner.len() * 14 <= seq.len() * (MAX_MOVE_COST_MS as int)) by (nonlinear_arith)
                requires
                    0 <= inner.len() <= seq.len(),
            ;
        }
    }

    fn eval(&self, seq: &[Move]) -> (r: u64) {
        let n = seq.len();
        let mut acc: u64 = 0;
        let mut last: Option<Move> = None;
        let mut i: usize = 0;
        while i < n
            invariant
                i <= n,
                n == seq@.len(),
                n <= crate::challenge::MAX_EVAL_LEN,
                acc as int == blast_eval_from(None, seq@.take(i as int)),
                last == last_or(None, seq@.take(i as int)),
                acc <= 14 * i,
            decreases n - i,
        {
            let m = seq[i];
            let cost: u64 = match last {
                Some(p) if crate::face::Face::same_axis(p.face, m.face) => 0,
                _ => if matches!(m.direction, Direction::Double) {
                    14
                } else {
                    10
                },
            };
            proof {
                lemma_blast_push(None, seq@.take(i as int), seq@[i as int]);
                assert(seq@.take(i as int).push(seq@[i as int]) =~= seq@.take(i as int + 1));
            }
            acc = acc + cost;
            last = Some(m);
            i = i + 1;
        }
        proof {
            assert(seq@.take(n as int) =~= seq@);
        }
        acc
    }

    fn min_time(&self, seq: &[Move]) -> (r: u64) {
        let n = seq.len();
        if n < 2 {
            return 0;
        }
        let mut acc: u64 = 0;
        let mut last: Option<Move> = None;
        let mut i: usize = 1;
        while i < n - 1
            invariant
                1 <= i <= n - 1,
                n == seq@.len(),
                2 <= n <= crate::challenge::MAX_EVAL_LEN,
                acc as int == blast_eval_from(None, seq@.subrange(1, i as int)),
                last == last_or(None, seq@.subrange(1, i as int)),
                acc <= 14 * i,
            decreases n - i,
        {
            let m = seq[i];
            let cost: u64 = match last {
                Some(p) if crate::face::Face::same_axis(p.face, m.face) => 0,
                _ => if matches!(m.direction, Direction::Double) {
                    14
                } else {
                    10
                },
            };
            proof {
                lemma_blast_push(None, seq@.subrange(1, i as int), seq@[i as int]);
                assert(seq@.subrange(1, i as int).push(seq@[i as int]) =~= seq@.subrange(
                    1,
                    i as int + 1,
                ));
            }
            acc = acc + cost;
            last = Some(m);
            i = i + 1;
        }
        acc
    }
}

} // verus!
