//! A meet-in-the-middle solver: grow one frontier forward from the scramble
//! and one backward from the solved cube until they share a state, then
//! join the forward path with the inverse of the backward one.

use vstd::prelude::*;

use crate::challenge::{Challenge, Evaluator};
use crate::laws::lemma_seq_then_inverse;
use crate::moves::Move;
use crate::solver::Solver;
use crate::surface::{apply_seq, apply_spec, lemma_apply_seq_concat, solved_spec, Cube};

verus! {

/// How many frontier expansions the solver attempts before giving up, as
/// in the breadth bound of the search it replaces.
pub const MITM_MAX_ROUNDS: u8 = 11;

/// See the module documentation.
pub struct Mitm<E: Evaluator> {
    /// Carried for the [`Solver`] shape; this solver ignores costs.
    pub challenge: Challenge<E>,
}

/// Every recorded cube is its root taken through its recorded path.
pub open spec fn rooted(entries: Seq<(Cube, Vec<Move>)>, root: Cube) -> bool {
    forall|k: int|
        0 <= k < entries.len() ==> apply_seq(root, (#[trigger] entries[k]).1@) == entries[k].0
}

/// The two frontiers: cubes reached forward from the scramble, and cubes
/// reached backward from the solved cube, each with the path that reached
/// them.
pub struct SolveState {
    /// Reached from the scramble.
    pub forward: Vec<(Cube, Vec<Move>)>,
    /// Reached from the solved cube.
    pub reverse: Vec<(Cube, Vec<Move>)>,
}

/// The position of `cube` in `entries`, if it is recorded.
fn find_entry(entries: &Vec<(Cube, Vec<Move>)>, cube: &Cube) -> (r: Option<usize>)
    ensures
        r matches Some(k) ==> k < entries@.len() && entries@[k as int].0 == *cube,
{
    let n = entries.len();
    let mut i: usize = 0;
    while i < n
        invariant
            i <= n,
            n == entries@.len(),
        decreases n - i,
    {
        if entries[i].0 == *cube {
            return Some(i);
        }
        i = i + 1;
    }
    None
}

impl SolveState {
    /// Expand one frontier and test it against the other; see
    /// [`SolveState::expand_mut`].  On the first call the frontiers are
    /// seeded instead (or the scramble is already solved).  `Some` is a
    /// sequence that takes `initial` to the solved cube.
    pub fn expand(&mut self, initial: &Cube) -> (r: Option<Vec<Move>>)
        requires
            rooted(old(self).forward@, *initial),
            rooted(old(self).reverse@, solved_spec()),
        ensures
            rooted(final(self).forward@, *initial),
            rooted(final(self).reverse@, solved_spec()),
            r matches Some(s) ==> apply_seq(*initial, s@) == solved_spec(),
    {
        if self.forward.len() == 0 {
            if *initial == Cube::solved() {
                return Some(Vec::new());
            }
            let mut fw: Vec<(Cube, Vec<Move>)> = Vec::new();
            fw.push((*initial, Vec::new()));
            let mut rv: Vec<(Cube, Vec<Move>)> = Vec::new();
            rv.push((Cube::solved(), Vec::new()));
            self.forward = fw;
            self.reverse = rv;
            return None;
        }

        let ghost init0 = *initial;
        if let Some((fwd, rev)) = SolveState::expand_mut(
            &mut self.forward,
            &mut self.reverse,
            Ghost(*initial),
            Ghost(solved_spec()),
        ) {
            return Some(join_paths(fwd, rev, Ghost(*initial)));
        }
        if let Some((rev, fwd)) = SolveState::expand_mut(
            &mut self.reverse,
            &mut self.forward,
            Ghost(solved_spec()),
            Ghost(*initial),
        ) {
            return Some(join_paths(fwd, rev, Ghost(*initial)));
        }
        None
    }

    /// Step every recorded cube of `this` by every move.  A successor that
    /// `other` has reached is a meeting point: both paths are returned and
    /// the meeting entry leaves `other`.  Successors new to `this` are
    /// recorded.
    #[verifier::rlimit(100)]
    pub fn expand_mut(
        this: &mut Vec<(Cube, Vec<Move>)>,
        other: &mut Vec<(Cube, Vec<Move>)>,
        Ghost(root_this): Ghost<Cube>,
        Ghost(root_other): Ghost<Cube>,
    ) -> (r: Option<(Vec<Move>, Vec<Move>)>)
        requires
            rooted(old(this)@, root_this),
            rooted(old(other)@, root_other),
        ensures
            rooted(final(this)@, root_this),
            rooted(final(other)@, root_other),
            r matches Some(paths) ==> apply_seq(root_this, paths.0@) == apply_seq(
                root_other,
                paths.1@,
            ),
    {
        let mut drained: Vec<(Cube, Vec<Move>)> = Vec::new();
        std::mem::swap(this, &mut drained);
        let all = Move::all();
        let mut expanded: Vec<(Cube, Vec<Move>)> = Vec::new();
        let n = drained.len();
        let mut i: usize = 0;
        while i < n
            invariant
                n == drained@.len(),
                i <= n,
                all@.len() == 18,
                rooted(drained@, root_this),
                rooted(expanded@, root_this),
            decreases n - i,
        {
            let (cube, moves) = &drained[i];
            let mut mi: usize = 0;
            while mi < 18
                invariant
                    n == drained@.len(),
                    i < n,
                    mi <= 18,
                    all@.len() == 18,
                    rooted(drained@, root_this),
                    rooted(expanded@, root_this),
                    apply_seq(root_this, drained@[i as int].1@) == drained@[i as int].0,
                decreases 18 - mi,
            {
                let m = all[mi];
                let stepped = drained[i].0.apply(m);
                let mut path = clone_moves(&drained[i].1);
                path.push(m);
                proof {
                    crate::surface::lemma_apply_seq_push(root_this, drained@[i as int].1@, m);
                }
                expanded.push((stepped, path));
                mi = mi + 1;
            }
            i = i + 1;
        }

        let en = expanded.len();
        let mut j: usize = 0;
        while j < en
            invariant
                en == expanded@.len(),
                j <= en,
                rooted(expanded@, root_this),
                rooted(this@, root_this),
                rooted(other@, root_other),
            decreases en - j,
        {
            let (cube, moves) = &expanded[j];
            if let Some(k) = find_entry(other, cube) {
                let hit = other.remove(k);
                let path = clone_moves(&expanded[j].1);
                return Some((path, hit.1));
            }
            if find_entry(this, cube).is_none() {
                let entry = (expanded[j].0, clone_moves(&expanded[j].1));
                this.push(entry);
            }
            j = j + 1;
        }
        None
    }
}

/// A solution from a meeting point: the forward path, then the inverse of
/// the backward path.
fn join_paths(fwd: Vec<Move>, rev: Vec<Move>, Ghost(initial): Ghost<Cube>) -> (r: Vec<Move>)
    requires
        apply_seq(initial, fwd@) == apply_seq(solved_spec(), rev@),
    ensures
        apply_seq(initial, r@) == solved_spec(),
{
    let back = Move::inverse_seq(rev.as_slice());
    let mut out = fwd;
    let ghost fwd0 = out@;
    let mut tail = back;
    let ghost back0 = tail@;
    out.append(&mut tail);
    proof {
        lemma_apply_seq_concat(initial, fwd0, back0);
        lemma_seq_then_inverse(solved_spec(), rev@);
    }
    out
}

/// A copy of a move path.
fn clone_moves(moves: &Vec<Move>) -> (r: Vec<Move>)
    ensures
        r@ == moves@,
{
    let n = moves.len();
    let mut out: Vec<Move> = Vec::new();
    let mut i: usize = 0;
    while i < n
        invariant
            i <= n,
            n == moves@.len(),
            out@ == moves@.take(i as int),
        decreases n - i,
    {
        out.push(moves[i]);
        proof {
            assert(out@ =~= moves@.take(i as int + 1));
        }
        i = i + 1;
    }
    proof {
        assert(moves@.take(n as int) =~= moves@);
    }
    out
}

impl<E: Evaluator> Solver<E> for Mitm<E> {
    open spec fn ready(&self) -> bool {
        true
    }

    fn init(challenge: Challenge<E>) -> (s: Self) {
        Mitm { challenge }
    }

    fn solve(&self, cube: Cube) -> (r: Option<Vec<Move>>) {
        let mut state = SolveState { forward: Vec::new(), reverse: Vec::new() };
        let mut round: u8 = 0;
        while round < MITM_MAX_ROUNDS
            invariant
                rooted(state.forward@, cube),
                rooted(state.reverse@, solved_spec()),
                round <= MITM_MAX_ROUNDS,
            decreases MITM_MAX_ROUNDS - round,
        {
            if let Some(solution) = state.expand(&cube) {
                return Some(solution);
            }
            round = round + 1;
        }
        None
    }
}

} // verus!
