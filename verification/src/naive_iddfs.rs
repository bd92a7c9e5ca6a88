//! The baseline solver: plain iterative deepening over move count, with the
//! evaluator only breaking ties between solutions of the same depth.

use vstd::prelude::*;

use crate::challenge::{Challenge, Evaluator};
use crate::moves::{all_moves, Move};
use crate::solver::Solver;
use crate::surface::{apply_seq, apply_spec, solved_spec, Cube};
use crate::tables::{lemma_move_index, move_index_spec};

verus! {

/// The deepest move-count level the iterative deepening explores; the full
/// enumeration at each level makes anything deeper impractical anyway.
pub const NAIVE_MAX_DEPTH: u8 = 6;

/// Whether `s` opens with a face other than `last`'s (when there is one)
/// and never turns the same face twice in a row.
pub open spec fn face_alternates(last: Option<Move>, s: Seq<Move>) -> bool {
    &&& (s.len() > 0 ==> match last {
        Some(l) => s[0].face != l.face,
        None => true,
    })
    &&& forall|i: int| 0 < i < s.len() ==> (#[trigger] s[i]).face != s[i - 1].face
}

/// A sequence made of one move in front of an alternating, solving tail
/// solves the cube one move back, and alternates from `last_move` provided
/// the front move's face differs from `last_move`'s.
#[verifier::rlimit(100)]
#[verifier::spinoff_prover]
proof fn lemma_cons_solves(
    cube: Cube,
    m: Move,
    tail: Seq<Move>,
    sol: Seq<Move>,
    last_move: Option<Move>,
)
    requires
        sol.len() == tail.len() + 1,
        sol[0] == m,
        sol.skip(1) == tail,
        apply_seq(apply_spec(cube, m), tail) == solved_spec(),
        face_alternates(Some(m), tail),
        match last_move {
            Some(l) => m.face != l.face,
            None => true,
        },
    ensures
        apply_seq(cube, sol) == solved_spec(),
        face_alternates(last_move, sol),
{
    assert(apply_seq(cube, sol) == apply_seq(apply_spec(cube, sol[0]), sol.skip(1)));
    assert forall|j: int| 0 < j < sol.len() implies (#[trigger] sol[j]).face != sol[j - 1].face by {
        assert(sol[j] == tail[j - 1]);
        if j > 1 {
            assert(sol[j - 1] == tail[j - 2]);
        }
    }
}

/// When no alternating sequence of length `remaining - 1` solves the cube
/// one `m`-move on, and none of length `remaining` whose first move comes
/// earlier than `m` in the move order solves this one, then none whose
/// first move comes no later than `m` does either.
#[verifier::rlimit(100)]
#[verifier::spinoff_prover]
proof fn lemma_none_extends(
    cube: Cube,
    c: Cube,
    m: Move,
    i: int,
    remaining: int,
    last_move: Option<Move>,
)
    requires
        0 <= i < 18,
        all_moves()[i] == m,
        c == apply_spec(cube, m),
        remaining >= 1,
        match last_move {
            Some(l) => m.face != l.face,
            None => true,
        },
        forall|t: Seq<Move>|
            t.len() == remaining - 1 && face_alternates(Some(m), t) ==> #[trigger] apply_seq(c, t)
                != solved_spec(),
        forall|s: Seq<Move>|
            s.len() == remaining && face_alternates(last_move, s) && move_index_spec(s[0]) < i
                ==> #[trigger] apply_seq(cube, s) != solved_spec(),
    ensures
        forall|s: Seq<Move>|
            s.len() == remaining && face_alternates(last_move, s) && move_index_spec(s[0]) < i + 1
                ==> #[trigger] apply_seq(cube, s) != solved_spec(),
{
    assert forall|s: Seq<Move>|
        s.len() == remaining && face_alternates(last_move, s) && move_index_spec(s[0]) < i
            + 1 implies #[trigger] apply_seq(cube, s) != solved_spec() by {
        if move_index_spec(s[0]) == i {
            lemma_move_index(s[0]);
            assert(s[0] == m);
            let t = s.skip(1);
            assert(t.len() == remaining - 1);
            assert forall|j: int| 0 < j < t.len() implies (#[trigger] t[j]).face != t[j
                - 1].face by {
                assert(t[j] == s[j + 1] && t[j - 1] == s[j]);
            }
            if t.len() > 0 {
                assert(t[0] == s[1]);
                assert(s[1].face != s[0].face);
            }
            assert(face_alternates(Some(m), t));
            assert(apply_seq(c, t) != solved_spec());
            assert(apply_seq(cube, s) == apply_seq(apply_spec(cube, s[0]), t));
        }
    }
}

/// A move whose face repeats `last_move`'s face starts no alternating
/// sequence, so ruling out earlier first moves already rules it out too.
#[verifier::rlimit(100)]
#[verifier::spinoff_prover]
proof fn lemma_skip_extends(cube: Cube, m: Move, i: int, remaining: int, l: Move)
    requires
        0 <= i < 18,
        all_moves()[i] == m,
        remaining >= 1,
        m.face == l.face,
        forall|s: Seq<Move>|
            s.len() == remaining && face_alternates(Some(l), s) && move_index_spec(s[0]) < i
                ==> #[trigger] apply_seq(cube, s) != solved_spec(),
    ensures
        forall|s: Seq<Move>|
            s.len() == remaining && face_alternates(Some(l), s) && move_index_spec(s[0]) < i + 1
                ==> #[trigger] apply_seq(cube, s) != solved_spec(),
{
    assert forall|s: Seq<Move>|
        s.len() == remaining && face_alternates(Some(l), s) && move_index_spec(s[0]) < i
            + 1 implies #[trigger] apply_seq(cube, s) != solved_spec() by {
        if move_index_spec(s[0]) == i {
            lemma_move_index(s[0]);
            assert(s[0] == m);
        }
    }
}

/// See the module documentation.
pub struct NaiveIddfs<E: Evaluator> {
    /// The cost model, used to break ties.
    pub challenge: Challenge<E>,
}

impl<E: Evaluator> NaiveIddfs<E> {
    /// The cheapest sequence of exactly `remaining_moves` moves that solves
    /// `cube`, never turning the same face twice in a row (nor, first, the
    /// face of `last_move`); `None` exactly when no such sequence of that
    /// length solves it.
    #[verifier::rlimit(100)]
    #[verifier::spinoff_prover]
    pub fn find_solution(&self, remaining_moves: u8, cube: &Cube, last_move: Option<Move>) -> (r:
        Option<Vec<Move>>)
        ensures
            r matches Some(s) ==> s@.len() == remaining_moves as int && apply_seq(*cube, s@)
                == solved_spec() && face_alternates(last_move, s@),
            r is None ==> forall|s: Seq<Move>|
                s.len() == remaining_moves as int && face_alternates(last_move, s)
                    ==> #[trigger] apply_seq(*cube, s) != solved_spec(),
        decreases remaining_moves,
    {
        if remaining_moves == 0 {
            if *cube == Cube::solved() {
                return Some(Vec::new());
            } else {
                proof {
                    assert forall|s: Seq<Move>|
                        s.len() == remaining_moves as int && face_alternates(last_move, s)
                            implies #[trigger] apply_seq(*cube, s) != solved_spec() by {
                        assert(s =~= Seq::<Move>::empty());
                    }
                }
                return None;
            }
        }
        let moves = Move::all();
        let mut best: Option<Vec<Move>> = None;
        let mut best_cost: u64 = 0;
        let mut i: usize = 0;
        while i < 18
            invariant
                remaining_moves >= 1,
                moves@ == all_moves(),
                i <= 18,
                best matches Some(s) ==> s@.len() == remaining_moves as int && apply_seq(
                    *cube,
                    s@,
                ) == solved_spec() && face_alternates(last_move, s@),
                best is None ==> forall|s: Seq<Move>|
                    s.len() == remaining_moves as int && face_alternates(last_move, s)
                        && move_index_spec(s[0]) < i as int ==> #[trigger] apply_seq(*cube, s)
                        != solved_spec(),
            decreases 18 - i,
        {
            let m = moves[i];
            let ok = match last_move {
                None => true,
                Some(l) => l.face != m.face,
            };
            if ok {
                let c = cube.apply(m);
                let sub_r = self.find_solution(remaining_moves - 1, &c, Some(m));
                proof {
                    if best is None && sub_r is None {
                        lemma_none_extends(
                            *cube,
                            c,
                            m,
                            i as int,
                            remaining_moves as int,
                            last_move,
                        );
                    }
                }
                if let Some(sub) = sub_r {
                    let mut sol: Vec<Move> = Vec::new();
                    sol.push(m);
                    let ghost sub0 = sub@;
                    let mut tail = sub;
                    sol.append(&mut tail);
                    proof {
                        assert(sol@ =~= seq![m] + sub0);
                        assert(sol@.skip(1) =~= sub0);
                        lemma_cons_solves(*cube, m, sub0, sol@, last_move);
                    }
                    let cost = self.challenge.evaluator.eval(sol.as_slice());
                    let better = match &best {
                        None => true,
                        Some(_) => cost < best_cost,
                    };
                    if better {
                        best = Some(sol);
                        best_cost = cost;
                    }
                }
            } else {
                proof {
                    if best is None {
                        if let Some(l) = last_move {
                            lemma_skip_extends(*cube, m, i as int, remaining_moves as int, l);
                        }
                    }
                }
            }
            i = i + 1;
        }
        proof {
            if best is None {
                assert forall|s: Seq<Move>|
                    s.len() == remaining_moves as int && face_alternates(last_move, s)
                        implies #[trigger] apply_seq(*cube, s) != solved_spec() by {
                    lemma_move_index(s[0]);
                }
            }
        }
        best
    }
}

impl<E: Evaluator> Solver<E> for NaiveIddfs<E> {
    open spec fn ready(&self) -> bool {
        true
    }

    fn init(challenge: Challenge<E>) -> (s: Self) {
        NaiveIddfs { challenge }
    }

    fn solve(&self, cube: Cube) -> (r: Option<Vec<Move>>) {
        let mut depth: u8 = 0;
        while depth <= NAIVE_MAX_DEPTH
            invariant
                depth <= NAIVE_MAX_DEPTH + 1,
            decreases NAIVE_MAX_DEPTH + 1 - depth,
        {
            if let Some(s) = self.find_solution(depth, &cube, None) {
                return Some(s);
            }
            depth = depth + 1;
        }
        None
    }
}

} // verus!
