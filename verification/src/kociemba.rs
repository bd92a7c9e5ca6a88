//! The two-phase cost-minimising solver.
//!
//! Phase one searches over all 18 moves until the cube lies in the domino
//! subgroup; phase two searches over the 10 domino moves until the cube is
//! solved.  Each phase is a cost-bounded iterative-deepening search guided
//! by pattern-database heuristics; the bound is raised to the smallest cost
//! that exceeded it until a solution appears.

use vstd::prelude::*;

use crate::challenge::{Challenge, Evaluator, MAX_EVAL_LEN, MAX_MOVE_COST_MS};
use crate::clock::{clock_now, elapsed_ms};
use crate::face::{Axis, Face};
use crate::location::Location;
use crate::moves::{all_moves, Direction, Move};
use crate::surface::{
    apply_seq, apply_spec, lemma_apply_seq_concat, lemma_apply_seq_push, solved_spec, Cube,
};
use crate::tables::{coord_cube_spec, coord_of, coord_range, CoordCube, CoordKind, TransitionTable};

verus! {

/// No heuristic table ever stores more than this: a table entry is the
/// guaranteed cost of a sequence of at most 21 moves.
pub const MAX_TABLE_COST_MS: u64 = 21 * 0x1_0000_0000;

/// How many moves beyond its prefix one bounded search may explore.  Twelve
/// moves always suffice to reach the domino subgroup and eighteen to finish
/// inside it, so thirty leaves slack for cost models that prefer detours.
pub const SEARCH_FUEL: u8 = 30;

/// Whether a turn of `f` by `d` stays inside the domino subgroup: every turn
/// of Up or Down, and every half turn.
pub open spec fn is_domino_move_spec(m: Move) -> bool {
    m.face.axis_spec() == Axis::UD || m.direction == Direction::Double
}

/// Whether a move stays inside the domino subgroup.
pub fn is_domino_move(m: &Move) -> (r: bool)
    ensures
        r == is_domino_move_spec(*m),
{
    m.face.axis() == Axis::UD || matches!(m.direction, Direction::Double)
}

/// The ten domino moves, in the order [`all_moves`] lists them.
pub open spec fn domino_moves_spec() -> Seq<Move> {
    seq![
        Move { face: Face::Front, direction: Direction::Double },
        Move { face: Face::Back, direction: Direction::Double },
        Move { face: Face::Left, direction: Direction::Double },
        Move { face: Face::Right, direction: Direction::Double },
        Move { face: Face::Up, direction: Direction::Single },
        Move { face: Face::Up, direction: Direction::Double },
        Move { face: Face::Up, direction: Direction::Reverse },
        Move { face: Face::Down, direction: Direction::Single },
        Move { face: Face::Down, direction: Direction::Double },
        Move { face: Face::Down, direction: Direction::Reverse },
    ]
}

/// The ten domino moves, read off [`Move::all`] by the domino filter.
pub fn domino_moves() -> (r: Vec<Move>)
    ensures
        r@ == domino_moves_spec(),
{
    let all = Move::all();
    let mut out: Vec<Move> = Vec::new();
    let mut i: usize = 0;
    while i < 18
        invariant
            all@ == all_moves(),
            i <= 18,
            out@ == domino_moves_spec().take(domino_prefix_len(i as int)),
        decreases 18 - i,
    {
        if is_domino_move(&all[i]) {
            out.push(all[i]);
            proof {
                assert(out@ =~= domino_moves_spec().take(domino_prefix_len(i as int + 1)));
            }
        } else {
            proof {
                assert(out@ =~= domino_moves_spec().take(domino_prefix_len(i as int + 1)));
            }
        }
        i = i + 1;
    }
    proof {
        assert(out@ =~= domino_moves_spec());
    }
    out
}

/// How many of the first `i` entries of [`all_moves`] are domino moves.
pub open spec fn domino_prefix_len(i: int) -> int {
    if i <= 1 {
        0
    } else if i <= 4 {
        1
    } else if i <= 7 {
        2
    } else if i <= 10 {
        3
    } else if i <= 12 {
        4
    } else if i <= 13 {
        5
    } else if i <= 14 {
        6
    } else if i <= 15 {
        7
    } else if i <= 16 {
        8
    } else if i <= 17 {
        9
    } else {
        10
    }
}

/// Whether a sticker shows the Up or Down colour.
pub open spec fn ud_coloured(f: Face) -> bool {
    f == Face::Up || f == Face::Down
}

/// Whether a sticker shows the Front or Back colour.
pub open spec fn fb_coloured(f: Face) -> bool {
    f == Face::Front || f == Face::Back
}

/// Whether the cube lies in the domino subgroup: every edge and corner
/// sticker on the Up or Down face shows Up or Down, and the four middle-layer
/// edge stickers on Left/Right-facing sides of Front/Back cubies show Front
/// or Back.
pub open spec fn is_domino_spec(c: Cube) -> bool {
    &&& ud_coloured(c.get_spec(Location::Edge(Face::Up, Face::Front)))
    &&& ud_coloured(c.get_spec(Location::Edge(Face::Up, Face::Back)))
    &&& ud_coloured(c.get_spec(Location::Edge(Face::Up, Face::Left)))
    &&& ud_coloured(c.get_spec(Location::Edge(Face::Up, Face::Right)))
    &&& ud_coloured(c.get_spec(Location::Edge(Face::Down, Face::Front)))
    &&& ud_coloured(c.get_spec(Location::Edge(Face::Down, Face::Back)))
    &&& ud_coloured(c.get_spec(Location::Edge(Face::Down, Face::Left)))
    &&& ud_coloured(c.get_spec(Location::Edge(Face::Down, Face::Right)))
    &&& ud_coloured(c.get_spec(Location::Corner(Face::Up, Face::Front, Face::Left)))
    &&& ud_coloured(c.get_spec(Location::Corner(Face::Up, Face::Front, Face::Right)))
    &&& ud_coloured(c.get_spec(Location::Corner(Face::Up, Face::Back, Face::Left)))
    &&& ud_coloured(c.get_spec(Location::Corner(Face::Up, Face::Back, Face::Right)))
    &&& ud_coloured(c.get_spec(Location::Corner(Face::Down, Face::Front, Face::Left)))
    &&& ud_coloured(c.get_spec(Location::Corner(Face::Down, Face::Front, Face::Right)))
    &&& ud_coloured(c.get_spec(Location::Corner(Face::Down, Face::Back, Face::Left)))
    &&& ud_coloured(c.get_spec(Location::Corner(Face::Down, Face::Back, Face::Right)))
    &&& fb_coloured(c.get_spec(Location::Edge(Face::Front, Face::Left)))
    &&& fb_coloured(c.get_spec(Location::Edge(Face::Front, Face::Right)))
    &&& fb_coloured(c.get_spec(Location::Edge(Face::Back, Face::Left)))
    &&& fb_coloured(c.get_spec(Location::Edge(Face::Back, Face::Right)))
}

/// Whether a sticker shows the Up or Down colour.
fn ud_col(f: Face) -> (r: bool)
    ensures
        r == ud_coloured(f),
{
    matches!(f, Face::Up | Face::Down)
}

/// Whether a sticker shows the Front or Back colour.
fn fb_col(f: Face) -> (r: bool)
    ensures
        r == fb_coloured(f),
{
    matches!(f, Face::Front | Face::Back)
}

/// Whether the cube lies in the domino subgroup.
pub fn is_domino_cube(cube: &Cube) -> (r: bool)
    ensures
        r == is_domino_spec(*cube),
{
    ud_col(cube.get(Location::Edge(Face::Up, Face::Front)))
        && ud_col(cube.get(Location::Edge(Face::Up, Face::Back)))
        && ud_col(cube.get(Location::Edge(Face::Up, Face::Left)))
        && ud_col(cube.get(Location::Edge(Face::Up, Face::Right)))
        && ud_col(cube.get(Location::Edge(Face::Down, Face::Front)))
        && ud_col(cube.get(Location::Edge(Face::Down, Face::Back)))
        && ud_col(cube.get(Location::Edge(Face::Down, Face::Left)))
        && ud_col(cube.get(Location::Edge(Face::Down, Face::Right)))
        && ud_col(cube.get(Location::Corner(Face::Up, Face::Front, Face::Left)))
        && ud_col(cube.get(Location::Corner(Face::Up, Face::Front, Face::Right)))
        && ud_col(cube.get(Location::Corner(Face::Up, Face::Back, Face::Left)))
        && ud_col(cube.get(Location::Corner(Face::Up, Face::Back, Face::Right)))
        && ud_col(cube.get(Location::Corner(Face::Down, Face::Front, Face::Left)))
        && ud_col(cube.get(Location::Corner(Face::Down, Face::Front, Face::Right)))
        && ud_col(cube.get(Location::Corner(Face::Down, Face::Back, Face::Left)))
        && ud_col(cube.get(Location::Corner(Face::Down, Face::Back, Face::Right)))
        && fb_col(cube.get(Location::Edge(Face::Front, Face::Left)))
        && fb_col(cube.get(Location::Edge(Face::Front, Face::Right)))
        && fb_col(cube.get(Location::Edge(Face::Back, Face::Left)))
        && fb_col(cube.get(Location::Edge(Face::Back, Face::Right)))
}

/// A search phase's goal predicate.
#[derive(Clone, Copy, PartialEq, Eq, Structural, Debug)]
pub enum Goal {
    /// The cube lies in the domino subgroup.
    Domino,
    /// The cube is solved.
    Solved,
}

/// What a goal means of a cube.
pub open spec fn goal_spec(g: Goal, c: Cube) -> bool {
    match g {
        Goal::Domino => is_domino_spec(c),
        Goal::Solved => c == solved_spec(),
    }
}

/// A pattern database: for one coordinate, a lower bound on the cost of any
/// allowed-move sequence that takes a cube with that coordinate value to the
/// phase goal.  `exhaustive` tables were deepened to a fixpoint; approximate
/// ones stopped at a wall-clock budget and answer zero for missing values.
pub struct HeuristicTable {
    /// The coordinate the table is keyed on.
    pub kind: CoordKind,
    /// Whether deepening reached a fixpoint.
    pub exhaustive: bool,
    /// Dense value table.
    pub values: Vec<u64>,
    /// Which coordinate values hold an entry.
    pub present: Vec<bool>,
}

impl HeuristicTable {
    /// Shape: dense rows over the coordinate's range, entries bounded by
    /// [`MAX_TABLE_COST_MS`].
    pub open spec fn wf(self) -> bool {
        &&& self.values@.len() == coord_range(self.kind)
        &&& self.present@.len() == coord_range(self.kind)
        &&& forall|v: int|
            0 <= v < coord_range(self.kind) && self.present@[v] ==> (#[trigger] self.values@[v])
                <= MAX_TABLE_COST_MS
    }

    /// The coordinate field of `cc` that this table is keyed on.
    pub open spec fn key_of(self, cc: CoordCube) -> int {
        match self.kind {
            CoordKind::CornerOrientation => cc.corner_orientation as int,
            CoordKind::EdgeOrientation => cc.edge_orientation as int,
            CoordKind::CornerPosition => cc.corner_position as int,
        }
    }

    /// The stored bound for a cube, or zero where the table has none.
    pub open spec fn lookup_spec(self, cc: CoordCube) -> int {
        let v = self.key_of(cc);
        if 0 <= v < coord_range(self.kind) && self.present@[v] {
            self.values@[v] as int
        } else {
            0
        }
    }

    /// The coordinate value of the solved cube under this table's kind.
    pub open spec fn solved_key(self) -> int {
        coord_spec_of(self.kind, solved_spec())
    }

    /// Any entry stored for the solved cube's coordinate is zero: the empty
    /// sequence already reaches the goal there, so nothing may be charged.
    pub open spec fn solved_zero(self) -> bool {
        self.present@[self.solved_key()] ==> self.values@[self.solved_key()] == 0
    }

    /// The solved cube's coordinate has an entry, and it is zero.
    pub open spec fn solved_present(self) -> bool {
        &&& self.present@[self.solved_key()]
        &&& self.values@[self.solved_key()] == 0
    }

    /// Whether the entry at coordinate value `v` is the evaluator's
    /// guaranteed cost of undoing a real canonical path: some sequence of
    /// moves leads from the solved cube to a cube with coordinate `v`, and
    /// the stored value prices exactly that path's inverse.
    pub open spec fn entry_justified<E: Evaluator>(self, evaluator: E, v: int) -> bool {
        exists|s: Seq<Move>|
            Move::should_consider_spec(Move::inverse_seq_spec(s)) && coord_spec_of(
                self.kind,
                apply_seq(solved_spec(), s),
            ) == v && self.values@[v] as int == (#[trigger] evaluator.spec_min_time(
                Move::inverse_seq_spec(s),
            ))
    }

    /// Every stored entry was computed, entry by entry, from a real
    /// canonical path out of the solved cube; completeness over reachable
    /// coordinate values rests on the same group facts as
    /// [`crate::tables::SingleTable::sound`] and is checked by tests.
    pub open spec fn justified<E: Evaluator>(self, evaluator: E) -> bool {
        forall|v: int|
            0 <= v < coord_range(self.kind) && self.present@[v]
                ==> #[trigger] self.entry_justified(evaluator, v)
    }

    /// The stored bound for a cube, or zero where the table has none.  A
    /// missing value in an exhaustive table would mean the builder's
    /// fixpoint did not cover a value the search visits, an internal
    /// inconsistency; answering zero there keeps the result a sound lower
    /// bound in every case, so the clause below states it for exhaustive
    /// and approximate tables alike.
    pub fn min_time(&self, cube: &CoordCube) -> (r: u64)
        requires
            self.wf(),
        ensures
            r as int == self.lookup_spec(*cube),
            r <= MAX_TABLE_COST_MS,
            !(0 <= self.key_of(*cube) < coord_range(self.kind) && self.present@[self.key_of(
                *cube,
            )]) ==> r == 0,
    {
        let v: u16 = match self.kind {
            CoordKind::CornerOrientation => cube.corner_orientation(),
            CoordKind::EdgeOrientation => cube.edge_orientation(),
            CoordKind::CornerPosition => cube.corner_position(),
        };
        if (v as usize) < self.present.len() && self.present[v as usize] {
            self.values[v as usize]
        } else {
            0
        }
    }

    /// Whether the table holds an entry for the cube's coordinate value.
    pub fn has(&self, cube: &Cube) -> (r: bool)
        requires
            self.wf(),
        ensures
            r == {
                let v = coord_spec_of(self.kind, *cube);
                0 <= v < coord_range(self.kind) && self.present@[v]
            },
    {
        let v = coord_of(self.kind, cube);
        (v as usize) < self.present.len() && self.present[v as usize]
    }

    /// Build the table for `kind` by bounded backward search from the
    /// solved cube: deepen until a whole depth brings no update, or until
    /// `max_setup_ms` of wall clock have passed (the table is then marked
    /// approximate).  Without a budget the table is always exhaustive; its
    /// very first pass records the solved cube's coordinate at cost zero,
    /// and nothing ever raises a stored value.
    pub fn init<E: Evaluator>(
        kind: CoordKind,
        allowed_moves: &Vec<Move>,
        evaluator: &E,
        max_setup_ms: Option<u64>,
    ) -> (t: HeuristicTable)
        ensures
            t.kind == kind,
            t.wf(),
            max_setup_ms is None ==> t.exhaustive,
            t.exhaustive ==> t.solved_present(),
            t.solved_zero(),
            t.justified(*evaluator),
    {
        let n = crate::tables::coord_range_ex(kind);
        let mut result = HeuristicTable {
            kind,
            exhaustive: true,
            values: crate::tables::filled_row_u64(n, 0),
            present: crate::tables::filled_row_bool(n, false),
        };
        let start = clock_now();
        let solved = Cube::solved();
        let mut depth: usize = 0;
        let mut done = false;
        let ghost mut ran0: bool = false;
        proof {
            crate::tables::lemma_coord_range(kind, solved_spec());
            assert forall|w: int| 0 <= w < coord_range(kind) && result.present@[w] implies
                #[trigger] result.entry_justified(*evaluator, w) by {}
        }
        while !done && depth < 21
            invariant
                result.kind == kind,
                result.wf(),
                depth <= 21,
                solved == solved_spec(),
                0 <= coord_spec_of(kind, solved_spec()) < coord_range(kind),
                max_setup_ms is None ==> result.exhaustive,
                result.justified(*evaluator),
                ran0 ==> result.solved_present(),
                !ran0 ==> forall|v: int|
                    0 <= v < coord_range(kind) ==> !(#[trigger] result.present@[v]),
                depth > 0 ==> ran0,
                done ==> (result.exhaustive ==> ran0),
            decreases 2 * (21 - depth) + (if done { 0int } else { 1int }),
        {
            let mut stop = false;
            if let Some(max) = max_setup_ms {
                if elapsed_ms(&start) >= max {
                    let ghost pre = result;
                    result.exhaustive = false;
                    proof {
                        lemma_justified_frame(pre, result, *evaluator);
                    }
                    stop = true;
                }
            }
            if !stop {
                let mut stack: Vec<Move> = Vec::new();
                let any = result.expand_to_depth(
                    depth as u8,
                    &mut stack,
                    &solved,
                    evaluator,
                    allowed_moves,
                );
                proof {
                    assert(apply_seq(solved_spec(), Seq::<Move>::empty()) == solved_spec());
                    if depth == 0 {
                        assert(Move::inverse_seq_spec(Seq::<Move>::empty())
                            =~= Seq::<Move>::empty());
                        assert(Move::should_consider_spec(Seq::<Move>::empty()));
                        evaluator.lemma_cost_model(Seq::<Move>::empty());
                        ran0 = true;
                        assert(result.solved_present());
                    }
                }
                if !any {
                    done = true;
                } else {
                    depth = depth + 1;
                }
            } else {
                done = true;
            }
        }
        result
    }

    /// One bounded backward pass: walk every canonical sequence of allowed
    /// moves of the given remaining depth from `cube`, and at the leaves
    /// record the evaluator's guaranteed cost of the inverse sequence,
    /// keeping the cheapest.  Interior values that are already cheaper than
    /// the current path prune it.  Returns whether anything was updated:
    /// the table is untouched on a `false` answer, entries only ever get
    /// smaller, and a canonical leaf leaves its coordinate holding at most
    /// the cost of undoing the path to it.
    pub fn expand_to_depth<E: Evaluator>(
        &mut self,
        depth: u8,
        move_stack: &mut Vec<Move>,
        cube: &Cube,
        evaluator: &E,
        allowed_moves: &Vec<Move>,
    ) -> (any: bool)
        requires
            old(self).wf(),
            old(move_stack)@.len() + depth as int <= 20,
        ensures
            final(self).wf(),
            final(self).kind == old(self).kind,
            final(self).exhaustive == old(self).exhaustive,
            final(move_stack)@ == old(move_stack)@,
            forall|v: int|
                0 <= v < coord_range(old(self).kind) && (#[trigger] old(self).present@[v])
                    ==> final(self).present@[v] && final(self).values@[v] <= old(self).values@[v],
            !any ==> final(self).values@ == old(self).values@ && final(self).present@ == old(self).present@,
            depth == 0 && Move::should_consider_spec(
                Move::inverse_seq_spec(old(move_stack)@),
            ) ==> final(self).present@[coord_spec_of(old(self).kind, *cube)]
                && final(self).values@[coord_spec_of(old(self).kind, *cube)] as int
                <= evaluator.spec_min_time(Move::inverse_seq_spec(old(move_stack)@)),
            old(self).justified(*evaluator) && *cube == apply_seq(
                solved_spec(),
                old(move_stack)@,
            ) ==> final(self).justified(*evaluator),
        decreases depth,
    {
        let ghost on_path = old(self).justified(*evaluator) && *cube == apply_seq(
            solved_spec(),
            old(move_stack)@,
        );
        let inv = Move::inverse_seq(move_stack.as_slice());
        if !Move::should_consider(inv.as_slice()) {
            proof {
                if on_path {
                    lemma_justified_frame(*old(self), *self, *evaluator);
                }
            }
            return false;
        }
        let value = coord_of(self.kind, cube) as usize;
        let time = evaluator.min_time(inv.as_slice());
        proof {
            evaluator.lemma_cost_model(inv@);
            assert(inv@.len() * (MAX_MOVE_COST_MS as int) <= 20 * (MAX_MOVE_COST_MS as int))
                by (nonlinear_arith)
                requires
                    0 <= inv@.len() <= 20,
            ;
        }
        if depth == 0 {
            if !self.present[value] {
                self.values[value] = time;
                self.present[value] = true;
                proof {
                    if on_path {
                        lemma_justified_update(
                            *old(self),
                            *self,
                            *evaluator,
                            old(move_stack)@,
                            value as int,
                        );
                    }
                }
                true
            } else if time < self.values[value] {
                self.values[value] = time;
                proof {
                    if on_path {
                        lemma_justified_update(
                            *old(self),
                            *self,
                            *evaluator,
                            old(move_stack)@,
                            value as int,
                        );
                    }
                }
                true
            } else {
                proof {
                    if on_path {
                        lemma_justified_frame(*old(self), *self, *evaluator);
                    }
                }
                false
            }
        } else {
            if self.present[value] && self.values[value] < time {
                proof {
                    if on_path {
                        lemma_justified_frame(*old(self), *self, *evaluator);
                    }
                }
                return false;
            }
            let mut any = false;
            if !self.present[value] {
                self.values[value] = time;
                self.present[value] = true;
                any = true;
                proof {
                    if on_path {
                        lemma_justified_update(
                            *old(self),
                            *self,
                            *evaluator,
                            old(move_stack)@,
                            value as int,
                        );
                    }
                }
            } else {
                proof {
                    if on_path {
                        lemma_justified_frame(*old(self), *self, *evaluator);
                    }
                }
            }
            let n = allowed_moves.len();
            let mut i: usize = 0;
            while i < n
                invariant
                    self.wf(),
                    self.kind == old(self).kind,
                    self.exhaustive == old(self).exhaustive,
                    move_stack@ == old(move_stack)@,
                    move_stack@.len() + depth as int <= 20,
                    depth >= 1,
                    n == allowed_moves@.len(),
                    i <= n,
                    on_path == (old(self).justified(*evaluator) && *cube == apply_seq(
                        solved_spec(),
                        old(move_stack)@,
                    )),
                    forall|v: int|
                        0 <= v < coord_range(old(self).kind) && (#[trigger] old(self).present@[v])
                            ==> self.present@[v] && self.values@[v] <= old(self).values@[v],
                    !any ==> self.values@ == old(self).values@ && self.present@ == old(self).present@,
                    on_path ==> self.justified(*evaluator),
                decreases n - i,
            {
                let m = allowed_moves[i];
                move_stack.push(m);
                let next = cube.apply(m);
                let ghost values_pre = self.values@;
                let ghost present_pre = self.present@;
                proof {
                    lemma_apply_seq_push(solved_spec(), old(move_stack)@, m);
                }
                let r = self.expand_to_depth(depth - 1, move_stack, &next, evaluator, allowed_moves);
                move_stack.pop();
                proof {
                    assert forall|v: int|
                        0 <= v < coord_range(old(self).kind) && (#[trigger] old(self).present@[v])
                            implies self.present@[v] && self.values@[v] <= old(self).values@[v] by {
                        assert(present_pre[v]);
                        assert(values_pre[v] <= old(self).values@[v]);
                    }
                }
                any = any || r;
                i = i + 1;
            }
            any
        }
    }
}

/// The coordinate of `kind` of a raw cube (alias used in contracts).
pub open spec fn coord_spec_of(kind: CoordKind, c: Cube) -> int {
    crate::tables::coord_spec(kind, c)
}

/// Justification survives a table whose kind and rows are unchanged.
proof fn lemma_justified_frame<E: Evaluator>(
    pre: HeuristicTable,
    post: HeuristicTable,
    evaluator: E,
)
    requires
        pre.kind == post.kind,
        pre.values@ == post.values@,
        pre.present@ == post.present@,
        pre.justified(evaluator),
    ensures
        post.justified(evaluator),
{
    assert forall|w: int| 0 <= w < coord_range(post.kind) && post.present@[w] implies
        #[trigger] post.entry_justified(evaluator, w) by {
        assert(pre.entry_justified(evaluator, w));
        let s = choose|s: Seq<Move>|
            Move::should_consider_spec(Move::inverse_seq_spec(s)) && coord_spec_of(
                pre.kind,
                apply_seq(solved_spec(), s),
            ) == w && pre.values@[w] as int == (#[trigger] evaluator.spec_min_time(
                Move::inverse_seq_spec(s),
            ));
        assert(Move::should_consider_spec(Move::inverse_seq_spec(s)) && coord_spec_of(
            post.kind,
            apply_seq(solved_spec(), s),
        ) == w && post.values@[w] as int == evaluator.spec_min_time(Move::inverse_seq_spec(s)));
    }
}

/// Justification survives one write that stores, at the coordinate of the
/// cube a canonical path reaches, the evaluator's price of that path's
/// inverse.
proof fn lemma_justified_update<E: Evaluator>(
    pre: HeuristicTable,
    post: HeuristicTable,
    evaluator: E,
    stack: Seq<Move>,
    value: int,
)
    requires
        pre.kind == post.kind,
        0 <= value < coord_range(pre.kind),
        pre.justified(evaluator),
        Move::should_consider_spec(Move::inverse_seq_spec(stack)),
        coord_spec_of(pre.kind, apply_seq(solved_spec(), stack)) == value,
        post.values@[value] as int == evaluator.spec_min_time(Move::inverse_seq_spec(stack)),
        forall|w: int|
            0 <= w < coord_range(pre.kind) && w != value ==> (#[trigger] post.values@[w])
                == pre.values@[w],
        forall|w: int|
            0 <= w < coord_range(pre.kind) && (#[trigger] post.present@[w]) ==> w == value
                || pre.present@[w],
    ensures
        post.justified(evaluator),
{
    assert forall|w: int| 0 <= w < coord_range(post.kind) && post.present@[w] implies
        #[trigger] post.entry_justified(evaluator, w) by {
        if w == value {
            assert(post.values@[w] as int == evaluator.spec_min_time(
                Move::inverse_seq_spec(stack),
            ));
        } else {
            assert(pre.present@[w]);
            assert(pre.entry_justified(evaluator, w));
            let s = choose|s: Seq<Move>|
                Move::should_consider_spec(Move::inverse_seq_spec(s)) && coord_spec_of(
                    pre.kind,
                    apply_seq(solved_spec(), s),
                ) == w && pre.values@[w] as int == (#[trigger] evaluator.spec_min_time(
                    Move::inverse_seq_spec(s),
                ));
            assert(Move::should_consider_spec(Move::inverse_seq_spec(s)) && coord_spec_of(
                post.kind,
                apply_seq(solved_spec(), s),
            ) == w && post.values@[w] as int == evaluator.spec_min_time(
                Move::inverse_seq_spec(s),
            ));
        }
    }
}

/// One stage of the solver: the moves it may use, the goal it stops at, and
/// the heuristics that bound the remaining cost.
pub struct Phase {
    /// The moves the search may use.
    pub allowed_moves: Vec<Move>,
    /// When the phase is finished.
    pub goal: Goal,
    /// Lower bounds on the remaining cost, combined by maximum.
    pub heuristics: Vec<HeuristicTable>,
}

impl Phase {
    /// All heuristic tables are well-formed.
    pub open spec fn wf(self) -> bool {
        forall|i: int| 0 <= i < self.heuristics@.len() ==> (#[trigger] self.heuristics@[i]).wf()
    }

    /// Bundle a phase.
    pub fn init(allowed_moves: Vec<Move>, goal: Goal, heuristics: Vec<HeuristicTable>) -> (p:
        Phase)
        ensures
            p.allowed_moves == allowed_moves,
            p.goal == goal,
            p.heuristics == heuristics,
    {
        Phase { allowed_moves, goal, heuristics }
    }

    /// The largest of the heuristics' bounds for this cube; zero with no
    /// heuristics.
    pub fn min_time(&self, cube: &CoordCube) -> (r: u64)
        requires
            self.wf(),
        ensures
            r as int == phase_min_time_spec(self.heuristics@, *cube),
            r <= MAX_TABLE_COST_MS,
    {
        let mut best: u64 = 0;
        let n = self.heuristics.len();
        let mut i: usize = 0;
        while i < n
            invariant
                self.wf(),
                n == self.heuristics@.len(),
                i <= n,
                best as int == phase_min_time_spec(self.heuristics@.take(i as int), *cube),
                best <= MAX_TABLE_COST_MS,
            decreases n - i,
        {
            let h = self.heuristics[i].min_time(cube);
            if h > best {
                best = h;
            }
            proof {
                assert(self.heuristics@.take(i as int + 1).drop_last() =~= self.heuristics@.take(
                    i as int,
                ));
            }
            i = i + 1;
        }
        proof {
            assert(self.heuristics@.take(n as int) =~= self.heuristics@);
        }
        best
    }

    /// Whether the phase goal holds of a raw cube.
    pub fn is_finished(&self, cube: &Cube) -> (r: bool)
        ensures
            r == goal_spec(self.goal, *cube),
    {
        match self.goal {
            Goal::Domino => is_domino_cube(cube),
            Goal::Solved => *cube == Cube::solved(),
        }
    }
}

/// The maximum of the heuristics' stored bounds for `cc`.
pub open spec fn phase_min_time_spec(hs: Seq<HeuristicTable>, cc: CoordCube) -> int
    decreases hs.len(),
{
    if hs.len() == 0 {
        0
    } else {
        let rest = phase_min_time_spec(hs.drop_last(), cc);
        let last = hs.last().lookup_spec(cc);
        if last > rest {
            last
        } else {
            rest
        }
    }
}

/// A phase-one give-up, phrased over the inputs: when no canonical
/// continuation of the empty prefix reaches the phase goal, no canonical
/// sequence of any of the 18 moves reaches the domino subgroup.
#[verifier::rlimit(100)]
#[verifier::spinoff_prover]
proof fn lemma_solve_giveup_reach<E: Evaluator>(k: Kociemba<E>, cube: Cube, pre: Seq<Move>)
    requires
        k.wf(),
        pre.len() == 0,
        forall|ext: Seq<Move>|
            ext.len() <= SEARCH_FUEL as int && chains_after(pre, ext) && (forall|j: int|
                0 <= j < ext.len() ==> k.to_domino.allowed_moves@.contains(#[trigger] ext[j]))
                ==> !goal_spec(k.to_domino.goal, #[trigger] apply_seq(apply_seq(cube, pre), ext)),
    ensures
        forall|ext: Seq<Move>|
            ext.len() <= SEARCH_FUEL as int && chains_after(Seq::<Move>::empty(), ext) && (forall|
                j: int,
            | 0 <= j < ext.len() ==> all_moves().contains(#[trigger] ext[j]))
                ==> !is_domino_spec(#[trigger] apply_seq(cube, ext)),
{
    assert(pre =~= Seq::<Move>::empty());
    assert forall|ext: Seq<Move>|
        ext.len() <= SEARCH_FUEL as int && chains_after(Seq::<Move>::empty(), ext) && (forall|
            j: int,
        | 0 <= j < ext.len() ==> all_moves().contains(#[trigger] ext[j])) implies !is_domino_spec(
        #[trigger] apply_seq(cube, ext),
    ) by {
        assert(apply_seq(cube, pre) == cube);
        assert(apply_seq(apply_seq(cube, pre), ext) == apply_seq(cube, ext));
        assert(!goal_spec(k.to_domino.goal, apply_seq(apply_seq(cube, pre), ext)));
    }
}

/// A phase-two give-up, phrased over the inputs: when no canonical
/// continuation of the fixed prefix reaches the phase goal, no canonical
/// run of domino moves appended to that prefix solves the cube.
#[verifier::rlimit(100)]
#[verifier::spinoff_prover]
proof fn lemma_solve_giveup_finish<E: Evaluator>(k: Kociemba<E>, cube: Cube, p: Seq<Move>)
    requires
        k.wf(),
        forall|ext: Seq<Move>|
            ext.len() <= SEARCH_FUEL as int && chains_after(p, ext) && (forall|j: int|
                0 <= j < ext.len() ==> k.post_domino.allowed_moves@.contains(#[trigger] ext[j]))
                ==> !goal_spec(k.post_domino.goal, #[trigger] apply_seq(apply_seq(cube, p), ext)),
    ensures
        forall|ext: Seq<Move>|
            ext.len() <= SEARCH_FUEL as int && chains_after(p, ext) && (forall|j: int|
                0 <= j < ext.len() ==> domino_moves_spec().contains(#[trigger] ext[j]))
                ==> #[trigger] apply_seq(cube, p + ext) != solved_spec(),
{
    assert forall|ext: Seq<Move>|
        ext.len() <= SEARCH_FUEL as int && chains_after(p, ext) && (forall|j: int|
            0 <= j < ext.len() ==> domino_moves_spec().contains(#[trigger] ext[j])) implies (
    #[trigger] apply_seq(cube, p + ext)) != solved_spec() by {
        lemma_apply_seq_concat(cube, p, ext);
        assert(!goal_spec(k.post_domino.goal, apply_seq(apply_seq(cube, p), ext)));
    }
}

/// The solved cube lies in the domino subgroup.
pub proof fn lemma_solved_is_domino()
    ensures
        is_domino_spec(solved_spec()),
{
}

/// Every entry of [`domino_moves_spec`] is a domino move.
pub proof fn lemma_domino_moves_are_domino()
    ensures
        forall|i: int|
            0 <= i < domino_moves_spec().len() ==> is_domino_move_spec(
                #[trigger] domino_moves_spec()[i],
            ),
{
    assert forall|i: int| 0 <= i < domino_moves_spec().len() implies is_domino_move_spec(
        domino_moves_spec()[i],
    ) by {
        if i < 4 {
            assert(domino_moves_spec()[i].direction == Direction::Double);
        } else {
            assert(domino_moves_spec()[i].face.axis_spec() == Axis::UD);
        }
    }
}

/// Heuristics that charge nothing at the solved cube's coordinate combine
/// to a phase bound of zero there.
pub proof fn lemma_phase_min_time_solved(hs: Seq<HeuristicTable>)
    requires
        forall|i: int| 0 <= i < hs.len() ==> (#[trigger] hs[i]).solved_zero(),
    ensures
        phase_min_time_spec(hs, coord_cube_spec(solved_spec())) == 0,
    decreases hs.len(),
{
    if hs.len() > 0 {
        assert forall|i: int| 0 <= i < hs.drop_last().len() implies (
        #[trigger] hs.drop_last()[i]).solved_zero() by {
            assert(hs.drop_last()[i] == hs[i]);
        }
        lemma_phase_min_time_solved(hs.drop_last());
        let h = hs.last();
        let cc = coord_cube_spec(solved_spec());
        crate::coord::lemma_corner_orientation_range(solved_spec());
        crate::coord::lemma_edge_orientation_range(solved_spec());
        crate::coord::lemma_corner_position_range(solved_spec());
        assert(h.key_of(cc) == h.solved_key());
        assert(h.lookup_spec(cc) == 0);
    }
}

/// The outcome of one bounded search pass: a solution within the bound, or
/// the smallest cost that exceeded it (`u64::MAX` when the pass was cut off
/// with nothing to report).
pub enum Search {
    NotFound(u64),
    Found(Vec<Move>),
}

/// Whether each move of `ext` may follow its predecessor, the first one
/// following the last move of `st`.
pub open spec fn chains_after(st: Seq<Move>, ext: Seq<Move>) -> bool {
    &&& (st.len() > 0 && ext.len() > 0 ==> ext[0].could_follow_spec(st[st.len() - 1]))
    &&& forall|j: int| 0 < j < ext.len() ==> (#[trigger] ext[j]).could_follow_spec(ext[j - 1])
}

/// Every phase bound is at least zero.
pub proof fn lemma_pmt_nonneg(hs: Seq<HeuristicTable>, cc: CoordCube)
    ensures
        phase_min_time_spec(hs, cc) >= 0,
    decreases hs.len(),
{
    if hs.len() > 0 {
        lemma_pmt_nonneg(hs.drop_last(), cc);
    }
}

/// The two-phase solver.
pub struct Kociemba<E: Evaluator> {
    /// The cost model being minimised.
    pub challenge: Challenge<E>,
    /// The coordinate transition tables.
    pub tables: TransitionTable,
    /// Phase one: all moves, into the domino subgroup.
    pub to_domino: Phase,
    /// Phase two: domino moves, to the solved cube.
    pub post_domino: Phase,
}

impl<E: Evaluator> Kociemba<E> {
    /// Tables built, phases well-formed, aimed at the right goals and
    /// armed with the right move sets; no heuristic charges anything at
    /// the solved cube's coordinate.
    pub open spec fn wf(self) -> bool {
        &&& self.tables.wf()
        &&& self.to_domino.wf()
        &&& self.post_domino.wf()
        &&& self.to_domino.goal == Goal::Domino
        &&& self.post_domino.goal == Goal::Solved
        &&& self.to_domino.allowed_moves@ == all_moves()
        &&& self.post_domino.allowed_moves@ == domino_moves_spec()
        &&& forall|i: int|
            0 <= i < self.to_domino.heuristics@.len() ==> (
            #[trigger] self.to_domino.heuristics@[i]).solved_zero()
        &&& forall|i: int|
            0 <= i < self.post_domino.heuristics@.len() ==> (
            #[trigger] self.post_domino.heuristics@[i]).solved_zero()
    }

    /// What one bounded pass promises, relative to the move stack it was
    /// started with: a found solution extends the stack by allowed moves
    /// within the fuel, each appended move permitted after the one before
    /// it, reaches the phase goal from the pass's cube, and costs at most
    /// the bound; a failed pass names a bound that is larger than the one
    /// that failed, or `u64::MAX`.
    pub open spec fn found_ok(
        self,
        s: Seq<Move>,
        stack0: Seq<Move>,
        cube: CoordCube,
        phase: Phase,
        max_time: u64,
        fuel: u8,
    ) -> bool {
        &&& stack0.len() <= s.len() <= stack0.len() + fuel as int
        &&& s.subrange(0, stack0.len() as int) == stack0
        &&& goal_spec(phase.goal, apply_seq(cube.raw, s.skip(stack0.len() as int)))
        &&& forall|j: int|
            stack0.len() <= j < s.len() ==> phase.allowed_moves@.contains(#[trigger] s[j])
        &&& forall|j: int|
            stack0.len() <= j < s.len() && 1 <= j ==> (#[trigger] s[j]).could_follow_spec(
                s[j - 1],
            )
        &&& self.challenge.evaluator.spec_eval(s) <= max_time as int
    }

    pub open spec fn search_ok(
        self,
        r: Search,
        stack0: Seq<Move>,
        cube: CoordCube,
        phase: Phase,
        max_time: u64,
        fuel: u8,
    ) -> bool {
        match r {
            Search::Found(s) => self.found_ok(s@, stack0, cube, phase, max_time, fuel),
            Search::NotFound(t) => t > max_time || t == u64::MAX,
        }
    }

    /// The price discipline that lets a failed bounded pass rule out whole
    /// subtrees: whenever some continuation takes a cube to the phase goal,
    /// the cost of the stack so far plus the phase's heuristic bound at
    /// that cube is at most the cost of the stack with the continuation
    /// appended.  This is heuristic admissibility together with the
    /// evaluator's monotonicity.  It rests on the same group facts as
    /// [`crate::tables::SingleTable::sound`] and is checked by tests, so
    /// contracts that rely on it carry it as an explicit hypothesis.
    pub open spec fn admissible(self, phase: Phase) -> bool {
        forall|st: Seq<Move>, ext: Seq<Move>, c: CoordCube|
            goal_spec(phase.goal, apply_seq(c.raw, ext)) ==> self.challenge.evaluator.spec_eval(
                st,
            ) + (#[trigger] phase_min_time_spec(phase.heuristics@, c))
                <= #[trigger] self.challenge.evaluator.spec_eval(st + ext)
    }

    /// No continuation of `st` by at most `fuel` allowed, canonical moves
    /// takes `cube` to the phase goal at a cost within `max_time`.
    pub open spec fn no_goal_within(
        self,
        phase: Phase,
        st: Seq<Move>,
        cube: CoordCube,
        max_time: u64,
        fuel: int,
    ) -> bool {
        forall|ext: Seq<Move>|
            ext.len() <= fuel && chains_after(st, ext) && (forall|j: int|
                0 <= j < ext.len() ==> phase.allowed_moves@.contains(#[trigger] ext[j]))
                && goal_spec(phase.goal, #[trigger] apply_seq(cube.raw, ext))
                ==> self.challenge.evaluator.spec_eval(st + ext) > max_time as int
    }

    /// As [`Kociemba::no_goal_within`], for the continuations whose first
    /// move stands among the first `upto` allowed moves.
    pub open spec fn no_goal_first(
        self,
        phase: Phase,
        st: Seq<Move>,
        cube: CoordCube,
        max_time: u64,
        fuel: int,
        upto: int,
    ) -> bool {
        forall|ext: Seq<Move>|
            ext.len() <= fuel && chains_after(st, ext) && (forall|j: int|
                0 <= j < ext.len() ==> phase.allowed_moves@.contains(#[trigger] ext[j])) && (
            ext.len() > 0 ==> exists|j: int|
                0 <= j < upto && #[trigger] phase.allowed_moves@[j] == ext[0]) && goal_spec(
                phase.goal,
                #[trigger] apply_seq(cube.raw, ext),
            ) ==> self.challenge.evaluator.spec_eval(st + ext) > max_time as int
    }

    /// One cost-bounded depth-first pass.  Prunes when the cost so far plus
    /// the heuristic bound exceeds `max_time`; reports the goal when the
    /// heuristics are spent and the goal predicate holds; otherwise tries
    /// every allowed move that may follow the stack's last move, keeping
    /// the cheapest solution or the smallest exceeded bound.
    pub fn find_solution(
        &self,
        fuel: u8,
        max_time: u64,
        cube: &CoordCube,
        move_stack: &mut Vec<Move>,
        phase: &Phase,
    ) -> (r: Search)
        requires
            self.wf(),
            phase.wf(),
            old(move_stack)@.len() + fuel as int <= 1000,
        ensures
            final(move_stack)@ == old(move_stack)@,
            self.search_ok(r, old(move_stack)@, *cube, *phase, max_time, fuel),
            (self.challenge.evaluator.spec_eval(old(move_stack)@) <= max_time as int
                && phase_min_time_spec(phase.heuristics@, *cube) == 0 && goal_spec(
                phase.goal,
                cube.raw,
            )) ==> (r matches Search::Found(s) && s@ == old(move_stack)@),
            (r matches Search::NotFound(t) && self.admissible(*phase)) ==> self.no_goal_within(
                *phase,
                old(move_stack)@,
                *cube,
                max_time,
                fuel as int,
            ),
        decreases fuel,
    {
        let ghost stack0 = move_stack@;
        let h = phase.min_time(cube);
        let e = self.challenge.evaluator.eval(move_stack.as_slice());
        let this_time = if e > u64::MAX - h {
            u64::MAX
        } else {
            e + h
        };
        if this_time > max_time {
            proof {
                if self.admissible(*phase) {
                    lemma_search_prune_complete(
                        *self,
                        *phase,
                        stack0,
                        *cube,
                        max_time,
                        fuel as int,
                    );
                }
            }
            return Search::NotFound(this_time);
        }
        if h == 0 && phase.is_finished(&cube.raw) {
            let s = move_stack.clone();
            proof {
                assert(s@.subrange(0, stack0.len() as int) =~= stack0);
                assert(s@.skip(stack0.len() as int) =~= Seq::<Move>::empty());
            }
            return Search::Found(s);
        }
        if fuel == 0 {
            proof {
                if self.admissible(*phase) {
                    lemma_search_leaf_complete(*self, *phase, stack0, *cube, max_time, 0);
                }
            }
            return Search::NotFound(u64::MAX);
        }
        let last: Option<Move> = if move_stack.len() > 0 {
            Some(move_stack[move_stack.len() - 1])
        } else {
            None
        };
        let mut best: Search = Search::NotFound(u64::MAX);
        let n = phase.allowed_moves.len();
        let mut i: usize = 0;
        proof {
            if self.admissible(*phase) {
                lemma_search_leaf_complete(*self, *phase, stack0, *cube, max_time, fuel as int);
            }
        }
        while i < n
            invariant
                self.wf(),
                phase.wf(),
                n == phase.allowed_moves@.len(),
                i <= n,
                move_stack@ == stack0,
                stack0.len() + fuel as int <= 1000,
                fuel >= 1,
                (match last {
                    Option::None => stack0.len() == 0,
                    Option::Some(l) => stack0.len() > 0 && l == stack0[stack0.len() - 1],
                }),
                !(phase_min_time_spec(phase.heuristics@, *cube) == 0 && goal_spec(
                    phase.goal,
                    cube.raw,
                )),
                self.search_ok(best, stack0, *cube, *phase, max_time, fuel),
                (best is NotFound && self.admissible(*phase)) ==> self.no_goal_first(
                    *phase,
                    stack0,
                    *cube,
                    max_time,
                    fuel as int,
                    i as int,
                ),
            decreases n - i,
        {
            let m = phase.allowed_moves[i];
            let ok = match last {
                None => true,
                Some(l) => m.could_follow(&l),
            };
            if ok {
                move_stack.push(m);
                let next = cube.apply(m, &self.tables);
                let sub = self.find_solution(fuel - 1, max_time, &next, move_stack, phase);
                move_stack.pop();
                proof {
                    assert(move_stack@ =~= stack0);
                    if let Search::Found(s) = &sub {
                        if stack0.len() >= 1 {
                            assert(last == Some(stack0[stack0.len() - 1]));
                        }
                        lemma_child_found(
                            *self,
                            s@,
                            stack0,
                            m,
                            *cube,
                            next,
                            *phase,
                            max_time,
                            fuel,
                            i as int,
                        );
                    }
                }
                let ghost best_pre = best;
                best = match (best, sub) {
                    (Search::NotFound(a), Search::NotFound(b)) => Search::NotFound(
                        if a < b {
                            a
                        } else {
                            b
                        },
                    ),
                    (Search::Found(s), Search::NotFound(_)) => Search::Found(s),
                    (Search::NotFound(_), Search::Found(s)) => Search::Found(s),
                    (Search::Found(a), Search::Found(b)) => {
                        let at = self.challenge.evaluator.eval(a.as_slice());
                        let bt = self.challenge.evaluator.eval(b.as_slice());
                        if at <= bt {
                            Search::Found(a)
                        } else {
                            Search::Found(b)
                        }
                    },
                };
                proof {
                    if best is NotFound && self.admissible(*phase) {
                        assert(best_pre is NotFound);
                        lemma_search_step_complete(
                            *self,
                            *phase,
                            stack0,
                            *cube,
                            next,
                            m,
                            i as int,
                            max_time,
                            fuel as int,
                        );
                    }
                }
            } else {
                proof {
                    if best is NotFound && self.admissible(*phase) {
                        if let Some(l) = last {
                            lemma_search_skip_complete(
                                *self,
                                *phase,
                                stack0,
                                *cube,
                                m,
                                i as int,
                                max_time,
                                fuel as int,
                                l,
                            );
                        }
                    }
                }
            }
            i = i + 1;
        }
        proof {
            if best is NotFound && self.admissible(*phase) {
                lemma_search_close_complete(*self, *phase, stack0, *cube, max_time, fuel as int);
            }
        }
        best
    }
}

/// A solution found by a child pass, one move below, also satisfies the
/// parent pass's promise.
proof fn lemma_child_found<E: Evaluator>(
    k: Kociemba<E>,
    s: Seq<Move>,
    stack0: Seq<Move>,
    m: Move,
    cube: CoordCube,
    next: CoordCube,
    phase: Phase,
    max_time: u64,
    fuel: u8,
    i: int,
)
    requires
        fuel >= 1,
        0 <= i < phase.allowed_moves@.len(),
        phase.allowed_moves@[i] == m,
        next.raw == apply_spec(cube.raw, m),
        stack0.len() >= 1 ==> m.could_follow_spec(stack0[stack0.len() - 1]),
        k.found_ok(s, stack0.push(m), next, phase, max_time, (fuel - 1) as u8),
    ensures
        k.found_ok(s, stack0, cube, phase, max_time, fuel),
{
    let len0 = stack0.len() as int;
    assert(s.subrange(0, len0 + 1) == stack0.push(m));
    assert(s.subrange(0, len0) =~= stack0) by {
        assert forall|j: int| 0 <= j < len0 implies s[j] == stack0[j] by {
            assert(s.subrange(0, len0 + 1)[j] == s[j]);
        }
    }
    assert(s[len0] == m) by {
        assert(s.subrange(0, len0 + 1)[len0] == s[len0]);
    }
    assert(s.skip(len0)[0] == s[len0]);
    assert(s.skip(len0).skip(1) =~= s.skip(len0 + 1));
    assert(apply_seq(cube.raw, s.skip(len0)) == apply_seq(
        apply_spec(cube.raw, m),
        s.skip(len0 + 1),
    ));
    assert forall|j: int| len0 <= j < s.len() implies phase.allowed_moves@.contains(
        #[trigger] s[j],
    ) by {
        if j == len0 {
            assert(phase.allowed_moves@[i] == s[j]);
        }
    }
    assert forall|j: int| len0 <= j < s.len() && 1 <= j implies (#[trigger] s[j]).could_follow_spec(
        s[j - 1],
    ) by {
        if j == len0 {
            assert(s[j - 1] == stack0[len0 - 1]) by {
                assert(s.subrange(0, len0)[j - 1] == s[j - 1]);
            }
        }
    }
}

/// A pass pruned because the stack's cost plus the heuristic bound already
/// exceeds the budget rules out every goal-reaching continuation, under
/// the admissibility hypothesis.
#[verifier::rlimit(100)]
#[verifier::spinoff_prover]
proof fn lemma_search_prune_complete<E: Evaluator>(
    k: Kociemba<E>,
    phase: Phase,
    st: Seq<Move>,
    c: CoordCube,
    max_time: u64,
    fuel: int,
)
    requires
        k.admissible(phase),
        k.challenge.evaluator.spec_eval(st) + phase_min_time_spec(phase.heuristics@, c)
            > max_time as int,
    ensures
        k.no_goal_within(phase, st, c, max_time, fuel),
{
    assert forall|ext: Seq<Move>|
        ext.len() <= fuel && chains_after(st, ext) && (forall|j: int|
            0 <= j < ext.len() ==> phase.allowed_moves@.contains(#[trigger] ext[j])) && goal_spec(
            phase.goal,
            #[trigger] apply_seq(c.raw, ext),
        ) implies k.challenge.evaluator.spec_eval(st + ext) > max_time as int by {
        assert(k.challenge.evaluator.spec_eval(st) + phase_min_time_spec(phase.heuristics@, c)
            <= k.challenge.evaluator.spec_eval(st + ext));
    }
}

/// A cube that misses the goal or still carries a positive heuristic bound
/// is not finished by the empty continuation, under the admissibility
/// hypothesis; continuations of positive length are ruled out by `fuel`
/// alone when it is zero, and by the per-move argument otherwise.
#[verifier::rlimit(100)]
#[verifier::spinoff_prover]
proof fn lemma_search_leaf_complete<E: Evaluator>(
    k: Kociemba<E>,
    phase: Phase,
    st: Seq<Move>,
    c: CoordCube,
    max_time: u64,
    fuel: int,
)
    requires
        k.admissible(phase),
        !(phase_min_time_spec(phase.heuristics@, c) == 0 && goal_spec(phase.goal, c.raw)),
    ensures
        k.no_goal_within(phase, st, c, max_time, 0),
        k.no_goal_first(phase, st, c, max_time, fuel, 0),
{
    lemma_pmt_nonneg(phase.heuristics@, c);
    assert forall|ext: Seq<Move>|
        ext.len() <= 0 && chains_after(st, ext) && (forall|j: int|
            0 <= j < ext.len() ==> phase.allowed_moves@.contains(#[trigger] ext[j])) && goal_spec(
            phase.goal,
            #[trigger] apply_seq(c.raw, ext),
        ) implies k.challenge.evaluator.spec_eval(st + ext) > max_time as int by {
        assert(ext =~= Seq::<Move>::empty());
        assert(apply_seq(c.raw, ext) == c.raw);
        assert(st + ext =~= st);
        assert(k.challenge.evaluator.spec_eval(st) + phase_min_time_spec(phase.heuristics@, c)
            <= k.challenge.evaluator.spec_eval(st + ext));
    }
    assert forall|ext: Seq<Move>|
        ext.len() <= fuel && chains_after(st, ext) && (forall|j: int|
            0 <= j < ext.len() ==> phase.allowed_moves@.contains(#[trigger] ext[j])) && (ext.len()
            > 0 ==> exists|j: int|
            0 <= j < 0 && #[trigger] phase.allowed_moves@[j] == ext[0]) && goal_spec(
            phase.goal,
            #[trigger] apply_seq(c.raw, ext),
        ) implies k.challenge.evaluator.spec_eval(st + ext) > max_time as int by {
        assert(ext =~= Seq::<Move>::empty());
        assert(apply_seq(c.raw, ext) == c.raw);
        assert(st + ext =~= st);
        assert(k.challenge.evaluator.spec_eval(st) + phase_min_time_spec(phase.heuristics@, c)
            <= k.challenge.evaluator.spec_eval(st + ext));
    }
}

/// A child pass that ruled out every continuation one move deeper extends
/// the parent's coverage to the continuations starting with that move.
#[verifier::rlimit(100)]
#[verifier::spinoff_prover]
proof fn lemma_search_step_complete<E: Evaluator>(
    k: Kociemba<E>,
    phase: Phase,
    st: Seq<Move>,
    c: CoordCube,
    next: CoordCube,
    m: Move,
    i: int,
    max_time: u64,
    fuel: int,
)
    requires
        fuel >= 1,
        0 <= i < phase.allowed_moves@.len(),
        phase.allowed_moves@[i] == m,
        next.raw == apply_spec(c.raw, m),
        k.no_goal_within(phase, st.push(m), next, max_time, fuel - 1),
        k.no_goal_first(phase, st, c, max_time, fuel, i),
    ensures
        k.no_goal_first(phase, st, c, max_time, fuel, i + 1),
{
    assert forall|ext: Seq<Move>|
        ext.len() <= fuel && chains_after(st, ext) && (forall|j: int|
            0 <= j < ext.len() ==> phase.allowed_moves@.contains(#[trigger] ext[j])) && (ext.len()
            > 0 ==> exists|j: int|
            0 <= j < i + 1 && #[trigger] phase.allowed_moves@[j] == ext[0]) && goal_spec(
            phase.goal,
            #[trigger] apply_seq(c.raw, ext),
        ) implies k.challenge.evaluator.spec_eval(st + ext) > max_time as int by {
        if ext.len() > 0 {
            if exists|j: int| 0 <= j < i && #[trigger] phase.allowed_moves@[j] == ext[0] {
                assert(k.challenge.evaluator.spec_eval(st + ext) > max_time as int);
            } else {
                assert(phase.allowed_moves@[i] == ext[0]);
                assert(ext[0] == m);
                let rest = ext.skip(1);
                let stm = st.push(m);
                assert(rest.len() <= fuel - 1);
                assert forall|j: int| 0 < j < rest.len() implies (
                #[trigger] rest[j]).could_follow_spec(rest[j - 1]) by {
                    assert(rest[j] == ext[j + 1] && rest[j - 1] == ext[j]);
                }
                if rest.len() > 0 {
                    assert(rest[0] == ext[1]);
                    assert(ext[1].could_follow_spec(ext[0]));
                    assert(stm[stm.len() - 1] == m);
                }
                assert(chains_after(stm, rest));
                assert forall|j: int| 0 <= j < rest.len() implies phase.allowed_moves@.contains(
                    #[trigger] rest[j],
                ) by {
                    assert(rest[j] == ext[j + 1]);
                    assert(phase.allowed_moves@.contains(ext[j + 1]));
                }
                assert(apply_seq(next.raw, rest) == apply_seq(c.raw, ext)) by {
                    assert(apply_seq(c.raw, ext) == apply_seq(apply_spec(c.raw, ext[0]), rest));
                }
                assert(goal_spec(phase.goal, apply_seq(next.raw, rest)));
                assert(k.challenge.evaluator.spec_eval(stm + rest) > max_time as int);
                assert(stm + rest =~= st + ext);
            }
        } else {
            assert(k.challenge.evaluator.spec_eval(st + ext) > max_time as int);
        }
    }
}

/// A move the canonical order forbids after the stack's last move starts no
/// chained continuation, so ruling out earlier first moves already covers
/// it.
#[verifier::rlimit(100)]
#[verifier::spinoff_prover]
proof fn lemma_search_skip_complete<E: Evaluator>(
    k: Kociemba<E>,
    phase: Phase,
    st: Seq<Move>,
    c: CoordCube,
    m: Move,
    i: int,
    max_time: u64,
    fuel: int,
    l: Move,
)
    requires
        0 <= i < phase.allowed_moves@.len(),
        phase.allowed_moves@[i] == m,
        st.len() >= 1,
        st[st.len() - 1] == l,
        !m.could_follow_spec(l),
        k.no_goal_first(phase, st, c, max_time, fuel, i),
    ensures
        k.no_goal_first(phase, st, c, max_time, fuel, i + 1),
{
    assert forall|ext: Seq<Move>|
        ext.len() <= fuel && chains_after(st, ext) && (forall|j: int|
            0 <= j < ext.len() ==> phase.allowed_moves@.contains(#[trigger] ext[j])) && (ext.len()
            > 0 ==> exists|j: int|
            0 <= j < i + 1 && #[trigger] phase.allowed_moves@[j] == ext[0]) && goal_spec(
            phase.goal,
            #[trigger] apply_seq(c.raw, ext),
        ) implies k.challenge.evaluator.spec_eval(st + ext) > max_time as int by {
        if ext.len() > 0 {
            if exists|j: int| 0 <= j < i && #[trigger] phase.allowed_moves@[j] == ext[0] {
                assert(k.challenge.evaluator.spec_eval(st + ext) > max_time as int);
            } else {
                assert(phase.allowed_moves@[i] == ext[0]);
                assert(ext[0].could_follow_spec(l));
            }
        } else {
            assert(k.challenge.evaluator.spec_eval(st + ext) > max_time as int);
        }
    }
}

/// Coverage of every first move is coverage outright: a nonempty chained
/// continuation opens with some allowed move.
#[verifier::rlimit(100)]
#[verifier::spinoff_prover]
proof fn lemma_search_close_complete<E: Evaluator>(
    k: Kociemba<E>,
    phase: Phase,
    st: Seq<Move>,
    c: CoordCube,
    max_time: u64,
    fuel: int,
)
    requires
        k.admissible(phase),
        !(phase_min_time_spec(phase.heuristics@, c) == 0 && goal_spec(phase.goal, c.raw)),
        k.no_goal_first(phase, st, c, max_time, fuel, phase.allowed_moves@.len() as int),
    ensures
        k.no_goal_within(phase, st, c, max_time, fuel),
{
    lemma_pmt_nonneg(phase.heuristics@, c);
    assert forall|ext: Seq<Move>|
        ext.len() <= fuel && chains_after(st, ext) && (forall|j: int|
            0 <= j < ext.len() ==> phase.allowed_moves@.contains(#[trigger] ext[j])) && goal_spec(
            phase.goal,
            #[trigger] apply_seq(c.raw, ext),
        ) implies k.challenge.evaluator.spec_eval(st + ext) > max_time as int by {
        if ext.len() > 0 {
            assert(phase.allowed_moves@.contains(ext[0]));
            let j = choose|j: int|
                0 <= j < phase.allowed_moves@.len() && phase.allowed_moves@[j] == ext[0];
            assert(0 <= j < phase.allowed_moves@.len() && phase.allowed_moves@[j] == ext[0]);
            assert(k.challenge.evaluator.spec_eval(st + ext) > max_time as int);
        } else {
            assert(ext =~= Seq::<Move>::empty());
            assert(apply_seq(c.raw, ext) == c.raw);
            assert(st + ext =~= st);
            assert(k.challenge.evaluator.spec_eval(st) + phase_min_time_spec(phase.heuristics@, c)
                <= k.challenge.evaluator.spec_eval(st + ext));
        }
    }
}

impl<E: Evaluator> Kociemba<E> {
    /// Solve one phase: apply `prefix` to `cube`, then raise the cost bound
    /// from the prefix's own cost until a bounded pass finds a sequence
    /// (returned whole, prefix included) that takes `cube` to the phase
    /// goal.  Every raise is strict (it is the loop's termination measure),
    /// and a found sequence costs at most the bound of the pass that found
    /// it, by [`Kociemba::find_solution`]'s contract.  `None` means the
    /// bound could no longer be raised, which a finite fuel can force but a
    /// solvable phase never does in practice.  A cube that already sits at
    /// the goal with no heuristic charge comes back as the bare prefix.
    pub fn solve_to(&self, cube: &Cube, phase: &Phase, prefix: Vec<Move>) -> (r: Option<
        Vec<Move>,
    >)
        requires
            self.wf(),
            phase.wf(),
            prefix@.len() + SEARCH_FUEL as int <= 1000,
        ensures
            match r {
                Some(s) => {
                    &&& prefix@.len() <= s@.len() <= prefix@.len() + SEARCH_FUEL as int
                    &&& s@.subrange(0, prefix@.len() as int) == prefix@
                    &&& goal_spec(phase.goal, apply_seq(*cube, s@))
                    &&& forall|j: int|
                        prefix@.len() <= j < s@.len() ==> phase.allowed_moves@.contains(
                            #[trigger] s@[j],
                        )
                    &&& forall|j: int|
                        prefix@.len() <= j < s@.len() && 1 <= j ==> (
                        #[trigger] s@[j]).could_follow_spec(s@[j - 1])
                },
                None => true,
            },
            (goal_spec(phase.goal, apply_seq(*cube, prefix@)) && phase_min_time_spec(
                phase.heuristics@,
                coord_cube_spec(apply_seq(*cube, prefix@)),
            ) == 0) ==> (r matches Some(s) && s@ == prefix@),
            (r is None && self.admissible(*phase)) ==> forall|ext: Seq<Move>|
                ext.len() <= SEARCH_FUEL as int && chains_after(prefix@, ext) && (forall|j: int|
                    0 <= j < ext.len() ==> phase.allowed_moves@.contains(#[trigger] ext[j]))
                    ==> !goal_spec(
                    phase.goal,
                    #[trigger] apply_seq(apply_seq(*cube, prefix@), ext),
                ),
    {
        let ghost prefix0 = prefix@;
        let start = (*cube).apply_all(prefix.as_slice());
        let cc = CoordCube::from_cube(start);
        let mut stack = prefix;
        let mut best: u64 = self.challenge.evaluator.eval(stack.as_slice());
        let ghost mut first: bool = true;
        loop
            invariant
                self.wf(),
                phase.wf(),
                prefix0 == prefix@,
                stack@ == prefix0,
                cc == coord_cube_spec(apply_seq(*cube, prefix0)),
                cc.raw == apply_seq(*cube, prefix0),
                prefix0.len() + SEARCH_FUEL as int <= 1000,
                first ==> best as int == self.challenge.evaluator.spec_eval(prefix0),
                (goal_spec(phase.goal, apply_seq(*cube, prefix0)) && phase_min_time_spec(
                    phase.heuristics@,
                    coord_cube_spec(apply_seq(*cube, prefix0)),
                ) == 0) ==> first,
            decreases u64::MAX - best,
        {
            let r = self.find_solution(SEARCH_FUEL, best, &cc, &mut stack, phase);
            match r {
                Search::Found(s) => {
                    proof {
                        lemma_apply_seq_concat(*cube, prefix0, s@.skip(prefix0.len() as int));
                        assert(prefix0 + s@.skip(prefix0.len() as int) =~= s@);
                    }
                    return Some(s);
                },
                Search::NotFound(t) => {
                    proof {
                        first = false;
                    }
                    if t <= best {
                        proof {
                            if self.admissible(*phase) {
                                assert(best == u64::MAX);
                                assert forall|ext: Seq<Move>|
                                    ext.len() <= SEARCH_FUEL as int && chains_after(prefix0, ext)
                                        && (forall|j: int|
                                        0 <= j < ext.len() ==> phase.allowed_moves@.contains(
                                            #[trigger] ext[j],
                                        )) implies !goal_spec(
                                    phase.goal,
                                    #[trigger] apply_seq(apply_seq(*cube, prefix0), ext),
                                ) by {
                                    if goal_spec(
                                        phase.goal,
                                        apply_seq(apply_seq(*cube, prefix0), ext),
                                    ) {
                                        assert(apply_seq(cc.raw, ext) == apply_seq(
                                            apply_seq(*cube, prefix0),
                                            ext,
                                        ));
                                        assert(self.challenge.evaluator.spec_eval(prefix0 + ext)
                                            > u64::MAX as int);
                                        self.challenge.evaluator.lemma_cost_model(prefix0 + ext);
                                        assert((prefix0 + ext).len() * (MAX_MOVE_COST_MS as int)
                                            <= 1030 * (MAX_MOVE_COST_MS as int))
                                            by (nonlinear_arith)
                                            requires
                                                0 <= (prefix0 + ext).len() <= 1030,
                                        ;
                                    }
                                }
                            }
                        }
                        return None;
                    }
                    best = t;
                },
            }
        }
    }

    /// Build the solver: transition tables, then the two phases with their
    /// heuristics.  Phase one's corner- and edge-orientation tables are
    /// deepened to a fixpoint; phase two's corner-position table is built
    /// under a three-second wall-clock budget.
    pub fn init(challenge: Challenge<E>) -> (s: Self)
        ensures
            s.wf(),
            s.challenge == challenge,
            s.tables.built(),
            s.to_domino.heuristics@.len() == 2,
            s.to_domino.heuristics@[0].kind == CoordKind::CornerOrientation,
            s.to_domino.heuristics@[1].kind == CoordKind::EdgeOrientation,
            s.to_domino.heuristics@[0].exhaustive,
            s.to_domino.heuristics@[1].exhaustive,
            s.to_domino.heuristics@[0].solved_present(),
            s.to_domino.heuristics@[1].solved_present(),
            s.post_domino.heuristics@.len() == 1,
            s.post_domino.heuristics@[0].kind == CoordKind::CornerPosition,
    {
        let tables = TransitionTable::init();
        let all = Move::all();
        let co_h = HeuristicTable::init(
            CoordKind::CornerOrientation,
            &all,
            &challenge.evaluator,
            None,
        );
        let eo_h = HeuristicTable::init(
            CoordKind::EdgeOrientation,
            &all,
            &challenge.evaluator,
            None,
        );
        let mut phase1_h: Vec<HeuristicTable> = Vec::new();
        phase1_h.push(co_h);
        phase1_h.push(eo_h);
        let to_domino = Phase::init(all, Goal::Domino, phase1_h);

        let dom = domino_moves();
        let cp_h = HeuristicTable::init(
            CoordKind::CornerPosition,
            &dom,
            &challenge.evaluator,
            Some(3000),
        );
        let mut phase2_h: Vec<HeuristicTable> = Vec::new();
        phase2_h.push(cp_h);
        let post_domino = Phase::init(dom, Goal::Solved, phase2_h);

        Kociemba { challenge, tables, to_domino, post_domino }
    }

    /// Solve the cube: reduce it to the domino subgroup, then finish inside
    /// the subgroup with the phase-one moves as the fixed prefix, sharing
    /// one cost account across both phases.  Any answer splits into a
    /// prefix that reaches the domino subgroup followed by domino moves
    /// only, and an already-solved cube gets the empty answer.
    #[verifier::rlimit(100)]
    #[verifier::spinoff_prover]
    pub fn solve(&self, cube: Cube) -> (r: Option<Vec<Move>>)
        requires
            self.wf(),
        ensures
            match r {
                Some(s) => {
                    &&& apply_seq(cube, s@) == solved_spec()
                    &&& s@.len() <= 2 * (SEARCH_FUEL as int)
                    &&& exists|k: int|
                        0 <= k <= s@.len() && is_domino_spec(
                            apply_seq(cube, #[trigger] s@.take(k)),
                        ) && (forall|j: int|
                            k <= j < s@.len() ==> is_domino_move_spec(#[trigger] s@[j]))
                },
                None => true,
            },
            cube == solved_spec() ==> (r matches Some(s) && s@.len() == 0),
            (r is None && self.admissible(self.to_domino) && self.admissible(self.post_domino))
                ==> ((forall|ext: Seq<Move>|
                ext.len() <= SEARCH_FUEL as int && chains_after(Seq::<Move>::empty(), ext) && (
                forall|j: int| 0 <= j < ext.len() ==> all_moves().contains(#[trigger] ext[j]))
                    ==> !is_domino_spec(#[trigger] apply_seq(cube, ext))) || (exists|p: Seq<Move>|
                p.len() <= SEARCH_FUEL as int && is_domino_spec(#[trigger] apply_seq(cube, p)) && (
                forall|ext: Seq<Move>|
                    ext.len() <= SEARCH_FUEL as int && chains_after(p, ext) && (forall|j: int|
                        0 <= j < ext.len() ==> domino_moves_spec().contains(#[trigger] ext[j]))
                        ==> #[trigger] apply_seq(cube, p + ext) != solved_spec()))),
    {
        let empty: Vec<Move> = Vec::new();
        proof {
            if cube == solved_spec() {
                assert(apply_seq(cube, empty@) == cube);
                lemma_solved_is_domino();
                lemma_phase_min_time_solved(self.to_domino.heuristics@);
            }
        }
        let p1 = match self.solve_to(&cube, &self.to_domino, empty) {
            Some(p) => p,
            None => {
                proof {
                    if self.admissible(self.to_domino) {
                        lemma_solve_giveup_reach(*self, cube, empty@);
                    }
                }
                return None;
            },
        };
        let ghost k = p1@.len() as int;
        proof {
            if cube == solved_spec() {
                lemma_phase_min_time_solved(self.post_domino.heuristics@);
            }
        }
        let ghost p1v = p1@;
        let r = self.solve_to(&cube, &self.post_domino, p1);
        proof {
            if r is None && self.admissible(self.post_domino) {
                assert(is_domino_spec(apply_seq(cube, p1v)));
                lemma_solve_giveup_finish(*self, cube, p1v);
            }
        }
        proof {
            if let Some(s) = &r {
                assert(s@.take(k) =~= s@.subrange(0, k));
                lemma_domino_moves_are_domino();
                assert forall|j: int| k <= j < s@.len() implies is_domino_move_spec(
                    #[trigger] s@[j],
                ) by {
                    assert(domino_moves_spec().contains(s@[j]));
                    let i = choose|i: int|
                        0 <= i < domino_moves_spec().len() && domino_moves_spec()[i] == s@[j];
                    assert(is_domino_move_spec(domino_moves_spec()[i]));
                }
                assert(0 <= k <= s@.len() && is_domino_spec(apply_seq(cube, s@.take(k))));
            }
        }
        r
    }
}

impl<E: Evaluator> crate::solver::Solver<E> for Kociemba<E> {
    open spec fn ready(&self) -> bool {
        self.wf()
    }

    fn init(challenge: Challenge<E>) -> (s: Self) {
        Kociemba::init(challenge)
    }

    fn solve(&self, cube: Cube) -> (r: Option<Vec<Move>>) {
        Kociemba::solve(self, cube)
    }
}

} // verus!
