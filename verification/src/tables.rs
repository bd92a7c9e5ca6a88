//! Transition tables: one dense `coordinate x move -> coordinate` table per
//! coordinate, built once by breadth-first search from the solved cube, and
//! the [`CoordCube`] that is stepped by table lookup instead of recomputing
//! its coordinates.

use vstd::prelude::*;
use vstd::set_lib::lemma_len_subset;

use crate::coord::{
    corner_orientation, corner_orientation_spec, corner_position, corner_position_spec,
    edge_orientation, edge_orientation_spec,
};
use crate::face::Face;
use crate::moves::{all_moves, Direction, Move};
use crate::surface::{apply_spec, solved_spec, Cube};

verus! {

/// The coordinates that have transition and heuristic tables.
#[derive(Clone, Copy, PartialEq, Eq, Structural, Debug)]
pub enum CoordKind {
    CornerOrientation,
    EdgeOrientation,
    CornerPosition,
}

/// The size of a coordinate's value space.
pub open spec fn coord_range(kind: CoordKind) -> int {
    match kind {
        CoordKind::CornerOrientation => 2187,
        CoordKind::EdgeOrientation => 2048,
        CoordKind::CornerPosition => 40320,
    }
}

/// The coordinate of `kind` of a cube.
pub open spec fn coord_spec(kind: CoordKind, c: Cube) -> int {
    match kind {
        CoordKind::CornerOrientation => corner_orientation_spec(c),
        CoordKind::EdgeOrientation => edge_orientation_spec(c),
        CoordKind::CornerPosition => corner_position_spec(c),
    }
}

/// The size of a coordinate's value space.
pub fn coord_range_ex(kind: CoordKind) -> (n: usize)
    ensures
        n as int == coord_range(kind),
{
    match kind {
        CoordKind::CornerOrientation => 2187,
        CoordKind::EdgeOrientation => 2048,
        CoordKind::CornerPosition => 40320,
    }
}

/// The coordinate of `kind` of a cube.
pub fn coord_of(kind: CoordKind, cube: &Cube) -> (v: u16)
    ensures
        v as int == coord_spec(kind, *cube),
        (v as int) < coord_range(kind),
{
    match kind {
        CoordKind::CornerOrientation => corner_orientation(cube),
        CoordKind::EdgeOrientation => edge_orientation(cube),
        CoordKind::CornerPosition => corner_position(cube),
    }
}

/// Every coordinate lies in its value space, on every cube.
pub proof fn lemma_coord_range(kind: CoordKind, c: Cube)
    ensures
        0 <= coord_spec(kind, c) < coord_range(kind),
{
    match kind {
        CoordKind::CornerOrientation => crate::coord::lemma_corner_orientation_range(c),
        CoordKind::EdgeOrientation => crate::coord::lemma_edge_orientation_range(c),
        CoordKind::CornerPosition => crate::coord::lemma_corner_position_range(c),
    }
}

/// The index of a move in [`all_moves`].
pub open spec fn move_index_spec(m: Move) -> int {
    m.face.rank_spec() * 3 + (match m.direction {
        Direction::Single => 0int,
        Direction::Double => 1int,
        Direction::Reverse => 2int,
    })
}

/// A move's index points back at the move itself in [`all_moves`].
pub proof fn lemma_move_index(m: Move)
    ensures
        0 <= move_index_spec(m) < 18,
        all_moves()[move_index_spec(m)] == m,
{
    match (m.face, m.direction) {
        (Face::Front, Direction::Single) => assert(all_moves()[0] == m),
        (Face::Front, Direction::Double) => assert(all_moves()[1] == m),
        (Face::Front, Direction::Reverse) => assert(all_moves()[2] == m),
        (Face::Back, Direction::Single) => assert(all_moves()[3] == m),
        (Face::Back, Direction::Double) => assert(all_moves()[4] == m),
        (Face::Back, Direction::Reverse) => assert(all_moves()[5] == m),
        (Face::Left, Direction::Single) => assert(all_moves()[6] == m),
        (Face::Left, Direction::Double) => assert(all_moves()[7] == m),
        (Face::Left, Direction::Reverse) => assert(all_moves()[8] == m),
        (Face::Right, Direction::Single) => assert(all_moves()[9] == m),
        (Face::Right, Direction::Double) => assert(all_moves()[10] == m),
        (Face::Right, Direction::Reverse) => assert(all_moves()[11] == m),
        (Face::Up, Direction::Single) => assert(all_moves()[12] == m),
        (Face::Up, Direction::Double) => assert(all_moves()[13] == m),
        (Face::Up, Direction::Reverse) => assert(all_moves()[14] == m),
        (Face::Down, Direction::Single) => assert(all_moves()[15] == m),
        (Face::Down, Direction::Double) => assert(all_moves()[16] == m),
        (Face::Down, Direction::Reverse) => assert(all_moves()[17] == m),
    }
}

/// The index of a move in [`all_moves`].
pub fn move_index(m: &Move) -> (i: usize)
    ensures
        i as int == move_index_spec(*m),
        i < 18,
        all_moves()[i as int] == *m,
{
    let f = m.face.rank() as usize;
    let d: usize = match m.direction {
        Direction::Single => 0,
        Direction::Double => 1,
        Direction::Reverse => 2,
    };
    let i = f * 3 + d;
    proof {
        lemma_move_index(*m);
    }
    i
}

/// A vector of `n` copies of `value`.
pub(crate) fn filled_row_u16(n: usize, value: u16) -> (r: Vec<u16>)
    ensures
        r@.len() == n,
        forall|j: int| 0 <= j < n ==> r@[j] == value,
{
    let mut r: Vec<u16> = Vec::new();
    let mut i: usize = 0;
    while i < n
        invariant
            i <= n,
            r@.len() == i,
            forall|j: int| 0 <= j < i ==> r@[j] == value,
        decreases n - i,
    {
        r.push(value);
        i = i + 1;
    }
    r
}

/// A vector of `n` copies of `value`.
pub(crate) fn filled_row_bool(n: usize, value: bool) -> (r: Vec<bool>)
    ensures
        r@.len() == n,
        forall|j: int| 0 <= j < n ==> r@[j] == value,
{
    let mut r: Vec<bool> = Vec::new();
    let mut i: usize = 0;
    while i < n
        invariant
            i <= n,
            r@.len() == i,
            forall|j: int| 0 <= j < i ==> r@[j] == value,
        decreases n - i,
    {
        r.push(value);
        i = i + 1;
    }
    r
}

/// A vector of `n` copies of `value`.
pub(crate) fn filled_row_u64(n: usize, value: u64) -> (r: Vec<u64>)
    ensures
        r@.len() == n,
        forall|j: int| 0 <= j < n ==> r@[j] == value,
{
    let mut r: Vec<u64> = Vec::new();
    let mut i: usize = 0;
    while i < n
        invariant
            i <= n,
            r@.len() == i,
            forall|j: int| 0 <= j < i ==> r@[j] == value,
        decreases n - i,
    {
        r.push(value);
        i = i + 1;
    }
    r
}

/// Whether row `mi` of `entries` holds, at index `v`, the coordinate of the
/// successor under move `mi` of some cube whose own coordinate is `v`.
pub open spec fn entry_witnessed(kind: CoordKind, entries: Seq<Vec<u16>>, mi: int, v: int) -> bool {
    exists|c: Cube|
        coord_spec(kind, c) == v && (#[trigger] coord_spec(kind, apply_spec(c, all_moves()[mi])))
            == entries[mi]@[v] as int
}

/// One transition table: for each of the 18 moves, a dense row over the
/// coordinate's value space.  `filled` marks the values that the search from
/// the solved cube has reached.
pub struct SingleTable {
    /// Which coordinate the table is for.
    pub kind: Ghost<CoordKind>,
    /// Row per move: the successor coordinate of each filled value.
    pub entries: Vec<Vec<u16>>,
    /// Row per move: which values the search reached.
    pub filled: Vec<Vec<bool>>,
}

impl SingleTable {
    /// Shape: 18 rows of the coordinate's range, and every filled entry is
    /// again inside the range.
    pub open spec fn wf(self) -> bool {
        &&& self.entries@.len() == 18
        &&& self.filled@.len() == 18
        &&& forall|mi: int|
            0 <= mi < 18 ==> (#[trigger] self.entries@[mi])@.len() == coord_range(self.kind@)
        &&& forall|mi: int|
            0 <= mi < 18 ==> (#[trigger] self.filled@[mi])@.len() == coord_range(self.kind@)
        &&& forall|mi: int, v: int|
            0 <= mi < 18 && 0 <= v < coord_range(self.kind@) && self.filled@[mi]@[v] ==> (
            #[trigger] self.entries@[mi]@[v]) < coord_range(self.kind@)
    }

    /// The table computes the coordinate transition of every cube whose
    /// coordinate it has filled.  This is the well-definedness of the
    /// coordinate under moves: it holds of the built tables because a
    /// coordinate's successor depends only on the coordinate itself, but
    /// that group-theoretic fact is checked by tests rather than proved
    /// here, so contracts that rely on it say so explicitly.
    pub open spec fn sound(self) -> bool {
        forall|c: Cube, mi: int|
            0 <= mi < 18 && self.filled@[mi]@[coord_spec(self.kind@, c)] ==> (
            #[trigger] self.entries@[mi]@[coord_spec(self.kind@, c)]) as int == coord_spec(
                self.kind@,
                apply_spec(c, all_moves()[mi]),
            )
    }

    /// Every filled entry records where its move sends the coordinate of a
    /// witness cube that has that coordinate value: the table's content was
    /// computed, entry by entry, from representative cubes.  Together with
    /// the well-definedness of the coordinate (see [`SingleTable::sound`])
    /// this makes every entry the coordinate transition itself.
    pub open spec fn from_witnesses(self) -> bool {
        forall|mi: int, v: int|
            0 <= mi < 18 && 0 <= v < coord_range(self.kind@) && self.filled@[mi]@[v]
                ==> #[trigger] entry_witnessed(self.kind@, self.entries@, mi, v)
    }

    /// The solved cube's coordinate value has a filled entry for every move.
    pub open spec fn solved_filled(self) -> bool {
        forall|mi: int|
            0 <= mi < 18 ==> self.filled@[mi]@[coord_spec(self.kind@, solved_spec())]
    }

    /// A value filled in any row is filled in every row: the search fills
    /// all 18 rows of a coordinate value the moment it dequeues the value.
    pub open spec fn rows_agree(self) -> bool {
        forall|mi: int, mj: int, v: int|
            0 <= mi < 18 && 0 <= mj < 18 && 0 <= v < coord_range(self.kind@)
                && #[trigger] self.filled@[mi]@[v] ==> #[trigger] self.filled@[mj]@[v]
    }

    /// The filled set is closed under the table's own transitions: each
    /// filled entry's target value is filled again, so stepping the table
    /// by lookups from a filled value (with [`SingleTable::rows_agree`],
    /// under any move) never leaves the filled set.  With
    /// [`SingleTable::solved_filled`] as the base, everything the solver's
    /// own table-stepping visits from the solved cube stays covered.
    pub open spec fn closed(self) -> bool {
        forall|mi: int, v: int|
            0 <= mi < 18 && 0 <= v < coord_range(self.kind@) && #[trigger] self.filled@[mi]@[v]
                ==> self.filled@[mi]@[(#[trigger] self.entries@[mi]@[v]) as int]
    }

    /// The stored transition for coordinate `from` under `m`, or `None`
    /// where the search never reached `from`.
    pub fn get(&self, from: u16, m: &Move) -> (r: Option<u16>)
        requires
            self.wf(),
        ensures
            match r {
                Some(x) => {
                    &&& (from as int) < coord_range(self.kind@)
                    &&& self.filled@[move_index_spec(*m)]@[from as int]
                    &&& x == self.entries@[move_index_spec(*m)]@[from as int]
                    &&& (x as int) < coord_range(self.kind@)
                },
                None => !((from as int) < coord_range(self.kind@)
                    && self.filled@[move_index_spec(*m)]@[from as int]),
            },
    {
        let mi = move_index(m);
        if (from as usize) < self.filled[mi].len() && self.filled[mi][from as usize] {
            Some(self.entries[mi][from as usize])
        } else {
            None
        }
    }

    /// Build the table for `kind` by search from the solved cube: dequeue a
    /// representative cube for each newly seen coordinate value, record
    /// where each move sends the value, and enqueue unseen successors.
    /// Every enqueued value is dequeued before the search ends, so the
    /// filled set is total per value and closed under the stored
    /// transitions.
    #[verifier::rlimit(100)]
    #[verifier::spinoff_prover]
    pub fn populate_with(kind: CoordKind) -> (t: SingleTable)
        ensures
            t.kind@ == kind,
            t.wf(),
            t.from_witnesses(),
            t.solved_filled(),
            t.rows_agree(),
            t.closed(),
    {
        let n = coord_range_ex(kind);
        let mut entries: Vec<Vec<u16>> = Vec::new();
        let mut filled: Vec<Vec<bool>> = Vec::new();
        let mut r: usize = 0;
        while r < 18
            invariant
                r <= 18,
                entries@.len() == r,
                filled@.len() == r,
                n as int == coord_range(kind),
                forall|mi: int| 0 <= mi < r ==> (#[trigger] entries@[mi])@.len() == n,
                forall|mi: int| 0 <= mi < r ==> (#[trigger] filled@[mi])@.len() == n,
                forall|mi: int, v: int|
                    0 <= mi < r && 0 <= v < n ==> !(#[trigger] filled@[mi]@[v]),
            decreases 18 - r,
        {
            entries.push(filled_row_u16(n, 0));
            filled.push(filled_row_bool(n, false));
            r = r + 1;
        }

        let moves = Move::all();
        let solved = Cube::solved();
        let v0 = coord_of(kind, &solved);
        let mut seen = filled_row_bool(n, false);
        let mut worklist: Vec<(u16, Cube)> = Vec::new();
        worklist.push((v0, solved));
        seen[v0 as usize] = true;
        let ghost gs0: Set<int> = Set::empty().insert(v0 as int);
        let mut gs: Ghost<Set<int>> = Ghost(gs0);
        proof {
            assert(worklist@[0] == (v0, solved));
        }

        let mut i: usize = 0;
        while i < worklist.len()
            invariant
                moves@ == all_moves(),
                n as int == coord_range(kind),
                entries@.len() == 18,
                filled@.len() == 18,
                seen@.len() == n,
                v0 as int == coord_spec(kind, solved_spec()),
                (v0 as int) < n,
                forall|mi: int| 0 <= mi < 18 ==> (#[trigger] entries@[mi])@.len() == n,
                forall|mi: int| 0 <= mi < 18 ==> (#[trigger] filled@[mi])@.len() == n,
                forall|mi: int, v: int|
                    0 <= mi < 18 && 0 <= v < n && filled@[mi]@[v] ==> (#[trigger] entries@[mi]@[v])
                        < n,
                forall|mi: int, v: int|
                    0 <= mi < 18 && 0 <= v < n && filled@[mi]@[v] ==> #[trigger] entry_witnessed(
                        kind,
                        entries@,
                        mi,
                        v,
                    ),
                forall|mi: int, w: int|
                    0 <= mi < 18 && 0 <= w < n && #[trigger] filled@[mi]@[w] ==> seen@[w],
                forall|k: int, mj: int|
                    0 <= k < i && 0 <= mj < 18 ==> #[trigger] filled@[mj]@[worklist@[k].0 as int],
                forall|k: int, mj: int|
                    0 <= k < i && 0 <= mj < 18 ==> seen@[(#[trigger] entries@[mj]@[worklist@[k].0
                        as int]) as int],
                i <= worklist@.len(),
                worklist@.len() <= n,
                worklist@.len() >= 1,
                worklist@[0].0 == v0,
                forall|k: int|
                    0 <= k < worklist@.len() ==> (#[trigger] worklist@[k]).0 < n && gs@.contains(
                        worklist@[k].0 as int,
                    ) && worklist@[k].0 as int == coord_spec(kind, worklist@[k].1),
                forall|k1: int, k2: int|
                    0 <= k1 < k2 < worklist@.len() ==> (#[trigger] worklist@[k1]).0 != (
                    #[trigger] worklist@[k2]).0,
                gs@.finite(),
                gs@.len() == worklist@.len(),
                forall|x: int| gs@.contains(x) ==> 0 <= x < n && seen@[x],
                forall|x: int| 0 <= x < n && #[trigger] seen@[x] ==> gs@.contains(x),
                forall|x: int|
                    #[trigger] gs@.contains(x) ==> exists|k: int|
                        0 <= k < worklist@.len() && worklist@[k].0 as int == x,
            decreases n - i,
        {
            let (v, cube) = worklist[i];
            let mut mi: usize = 0;
            while mi < 18
                invariant
                    moves@ == all_moves(),
                    n as int == coord_range(kind),
                    entries@.len() == 18,
                    filled@.len() == 18,
                    seen@.len() == n,
                    mi <= 18,
                    v < n,
                    v as int == coord_spec(kind, cube),
                    v0 as int == coord_spec(kind, solved_spec()),
                    (v0 as int) < n,
                    v == worklist@[i as int].0,
                    forall|mj: int| 0 <= mj < 18 ==> (#[trigger] entries@[mj])@.len() == n,
                    forall|mj: int| 0 <= mj < 18 ==> (#[trigger] filled@[mj])@.len() == n,
                    forall|mj: int, w: int|
                        0 <= mj < 18 && 0 <= w < n && filled@[mj]@[w] ==> (
                        #[trigger] entries@[mj]@[w]) < n,
                    forall|mj: int, w: int|
                        0 <= mj < 18 && 0 <= w < n && filled@[mj]@[w]
                            ==> #[trigger] entry_witnessed(kind, entries@, mj, w),
                    forall|mj: int, w: int|
                        0 <= mj < 18 && 0 <= w < n && #[trigger] filled@[mj]@[w] ==> seen@[w],
                    forall|mj: int| 0 <= mj < mi ==> #[trigger] filled@[mj]@[v as int],
                    forall|mj: int|
                        0 <= mj < mi ==> seen@[(#[trigger] entries@[mj]@[v as int]) as int],
                    forall|k: int, mj: int|
                        0 <= k < i && 0 <= mj < 18 ==> #[trigger] filled@[mj]@[worklist@[k].0
                            as int],
                    forall|k: int, mj: int|
                        0 <= k < i && 0 <= mj < 18 ==> seen@[(
                        #[trigger] entries@[mj]@[worklist@[k].0 as int]) as int],
                    i < worklist@.len(),
                    worklist@.len() <= n,
                    worklist@.len() >= 1,
                    worklist@[0].0 == v0,
                    forall|k: int|
                        0 <= k < worklist@.len() ==> (#[trigger] worklist@[k]).0 < n
                            && gs@.contains(worklist@[k].0 as int) && worklist@[k].0 as int
                            == coord_spec(kind, worklist@[k].1),
                    forall|k1: int, k2: int|
                        0 <= k1 < k2 < worklist@.len() ==> (#[trigger] worklist@[k1]).0 != (
                        #[trigger] worklist@[k2]).0,
                    gs@.finite(),
                    gs@.len() == worklist@.len(),
                    forall|x: int| gs@.contains(x) ==> 0 <= x < n && seen@[x],
                    forall|x: int| 0 <= x < n && #[trigger] seen@[x] ==> gs@.contains(x),
                    forall|x: int|
                        #[trigger] gs@.contains(x) ==> exists|k: int|
                            0 <= k < worklist@.len() && worklist@[k].0 as int == x,
                decreases 18 - mi,
            {
                let m = moves[mi];
                let to_cube = cube.apply(m);
                let to_v = coord_of(kind, &to_cube);
                let ghost entries0 = entries@;
                let ghost filled0 = filled@;
                entries[mi][v as usize] = to_v;
                filled[mi][v as usize] = true;
                proof {
                    assert forall|mj: int, w: int|
                        0 <= mj < 18 && 0 <= w < n && filled@[mj]@[w] implies
                        #[trigger] entry_witnessed(kind, entries@, mj, w) by {
                        if mj == mi as int && w == v as int {
                            assert(coord_spec(kind, cube) == w);
                            assert(entries@[mj]@[w] == to_v);
                            assert(coord_spec(kind, apply_spec(cube, all_moves()[mj]))
                                == entries@[mj]@[w] as int);
                        } else {
                            assert(filled0[mj]@[w]);
                            assert(entry_witnessed(kind, entries0, mj, w));
                            assert(entries@[mj]@[w] == entries0[mj]@[w]);
                            let c = choose|c: Cube|
                                coord_spec(kind, c) == w && (#[trigger] coord_spec(
                                    kind,
                                    apply_spec(c, all_moves()[mj]),
                                )) == entries0[mj]@[w] as int;
                            assert(coord_spec(kind, c) == w && coord_spec(
                                kind,
                                apply_spec(c, all_moves()[mj]),
                            ) == entries@[mj]@[w] as int);
                        }
                    }
                    assert forall|mj: int, w: int|
                        0 <= mj < 18 && 0 <= w < n && filled0[mj]@[w] implies (
                    #[trigger] filled@[mj]@[w]) by {}
                    assert(gs@.contains(v as int) && seen@[v as int]);
                    assert forall|k: int, mj: int|
                        0 <= k < i && 0 <= mj < 18 implies seen@[(
                    #[trigger] entries@[mj]@[worklist@[k].0 as int]) as int] by {
                        assert(worklist@[k].0 != worklist@[i as int].0);
                        assert(entries@[mj]@[worklist@[k].0 as int] == entries0[mj]@[worklist@[k].0
                            as int]);
                    }
                }
                if !seen[to_v as usize] {
                    let ghost gs_pre = gs@;
                    let ghost worklist_pre = worklist@;
                    proof {
                        assert(!gs@.contains(to_v as int));
                        gs@ = gs@.insert(to_v as int);
                        vstd::set_lib::lemma_int_range(0, n as int);
                        assert(gs@.subset_of(vstd::set_lib::set_int_range(0, n as int)));
                        lemma_len_subset(gs@, vstd::set_lib::set_int_range(0, n as int));
                    }
                    seen[to_v as usize] = true;
                    worklist.push((to_v, to_cube));
                    proof {
                        assert forall|x: int| #[trigger] gs@.contains(x) implies exists|k: int|
                            0 <= k < worklist@.len() && worklist@[k].0 as int == x by {
                            if x == to_v as int {
                                assert(worklist@[worklist@.len() - 1].0 as int == x);
                            } else {
                                let k = choose|k: int|
                                    0 <= k < worklist_pre.len() && worklist_pre[k].0 as int == x;
                                assert(worklist@[k].0 as int == x);
                            }
                        }
                        assert forall|k1: int, k2: int|
                            0 <= k1 < k2 < worklist@.len() implies (#[trigger] worklist@[k1]).0
                            != (#[trigger] worklist@[k2]).0 by {
                            if k2 == worklist@.len() - 1 {
                                assert(!gs_pre.contains(to_v as int));
                                assert(gs_pre.contains(worklist@[k1].0 as int));
                            }
                        }
                    }
                }
                proof {
                    assert(seen@[to_v as int]);
                    assert forall|mj: int| 0 <= mj < mi as int + 1 implies seen@[(
                    #[trigger] entries@[mj]@[v as int]) as int] by {
                        if mj == mi as int {
                            assert(entries@[mj]@[v as int] == to_v);
                        }
                    }
                }
                mi = mi + 1;
            }
            i = i + 1;
        }
        proof {
            assert forall|mj: int| 0 <= mj < 18 implies filled@[mj]@[v0 as int] by {
                assert(filled@[mj]@[worklist@[0].0 as int]);
            }
            assert forall|mi: int, mj: int, w: int|
                0 <= mi < 18 && 0 <= mj < 18 && 0 <= w < n && #[trigger] filled@[mi]@[w] implies (
            #[trigger] filled@[mj]@[w]) by {
                assert(seen@[w]);
                assert(gs@.contains(w));
                let k = choose|k: int| 0 <= k < worklist@.len() && worklist@[k].0 as int == w;
                assert(filled@[mj]@[worklist@[k].0 as int]);
            }
            assert forall|mi: int, w: int|
                0 <= mi < 18 && 0 <= w < n && #[trigger] filled@[mi]@[w] implies filled@[mi]@[(
            #[trigger] entries@[mi]@[w]) as int] by {
                assert(seen@[w]);
                assert(gs@.contains(w));
                let k = choose|k: int| 0 <= k < worklist@.len() && worklist@[k].0 as int == w;
                let t = entries@[mi]@[worklist@[k].0 as int] as int;
                assert(seen@[t]);
                assert(0 <= t < n);
                assert(gs@.contains(t));
                let k2 = choose|k2: int| 0 <= k2 < worklist@.len() && worklist@[k2].0 as int == t;
                assert(filled@[mi]@[worklist@[k2].0 as int]);
            }
        }
        SingleTable { kind: Ghost(kind), entries, filled }
    }
}

/// The transition tables of the three tabled coordinates.  The raw
/// edge-position coordinate ranges over 12!, far too large for a dense
/// table, and no phase of the solver needs it, so it has none.
pub struct TransitionTable {
    pub corner_orientation: SingleTable,
    pub edge_orientation: SingleTable,
    pub corner_position: SingleTable,
}

impl TransitionTable {
    /// Shape and provenance of all three tables.
    pub open spec fn wf(self) -> bool {
        &&& self.corner_orientation.kind@ == CoordKind::CornerOrientation
        &&& self.edge_orientation.kind@ == CoordKind::EdgeOrientation
        &&& self.corner_position.kind@ == CoordKind::CornerPosition
        &&& self.corner_orientation.wf()
        &&& self.edge_orientation.wf()
        &&& self.corner_position.wf()
    }

    /// All three tables compute the coordinate transition of every cube; see
    /// [`SingleTable::sound`].
    pub open spec fn sound(self) -> bool {
        self.corner_orientation.sound() && self.edge_orientation.sound()
            && self.corner_position.sound()
    }

    /// All three tables were computed entry by entry from representative
    /// cubes, cover the solved cube's coordinates, fill every row of each
    /// covered value, and are closed under their own transitions; see
    /// [`SingleTable::from_witnesses`], [`SingleTable::solved_filled`],
    /// [`SingleTable::rows_agree`] and [`SingleTable::closed`].
    pub open spec fn built(self) -> bool {
        &&& self.corner_orientation.from_witnesses()
        &&& self.corner_orientation.solved_filled()
        &&& self.corner_orientation.rows_agree()
        &&& self.corner_orientation.closed()
        &&& self.edge_orientation.from_witnesses()
        &&& self.edge_orientation.solved_filled()
        &&& self.edge_orientation.rows_agree()
        &&& self.edge_orientation.closed()
        &&& self.corner_position.from_witnesses()
        &&& self.corner_position.solved_filled()
        &&& self.corner_position.rows_agree()
        &&& self.corner_position.closed()
    }

    /// Build all three tables.
    pub fn init() -> (t: TransitionTable)
        ensures
            t.wf(),
            t.built(),
    {
        TransitionTable {
            corner_orientation: SingleTable::populate_with(CoordKind::CornerOrientation),
            edge_orientation: SingleTable::populate_with(CoordKind::EdgeOrientation),
            corner_position: SingleTable::populate_with(CoordKind::CornerPosition),
        }
    }
}

/// A cube together with its tabled coordinates, stepped by table lookup.
#[derive(Clone, Copy, PartialEq, Eq, Structural, Debug)]
pub struct CoordCube {
    /// The underlying sticker cube.
    pub raw: Cube,
    /// The corner-orientation coordinate.
    pub corner_orientation: u16,
    /// The edge-orientation coordinate.
    pub edge_orientation: u16,
    /// The corner-position coordinate.
    pub corner_position: u16,
}

/// The coordinate-carrying form of a cube, with every coordinate computed
/// directly from the stickers.
pub open spec fn coord_cube_spec(c: Cube) -> CoordCube {
    CoordCube {
        raw: c,
        corner_orientation: corner_orientation_spec(c) as u16,
        edge_orientation: edge_orientation_spec(c) as u16,
        corner_position: corner_position_spec(c) as u16,
    }
}

impl CoordCube {
    /// The coordinate fields agree with the raw cube.
    pub open spec fn coords_ok(self) -> bool {
        &&& self.corner_orientation as int == corner_orientation_spec(self.raw)
        &&& self.edge_orientation as int == edge_orientation_spec(self.raw)
        &&& self.corner_position as int == corner_position_spec(self.raw)
    }

    /// Package a cube with its coordinates, computed directly.
    pub fn from_cube(raw: Cube) -> (r: CoordCube)
        ensures
            r.raw == raw,
            r.coords_ok(),
            r == coord_cube_spec(raw),
    {
        let r = CoordCube {
            corner_orientation: corner_orientation(&raw),
            edge_orientation: edge_orientation(&raw),
            corner_position: corner_position(&raw),
            raw,
        };
        proof {
            crate::coord::lemma_corner_orientation_range(raw);
            crate::coord::lemma_edge_orientation_range(raw);
            crate::coord::lemma_corner_position_range(raw);
        }
        r
    }

    /// The cube after one move.  The raw cube is stepped exactly; each
    /// coordinate is stepped by table lookup, falling back to recomputation
    /// from the raw cube where the table has no entry, so the coordinates
    /// stay consistent whenever the tables are sound.
    pub fn apply(self, m: Move, t: &TransitionTable) -> (r: CoordCube)
        requires
            t.wf(),
        ensures
            r.raw == apply_spec(self.raw, m),
            t.sound() && self.coords_ok() ==> r.coords_ok(),
    {
        let raw = self.raw.apply(m);
        let co_hit = t.corner_orientation.get(self.corner_orientation, &m);
        let eo_hit = t.edge_orientation.get(self.edge_orientation, &m);
        let cp_hit = t.corner_position.get(self.corner_position, &m);
        let corner_orientation = match co_hit {
            Some(x) => x,
            None => crate::coord::corner_orientation(&raw),
        };
        let edge_orientation = match eo_hit {
            Some(x) => x,
            None => crate::coord::edge_orientation(&raw),
        };
        let corner_position = match cp_hit {
            Some(x) => x,
            None => crate::coord::corner_position(&raw),
        };
        proof {
            if t.sound() && self.coords_ok() {
                lemma_move_index(m);
                let mi = move_index_spec(m);
                if co_hit is Some {
                    assert(t.corner_orientation.filled@[mi]@[coord_spec(
                        CoordKind::CornerOrientation,
                        self.raw,
                    )]);
                    assert(t.corner_orientation.entries@[mi]@[coord_spec(
                        CoordKind::CornerOrientation,
                        self.raw,
                    )] as int == coord_spec(
                        CoordKind::CornerOrientation,
                        apply_spec(self.raw, all_moves()[mi]),
                    ));
                }
                if eo_hit is Some {
                    assert(t.edge_orientation.filled@[mi]@[coord_spec(
                        CoordKind::EdgeOrientation,
                        self.raw,
                    )]);
                    assert(t.edge_orientation.entries@[mi]@[coord_spec(
                        CoordKind::EdgeOrientation,
                        self.raw,
                    )] as int == coord_spec(
                        CoordKind::EdgeOrientation,
                        apply_spec(self.raw, all_moves()[mi]),
                    ));
                }
                if cp_hit is Some {
                    assert(t.corner_position.filled@[mi]@[coord_spec(
                        CoordKind::CornerPosition,
                        self.raw,
                    )]);
                    assert(t.corner_position.entries@[mi]@[coord_spec(
                        CoordKind::CornerPosition,
                        self.raw,
                    )] as int == coord_spec(
                        CoordKind::CornerPosition,
                        apply_spec(self.raw, all_moves()[mi]),
                    ));
                }
            }
        }
        CoordCube { raw, corner_orientation, edge_orientation, corner_position }
    }

    /// The corner-orientation coordinate field.
    pub fn corner_orientation(&self) -> (r: u16)
        ensures
            r == self.corner_orientation,
    {
        self.corner_orientation
    }

    /// The edge-orientation coordinate field.
    pub fn edge_orientation(&self) -> (r: u16)
        ensures
            r == self.edge_orientation,
    {
        self.edge_orientation
    }

    /// The corner-position coordinate field.
    pub fn corner_position(&self) -> (r: u16)
        ensures
            r == self.corner_position,
    {
        self.corner_position
    }
}

} // verus!
