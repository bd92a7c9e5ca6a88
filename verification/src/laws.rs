//! Laws of the cube and the move algebra, proved once and for all: every
//! move is undone by its reverse, half turns are involutions, a sequence is
//! undone by its inverse, the coordinates of the solved cube are zero, the
//! canonicalisation rejects repeated faces, and domino moves keep a cube in
//! the domino subgroup.

use vstd::prelude::*;

use crate::coord::{
    corner_orientation_spec, corner_position_spec, edge_orientation_spec, edge_position_spec,
};
use crate::face::Face;
use crate::kociemba::{is_domino_move_spec, is_domino_spec};
use crate::moves::{Direction, Move};
use crate::surface::{
    apply_seq, apply_spec, lemma_apply_seq_push, rot_back, rot_down, rot_face, rot_front,
    rot_left, rot_right, rot_up, solved_spec, Cube,
};

verus! {

/// Four quarter turns of the Up face change nothing; naming each
/// intermediate cube keeps every unfolding one rotation deep.
#[verifier::spinoff_prover]
proof fn lemma_four_rot_up(c0: Cube, c1: Cube, c2: Cube, c3: Cube)
    requires
        c1 == rot_up(c0),
        c2 == rot_up(c1),
        c3 == rot_up(c2),
    ensures
        rot_up(c3) == c0,
{
}

/// Four quarter turns of the Down face change nothing; naming each
/// intermediate cube keeps every unfolding one rotation deep.
#[verifier::spinoff_prover]
proof fn lemma_four_rot_down(c0: Cube, c1: Cube, c2: Cube, c3: Cube)
    requires
        c1 == rot_down(c0),
        c2 == rot_down(c1),
        c3 == rot_down(c2),
    ensures
        rot_down(c3) == c0,
{
}

/// Four quarter turns of the Front face change nothing; naming each
/// intermediate cube keeps every unfolding one rotation deep.
#[verifier::spinoff_prover]
proof fn lemma_four_rot_front(c0: Cube, c1: Cube, c2: Cube, c3: Cube)
    requires
        c1 == rot_front(c0),
        c2 == rot_front(c1),
        c3 == rot_front(c2),
    ensures
        rot_front(c3) == c0,
{
}

/// Four quarter turns of the Back face change nothing; naming each
/// intermediate cube keeps every unfolding one rotation deep.
#[verifier::spinoff_prover]
proof fn lemma_four_rot_back(c0: Cube, c1: Cube, c2: Cube, c3: Cube)
    requires
        c1 == rot_back(c0),
        c2 == rot_back(c1),
        c3 == rot_back(c2),
    ensures
        rot_back(c3) == c0,
{
}

/// Four quarter turns of the Left face change nothing; naming each
/// intermediate cube keeps every unfolding one rotation deep.
#[verifier::spinoff_prover]
proof fn lemma_four_rot_left(c0: Cube, c1: Cube, c2: Cube, c3: Cube)
    requires
        c1 == rot_left(c0),
        c2 == rot_left(c1),
        c3 == rot_left(c2),
    ensures
        rot_left(c3) == c0,
{
}

/// Four quarter turns of the Right face change nothing; naming each
/// intermediate cube keeps every unfolding one rotation deep.
#[verifier::spinoff_prover]
proof fn lemma_four_rot_right(c0: Cube, c1: Cube, c2: Cube, c3: Cube)
    requires
        c1 == rot_right(c0),
        c2 == rot_right(c1),
        c3 == rot_right(c2),
    ensures
        rot_right(c3) == c0,
{
}

/// One undo case of [`lemma_move_then_reverse`].
#[verifier::spinoff_prover]
proof fn lemma_rev_rot_up_single(c: Cube, d: Cube)
    requires
        d == apply_spec(c, Move { face: Face::Up, direction: Direction::Single }),
    ensures
        apply_spec(d, Move { face: Face::Up, direction: Direction::Reverse }) == c,
{
    reveal(apply_spec);
    lemma_four_rot_up(c, d, rot_up(d), rot_up(rot_up(d)));
}

/// One undo case of [`lemma_move_then_reverse`].
#[verifier::spinoff_prover]
proof fn lemma_rev_rot_up_double(c: Cube, d: Cube)
    requires
        d == apply_spec(c, Move { face: Face::Up, direction: Direction::Double }),
    ensures
        apply_spec(d, Move { face: Face::Up, direction: Direction::Double }) == c,
{
    reveal(apply_spec);
    lemma_four_rot_up(c, rot_up(c), d, rot_up(d));
}

/// One undo case of [`lemma_move_then_reverse`].
#[verifier::spinoff_prover]
proof fn lemma_rev_rot_up_reverse(c: Cube, d: Cube)
    requires
        d == apply_spec(c, Move { face: Face::Up, direction: Direction::Reverse }),
    ensures
        apply_spec(d, Move { face: Face::Up, direction: Direction::Single }) == c,
{
    reveal(apply_spec);
    lemma_four_rot_up(c, rot_up(c), rot_up(rot_up(c)), d);
}

/// One undo case of [`lemma_move_then_reverse`].
#[verifier::spinoff_prover]
proof fn lemma_rev_rot_down_single(c: Cube, d: Cube)
    requires
        d == apply_spec(c, Move { face: Face::Down, direction: Direction::Single }),
    ensures
        apply_spec(d, Move { face: Face::Down, direction: Direction::Reverse }) == c,
{
    reveal(apply_spec);
    lemma_four_rot_down(c, d, rot_down(d), rot_down(rot_down(d)));
}

/// One undo case of [`lemma_move_then_reverse`].
#[verifier::spinoff_prover]
proof fn lemma_rev_rot_down_double(c: Cube, d: Cube)
    requires
        d == apply_spec(c, Move { face: Face::Down, direction: Direction::Double }),
    ensures
        apply_spec(d, Move { face: Face::Down, direction: Direction::Double }) == c,
{
    reveal(apply_spec);
    lemma_four_rot_down(c, rot_down(c), d, rot_down(d));
}

/// One undo case of [`lemma_move_then_reverse`].
#[verifier::spinoff_prover]
proof fn lemma_rev_rot_down_reverse(c: Cube, d: Cube)
    requires
        d == apply_spec(c, Move { face: Face::Down, direction: Direction::Reverse }),
    ensures
        apply_spec(d, Move { face: Face::Down, direction: Direction::Single }) == c,
{
    reveal(apply_spec);
    lemma_four_rot_down(c, rot_down(c), rot_down(rot_down(c)), d);
}

/// One undo case of [`lemma_move_then_reverse`].
#[verifier::spinoff_prover]
proof fn lemma_rev_rot_front_single(c: Cube, d: Cube)
    requires
        d == apply_spec(c, Move { face: Face::Front, direction: Direction::Single }),
    ensures
        apply_spec(d, Move { face: Face::Front, direction: Direction::Reverse }) == c,
{
    reveal(apply_spec);
    lemma_four_rot_front(c, d, rot_front(d), rot_front(rot_front(d)));
}

/// One undo case of [`lemma_move_then_reverse`].
#[verifier::spinoff_prover]
proof fn lemma_rev_rot_front_double(c: Cube, d: Cube)
    requires
        d == apply_spec(c, Move { face: Face::Front, direction: Direction::Double }),
    ensures
        apply_spec(d, Move { face: Face::Front, direction: Direction::Double }) == c,
{
    reveal(apply_spec);
    lemma_four_rot_front(c, rot_front(c), d, rot_front(d));
}

/// One undo case of [`lemma_move_then_reverse`].
#[verifier::spinoff_prover]
proof fn lemma_rev_rot_front_reverse(c: Cube, d: Cube)
    requires
        d == apply_spec(c, Move { face: Face::Front, direction: Direction::Reverse }),
    ensures
        apply_spec(d, Move { face: Face::Front, direction: Direction::Single }) == c,
{
    reveal(apply_spec);
    lemma_four_rot_front(c, rot_front(c), rot_front(rot_front(c)), d);
}

/// One undo case of [`lemma_move_then_reverse`].
#[verifier::spinoff_prover]
proof fn lemma_rev_rot_back_single(c: Cube, d: Cube)
    requires
        d == apply_spec(c, Move { face: Face::Back, direction: Direction::Single }),
    ensures
        apply_spec(d, Move { face: Face::Back, direction: Direction::Reverse }) == c,
{
    reveal(apply_spec);
    lemma_four_rot_back(c, d, rot_back(d), rot_back(rot_back(d)));
}

/// One undo case of [`lemma_move_then_reverse`].
#[verifier::spinoff_prover]
proof fn lemma_rev_rot_back_double(c: Cube, d: Cube)
    requires
        d == apply_spec(c, Move { face: Face::Back, direction: Direction::Double }),
    ensures
        apply_spec(d, Move { face: Face::Back, direction: Direction::Double }) == c,
{
    reveal(apply_spec);
    lemma_four_rot_back(c, rot_back(c), d, rot_back(d));
}

/// One undo case of [`lemma_move_then_reverse`].
#[verifier::spinoff_prover]
proof fn lemma_rev_rot_back_reverse(c: Cube, d: Cube)
    requires
        d == apply_spec(c, Move { face: Face::Back, direction: Direction::Reverse }),
    ensures
        apply_spec(d, Move { face: Face::Back, direction: Direction::Single }) == c,
{
    reveal(apply_spec);
    lemma_four_rot_back(c, rot_back(c), rot_back(rot_back(c)), d);
}

/// One undo case of [`lemma_move_then_reverse`].
#[verifier::spinoff_prover]
proof fn lemma_rev_rot_left_single(c: Cube, d: Cube)
    requires
        d == apply_spec(c, Move { face: Face::Left, direction: Direction::Single }),
    ensures
        apply_spec(d, Move { face: Face::Left, direction: Direction::Reverse }) == c,
{
    reveal(apply_spec);
    lemma_four_rot_left(c, d, rot_left(d), rot_left(rot_left(d)));
}

/// One undo case of [`lemma_move_then_reverse`].
#[verifier::spinoff_prover]
proof fn lemma_rev_rot_left_double(c: Cube, d: Cube)
    requires
        d == apply_spec(c, Move { face: Face::Left, direction: Direction::Double }),
    ensures
        apply_spec(d, Move { face: Face::Left, direction: Direction::Double }) == c,
{
    reveal(apply_spec);
    lemma_four_rot_left(c, rot_left(c), d, rot_left(d));
}

/// One undo case of [`lemma_move_then_reverse`].
#[verifier::spinoff_prover]
proof fn lemma_rev_rot_left_reverse(c: Cube, d: Cube)
    requires
        d == apply_spec(c, Move { face: Face::Left, direction: Direction::Reverse }),
    ensures
        apply_spec(d, Move { face: Face::Left, direction: Direction::Single }) == c,
{
    reveal(apply_spec);
    lemma_four_rot_left(c, rot_left(c), rot_left(rot_left(c)), d);
}

/// One undo case of [`lemma_move_then_reverse`].
#[verifier::spinoff_prover]
proof fn lemma_rev_rot_right_single(c: Cube, d: Cube)
    requires
        d == apply_spec(c, Move { face: Face::Right, direction: Direction::Single }),
    ensures
        apply_spec(d, Move { face: Face::Right, direction: Direction::Reverse }) == c,
{
    reveal(apply_spec);
    lemma_four_rot_right(c, d, rot_right(d), rot_right(rot_right(d)));
}

/// One undo case of [`lemma_move_then_reverse`].
#[verifier::spinoff_prover]
proof fn lemma_rev_rot_right_double(c: Cube, d: Cube)
    requires
        d == apply_spec(c, Move { face: Face::Right, direction: Direction::Double }),
    ensures
        apply_spec(d, Move { face: Face::Right, direction: Direction::Double }) == c,
{
    reveal(apply_spec);
    lemma_four_rot_right(c, rot_right(c), d, rot_right(d));
}

/// One undo case of [`lemma_move_then_reverse`].
#[verifier::spinoff_prover]
proof fn lemma_rev_rot_right_reverse(c: Cube, d: Cube)
    requires
        d == apply_spec(c, Move { face: Face::Right, direction: Direction::Reverse }),
    ensures
        apply_spec(d, Move { face: Face::Right, direction: Direction::Single }) == c,
{
    reveal(apply_spec);
    lemma_four_rot_right(c, rot_right(c), rot_right(rot_right(c)), d);
}

/// The single-turn cases of [`lemma_move_then_reverse`].
#[verifier::rlimit(100)]
#[verifier::spinoff_prover]
proof fn lemma_rev_single(c: Cube, d: Cube, m: Move)
    requires
        m.direction == Direction::Single,
        d == apply_spec(c, m),
    ensures
        apply_spec(d, m.reverse_spec()) == c,
{
    match m.face {
        Face::Up => {
            assert(m == Move { face: Face::Up, direction: Direction::Single });
            lemma_rev_rot_up_single(c, d);
        },
        Face::Down => {
            assert(m == Move { face: Face::Down, direction: Direction::Single });
            lemma_rev_rot_down_single(c, d);
        },
        Face::Front => {
            assert(m == Move { face: Face::Front, direction: Direction::Single });
            lemma_rev_rot_front_single(c, d);
        },
        Face::Back => {
            assert(m == Move { face: Face::Back, direction: Direction::Single });
            lemma_rev_rot_back_single(c, d);
        },
        Face::Left => {
            assert(m == Move { face: Face::Left, direction: Direction::Single });
            lemma_rev_rot_left_single(c, d);
        },
        Face::Right => {
            assert(m == Move { face: Face::Right, direction: Direction::Single });
            lemma_rev_rot_right_single(c, d);
        },
    }
}

/// The double-turn cases of [`lemma_move_then_reverse`].
#[verifier::rlimit(100)]
#[verifier::spinoff_prover]
proof fn lemma_rev_double(c: Cube, d: Cube, m: Move)
    requires
        m.direction == Direction::Double,
        d == apply_spec(c, m),
    ensures
        apply_spec(d, m.reverse_spec()) == c,
{
    match m.face {
        Face::Up => {
            assert(m == Move { face: Face::Up, direction: Direction::Double });
            lemma_rev_rot_up_double(c, d);
        },
        Face::Down => {
            assert(m == Move { face: Face::Down, direction: Direction::Double });
            lemma_rev_rot_down_double(c, d);
        },
        Face::Front => {
            assert(m == Move { face: Face::Front, direction: Direction::Double });
            lemma_rev_rot_front_double(c, d);
        },
        Face::Back => {
            assert(m == Move { face: Face::Back, direction: Direction::Double });
            lemma_rev_rot_back_double(c, d);
        },
        Face::Left => {
            assert(m == Move { face: Face::Left, direction: Direction::Double });
            lemma_rev_rot_left_double(c, d);
        },
        Face::Right => {
            assert(m == Move { face: Face::Right, direction: Direction::Double });
            lemma_rev_rot_right_double(c, d);
        },
    }
}

/// The reverse-turn cases of [`lemma_move_then_reverse`].
#[verifier::rlimit(100)]
#[verifier::spinoff_prover]
proof fn lemma_rev_reverse(c: Cube, d: Cube, m: Move)
    requires
        m.direction == Direction::Reverse,
        d == apply_spec(c, m),
    ensures
        apply_spec(d, m.reverse_spec()) == c,
{
    match m.face {
        Face::Up => {
            assert(m == Move { face: Face::Up, direction: Direction::Reverse });
            lemma_rev_rot_up_reverse(c, d);
        },
        Face::Down => {
            assert(m == Move { face: Face::Down, direction: Direction::Reverse });
            lemma_rev_rot_down_reverse(c, d);
        },
        Face::Front => {
            assert(m == Move { face: Face::Front, direction: Direction::Reverse });
            lemma_rev_rot_front_reverse(c, d);
        },
        Face::Back => {
            assert(m == Move { face: Face::Back, direction: Direction::Reverse });
            lemma_rev_rot_back_reverse(c, d);
        },
        Face::Left => {
            assert(m == Move { face: Face::Left, direction: Direction::Reverse });
            lemma_rev_rot_left_reverse(c, d);
        },
        Face::Right => {
            assert(m == Move { face: Face::Right, direction: Direction::Reverse });
            lemma_rev_rot_right_reverse(c, d);
        },
    }
}

/// The dispatching step of [`lemma_move_then_reverse`], with the moved-to
/// cube named so that no case builds nested move applications.
#[verifier::rlimit(100)]
#[verifier::spinoff_prover]
proof fn lemma_rev_dispatch(c: Cube, d: Cube, m: Move)
    requires
        d == apply_spec(c, m),
    ensures
        apply_spec(d, m.reverse_spec()) == c,
{
    match m.direction {
        Direction::Single => lemma_rev_single(c, d, m),
        Direction::Double => lemma_rev_double(c, d, m),
        Direction::Reverse => lemma_rev_reverse(c, d, m),
    }
}

/// Every move is undone by its reverse: `m` then `m.reverse()` restores
/// any cube.  Either order of the pair makes four quarter turns of one
/// face.
pub proof fn lemma_move_then_reverse(c: Cube, m: Move)
    ensures
        apply_spec(apply_spec(c, m), m.reverse_spec()) == c,
{
    lemma_rev_dispatch(c, apply_spec(c, m), m);
}

/// A half turn is an involution: two consecutive half turns of the same
/// face restore any cube.
pub proof fn lemma_double_twice(c: Cube, f: Face)
    ensures
        apply_spec(
            apply_spec(c, Move { face: f, direction: Direction::Double }),
            Move { face: f, direction: Direction::Double },
        ) == c,
{
    lemma_move_then_reverse(c, Move { face: f, direction: Direction::Double });
}

/// A sequence is undone by its inverse: applying `s` and then
/// `inverse_seq(s)` restores any cube.
pub proof fn lemma_seq_then_inverse(c: Cube, s: Seq<Move>)
    ensures
        apply_seq(apply_seq(c, s), Move::inverse_seq_spec(s)) == c,
    decreases s.len(),
{
    if s.len() == 0 {
        assert(Move::inverse_seq_spec(s) =~= Seq::<Move>::empty());
    } else {
        let rest = s.skip(1);
        let c1 = apply_spec(c, s[0]);
        assert(Move::inverse_seq_spec(s) =~= Move::inverse_seq_spec(rest).push(
            s[0].reverse_spec(),
        )) by {
            assert forall|j: int|
                0 <= j < s.len() implies Move::inverse_seq_spec(s)[j] == Move::inverse_seq_spec(
                rest,
            ).push(s[0].reverse_spec())[j] by {
                if j < s.len() - 1 {
                    assert(rest[rest.len() - 1 - j] == s[s.len() - 1 - j]);
                }
            }
        }
        lemma_seq_then_inverse(c1, rest);
        lemma_apply_seq_push(
            apply_seq(c1, rest),
            Move::inverse_seq_spec(rest),
            s[0].reverse_spec(),
        );
        lemma_move_then_reverse(c, s[0]);
    }
}

/// All four coordinates of the solved cube are zero.
pub proof fn lemma_solved_coords_zero()
    ensures
        corner_orientation_spec(solved_spec()) == 0,
        edge_orientation_spec(solved_spec()) == 0,
        corner_position_spec(solved_spec()) == 0,
        edge_position_spec(solved_spec()) == 0,
{
    reveal(corner_orientation_spec);
    reveal(edge_orientation_spec);
    reveal(corner_position_spec);
    reveal(edge_position_spec);
}

/// A sequence that turns the same face twice in a row is never considered.
pub proof fn lemma_same_face_pruned(s: Seq<Move>, i: int)
    requires
        0 < i < s.len(),
        s[i].face == s[i - 1].face,
    ensures
        !Move::should_consider_spec(s),
{
    assert(!s[i].could_follow_spec(s[i - 1]));
}

/// A domino move keeps a cube in the domino subgroup.
#[verifier::rlimit(100)]
#[verifier::spinoff_prover]
pub proof fn lemma_domino_move_keeps_domino(c: Cube, m: Move)
    requires
        is_domino_spec(c),
        is_domino_move_spec(m),
    ensures
        is_domino_spec(apply_spec(c, m)),
{
    reveal(apply_spec);
    match (m.face, m.direction) {
        (Face::Up, _) => {
            assert(is_domino_spec(apply_spec(c, m)));
        },
        (Face::Down, _) => {
            assert(is_domino_spec(apply_spec(c, m)));
        },
        (Face::Front, _) => {
            assert(is_domino_spec(apply_spec(c, m)));
        },
        (Face::Back, _) => {
            assert(is_domino_spec(apply_spec(c, m)));
        },
        (Face::Left, _) => {
            assert(is_domino_spec(apply_spec(c, m)));
        },
        (Face::Right, _) => {
            assert(is_domino_spec(apply_spec(c, m)));
        },
    }
}

} // verus!
