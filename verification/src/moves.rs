//! The move alphabet and its algebra: directions, the 18 face turns,
//! inversion, and the canonicalisation rules used while searching.

use vstd::prelude::*;
use vstd::string::StringSliceAdditionalSpecFns;

use crate::face::Face;

verus! {

/// How far a face is turned: a clockwise quarter turn, a half turn, or a
/// counter-clockwise quarter turn.
#[derive(Clone, Copy, PartialEq, Eq, Structural, Debug, Hash)]
pub enum Direction {
    Single,
    Double,
    Reverse,
}

/// A single face turn in standard notation: a face and a direction.
#[derive(Clone, Copy, PartialEq, Eq, Structural, Debug, Hash)]
pub struct Move {
    pub face: Face,
    pub direction: Direction,
}

impl Direction {
    /// The direction that undoes this one.
    pub open spec fn reverse_spec(self) -> Direction {
        match self {
            Direction::Single => Direction::Reverse,
            Direction::Reverse => Direction::Single,
            Direction::Double => Direction::Double,
        }
    }

    /// The direction that undoes this one.
    pub fn reverse(self) -> (r: Direction)
        ensures
            r == self.reverse_spec(),
    {
        match self {
            Direction::Single => Direction::Reverse,
            Direction::Reverse => Direction::Single,
            Direction::Double => Direction::Double,
        }
    }
}

impl Move {
    /// The move that undoes this one: same face, reversed direction.
    pub open spec fn reverse_spec(self) -> Move {
        Move { face: self.face, direction: self.direction.reverse_spec() }
    }

    /// The move that undoes this one: same face, reversed direction.
    pub fn reverse(&self) -> (r: Move)
        ensures
            r == self.reverse_spec(),
    {
        Move { face: self.face, direction: self.direction.reverse() }
    }

    /// Whether `self` is permitted immediately after `other` in a search:
    /// always when the axes differ, and on a shared axis only when `self`
    /// turns the strictly greater face (which also rules out two turns of
    /// the same face).
    pub open spec fn could_follow_spec(self, other: Move) -> bool {
        if self.face.axis_spec() != other.face.axis_spec() {
            true
        } else {
            self.face.rank_spec() > other.face.rank_spec()
        }
    }

    /// Whether `self` is permitted immediately after `other` in a search.
    pub fn could_follow(&self, other: &Move) -> (r: bool)
        ensures
            r == self.could_follow_spec(*other),
    {
        if !Face::same_axis(self.face, other.face) {
            return true;
        }
        self.face.rank() > other.face.rank()
    }

    /// Whether every consecutive pair of `seq` satisfies [`Move::could_follow_spec`].
    pub open spec fn should_consider_spec(seq: Seq<Move>) -> bool {
        forall|i: int| 0 < i < seq.len() ==> #[trigger] seq[i].could_follow_spec(seq[i - 1])
    }

    /// Whether every consecutive pair of `seq` satisfies [`Move::could_follow`];
    /// sequences that fail are pruned during heuristic construction.
    pub fn should_consider(seq: &[Move]) -> (r: bool)
        ensures
            r == Move::should_consider_spec(seq@),
    {
        let n = seq.len();
        let mut i: usize = 1;
        while i < n
            invariant
                1 <= i,
                n == seq@.len(),
                forall|j: int| 0 < j < i ==> #[trigger] seq@[j].could_follow_spec(seq@[j - 1]),
            decreases n - i,
        {
            if !seq[i].could_follow(&seq[i - 1]) {
                return false;
            }
            i = i + 1;
        }
        true
    }

    /// The inverse of a sequence: the reversed sequence of reversed moves.
    pub open spec fn inverse_seq_spec(seq: Seq<Move>) -> Seq<Move> {
        seq.reverse().map_values(|m: Move| m.reverse_spec())
    }

    /// The inverse of a sequence: applying `seq` and then `inverse_seq(seq)`
    /// leaves any cube unchanged.
    pub fn inverse_seq(seq: &[Move]) -> (r: Vec<Move>)
        ensures
            r@ == Move::inverse_seq_spec(seq@),
    {
        let n = seq.len();
        let mut out: Vec<Move> = Vec::new();
        let mut i: usize = 0;
        while i < n
            invariant
                i <= n,
                n == seq@.len(),
                out@.len() == i,
                forall|j: int|
                    0 <= j < i ==> #[trigger] out@[j] == seq@[n - 1 - j].reverse_spec(),
            decreases n - i,
        {
            out.push(seq[n - 1 - i].reverse());
            i = i + 1;
        }
        proof {
            assert(out@ =~= Move::inverse_seq_spec(seq@));
        }
        out
    }

    /// All 18 moves: each face in order, each with the three directions in
    /// declaration order.
    pub fn all() -> (r: Vec<Move>)
        ensures
            r@ == all_moves(),
    {
        let mut out: Vec<Move> = Vec::new();
        let faces = Face::all();
        let mut i: usize = 0;
        while i < 6
            invariant
                i <= 6,
                faces@ == crate::face::all_faces(),
                out@ == all_moves().take(3 * i),
            decreases 6 - i,
        {
            let face = faces[i];
            out.push(Move { face, direction: Direction::Single });
            out.push(Move { face, direction: Direction::Double });
            out.push(Move { face, direction: Direction::Reverse });
            i = i + 1;
            proof {
                assert(out@ =~= all_moves().take(3 * i));
            }
        }
        proof {
            assert(out@ =~= all_moves());
        }
        out
    }
}

/// Why a move string was rejected.
#[derive(Clone, Copy, PartialEq, Eq, Structural, Debug)]
pub enum ParseError {
    /// A token was empty.
    NoFace,
    /// The first byte of a token names no face.
    UnrecognizedFace(u8),
    /// The second byte of a token is neither `'` nor `2`.
    UnrecognizedDirection(u8),
    /// A token went on after its direction.
    TrailingByte(u8),
}

/// The face a token's first byte names, if any; both cases are accepted.
pub open spec fn face_of_byte(b: u8) -> Option<Face> {
    if b == 70 || b == 102 {
        Some(Face::Front)
    } else if b == 82 || b == 114 {
        Some(Face::Right)
    } else if b == 85 || b == 117 {
        Some(Face::Up)
    } else if b == 76 || b == 108 {
        Some(Face::Left)
    } else if b == 66 || b == 98 {
        Some(Face::Back)
    } else if b == 68 || b == 100 {
        Some(Face::Down)
    } else {
        None
    }
}

/// What a single token means: a face byte, optionally followed by `'`
/// (reverse) or `2` (double), and nothing else.
pub open spec fn parse_move_spec(t: Seq<u8>) -> Result<Move, ParseError> {
    if t.len() == 0 {
        Err(ParseError::NoFace)
    } else {
        match face_of_byte(t[0]) {
            None => Err(ParseError::UnrecognizedFace(t[0])),
            Some(face) => if t.len() == 1 {
                Ok(Move { face, direction: Direction::Single })
            } else if t.len() > 2 {
                Err(ParseError::TrailingByte(t[2]))
            } else if t[1] == 39 {
                Ok(Move { face, direction: Direction::Reverse })
            } else if t[1] == 50 {
                Ok(Move { face, direction: Direction::Double })
            } else {
                Err(ParseError::UnrecognizedDirection(t[1]))
            },
        }
    }
}

/// The index of the first space in `s`, or its length when it has none.
pub open spec fn first_space(s: Seq<u8>) -> int
    decreases s.len(),
{
    if s.len() == 0 {
        0
    } else if s[0] == 32 {
        0
    } else {
        1 + first_space(s.skip(1))
    }
}

/// A position that follows no space and holds one (or the end) is the first
/// space.
pub proof fn lemma_first_space(s: Seq<u8>, k: int)
    requires
        0 <= k <= s.len(),
        forall|l: int| 0 <= l < k ==> s[l] != 32,
        k == s.len() || s[k] == 32,
    ensures
        first_space(s) == k,
    decreases k,
{
    if k > 0 {
        assert forall|l: int| 0 <= l < k - 1 implies s.skip(1)[l] != 32 by {
            assert(s.skip(1)[l] == s[l + 1]);
        }
        if k < s.len() {
            assert(s.skip(1)[k - 1] == s[k]);
        }
        lemma_first_space(s.skip(1), k - 1);
    }
}

/// The first space lies between the start and the end of the string.
pub proof fn lemma_first_space_bounds(s: Seq<u8>)
    ensures
        0 <= first_space(s) <= s.len(),
    decreases s.len(),
{
    if s.len() > 0 && s[0] != 32 {
        lemma_first_space_bounds(s.skip(1));
    }
}

/// What a whole scramble string means: tokens separated by single spaces,
/// each a move; the first offending token's error otherwise.
pub open spec fn parse_sequence_spec(s: Seq<u8>) -> Result<Seq<Move>, ParseError>
    decreases s.len(),
    via parse_sequence_spec_decreases
{
    let k = first_space(s);
    match parse_move_spec(s.subrange(0, k)) {
        Err(e) => Err(e),
        Ok(m) => if k == s.len() {
            Ok(seq![m])
        } else {
            match parse_sequence_spec(s.skip(k + 1)) {
                Err(e) => Err(e),
                Ok(rest) => Ok(seq![m] + rest),
            }
        },
    }
}

#[via_fn]
proof fn parse_sequence_spec_decreases(s: Seq<u8>) {
    lemma_first_space_bounds(s);
}

impl Move {
    /// Parse one token, such as `R`, `r2` or `F'`.
    pub fn parse(s: &str) -> (r: Result<Move, ParseError>)
        ensures
            r == parse_move_spec(s.spec_bytes()),
    {
        parse_move_bytes(s.as_bytes())
    }

    /// Parse a whitespace-separated scramble, such as `R2 D F'`.
    pub fn parse_sequence(s: &str) -> (r: Result<Vec<Move>, ParseError>)
        ensures
            match r {
                Ok(v) => parse_sequence_spec(s.spec_bytes()) == Ok::<Seq<Move>, ParseError>(v@),
                Err(e) => parse_sequence_spec(s.spec_bytes()) == Err::<Seq<Move>, ParseError>(e),
            },
    {
        parse_sequence_bytes(s.as_bytes())
    }
}

/// Parse one token from its bytes; see [`parse_move_spec`].
fn parse_move_bytes(t: &[u8]) -> (r: Result<Move, ParseError>)
    ensures
        r == parse_move_spec(t@),
{
    if t.len() == 0 {
        return Err(ParseError::NoFace);
    }
    let face = match t[0] {
        70 | 102 => Face::Front,
        82 | 114 => Face::Right,
        85 | 117 => Face::Up,
        76 | 108 => Face::Left,
        66 | 98 => Face::Back,
        68 | 100 => Face::Down,
        b => {
            return Err(ParseError::UnrecognizedFace(b));
        },
    };
    if t.len() == 1 {
        Ok(Move { face, direction: Direction::Single })
    } else if t.len() > 2 {
        Err(ParseError::TrailingByte(t[2]))
    } else if t[1] == 39 {
        Ok(Move { face, direction: Direction::Reverse })
    } else if t[1] == 50 {
        Ok(Move { face, direction: Direction::Double })
    } else {
        Err(ParseError::UnrecognizedDirection(t[1]))
    }
}

/// Parse a whole scramble from its bytes; see [`parse_sequence_spec`].
fn parse_sequence_bytes(b: &[u8]) -> (r: Result<Vec<Move>, ParseError>)
    ensures
        match r {
            Ok(v) => parse_sequence_spec(b@) == Ok::<Seq<Move>, ParseError>(v@),
            Err(e) => parse_sequence_spec(b@) == Err::<Seq<Move>, ParseError>(e),
        },
    decreases b@.len(),
{
    let n = b.len();
    let mut k: usize = 0;
    while k < n && b[k] != 32
        invariant
            0 <= k <= n,
            n == b@.len(),
            forall|l: int| 0 <= l < k ==> b@[l] != 32,
        decreases n - k,
    {
        k = k + 1;
    }
    proof {
        lemma_first_space(b@, k as int);
    }
    let tok = vstd::slice::slice_subrange(b, 0, k);
    match parse_move_bytes(tok) {
        Err(e) => Err(e),
        Ok(m) => {
            if k == n {
                let mut v: Vec<Move> = Vec::new();
                v.push(m);
                proof {
                    assert(v@ =~= seq![m]);
                }
                Ok(v)
            } else {
                let rest_slice = vstd::slice::slice_subrange(b, k + 1, n);
                proof {
                    assert(rest_slice@ =~= b@.skip(k as int + 1));
                }
                match parse_sequence_bytes(rest_slice) {
                    Err(e) => Err(e),
                    Ok(mut rest) => {
                        let ghost rest0 = rest@;
                        let mut v: Vec<Move> = Vec::new();
                        v.push(m);
                        v.append(&mut rest);
                        proof {
                            assert(v@ =~= seq![m] + rest0);
                        }
                        Ok(v)
                    },
                }
            }
        },
    }
}

/// The 18 moves in the order produced by [`Move::all`]: the faces in their
/// fixed order, each with Single, Double, Reverse.
pub open spec fn all_moves() -> Seq<Move> {
    seq![
        Move { face: Face::Front, direction: Direction::Single },
        Move { face: Face::Front, direction: Direction::Double },
        Move { face: Face::Front, direction: Direction::Reverse },
        Move { face: Face::Back, direction: Direction::Single },
        Move { face: Face::Back, direction: Direction::Double },
        Move { face: Face::Back, direction: Direction::Reverse },
        Move { face: Face::Left, direction: Direction::Single },
        Move { face: Face::Left, direction: Direction::Double },
        Move { face: Face::Left, direction: Direction::Reverse },
        Move { face: Face::Right, direction: Direction::Single },
        Move { face: Face::Right, direction: Direction::Double },
        Move { face: Face::Right, direction: Direction::Reverse },
        Move { face: Face::Up, direction: Direction::Single },
        Move { face: Face::Up, direction: Direction::Double },
        Move { face: Face::Up, direction: Direction::Reverse },
        Move { face: Face::Down, direction: Direction::Single },
        Move { face: Face::Down, direction: Direction::Double },
        Move { face: Face::Down, direction: Direction::Reverse },
    ]
}

} // verus!
