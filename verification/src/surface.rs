//! The sticker-level cube model.
//!
//! A [`Surface`] holds the eight movable stickers of one face, numbered
//! clockwise from the top-left corner when looking at the face from outside:
//! corners at even positions, edges at odd positions.  Centres never move and
//! are therefore not stored.  A [`Cube`] is six surfaces; a move rotates one
//! surface in place and cycles the four adjacent three-sticker slices.

use vstd::prelude::*;

use crate::face::Face;
use crate::location::Location;
use crate::moves::{Direction, Move};

verus! {

/// The eight movable stickers of one face, clockwise from the top-left
/// corner: `s0 s1 s2` on the top row, `s3` on the right, `s4 s5 s6` on the
/// bottom row (right to left), `s7` on the left.
#[derive(Clone, Copy, PartialEq, Eq, Structural, Debug)]
pub struct Surface {
    pub s0: Face,
    pub s1: Face,
    pub s2: Face,
    pub s3: Face,
    pub s4: Face,
    pub s5: Face,
    pub s6: Face,
    pub s7: Face,
}

impl Surface {
    /// A surface showing `face` on every sticker.
    pub open spec fn uniform_spec(face: Face) -> Surface {
        Surface { s0: face, s1: face, s2: face, s3: face, s4: face, s5: face, s6: face, s7: face }
    }

    /// A surface showing `face` on every sticker.
    pub fn uniform(face: Face) -> (r: Surface)
        ensures
            r == Surface::uniform_spec(face),
    {
        Surface { s0: face, s1: face, s2: face, s3: face, s4: face, s5: face, s6: face, s7: face }
    }

    /// A surface from its eight stickers in position order.
    pub fn new(s0: Face, s1: Face, s2: Face, s3: Face, s4: Face, s5: Face, s6: Face, s7: Face) -> (
        r: Surface)
        ensures
            r == (Surface { s0, s1, s2, s3, s4, s5, s6, s7 }),
    {
        Surface { s0, s1, s2, s3, s4, s5, s6, s7 }
    }

    /// The surface after a clockwise quarter turn: every sticker moves two
    /// positions forward.
    pub open spec fn rotated_spec(self) -> Surface {
        Surface {
            s0: self.s6,
            s1: self.s7,
            s2: self.s0,
            s3: self.s1,
            s4: self.s2,
            s5: self.s3,
            s6: self.s4,
            s7: self.s5,
        }
    }

    /// Turn the surface a quarter turn clockwise in place.
    pub fn rotate(&mut self)
        ensures
            *final(self) == old(self).rotated_spec(),
    {
        *self = Surface {
            s0: self.s6,
            s1: self.s7,
            s2: self.s0,
            s3: self.s1,
            s4: self.s2,
            s5: self.s3,
            s6: self.s4,
            s7: self.s5,
        };
    }

    /// Turn the surface a quarter turn counter-clockwise in place.
    pub fn rotate_reverse(&mut self)
        ensures
            *final(self) == old(self).rotated_spec().rotated_spec().rotated_spec(),
    {
        *self = Surface {
            s0: self.s2,
            s1: self.s3,
            s2: self.s4,
            s3: self.s5,
            s4: self.s6,
            s5: self.s7,
            s6: self.s0,
            s7: self.s1,
        };
    }

    /// Turn the surface a half turn in place.
    pub fn rotate_double(&mut self)
        ensures
            *final(self) == old(self).rotated_spec().rotated_spec(),
    {
        *self = Surface {
            s0: self.s4,
            s1: self.s5,
            s2: self.s6,
            s3: self.s7,
            s4: self.s0,
            s5: self.s1,
            s6: self.s2,
            s7: self.s3,
        };
    }
}

/// A full cube: one surface per face.  The fields are plain data and any
/// sticker arrangement can be written down; contracts therefore never
/// assume a value is physically reachable, and reachable cubes are exactly
/// those built from [`Cube::solved`] by [`Cube::apply`]/[`Cube::rotate`].
#[derive(Clone, Copy, PartialEq, Eq, Structural, Debug)]
pub struct Cube {
    pub up: Surface,
    pub down: Surface,
    pub front: Surface,
    pub back: Surface,
    pub left: Surface,
    pub right: Surface,
}

/// The solved cube: every sticker of face `f` shows `f`.
pub open spec fn solved_spec() -> Cube {
    Cube {
        up: Surface::uniform_spec(Face::Up),
        down: Surface::uniform_spec(Face::Down),
        front: Surface::uniform_spec(Face::Front),
        back: Surface::uniform_spec(Face::Back),
        left: Surface::uniform_spec(Face::Left),
        right: Surface::uniform_spec(Face::Right),
    }
}

/// The cube after a clockwise quarter turn of the Up face.
pub open spec fn rot_up(c: Cube) -> Cube {
    Cube {
        up: c.up.rotated_spec(),
        down: c.down,
        front: Surface { s0: c.right.s0, s1: c.right.s1, s2: c.right.s2, ..c.front },
        back: Surface { s0: c.left.s0, s1: c.left.s1, s2: c.left.s2, ..c.back },
        left: Surface { s0: c.front.s0, s1: c.front.s1, s2: c.front.s2, ..c.left },
        right: Surface { s0: c.back.s0, s1: c.back.s1, s2: c.back.s2, ..c.right },
    }
}

/// The cube after a clockwise quarter turn of the Down face.
pub open spec fn rot_down(c: Cube) -> Cube {
    Cube {
        up: c.up,
        down: c.down.rotated_spec(),
        front: Surface { s4: c.left.s4, s5: c.left.s5, s6: c.left.s6, ..c.front },
        back: Surface { s4: c.right.s4, s5: c.right.s5, s6: c.right.s6, ..c.back },
        left: Surface { s4: c.back.s4, s5: c.back.s5, s6: c.back.s6, ..c.left },
        right: Surface { s4: c.front.s4, s5: c.front.s5, s6: c.front.s6, ..c.right },
    }
}

/// The cube after a clockwise quarter turn of the Front face.
pub open spec fn rot_front(c: Cube) -> Cube {
    Cube {
        up: Surface { s4: c.left.s2, s5: c.left.s3, s6: c.left.s4, ..c.up },
        down: Surface { s0: c.right.s6, s1: c.right.s7, s2: c.right.s0, ..c.down },
        front: c.front.rotated_spec(),
        back: c.back,
        left: Surface { s2: c.down.s0, s3: c.down.s1, s4: c.down.s2, ..c.left },
        right: Surface { s6: c.up.s4, s7: c.up.s5, s0: c.up.s6, ..c.right },
    }
}

/// The cube after a clockwise quarter turn of the Back face.
pub open spec fn rot_back(c: Cube) -> Cube {
    Cube {
        up: Surface { s0: c.right.s2, s1: c.right.s3, s2: c.right.s4, ..c.up },
        down: Surface { s4: c.left.s6, s5: c.left.s7, s6: c.left.s0, ..c.down },
        front: c.front,
        back: c.back.rotated_spec(),
        left: Surface { s6: c.up.s0, s7: c.up.s1, s0: c.up.s2, ..c.left },
        right: Surface { s2: c.down.s4, s3: c.down.s5, s4: c.down.s6, ..c.right },
    }
}

/// The cube after a clockwise quarter turn of the Right face.
pub open spec fn rot_right(c: Cube) -> Cube {
    Cube {
        up: Surface { s2: c.front.s2, s3: c.front.s3, s4: c.front.s4, ..c.up },
        down: Surface { s2: c.back.s6, s3: c.back.s7, s4: c.back.s0, ..c.down },
        front: Surface { s2: c.down.s2, s3: c.down.s3, s4: c.down.s4, ..c.front },
        back: Surface { s6: c.up.s2, s7: c.up.s3, s0: c.up.s4, ..c.back },
        left: c.left,
        right: c.right.rotated_spec(),
    }
}

/// The cube after a clockwise quarter turn of the Left face.
pub open spec fn rot_left(c: Cube) -> Cube {
    Cube {
        up: Surface { s6: c.back.s2, s7: c.back.s3, s0: c.back.s4, ..c.up },
        down: Surface { s6: c.front.s6, s7: c.front.s7, s0: c.front.s0, ..c.down },
        front: Surface { s6: c.up.s6, s7: c.up.s7, s0: c.up.s0, ..c.front },
        back: Surface { s2: c.down.s6, s3: c.down.s7, s4: c.down.s0, ..c.back },
        left: c.left.rotated_spec(),
        right: c.right,
    }
}

/// The cube after a clockwise quarter turn of `face`.
pub open spec fn rot_face(c: Cube, face: Face) -> Cube {
    match face {
        Face::Up => rot_up(c),
        Face::Down => rot_down(c),
        Face::Front => rot_front(c),
        Face::Back => rot_back(c),
        Face::Left => rot_left(c),
        Face::Right => rot_right(c),
    }
}

/// The cube after one move: one, two or three clockwise quarter turns of the
/// named face.
#[verifier::opaque]
pub open spec fn apply_spec(c: Cube, m: Move) -> Cube {
    match m.direction {
        Direction::Single => rot_face(c, m.face),
        Direction::Double => rot_face(rot_face(c, m.face), m.face),
        Direction::Reverse => rot_face(rot_face(rot_face(c, m.face), m.face), m.face),
    }
}

/// The cube after a whole sequence of moves, first move first.
pub open spec fn apply_seq(c: Cube, s: Seq<Move>) -> Cube
    decreases s.len(),
{
    if s.len() == 0 {
        c
    } else {
        apply_seq(apply_spec(c, s[0]), s.skip(1))
    }
}

/// Applying one more move at the end continues from the sequence's result.
pub proof fn lemma_apply_seq_push(c: Cube, s: Seq<Move>, m: Move)
    ensures
        apply_seq(c, s.push(m)) == apply_spec(apply_seq(c, s), m),
    decreases s.len(),
{
    if s.len() == 0 {
        assert(s.push(m)[0] == m);
        assert(s.push(m).skip(1) =~= Seq::<Move>::empty());
        assert(apply_seq(apply_spec(c, m), Seq::<Move>::empty()) == apply_spec(c, m));
        assert(apply_seq(c, s.push(m)) == apply_spec(c, m));
    } else {
        assert(s.push(m)[0] == s[0]);
        assert(s.push(m).skip(1) =~= s.skip(1).push(m));
        lemma_apply_seq_push(apply_spec(c, s[0]), s.skip(1), m);
        assert(apply_seq(c, s.push(m)) == apply_seq(apply_spec(c, s[0]), s.skip(1).push(m)));
    }
}

/// Applying a concatenation is applying both halves in turn.
pub proof fn lemma_apply_seq_concat(c: Cube, a: Seq<Move>, b: Seq<Move>)
    ensures
        apply_seq(c, a + b) == apply_seq(apply_seq(c, a), b),
    decreases b.len(),
{
    if b.len() == 0 {
        assert(a + b =~= a);
    } else {
        assert((a + b) =~= (a.push(b[0]) + b.skip(1)));
        lemma_apply_seq_concat(c, a.push(b[0]), b.skip(1));
        lemma_apply_seq_push(c, a, b[0]);
    }
}

/// The surface index of the edge sticker on face `s` against face `against`,
/// or a negative value when the pair names no edge.
pub open spec fn edge_index(s: Face, against: Face) -> int {
    match (s, against) {
        (Face::Front, Face::Up) => 1,
        (Face::Front, Face::Down) => 5,
        (Face::Front, Face::Left) => 7,
        (Face::Front, Face::Right) => 3,
        (Face::Back, Face::Up) => 1,
        (Face::Back, Face::Down) => 5,
        (Face::Back, Face::Left) => 3,
        (Face::Back, Face::Right) => 7,
        (Face::Left, Face::Up) => 1,
        (Face::Left, Face::Down) => 5,
        (Face::Left, Face::Front) => 3,
        (Face::Left, Face::Back) => 7,
        (Face::Right, Face::Up) => 1,
        (Face::Right, Face::Down) => 5,
        (Face::Right, Face::Front) => 7,
        (Face::Right, Face::Back) => 3,
        (Face::Up, Face::Left) => 7,
        (Face::Up, Face::Right) => 3,
        (Face::Up, Face::Front) => 5,
        (Face::Up, Face::Back) => 1,
        (Face::Down, Face::Left) => 7,
        (Face::Down, Face::Right) => 3,
        (Face::Down, Face::Front) => 1,
        (Face::Down, Face::Back) => 5,
        _ => -1,
    }
}

/// The surface index of the corner sticker on face `s` of the corner shared
/// with `e` and `p`, or a negative value when the triple names no corner.
pub open spec fn corner_index(s: Face, e: Face, p: Face) -> int {
    match (s, e, p) {
        (Face::Front, Face::Left, Face::Up) => 0,
        (Face::Front, Face::Left, Face::Down) => 6,
        (Face::Front, Face::Right, Face::Up) => 2,
        (Face::Front, Face::Right, Face::Down) => 4,
        (Face::Back, Face::Left, Face::Up) => 2,
        (Face::Back, Face::Left, Face::Down) => 4,
        (Face::Back, Face::Right, Face::Up) => 0,
        (Face::Back, Face::Right, Face::Down) => 6,
        (Face::Left, Face::Front, Face::Up) => 2,
        (Face::Left, Face::Front, Face::Down) => 4,
        (Face::Left, Face::Back, Face::Up) => 0,
        (Face::Left, Face::Back, Face::Down) => 6,
        (Face::Right, Face::Front, Face::Up) => 0,
        (Face::Right, Face::Front, Face::Down) => 6,
        (Face::Right, Face::Back, Face::Up) => 2,
        (Face::Right, Face::Back, Face::Down) => 4,
        (Face::Up, Face::Front, Face::Left) => 6,
        (Face::Up, Face::Front, Face::Right) => 4,
        (Face::Up, Face::Back, Face::Left) => 0,
        (Face::Up, Face::Back, Face::Right) => 2,
        (Face::Down, Face::Front, Face::Left) => 0,
        (Face::Down, Face::Front, Face::Right) => 2,
        (Face::Down, Face::Back, Face::Left) => 6,
        (Face::Down, Face::Back, Face::Right) => 4,
        _ => -1,
    }
}

impl Cube {
    /// The solved cube.
    pub fn solved() -> (r: Cube)
        ensures
            r == solved_spec(),
    {
        Cube {
            up: Surface::uniform(Face::Up),
            down: Surface::uniform(Face::Down),
            front: Surface::uniform(Face::Front),
            back: Surface::uniform(Face::Back),
            left: Surface::uniform(Face::Left),
            right: Surface::uniform(Face::Right),
        }
    }

    /// One clockwise quarter turn of `face`, in place.
    fn rotate_face_once(&mut self, face: Face)
        ensures
            *final(self) == rot_face(*old(self), face),
    {
        let c = *self;
        match face {
            Face::Up => {
                *self = Cube {
                    up: c.up,
                    down: c.down,
                    front: Surface { s0: c.right.s0, s1: c.right.s1, s2: c.right.s2, ..c.front },
                    back: Surface { s0: c.left.s0, s1: c.left.s1, s2: c.left.s2, ..c.back },
                    left: Surface { s0: c.front.s0, s1: c.front.s1, s2: c.front.s2, ..c.left },
                    right: Surface { s0: c.back.s0, s1: c.back.s1, s2: c.back.s2, ..c.right },
                };
                self.up.rotate();
            }
            Face::Down => {
                *self = Cube {
                    up: c.up,
                    down: c.down,
                    front: Surface { s4: c.left.s4, s5: c.left.s5, s6: c.left.s6, ..c.front },
                    back: Surface { s4: c.right.s4, s5: c.right.s5, s6: c.right.s6, ..c.back },
                    left: Surface { s4: c.back.s4, s5: c.back.s5, s6: c.back.s6, ..c.left },
                    right: Surface { s4: c.front.s4, s5: c.front.s5, s6: c.front.s6, ..c.right },
                };
                self.down.rotate();
            }
            Face::Front => {
                *self = Cube {
                    up: Surface { s4: c.left.s2, s5: c.left.s3, s6: c.left.s4, ..c.up },
                    down: Surface { s0: c.right.s6, s1: c.right.s7, s2: c.right.s0, ..c.down },
                    front: c.front,
                    back: c.back,
                    left: Surface { s2: c.down.s0, s3: c.down.s1, s4: c.down.s2, ..c.left },
                    right: Surface { s6: c.up.s4, s7: c.up.s5, s0: c.up.s6, ..c.right },
                };
                self.front.rotate();
            }
            Face::Back => {
                *self = Cube {
                    up: Surface { s0: c.right.s2, s1: c.right.s3, s2: c.right.s4, ..c.up },
                    down: Surface { s4: c.left.s6, s5: c.left.s7, s6: c.left.s0, ..c.down },
                    front: c.front,
                    back: c.back,
                    left: Surface { s6: c.up.s0, s7: c.up.s1, s0: c.up.s2, ..c.left },
                    right: Surface { s2: c.down.s4, s3: c.down.s5, s4: c.down.s6, ..c.right },
                };
                self.back.rotate();
            }
            Face::Right => {
                *self = Cube {
                    up: Surface { s2: c.front.s2, s3: c.front.s3, s4: c.front.s4, ..c.up },
                    down: Surface { s2: c.back.s6, s3: c.back.s7, s4: c.back.s0, ..c.down },
                    front: Surface { s2: c.down.s2, s3: c.down.s3, s4: c.down.s4, ..c.front },
                    back: Surface { s6: c.up.s2, s7: c.up.s3, s0: c.up.s4, ..c.back },
                    left: c.left,
                    right: c.right,
                };
                self.right.rotate();
            }
            Face::Left => {
                *self = Cube {
                    up: Surface { s6: c.back.s2, s7: c.back.s3, s0: c.back.s4, ..c.up },
                    down: Surface { s6: c.front.s6, s7: c.front.s7, s0: c.front.s0, ..c.down },
                    front: Surface { s6: c.up.s6, s7: c.up.s7, s0: c.up.s0, ..c.front },
                    back: Surface { s2: c.down.s6, s3: c.down.s7, s4: c.down.s0, ..c.back },
                    left: c.left,
                    right: c.right,
                };
                self.left.rotate();
            }
        }
    }

    /// Turn the named face by the named direction, in place.
    pub fn rotate(&mut self, m: Move)
        ensures
            *final(self) == apply_spec(*old(self), m),
    {
        proof {
            reveal(apply_spec);
        }
        match m.direction {
            Direction::Single => {
                self.rotate_face_once(m.face);
            }
            Direction::Double => {
                self.rotate_face_once(m.face);
                self.rotate_face_once(m.face);
            }
            Direction::Reverse => {
                self.rotate_face_once(m.face);
                self.rotate_face_once(m.face);
                self.rotate_face_once(m.face);
            }
        }
    }

    /// The cube after one move.
    pub fn apply(self, m: Move) -> (r: Cube)
        ensures
            r == apply_spec(self, m),
    {
        let mut c = self;
        c.rotate(m);
        c
    }

    /// The surface of the named face.
    pub open spec fn surface_spec(self, face: Face) -> Surface {
        match face {
            Face::Up => self.up,
            Face::Down => self.down,
            Face::Left => self.left,
            Face::Right => self.right,
            Face::Front => self.front,
            Face::Back => self.back,
        }
    }

    /// The surface of the named face.
    pub fn surface(&self, face: Face) -> (r: &Surface)
        ensures
            *r == self.surface_spec(face),
    {
        match face {
            Face::Up => &self.up,
            Face::Down => &self.down,
            Face::Left => &self.left,
            Face::Right => &self.right,
            Face::Front => &self.front,
            Face::Back => &self.back,
        }
    }

    /// The sticker at position `index` of the surface of `face`.
    pub open spec fn sticker_spec(self, face: Face, index: int) -> Face {
        let s = self.surface_spec(face);
        if index == 0 {
            s.s0
        } else if index == 1 {
            s.s1
        } else if index == 2 {
            s.s2
        } else if index == 3 {
            s.s3
        } else if index == 4 {
            s.s4
        } else if index == 5 {
            s.s5
        } else if index == 6 {
            s.s6
        } else {
            s.s7
        }
    }

    /// The colour shown at a sticker position.  For each face the eight
    /// movable stickers sit at fixed surface indices; a location that names
    /// no sticker (same-axis faces) yields its own first face.
    pub open spec fn get_spec(self, location: Location) -> Face {
        match location {
            Location::Center(f) => f,
            Location::Edge(s, against) => {
                let i = edge_index(s, against);
                if i < 0 {
                    s
                } else {
                    self.sticker_spec(s, i)
                }
            },
            Location::Corner(s, e, p) => {
                let i = corner_index(s, e, p);
                if i < 0 {
                    s
                } else {
                    self.sticker_spec(s, i)
                }
            },
        }
    }

    /// The colour shown at a sticker position.
    pub fn get(&self, location: Location) -> (r: Face)
        ensures
            r == self.get_spec(location),
    {
        match location {
            Location::Center(f) => f,
            Location::Edge(s, against) => {
                let index = match (s, against) {
                    (Face::Front, Face::Up)
                    | (Face::Back, Face::Up)
                    | (Face::Left, Face::Up)
                    | (Face::Right, Face::Up)
                    | (Face::Up, Face::Back)
                    | (Face::Down, Face::Front) => 1,
                    (Face::Front, Face::Down)
                    | (Face::Back, Face::Down)
                    | (Face::Left, Face::Down)
                    | (Face::Right, Face::Down)
                    | (Face::Up, Face::Front)
                    | (Face::Down, Face::Back) => 5,
                    (Face::Front, Face::Left)
                    | (Face::Back, Face::Right)
                    | (Face::Left, Face::Back)
                    | (Face::Right, Face::Front)
                    | (Face::Up, Face::Left)
                    | (Face::Down, Face::Left) => 7,
                    (Face::Front, Face::Right)
                    | (Face::Back, Face::Left)
                    | (Face::Left, Face::Front)
                    | (Face::Right, Face::Back)
                    | (Face::Up, Face::Right)
                    | (Face::Down, Face::Right) => 3,
                    _ => {
                        return s;
                    },
                };
                self.sticker(s, index)
            },
            Location::Corner(s, e, p) => {
                let index = match (s, e, p) {
                    (Face::Front, Face::Left, Face::Up) => 0,
                    (Face::Front, Face::Left, Face::Down) => 6,
                    (Face::Front, Face::Right, Face::Up) => 2,
                    (Face::Front, Face::Right, Face::Down) => 4,
                    (Face::Back, Face::Left, Face::Up) => 2,
                    (Face::Back, Face::Left, Face::Down) => 4,
                    (Face::Back, Face::Right, Face::Up) => 0,
                    (Face::Back, Face::Right, Face::Down) => 6,
                    (Face::Left, Face::Front, Face::Up) => 2,
                    (Face::Left, Face::Front, Face::Down) => 4,
                    (Face::Left, Face::Back, Face::Up) => 0,
                    (Face::Left, Face::Back, Face::Down) => 6,
                    (Face::Right, Face::Front, Face::Up) => 0,
                    (Face::Right, Face::Front, Face::Down) => 6,
                    (Face::Right, Face::Back, Face::Up) => 2,
                    (Face::Right, Face::Back, Face::Down) => 4,
                    (Face::Up, Face::Front, Face::Left) => 6,
                    (Face::Up, Face::Front, Face::Right) => 4,
                    (Face::Up, Face::Back, Face::Left) => 0,
                    (Face::Up, Face::Back, Face::Right) => 2,
                    (Face::Down, Face::Front, Face::Left) => 0,
                    (Face::Down, Face::Front, Face::Right) => 2,
                    (Face::Down, Face::Back, Face::Left) => 6,
                    (Face::Down, Face::Back, Face::Right) => 4,
                    _ => {
                        return s;
                    },
                };
                self.sticker(s, index)
            },
        }
    }

    /// The sticker at position `index` of the surface of `face`.
    fn sticker(&self, face: Face, index: u8) -> (r: Face)
        requires
            index < 8,
        ensures
            r == self.sticker_spec(face, index as int),
    {
        let s = self.surface(face);
        match index {
            0 => s.s0,
            1 => s.s1,
            2 => s.s2,
            3 => s.s3,
            4 => s.s4,
            5 => s.s5,
            6 => s.s6,
            _ => s.s7,
        }
    }

    /// The cube after a whole sequence of moves, first move first.
    pub fn apply_all(self, moves: &[Move]) -> (r: Cube)
        ensures
            r == apply_seq(self, moves@),
    {
        let n = moves.len();
        let mut c = self;
        let mut i: usize = 0;
        while i < n
            invariant
                i <= n,
                n == moves@.len(),
                c == apply_seq(self, moves@.take(i as int)),
            decreases n - i,
        {
            proof {
                lemma_apply_seq_push(self, moves@.take(i as int), moves@[i as int]);
                assert(moves@.take(i as int).push(moves@[i as int]) =~= moves@.take(
                    i as int + 1,
                ));
            }
            c = c.apply(moves[i]);
            i = i + 1;
        }
        proof {
            assert(moves@.take(n as int) =~= moves@);
        }
        c
    }
}

} // verus!
