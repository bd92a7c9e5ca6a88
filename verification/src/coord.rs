//! Kociemba coordinates: small integer projections of a cube.
//!
//! Every coordinate is a deterministic fold over the canonical cubie order of
//! [`crate::location`], and every coordinate is zero on the solved cube.

use vstd::prelude::*;

use crate::face::{Axis, Face};
use crate::location::Location;
use crate::surface::Cube;

verus! {

/// 0 for the U/D axis, 1 for F/B, 2 for L/R: the base-3 digit a corner
/// contributes when its U/D-coloured sticker sits on a face of that axis.
pub open spec fn axis_code(f: Face) -> int {
    match f.axis_spec() {
        Axis::UD => 0,
        Axis::FB => 1,
        Axis::LR => 2,
    }
}

/// Whether a colour belongs to the U/D axis.
pub open spec fn is_ud(f: Face) -> bool {
    f.axis_spec() == Axis::UD
}

/// The orientation digit of the corner whose sticker positions are
/// `(a,b,p)`, `(b,a,p)`, `(p,a,b)`: the axis code of the position face that
/// shows the U/D colour, or 0 when no sticker does.
pub open spec fn corner_digit_spec(c: Cube, a: Face, b: Face, p: Face) -> int {
    if is_ud(c.get_spec(Location::Corner(a, b, p))) {
        axis_code(a)
    } else if is_ud(c.get_spec(Location::Corner(b, a, p))) {
        axis_code(b)
    } else if is_ud(c.get_spec(Location::Corner(p, a, b))) {
        axis_code(p)
    } else {
        0
    }
}

/// The corner-orientation coordinate: the orientation digits of the seven
/// corners other than the Back-Right-Down corner, in canonical order, packed
/// base 3.  Ranges over [0, 3^7).
#[verifier::opaque]
pub open spec fn corner_orientation_spec(c: Cube) -> int {
    let d0 = corner_digit_spec(c, Face::Front, Face::Left, Face::Up);
    let d1 = corner_digit_spec(c, Face::Front, Face::Left, Face::Down);
    let d2 = corner_digit_spec(c, Face::Front, Face::Right, Face::Up);
    let d3 = corner_digit_spec(c, Face::Front, Face::Right, Face::Down);
    let d4 = corner_digit_spec(c, Face::Back, Face::Left, Face::Up);
    let d5 = corner_digit_spec(c, Face::Back, Face::Left, Face::Down);
    let d6 = corner_digit_spec(c, Face::Back, Face::Right, Face::Up);
    (((((d0 * 3 + d1) * 3 + d2) * 3 + d3) * 3 + d4) * 3 + d5) * 3 + d6
}

/// Whether the visit of edge stickers `(ma, mi)` is the counted one for its
/// cubie: the sticker on `ma` shows the U/D colour (and the other sticker
/// does not), or it shows the F/B colour against an L/R colour.
pub open spec fn edge_counted_spec(c: Cube, ma: Face, mi: Face) -> bool {
    let this = c.get_spec(Location::Edge(ma, mi));
    let other = c.get_spec(Location::Edge(mi, ma));
    (this.axis_spec() == Axis::UD && other.axis_spec() != Axis::UD) || (this.axis_spec()
        == Axis::FB && other.axis_spec() == Axis::LR)
}

/// The orientation bit contributed by a counted visit at position
/// `(ma, mi)`: 0 (oriented) when `ma` is a U/D face, or an F/B face against
/// an L/R face; 1 (unoriented) otherwise.
pub open spec fn edge_bad_spec(ma: Face, mi: Face) -> int {
    if ma.axis_spec() == Axis::UD || (ma.axis_spec() == Axis::FB && mi.axis_spec() == Axis::LR) {
        0
    } else {
        1
    }
}

/// The orientation bit of the edge cubie at canonical position `(a, b)`:
/// the bit of whichever of its two sticker visits is counted, or 0 when
/// neither is.
pub open spec fn edge_bit_spec(c: Cube, a: Face, b: Face) -> int {
    if edge_counted_spec(c, a, b) {
        edge_bad_spec(a, b)
    } else if edge_counted_spec(c, b, a) {
        edge_bad_spec(b, a)
    } else {
        0
    }
}

/// The edge-orientation coordinate: the orientation bits of the eleven edges
/// other than the Back-Right edge, in canonical order, packed base 2.
/// Ranges over [0, 2^11).
#[verifier::opaque]
pub open spec fn edge_orientation_spec(c: Cube) -> int {
    let b0 = edge_bit_spec(c, Face::Front, Face::Left);
    let b1 = edge_bit_spec(c, Face::Front, Face::Right);
    let b2 = edge_bit_spec(c, Face::Front, Face::Up);
    let b3 = edge_bit_spec(c, Face::Front, Face::Down);
    let b4 = edge_bit_spec(c, Face::Back, Face::Left);
    let b5 = edge_bit_spec(c, Face::Back, Face::Up);
    let b6 = edge_bit_spec(c, Face::Back, Face::Down);
    let b7 = edge_bit_spec(c, Face::Left, Face::Up);
    let b8 = edge_bit_spec(c, Face::Left, Face::Down);
    let b9 = edge_bit_spec(c, Face::Right, Face::Up);
    let b10 = edge_bit_spec(c, Face::Right, Face::Down);
    (((((((((b0 * 2 + b1) * 2 + b2) * 2 + b3) * 2 + b4) * 2 + b5) * 2 + b6) * 2 + b7) * 2 + b8) * 2
        + b9) * 2 + b10
}

/// Of three colours, the one on the given axis; the first colour when none
/// is (which only happens on triples that no real cube shows).
pub open spec fn pick_axis_spec(x: Face, y: Face, z: Face, ax: Axis) -> Face {
    if x.axis_spec() == ax {
        x
    } else if y.axis_spec() == ax {
        y
    } else if z.axis_spec() == ax {
        z
    } else {
        x
    }
}

/// The identifier in 0..8 of the corner cubie sitting at canonical position
/// `(a,b,p)`, fixed by its colour set: Back adds 4, Right adds 2, Down adds 1.
pub open spec fn corner_pid_spec(c: Cube, a: Face, b: Face, p: Face) -> int {
    let x = c.get_spec(Location::Corner(a, b, p));
    let y = c.get_spec(Location::Corner(b, a, p));
    let z = c.get_spec(Location::Corner(p, a, b));
    let fb = pick_axis_spec(x, y, z, Axis::FB);
    let lr = pick_axis_spec(x, y, z, Axis::LR);
    let ud = pick_axis_spec(x, y, z, Axis::UD);
    (if fb == Face::Back {
        4int
    } else {
        0int
    }) + (if lr == Face::Right {
        2int
    } else {
        0int
    }) + (if ud == Face::Down {
        1int
    } else {
        0int
    })
}

/// 1 when `a > b`, else 0: one inversion of a permutation.
pub open spec fn gt1(a: int, b: int) -> int {
    if a > b {
        1
    } else {
        0
    }
}

/// n!, the factorial.
pub open spec fn fact(n: int) -> int
    decreases n,
{
    if n <= 1 {
        1
    } else {
        n * fact(n - 1)
    }
}

/// The corner-position coordinate: the Lehmer code, in the factorial number
/// system, of the permutation of the eight corner identifiers read off in
/// canonical position order.  Ranges over [0, 8!).
#[verifier::opaque]
pub open spec fn corner_position_spec(c: Cube) -> int {
    let p0 = corner_pid_spec(c, Face::Front, Face::Left, Face::Up);
    let p1 = corner_pid_spec(c, Face::Front, Face::Left, Face::Down);
    let p2 = corner_pid_spec(c, Face::Front, Face::Right, Face::Up);
    let p3 = corner_pid_spec(c, Face::Front, Face::Right, Face::Down);
    let p4 = corner_pid_spec(c, Face::Back, Face::Left, Face::Up);
    let p5 = corner_pid_spec(c, Face::Back, Face::Left, Face::Down);
    let p6 = corner_pid_spec(c, Face::Back, Face::Right, Face::Up);
    let p7 = corner_pid_spec(c, Face::Back, Face::Right, Face::Down);
    let c1 = gt1(p0, p1);
    let c2 = gt1(p0, p2) + gt1(p1, p2);
    let c3 = gt1(p0, p3) + gt1(p1, p3) + gt1(p2, p3);
    let c4 = gt1(p0, p4) + gt1(p1, p4) + gt1(p2, p4) + gt1(p3, p4);
    let c5 = gt1(p0, p5) + gt1(p1, p5) + gt1(p2, p5) + gt1(p3, p5) + gt1(p4, p5);
    let c6 = gt1(p0, p6) + gt1(p1, p6) + gt1(p2, p6) + gt1(p3, p6) + gt1(p4, p6) + gt1(p5, p6);
    let c7 = gt1(p0, p7) + gt1(p1, p7) + gt1(p2, p7) + gt1(p3, p7) + gt1(p4, p7) + gt1(p5, p7)
        + gt1(p6, p7);
    c1 * 1 + c2 * 2 + c3 * 6 + c4 * 24 + c5 * 120 + c6 * 720 + c7 * 5040
}

/// The identifier in 0..12 of the edge cubie sitting at canonical position
/// `(a, b)`, fixed by its colour pair.
pub open spec fn edge_pid_spec(c: Cube, a: Face, b: Face) -> int {
    let x = c.get_spec(Location::Edge(a, b));
    let y = c.get_spec(Location::Edge(b, a));
    if x.axis_spec() == Axis::FB && y.axis_spec() == Axis::LR {
        (if x == Face::Back {
            4int
        } else {
            0int
        }) + (if y == Face::Right {
            1int
        } else {
            0int
        })
    } else if x.axis_spec() == Axis::LR && y.axis_spec() == Axis::FB {
        (if y == Face::Back {
            4int
        } else {
            0int
        }) + (if x == Face::Right {
            1int
        } else {
            0int
        })
    } else if x.axis_spec() == Axis::FB && y.axis_spec() == Axis::UD {
        2 + (if x == Face::Back {
            4int
        } else {
            0int
        }) + (if y == Face::Down {
            1int
        } else {
            0int
        })
    } else if x.axis_spec() == Axis::UD && y.axis_spec() == Axis::FB {
        2 + (if y == Face::Back {
            4int
        } else {
            0int
        }) + (if x == Face::Down {
            1int
        } else {
            0int
        })
    } else if x.axis_spec() == Axis::LR && y.axis_spec() == Axis::UD {
        8 + (if x == Face::Right {
            2int
        } else {
            0int
        }) + (if y == Face::Down {
            1int
        } else {
            0int
        })
    } else if x.axis_spec() == Axis::UD && y.axis_spec() == Axis::LR {
        8 + (if y == Face::Right {
            2int
        } else {
            0int
        }) + (if x == Face::Down {
            1int
        } else {
            0int
        })
    } else {
        0
    }
}

/// The edge-position coordinate: the Lehmer code of the permutation of the
/// twelve edge identifiers read off in canonical position order.  Ranges
/// over [0, 12!).
#[verifier::opaque]
pub open spec fn edge_position_spec(c: Cube) -> int {
    let e0 = edge_pid_spec(c, Face::Front, Face::Left);
    let e1 = edge_pid_spec(c, Face::Front, Face::Right);
    let e2 = edge_pid_spec(c, Face::Front, Face::Up);
    let e3 = edge_pid_spec(c, Face::Front, Face::Down);
    let e4 = edge_pid_spec(c, Face::Back, Face::Left);
    let e5 = edge_pid_spec(c, Face::Back, Face::Right);
    let e6 = edge_pid_spec(c, Face::Back, Face::Up);
    let e7 = edge_pid_spec(c, Face::Back, Face::Down);
    let e8 = edge_pid_spec(c, Face::Left, Face::Up);
    let e9 = edge_pid_spec(c, Face::Left, Face::Down);
    let e10 = edge_pid_spec(c, Face::Right, Face::Up);
    let e11 = edge_pid_spec(c, Face::Right, Face::Down);
    let c1 = gt1(e0, e1);
    let c2 = gt1(e0, e2) + gt1(e1, e2);
    let c3 = gt1(e0, e3) + gt1(e1, e3) + gt1(e2, e3);
    let c4 = gt1(e0, e4) + gt1(e1, e4) + gt1(e2, e4) + gt1(e3, e4);
    let c5 = gt1(e0, e5) + gt1(e1, e5) + gt1(e2, e5) + gt1(e3, e5) + gt1(e4, e5);
    let c6 = gt1(e0, e6) + gt1(e1, e6) + gt1(e2, e6) + gt1(e3, e6) + gt1(e4, e6) + gt1(e5, e6);
    let c7 = gt1(e0, e7) + gt1(e1, e7) + gt1(e2, e7) + gt1(e3, e7) + gt1(e4, e7) + gt1(e5, e7)
        + gt1(e6, e7);
    let c8 = gt1(e0, e8) + gt1(e1, e8) + gt1(e2, e8) + gt1(e3, e8) + gt1(e4, e8) + gt1(e5, e8)
        + gt1(e6, e8) + gt1(e7, e8);
    let c9 = gt1(e0, e9) + gt1(e1, e9) + gt1(e2, e9) + gt1(e3, e9) + gt1(e4, e9) + gt1(e5, e9)
        + gt1(e6, e9) + gt1(e7, e9) + gt1(e8, e9);
    let c10 = gt1(e0, e10) + gt1(e1, e10) + gt1(e2, e10) + gt1(e3, e10) + gt1(e4, e10) + gt1(
        e5,
        e10,
    ) + gt1(e6, e10) + gt1(e7, e10) + gt1(e8, e10) + gt1(e9, e10);
    let c11 = gt1(e0, e11) + gt1(e1, e11) + gt1(e2, e11) + gt1(e3, e11) + gt1(e4, e11) + gt1(
        e5,
        e11,
    ) + gt1(e6, e11) + gt1(e7, e11) + gt1(e8, e11) + gt1(e9, e11) + gt1(e10, e11);
    c1 * 1 + c2 * 2 + c3 * 6 + c4 * 24 + c5 * 120 + c6 * 720 + c7 * 5040 + c8 * 40320 + c9 * 362880
        + c10 * 3628800 + c11 * 39916800
}

/// The orientation digit of one corner, as [`corner_digit_spec`].
fn corner_digit(cube: &Cube, a: Face, b: Face, p: Face) -> (r: u16)
    ensures
        r as int == corner_digit_spec(*cube, a, b, p),
        r < 3,
{
    if cube.get(Location::Corner(a, b, p)).axis() == Axis::UD {
        axis_code_ex(a)
    } else if cube.get(Location::Corner(b, a, p)).axis() == Axis::UD {
        axis_code_ex(b)
    } else if cube.get(Location::Corner(p, a, b)).axis() == Axis::UD {
        axis_code_ex(p)
    } else {
        0
    }
}

/// The axis code of a face, as [`axis_code`].
fn axis_code_ex(f: Face) -> (r: u16)
    ensures
        r as int == axis_code(f),
        r < 3,
{
    match f.axis() {
        Axis::UD => 0,
        Axis::FB => 1,
        Axis::LR => 2,
    }
}

/// The corner-orientation coordinate of a cube; see
/// [`corner_orientation_spec`].
pub fn corner_orientation(cube: &Cube) -> (r: u16)
    ensures
        r as int == corner_orientation_spec(*cube),
        r < 2187,
{
    proof {
        reveal(corner_orientation_spec);
    }
    let d0 = corner_digit(cube, Face::Front, Face::Left, Face::Up);
    let d1 = corner_digit(cube, Face::Front, Face::Left, Face::Down);
    let d2 = corner_digit(cube, Face::Front, Face::Right, Face::Up);
    let d3 = corner_digit(cube, Face::Front, Face::Right, Face::Down);
    let d4 = corner_digit(cube, Face::Back, Face::Left, Face::Up);
    let d5 = corner_digit(cube, Face::Back, Face::Left, Face::Down);
    let d6 = corner_digit(cube, Face::Back, Face::Right, Face::Up);
    (((((d0 * 3 + d1) * 3 + d2) * 3 + d3) * 3 + d4) * 3 + d5) * 3 + d6
}

/// The orientation bit of one edge cubie, as [`edge_bit_spec`].
fn edge_bit(cube: &Cube, a: Face, b: Face) -> (r: u16)
    ensures
        r as int == edge_bit_spec(*cube, a, b),
        r < 2,
{
    if edge_counted(cube, a, b) {
        edge_bad(a, b)
    } else if edge_counted(cube, b, a) {
        edge_bad(b, a)
    } else {
        0
    }
}

/// Whether the `(ma, mi)` visit is the counted one, as
/// [`edge_counted_spec`].
fn edge_counted(cube: &Cube, ma: Face, mi: Face) -> (r: bool)
    ensures
        r == edge_counted_spec(*cube, ma, mi),
{
    let this = cube.get(Location::Edge(ma, mi)).axis();
    let other = cube.get(Location::Edge(mi, ma)).axis();
    (this == Axis::UD && other != Axis::UD) || (this == Axis::FB && other == Axis::LR)
}

/// The bit of a counted visit, as [`edge_bad_spec`].
fn edge_bad(ma: Face, mi: Face) -> (r: u16)
    ensures
        r as int == edge_bad_spec(ma, mi),
        r < 2,
{
    if ma.axis() == Axis::UD || (ma.axis() == Axis::FB && mi.axis() == Axis::LR) {
        0
    } else {
        1
    }
}

/// The edge-orientation coordinate of a cube; see [`edge_orientation_spec`].
pub fn edge_orientation(cube: &Cube) -> (r: u16)
    ensures
        r as int == edge_orientation_spec(*cube),
        r < 2048,
{
    proof {
        reveal(edge_orientation_spec);
    }
    let b0 = edge_bit(cube, Face::Front, Face::Left);
    let b1 = edge_bit(cube, Face::Front, Face::Right);
    let b2 = edge_bit(cube, Face::Front, Face::Up);
    let b3 = edge_bit(cube, Face::Front, Face::Down);
    let b4 = edge_bit(cube, Face::Back, Face::Left);
    let b5 = edge_bit(cube, Face::Back, Face::Up);
    let b6 = edge_bit(cube, Face::Back, Face::Down);
    let b7 = edge_bit(cube, Face::Left, Face::Up);
    let b8 = edge_bit(cube, Face::Left, Face::Down);
    let b9 = edge_bit(cube, Face::Right, Face::Up);
    let b10 = edge_bit(cube, Face::Right, Face::Down);
    (((((((((b0 * 2 + b1) * 2 + b2) * 2 + b3) * 2 + b4) * 2 + b5) * 2 + b6) * 2 + b7) * 2 + b8) * 2
        + b9) * 2 + b10
}

/// Of three colours, the one on the given axis, as [`pick_axis_spec`].
fn pick_axis(x: Face, y: Face, z: Face, ax: Axis) -> (r: Face)
    ensures
        r == pick_axis_spec(x, y, z, ax),
{
    if x.axis() == ax {
        x
    } else if y.axis() == ax {
        y
    } else if z.axis() == ax {
        z
    } else {
        x
    }
}

/// The identifier of the corner cubie at position `(a,b,p)`, as
/// [`corner_pid_spec`].
fn corner_pid(cube: &Cube, a: Face, b: Face, p: Face) -> (r: u16)
    ensures
        r as int == corner_pid_spec(*cube, a, b, p),
        r < 8,
{
    let x = cube.get(Location::Corner(a, b, p));
    let y = cube.get(Location::Corner(b, a, p));
    let z = cube.get(Location::Corner(p, a, b));
    let fb = pick_axis(x, y, z, Axis::FB);
    let lr = pick_axis(x, y, z, Axis::LR);
    let ud = pick_axis(x, y, z, Axis::UD);
    let mut id: u16 = 0;
    if fb == Face::Back {
        id = id + 4;
    }
    if lr == Face::Right {
        id = id + 2;
    }
    if ud == Face::Down {
        id = id + 1;
    }
    id
}

/// 1 when `a > b`, else 0, as [`gt1`].
fn gt_u16(a: u16, b: u16) -> (r: u16)
    ensures
        r as int == gt1(a as int, b as int),
        r <= 1,
{
    if a > b {
        1
    } else {
        0
    }
}

/// The corner-position coordinate of a cube; see [`corner_position_spec`].
pub fn corner_position(cube: &Cube) -> (r: u16)
    ensures
        r as int == corner_position_spec(*cube),
        r < 40320,
{
    proof {
        reveal(corner_position_spec);
    }
    let p0 = corner_pid(cube, Face::Front, Face::Left, Face::Up);
    let p1 = corner_pid(cube, Face::Front, Face::Left, Face::Down);
    let p2 = corner_pid(cube, Face::Front, Face::Right, Face::Up);
    let p3 = corner_pid(cube, Face::Front, Face::Right, Face::Down);
    let p4 = corner_pid(cube, Face::Back, Face::Left, Face::Up);
    let p5 = corner_pid(cube, Face::Back, Face::Left, Face::Down);
    let p6 = corner_pid(cube, Face::Back, Face::Right, Face::Up);
    let p7 = corner_pid(cube, Face::Back, Face::Right, Face::Down);
    let c1 = gt_u16(p0, p1);
    let c2 = gt_u16(p0, p2) + gt_u16(p1, p2);
    let c3 = gt_u16(p0, p3) + gt_u16(p1, p3) + gt_u16(p2, p3);
    let c4 = gt_u16(p0, p4) + gt_u16(p1, p4) + gt_u16(p2, p4) + gt_u16(p3, p4);
    let c5 = gt_u16(p0, p5) + gt_u16(p1, p5) + gt_u16(p2, p5) + gt_u16(p3, p5) + gt_u16(p4, p5);
    let c6 = gt_u16(p0, p6) + gt_u16(p1, p6) + gt_u16(p2, p6) + gt_u16(p3, p6) + gt_u16(p4, p6)
        + gt_u16(p5, p6);
    let c7 = gt_u16(p0, p7) + gt_u16(p1, p7) + gt_u16(p2, p7) + gt_u16(p3, p7) + gt_u16(p4, p7)
        + gt_u16(p5, p7) + gt_u16(p6, p7);
    c1 * 1 + c2 * 2 + c3 * 6 + c4 * 24 + c5 * 120 + c6 * 720 + c7 * 5040
}

/// The identifier of the edge cubie at position `(a, b)`, as
/// [`edge_pid_spec`].
fn edge_pid(cube: &Cube, a: Face, b: Face) -> (r: u32)
    ensures
        r as int == edge_pid_spec(*cube, a, b),
        r < 12,
{
    let x = cube.get(Location::Edge(a, b));
    let y = cube.get(Location::Edge(b, a));
    let xa = x.axis();
    let ya = y.axis();
    if xa == Axis::FB && ya == Axis::LR {
        (if x == Face::Back {
            4
        } else {
            0
        }) + (if y == Face::Right {
            1
        } else {
            0
        })
    } else if xa == Axis::LR && ya == Axis::FB {
        (if y == Face::Back {
            4
        } else {
            0
        }) + (if x == Face::Right {
            1
        } else {
            0
        })
    } else if xa == Axis::FB && ya == Axis::UD {
        2 + (if x == Face::Back {
            4
        } else {
            0
        }) + (if y == Face::Down {
            1
        } else {
            0
        })
    } else if xa == Axis::UD && ya == Axis::FB {
        2 + (if y == Face::Back {
            4
        } else {
            0
        }) + (if x == Face::Down {
            1
        } else {
            0
        })
    } else if xa == Axis::LR && ya == Axis::UD {
        8 + (if x == Face::Right {
            2
        } else {
            0
        }) + (if y == Face::Down {
            1
        } else {
            0
        })
    } else if xa == Axis::UD && ya == Axis::LR {
        8 + (if y == Face::Right {
            2
        } else {
            0
        }) + (if x == Face::Down {
            1
        } else {
            0
        })
    } else {
        0
    }
}

/// 1 when `a > b`, else 0, as [`gt1`].
fn gt_u32(a: u32, b: u32) -> (r: u32)
    ensures
        r as int == gt1(a as int, b as int),
        r <= 1,
{
    if a > b {
        1
    } else {
        0
    }
}

/// The edge-position coordinate of a cube; see [`edge_position_spec`].
#[verifier::rlimit(100)]
pub fn edge_position(cube: &Cube) -> (r: u32)
    ensures
        r as int == edge_position_spec(*cube),
        r < 479001600,
{
    proof {
        reveal(edge_position_spec);
    }
    let e0 = edge_pid(cube, Face::Front, Face::Left);
    let e1 = edge_pid(cube, Face::Front, Face::Right);
    let e2 = edge_pid(cube, Face::Front, Face::Up);
    let e3 = edge_pid(cube, Face::Front, Face::Down);
    let e4 = edge_pid(cube, Face::Back, Face::Left);
    let e5 = edge_pid(cube, Face::Back, Face::Right);
    let e6 = edge_pid(cube, Face::Back, Face::Up);
    let e7 = edge_pid(cube, Face::Back, Face::Down);
    let e8 = edge_pid(cube, Face::Left, Face::Up);
    let e9 = edge_pid(cube, Face::Left, Face::Down);
    let e10 = edge_pid(cube, Face::Right, Face::Up);
    let e11 = edge_pid(cube, Face::Right, Face::Down);
    let c1 = gt_u32(e0, e1);
    let c2 = gt_u32(e0, e2) + gt_u32(e1, e2);
    let c3 = gt_u32(e0, e3) + gt_u32(e1, e3) + gt_u32(e2, e3);
    let c4 = gt_u32(e0, e4) + gt_u32(e1, e4) + gt_u32(e2, e4) + gt_u32(e3, e4);
    let c5 = gt_u32(e0, e5) + gt_u32(e1, e5) + gt_u32(e2, e5) + gt_u32(e3, e5) + gt_u32(e4, e5);
    let c6 = gt_u32(e0, e6) + gt_u32(e1, e6) + gt_u32(e2, e6) + gt_u32(e3, e6) + gt_u32(e4, e6)
        + gt_u32(e5, e6);
    let c7 = gt_u32(e0, e7) + gt_u32(e1, e7) + gt_u32(e2, e7) + gt_u32(e3, e7) + gt_u32(e4, e7)
        + gt_u32(e5, e7) + gt_u32(e6, e7);
    let c8 = gt_u32(e0, e8) + gt_u32(e1, e8) + gt_u32(e2, e8) + gt_u32(e3, e8) + gt_u32(e4, e8)
        + gt_u32(e5, e8) + gt_u32(e6, e8) + gt_u32(e7, e8);
    let c9 = gt_u32(e0, e9) + gt_u32(e1, e9) + gt_u32(e2, e9) + gt_u32(e3, e9) + gt_u32(e4, e9)
        + gt_u32(e5, e9) + gt_u32(e6, e9) + gt_u32(e7, e9) + gt_u32(e8, e9);
    let c10 = gt_u32(e0, e10) + gt_u32(e1, e10) + gt_u32(e2, e10) + gt_u32(e3, e10) + gt_u32(
        e4,
        e10,
    ) + gt_u32(e5, e10) + gt_u32(e6, e10) + gt_u32(e7, e10) + gt_u32(e8, e10) + gt_u32(e9, e10);
    let c11 = gt_u32(e0, e11) + gt_u32(e1, e11) + gt_u32(e2, e11) + gt_u32(e3, e11) + gt_u32(
        e4,
        e11,
    ) + gt_u32(e5, e11) + gt_u32(e6, e11) + gt_u32(e7, e11) + gt_u32(e8, e11) + gt_u32(e9, e11)
        + gt_u32(e10, e11);
    c1 * 1 + c2 * 2 + c3 * 6 + c4 * 24 + c5 * 120 + c6 * 720 + c7 * 5040 + c8 * 40320 + c9 * 362880
        + c10 * 3628800 + c11 * 39916800
}

/// Corner orientation ranges over [0, 3^7), on every cube.
pub proof fn lemma_corner_orientation_range(c: Cube)
    ensures
        0 <= corner_orientation_spec(c) < 2187,
{
    reveal(corner_orientation_spec);
}

/// Edge orientation ranges over [0, 2^11), on every cube.
pub proof fn lemma_edge_orientation_range(c: Cube)
    ensures
        0 <= edge_orientation_spec(c) < 2048,
{
    reveal(edge_orientation_spec);
}

/// Corner position ranges over [0, 8!), on every cube.
pub proof fn lemma_corner_position_range(c: Cube)
    ensures
        0 <= corner_position_spec(c) < 40320,
{
    reveal(corner_position_spec);
}

/// Edge position ranges over [0, 12!), on every cube.
#[verifier::rlimit(100)]
pub proof fn lemma_edge_position_range(c: Cube)
    ensures
        0 <= edge_position_spec(c) < 479001600,
{
    reveal(edge_position_spec);
}

/// n!, computed recursively; see [`fact`].
pub fn factorial(n: u64) -> (r: u64)
    requires
        n <= 20,
    ensures
        r as int == fact(n as int),
    decreases n,
{
    proof {
        lemma_fact_bounds(n as int);
    }
    if n <= 1 {
        1
    } else {
        let prev = factorial(n - 1);
        proof {
            lemma_fact_bounds(n as int - 1);
            lemma_fact_mono(n as int - 1, n as int);
        }
        n * prev
    }
}

/// Factorials are at least 1.
pub proof fn lemma_fact_pos(n: int)
    ensures
        fact(n) >= 1,
    decreases n,
{
    if n > 1 {
        lemma_fact_pos(n - 1);
        assert(fact(n) == n * fact(n - 1));
        assert(n * fact(n - 1) >= 1) by (nonlinear_arith)
            requires
                n >= 2,
                fact(n - 1) >= 1,
        ;
    }
}

/// Factorials grow with their argument.
pub proof fn lemma_fact_mono(a: int, b: int)
    requires
        a <= b,
    ensures
        fact(a) <= fact(b),
    decreases b - a,
{
    lemma_fact_pos(a);
    if a < b {
        lemma_fact_mono(a, b - 1);
        lemma_fact_pos(b - 1);
        if b > 1 {
            assert(fact(b) == b * fact(b - 1));
            assert(fact(b - 1) <= b * fact(b - 1)) by (nonlinear_arith)
                requires
                    b >= 2,
                    fact(b - 1) >= 1,
            ;
        }
    }
}

/// 20! fits comfortably in a u64.
pub proof fn lemma_fact_bounds(n: int)
    requires
        n <= 20,
    ensures
        fact(n) >= 1,
        n >= 0 ==> fact(n) <= 2432902008176640000,
{
    lemma_fact_pos(n);
    if n >= 0 {
        assert(fact(1) == 1);
        assert(fact(2) == 2);
        assert(fact(3) == 6);
        assert(fact(4) == 24);
        assert(fact(5) == 120);
        assert(fact(6) == 720);
        assert(fact(7) == 5040);
        assert(fact(8) == 40320);
        assert(fact(9) == 362880);
        assert(fact(10) == 3628800);
        assert(fact(11) == 39916800);
        assert(fact(12) == 479001600);
        assert(fact(13) == 6227020800);
        assert(fact(14) == 87178291200);
        assert(fact(15) == 1307674368000);
        assert(fact(16) == 20922789888000);
        assert(fact(17) == 355687428096000);
        assert(fact(18) == 6402373705728000);
        assert(fact(19) == 121645100408832000);
        assert(fact(20) == 2432902008176640000);
        lemma_fact_mono(n, 20);
    }
}

} // verus!
