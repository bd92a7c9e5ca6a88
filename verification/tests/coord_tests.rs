use cube_solver::coord::{corner_orientation, corner_position, edge_orientation, edge_position};
use cube_solver::moves::Move;
use cube_solver::surface::Cube;

#[test]
fn solved_is_zero() {
    assert_eq!(corner_orientation(&Cube::solved()), 0);
}

#[test]
fn right_turn_is_non_zero() {
    let cube = Cube::solved().apply(Move::parse("R").unwrap());
    assert_ne!(corner_orientation(&cube), 0);
}

#[test]
fn left_is_not_right() {
    let right = Cube::solved().apply(Move::parse("R").unwrap());
    let left = Cube::solved().apply(Move::parse("L").unwrap());
    assert_ne!(corner_orientation(&right), corner_orientation(&left));
}

#[test]
fn double_right_is_zero() {
    let cube = Cube::solved().apply(Move::parse("R2").unwrap());
    assert_eq!(corner_orientation(&cube), 0);
}

#[test]
fn double_back_not_double_front() {
    let f = Cube::solved().apply_all(&Move::parse_sequence("R' F2").unwrap());
    let b = Cube::solved().apply_all(&Move::parse_sequence("R' B2").unwrap());
    assert_ne!(corner_orientation(&f), corner_orientation(&b));
}

#[test]
fn opposite_twists() {
    let cw = Cube::solved()
        .apply_all(&Move::parse_sequence("L D2 L' F' D2 F U F' D2 F L D2 L' U'").unwrap());
    let ccw = Cube::solved()
        .apply_all(&Move::parse_sequence("F' D2 F L D2 L' U L D2 L' F' D2 F U'").unwrap());
    assert_ne!(corner_orientation(&cw), corner_orientation(&ccw));
}

#[test]
fn coord_solved_is_zero() {
    assert_eq!(corner_position(&Cube::solved()), 0);
}

#[test]
fn twist_is_non_zero() {
    let cube = Cube::solved().apply(Move::parse("F").unwrap());
    assert_ne!(corner_position(&cube), 0);
}

#[test]
fn down_is_zero() {
    let cube = Cube::solved().apply(Move::parse("D").unwrap());
    assert_eq!(edge_orientation(&cube), 0);
}

#[test]
fn front_is_not_zero() {
    let cube = Cube::solved().apply(Move::parse("F").unwrap());
    assert_ne!(edge_orientation(&cube), 0);
}

#[test]
fn front_is_less_than_2048() {
    let cube = Cube::solved().apply(Move::parse("F").unwrap());
    assert!(edge_orientation(&cube) < 2048);
}

#[test]
fn sequence_less_than_2048() {
    let cube = Cube::solved().apply_all(&Move::parse_sequence("D' F B'").unwrap());
    assert!(edge_orientation(&cube) < 2048);
}

#[test]
fn edge_position_solved_is_zero() {
    assert_eq!(edge_position(&Cube::solved()), 0);
}

#[test]
fn coord_twist_is_non_zero() {
    let cube = Cube::solved().apply(Move::parse("F").unwrap());
    assert_ne!(edge_position(&cube), 0);
}

#[test]
fn coordinate_ranges_along_scramble() {
    let moves = Move::parse_sequence("R U' F2 L B D' R2 U L2 F B' D2").unwrap();
    let mut cube = Cube::solved();
    for m in moves {
        cube = cube.apply(m);
        assert!(corner_orientation(&cube) < 2187);
        assert!(edge_orientation(&cube) < 2048);
        assert!(corner_position(&cube) < 40320);
        assert!(edge_position(&cube) < 479001600);
    }
}
