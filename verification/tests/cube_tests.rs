use cube_solver::face::Face;
use cube_solver::location::Location;
use cube_solver::moves::Move;
use cube_solver::surface::{Cube, Surface};

#[test]
fn solved_is_solved() {
    assert_eq!(Cube::solved(), Cube::solved());
}

#[test]
fn single_move_is_not_solved() {
    assert_ne!(Cube::solved().apply(Move::parse("F2").unwrap()), Cube::solved());
}

#[test]
fn rotate_surface() {
    let mut surface = Surface::new(
        Face::Left, Face::Left, Face::Up, Face::Up,
        Face::Right, Face::Right, Face::Down, Face::Down,
    );
    surface.rotate();
    let expected = Surface::new(
        Face::Down, Face::Down, Face::Left, Face::Left,
        Face::Up, Face::Up, Face::Right, Face::Right,
    );
    assert_eq!(surface, expected);
}

#[test]
fn rotate_surface_reverse() {
    let mut surface = Surface::new(
        Face::Left, Face::Left, Face::Up, Face::Up,
        Face::Right, Face::Right, Face::Down, Face::Down,
    );
    surface.rotate_reverse();
    let expected = Surface::new(
        Face::Up, Face::Up, Face::Right, Face::Right,
        Face::Down, Face::Down, Face::Left, Face::Left,
    );
    assert_eq!(surface, expected);
}

#[test]
fn rotate_surface_double() {
    let mut surface = Surface::new(
        Face::Left, Face::Left, Face::Up, Face::Up,
        Face::Right, Face::Right, Face::Down, Face::Down,
    );
    surface.rotate_double();
    let expected = Surface::new(
        Face::Right, Face::Right, Face::Down, Face::Down,
        Face::Left, Face::Left, Face::Up, Face::Up,
    );
    assert_eq!(surface, expected);
}

#[test]
fn every_move_undone_by_its_reverse() {
    for m in Move::all() {
        let cube = Cube::solved().apply(m).apply(m.reverse());
        assert_eq!(cube, Cube::solved());
    }
}

#[test]
fn double_turns_are_involutions() {
    for text in ["F2", "B2", "L2", "R2", "U2", "D2"] {
        let m = Move::parse(text).unwrap();
        assert_eq!(Cube::solved().apply(m).apply(m), Cube::solved());
    }
}

#[test]
fn sequence_undone_by_inverse() {
    let seq = Move::parse_sequence("R U' F2 L B D'").unwrap();
    let inv = Move::inverse_seq(&seq);
    assert_eq!(Cube::solved().apply_all(&seq).apply_all(&inv), Cube::solved());
}

#[test]
fn get_reads_solved_colours() {
    let cube = Cube::solved();
    assert_eq!(cube.get(Location::Center(Face::Up)), Face::Up);
    assert_eq!(cube.get(Location::Edge(Face::Front, Face::Up)), Face::Front);
    assert_eq!(cube.get(Location::Corner(Face::Right, Face::Front, Face::Up)), Face::Right);
}
