use cube_solver::coord::{corner_orientation, edge_orientation};
use cube_solver::kociemba::{domino_moves, is_domino_cube, is_domino_move};
use cube_solver::moves::Move;
use cube_solver::surface::Cube;

#[test]
fn domino_moves_are_ten() {
    let dom = domino_moves();
    assert_eq!(dom.len(), 10);
    for m in &dom {
        assert!(is_domino_move(m));
    }
    assert!(!is_domino_move(&Move::parse("F").unwrap()));
}

#[test]
fn domino_sequence_keeps_domino_and_zero_coords() {
    let seq = Move::parse_sequence("U F2 D' L2 U2 R2 D B2 U'").unwrap();
    let mut cube = Cube::solved();
    for m in seq {
        cube = cube.apply(m);
        assert!(is_domino_cube(&cube));
        assert_eq!(corner_orientation(&cube), 0);
        assert_eq!(edge_orientation(&cube), 0);
    }
    let spoiled = cube.apply(Move::parse("F").unwrap());
    assert!(!is_domino_cube(&spoiled));
}
