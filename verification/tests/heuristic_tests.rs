use cube_solver::challenge::UniformEvaluator;
use cube_solver::kociemba::HeuristicTable;
use cube_solver::moves::Move;
use cube_solver::surface::Cube;
use cube_solver::tables::{CoordCube, CoordKind};

#[test]
fn has_quickcheck_generated() {
    let table = HeuristicTable::init(
        CoordKind::CornerOrientation,
        &Move::all(),
        &UniformEvaluator { per_move: 10 },
        None,
    );
    let cube = Cube::solved().apply_all(&Move::parse_sequence("R' F2 U'").unwrap());
    assert!(table.has(&cube));
}

#[test]
fn has_sune() {
    let table = HeuristicTable::init(
        CoordKind::CornerOrientation,
        &Move::all(),
        &UniformEvaluator { per_move: 10 },
        None,
    );
    let cube = Cube::solved().apply_all(&Move::parse_sequence("R U' R' U' R U2 R'").unwrap());
    assert!(table.has(&cube));
}

#[test]
fn unbudgeted_table_is_exhaustive_and_free_at_solved() {
    let table = HeuristicTable::init(
        CoordKind::CornerOrientation,
        &Move::all(),
        &UniformEvaluator { per_move: 10 },
        None,
    );
    assert!(table.exhaustive);
    assert!(table.has(&Cube::solved()));
    assert_eq!(table.min_time(&CoordCube::from_cube(Cube::solved())), 0);
}

#[test]
fn heuristic_bound_is_admissible_for_one_turn() {
    let table = HeuristicTable::init(
        CoordKind::CornerOrientation,
        &Move::all(),
        &UniformEvaluator { per_move: 10 },
        None,
    );
    let cube = Cube::solved().apply(Move::parse("R").unwrap());
    let h = table.min_time(&CoordCube::from_cube(cube));
    assert!(h <= 10);
}
