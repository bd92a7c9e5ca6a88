use cube_solver::blast_machine_evaluator::BlastMachineEvaluator;
use cube_solver::challenge::{Challenge, Evaluator, UniformEvaluator};
use cube_solver::kociemba::{is_domino_cube, is_domino_move, Kociemba};
use cube_solver::mitm::Mitm;
use cube_solver::moves::Move;
use cube_solver::naive_iddfs::NaiveIddfs;
use cube_solver::solver::Solver;
use cube_solver::surface::Cube;

#[test]
fn kociemba_blast_machine_scenarios() {
    let solver: Kociemba<BlastMachineEvaluator> =
        Kociemba::init(Challenge { inspection: 0, evaluator: BlastMachineEvaluator });

    // Empty scramble: zero moves.
    let solution = solver.solve(Cube::solved()).unwrap();
    assert_eq!(solution, Vec::new());

    // A half-turn scramble is undone by the same half turn.
    let r2 = Cube::solved().apply(Move::parse("R2").unwrap());
    let solution = solver.solve(r2).unwrap();
    assert_eq!(solution, Move::parse_sequence("R2").unwrap());
    assert_eq!(BlastMachineEvaluator.eval(&solution), 14);

    // An axis-cancelling scramble: the two-move undoings share an axis, so
    // a cheap solution exists; the two-phase split does not promise to find
    // the cheapest one.
    let rl = Cube::solved().apply_all(&Move::parse_sequence("R L").unwrap());
    let solution = solver.solve(rl).unwrap();
    assert_eq!(rl.apply_all(&solution), Cube::solved());
    assert!(BlastMachineEvaluator.eval(&solution) <= 70);

    // A short mixed scramble is solved within twelve moves.
    let mixed = Cube::solved().apply_all(&Move::parse_sequence("R2 D F'").unwrap());
    let solution = solver.solve(mixed).unwrap();
    assert_eq!(mixed.apply_all(&solution), Cube::solved());
    assert!(solution.len() <= 12);
}

#[test]
fn kociemba_uniform_single_turn_undo() {
    let solver: Kociemba<UniformEvaluator> = Kociemba::init(Challenge {
        inspection: 0,
        evaluator: UniformEvaluator { per_move: 10 },
    });
    let scrambled = Cube::solved().apply(Move::parse("F").unwrap());
    let solution = solver.solve(scrambled).unwrap();
    assert_eq!(scrambled.apply_all(&solution), Cube::solved());
    assert!(solution.len() <= 8);
}

#[test]
fn kociemba_standard_scramble() {
    let solver: Kociemba<BlastMachineEvaluator> =
        Kociemba::init(Challenge { inspection: 0, evaluator: BlastMachineEvaluator });
    let scramble = Move::parse_sequence("R2 U' L2 R2 B2 F2 L2 U' L' B D F R2 L2").unwrap();
    let scrambled = Cube::solved().apply_all(&scramble);
    let solution = solver.solve(scrambled).unwrap();
    assert_eq!(scrambled.apply_all(&solution), Cube::solved());
}

#[test]
fn kociemba_solution_splits_at_the_domino_subgroup() {
    let solver: Kociemba<BlastMachineEvaluator> =
        Kociemba::init(Challenge { inspection: 0, evaluator: BlastMachineEvaluator });
    let scrambled = Cube::solved().apply_all(&Move::parse_sequence("R2 D F'").unwrap());
    let solution = solver.solve(scrambled).unwrap();
    let mut split_found = false;
    for k in 0..=solution.len() {
        let mid = scrambled.apply_all(&solution[..k]);
        if is_domino_cube(&mid) && solution[k..].iter().all(is_domino_move) {
            split_found = true;
            break;
        }
    }
    assert!(split_found);
}

#[test]
fn naive_iddfs_undoes_short_scrambles() {
    let solver: NaiveIddfs<UniformEvaluator> = NaiveIddfs::init(Challenge {
        inspection: 0,
        evaluator: UniformEvaluator { per_move: 10 },
    });
    let solution = solver.solve(Cube::solved()).unwrap();
    assert_eq!(solution, Vec::new());

    let scrambled = Cube::solved().apply(Move::parse("F").unwrap());
    let solution = solver.solve(scrambled).unwrap();
    assert_eq!(solution, Move::parse_sequence("F'").unwrap());
}

#[test]
fn mitm_undoes_short_scrambles() {
    let solver: Mitm<UniformEvaluator> = Mitm::init(Challenge {
        inspection: 0,
        evaluator: UniformEvaluator { per_move: 10 },
    });
    let solution = solver.solve(Cube::solved()).unwrap();
    assert_eq!(solution, Vec::new());

    let scrambled = Cube::solved().apply_all(&Move::parse_sequence("R U").unwrap());
    let solution = solver.solve(scrambled).unwrap();
    assert_eq!(scrambled.apply_all(&solution), Cube::solved());
}
