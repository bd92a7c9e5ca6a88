use cube_solver::blast_machine_evaluator::BlastMachineEvaluator;
use cube_solver::challenge::{Evaluator, UniformEvaluator};
use cube_solver::face::Face;
use cube_solver::moves::{Direction, Move, ParseError};

#[test]
fn parse_single_tokens() {
    assert_eq!(
        Move::parse("R").unwrap(),
        Move { face: Face::Right, direction: Direction::Single }
    );
    assert_eq!(
        Move::parse("f'").unwrap(),
        Move { face: Face::Front, direction: Direction::Reverse }
    );
    assert_eq!(
        Move::parse("U2").unwrap(),
        Move { face: Face::Up, direction: Direction::Double }
    );
}

#[test]
fn parse_rejects_bad_tokens() {
    assert_eq!(Move::parse(""), Err(ParseError::NoFace));
    assert_eq!(Move::parse("X"), Err(ParseError::UnrecognizedFace(b'X')));
    assert_eq!(Move::parse("R3"), Err(ParseError::UnrecognizedDirection(b'3')));
    assert_eq!(Move::parse("R2x"), Err(ParseError::TrailingByte(b'x')));
    assert_eq!(Move::parse_sequence("R  L"), Err(ParseError::NoFace));
    assert!(Move::parse_sequence("R2 D Q'").is_err());
}

#[test]
fn parse_sequence_reads_scramble() {
    let seq = Move::parse_sequence("R2 D F'").unwrap();
    assert_eq!(
        seq,
        vec![
            Move { face: Face::Right, direction: Direction::Double },
            Move { face: Face::Down, direction: Direction::Single },
            Move { face: Face::Front, direction: Direction::Reverse },
        ]
    );
}

#[test]
fn could_follow_rules() {
    let r = Move::parse("R").unwrap();
    let l = Move::parse("L").unwrap();
    let u = Move::parse("U").unwrap();
    let r2 = Move::parse("R2").unwrap();
    assert!(u.could_follow(&r));
    assert!(r.could_follow(&l));
    assert!(!l.could_follow(&r));
    assert!(!r2.could_follow(&r));
}

#[test]
fn same_face_never_considered() {
    let seq = Move::parse_sequence("F F'").unwrap();
    assert!(!Move::should_consider(&seq));
    let fine = Move::parse_sequence("F U R").unwrap();
    assert!(Move::should_consider(&fine));
}

#[test]
fn all_lists_eighteen_moves() {
    let all = Move::all();
    assert_eq!(all.len(), 18);
    assert_eq!(all[0], Move { face: Face::Front, direction: Direction::Single });
    assert_eq!(all[17], Move { face: Face::Down, direction: Direction::Reverse });
}

#[test]
fn blast_machine_prices() {
    let e = BlastMachineEvaluator;
    assert_eq!(e.eval(&Move::parse_sequence("R").unwrap()), 10);
    assert_eq!(e.eval(&Move::parse_sequence("R2").unwrap()), 14);
    assert_eq!(e.eval(&Move::parse_sequence("R L").unwrap()), 10);
    assert_eq!(e.eval(&Move::parse_sequence("R U").unwrap()), 20);
    assert_eq!(e.min_time(&Move::parse_sequence("R U F").unwrap()), 10);
    assert_eq!(e.min_time(&Move::parse_sequence("R U").unwrap()), 0);
}

#[test]
fn uniform_prices() {
    let e = UniformEvaluator { per_move: 10 };
    assert_eq!(e.eval(&Move::parse_sequence("R U F").unwrap()), 30);
    assert_eq!(e.min_time(&Move::parse_sequence("R U F").unwrap()), 30);
}
