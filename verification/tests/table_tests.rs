use cube_solver::coord::{corner_orientation, corner_position, edge_orientation};
use cube_solver::moves::Move;
use cube_solver::surface::Cube;
use cube_solver::tables::{CoordCube, TransitionTable};

#[test]
fn tables_track_direct_coordinates() {
    let tables = TransitionTable::init();
    let all = Move::all();
    for (mi, m) in all.iter().enumerate() {
        let direct = corner_orientation(&Cube::solved().apply(*m));
        let stored = tables.corner_orientation.entries[mi][0];
        assert_eq!(stored, direct, "row for move {}", mi);
    }
    let base = Cube::solved().apply(Move::parse("R").unwrap());
    let cc0 = CoordCube::from_cube(base);
    for (mi, m) in all.iter().enumerate() {
        let cc = cc0.apply(*m, &tables);
        let cube = base.apply(*m);
        assert_eq!(cc.corner_orientation(), corner_orientation(&cube), "step co {}", mi);
        assert_eq!(cc.edge_orientation(), edge_orientation(&cube), "step eo {}", mi);
        assert_eq!(cc.corner_position(), corner_position(&cube), "step cp {}", mi);
    }
    let scramble = Move::parse_sequence("R U' F2 L B D' R2 U").unwrap();
    let mut cc = CoordCube::from_cube(Cube::solved());
    let mut cube = Cube::solved();
    for (k, m) in scramble.iter().enumerate() {
        cc = cc.apply(*m, &tables);
        cube = cube.apply(*m);
        assert_eq!(cc.corner_orientation(), corner_orientation(&cube), "seq co {}", k);
        assert_eq!(cc.edge_orientation(), edge_orientation(&cube), "seq eo {}", k);
        assert_eq!(cc.corner_position(), corner_position(&cube), "seq cp {}", k);
    }
}
