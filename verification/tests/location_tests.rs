use cube_solver::location::Location;

#[test]
fn all_locations_in_cubie_order() {
    let locs = Location::all();
    let mut i = 0;
    while i < locs.len() {
        match locs[i] {
            Location::Center(_) => {
                i += 1;
            }
            Location::Edge(a, b) => {
                assert_eq!(locs[i + 1], Location::Edge(b, a));
                i += 2;
            }
            Location::Corner(a, b, c) => {
                assert_eq!(locs[i + 1], Location::Corner(b, a, c));
                assert_eq!(locs[i + 2], Location::Corner(c, a, b));
                i += 3;
            }
        }
    }
}

#[test]
fn all_locations_is_all() {
    assert_eq!(Location::all().len(), 9 * 6);
}
