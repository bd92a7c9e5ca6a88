//! A 3x3x3 Rubik's cube solver that minimises an arbitrary, caller-supplied
//! cost model on move sequences.
//!
//! The core is a two-phase (Kociemba-style) cost-bounded iterative-deepening
//! search: first reduce the cube to the domino subgroup
//! (U, D, L2, R2, F2, B2), then finish inside it.  Costs are measured in
//! whole milliseconds (`u64`), and every cost model implements the
//! [`Evaluator`](challenge::Evaluator) trait.

pub mod blast_machine_evaluator;
pub mod challenge;
pub mod clock;
pub mod coord;
pub mod cube_like;
pub mod kociemba;
pub mod laws;
pub mod mitm;
pub mod tables;
pub mod face;
pub mod location;
pub mod moves;
pub mod naive_iddfs;
pub mod solver;
pub mod surface;

pub use blast_machine_evaluator::BlastMachineEvaluator;
pub use challenge::{Challenge, Evaluator, UniformEvaluator};
pub use cube_like::{CubeLike, CubieCube};
pub use face::Face;
pub use kociemba::Kociemba;
pub use mitm::Mitm;
pub use naive_iddfs::NaiveIddfs;
pub use solver::Solver;
pub use location::Location;
pub use moves::Direction;
pub use moves::Move;
pub use surface::Cube;
