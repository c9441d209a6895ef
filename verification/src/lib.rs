pub mod colour;
pub mod cube;
pub mod laws;
pub mod moves;
pub mod solver;
pub mod tracker;

pub use colour::{Colour, Edge};
pub use cube::{Cube, FaceName};
pub use moves::Move;
pub use solver::solve;
