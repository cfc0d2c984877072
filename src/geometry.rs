//! Mesh generators. Coordinates that are not whole numbers are kept in
//! exact integer units, named on each field; turning them into floats for
//! upload is left to the caller.

pub mod cube;
pub mod sphere;

pub use cube::{Cube, CubeFace};
pub use sphere::SphereGrid;
