//! Geometry generators, a command-list model of a WebGL program, and the
//! integer logic of the demos that are drawn with them.

pub mod game_of_life;
pub mod geometry;
pub mod gl;
pub mod tracer;
pub mod webgl;
