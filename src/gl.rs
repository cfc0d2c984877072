//! The attribute and uniform model and the program that draws with it.

pub mod attribute;
pub mod enums;
pub mod program;

pub use attribute::AttributeLocation;
pub use enums::{AttributeType, Dimension, NumberType, UniformType};
pub use program::{
    BuildStep, Face, GlCommand, Primitive, Program, ProgramBuilder, ProgramError, RenderOptions,
    Side, StageReport, Winding,
};
