use vstd::prelude::*;

pub use super::enums::{AttributeType, Dimension};

verus! {

/// An attribute of a linked program: where the shader reads it, if the
/// shader has it, and its shape. Its buffer is the one uploaded for the
/// attribute at the same position.
#[derive(Clone, Copy, Debug, PartialEq, Eq, Structural)]
pub struct AttributeLocation {
    pub location: Option<u32>,
    pub attribute_type: AttributeType,
}

impl AttributeLocation {
    /// A location as the context reports it: negative where the program has
    /// no attribute of that name, which leaves the attribute unbound.
    pub open spec fn spec_resolve(raw: i32, attribute_type: AttributeType) -> AttributeLocation {
        AttributeLocation {
            location: if raw >= 0 { Some(raw as u32) } else { None },
            attribute_type,
        }
    }

    pub fn resolve(raw: i32, attribute_type: AttributeType) -> (r: AttributeLocation)
        ensures
            r == Self::spec_resolve(raw, attribute_type),
    {
        let location = if raw >= 0 { Some(raw as u32) } else { None };
        AttributeLocation { location, attribute_type }
    }

    /// The stride, in floats, with which the attribute is bound.
    pub fn num_of_components(&self) -> (r: i32)
        ensures
            r == self.attribute_type.spec_num_of_components(),
    {
        self.attribute_type.num_of_components() as i32
    }
}

} // verus!
