use vstd::prelude::*;

verus! {

/// The number of rows or columns of a vector or matrix shape.
#[derive(Clone, Copy, Debug, PartialEq, Eq, Structural)]
pub enum Dimension {
    D2,
    D3,
    D4,
}

impl Dimension {
    pub open spec fn spec_value(self) -> nat {
        match self {
            Dimension::D2 => 2,
            Dimension::D3 => 3,
            Dimension::D4 => 4,
        }
    }

    /// The dimension as a number: 2, 3 or 4.
    pub fn value(self) -> (r: u32)
        ensures
            r == self.spec_value(),
            2 <= r <= 4,
    {
        match self {
            Dimension::D2 => 2,
            Dimension::D3 => 3,
            Dimension::D4 => 4,
        }
    }
}

/// The shape of a vertex attribute: how many floats make up one vertex.
#[derive(Clone, Copy, Debug, PartialEq, Eq, Structural)]
pub enum AttributeType {
    Scalar,
    Vector(Dimension),
    Matrix(Dimension, Dimension),
}

impl AttributeType {
    /// Scalar has one component, `Vector(n)` has n, `Matrix(m, n)` has m * n.
    pub open spec fn spec_num_of_components(self) -> nat {
        match self {
            AttributeType::Scalar => 1,
            AttributeType::Vector(n) => n.spec_value(),
            AttributeType::Matrix(m, n) => m.spec_value() * n.spec_value(),
        }
    }

    /// The number of floats that one vertex of this shape takes.
    pub fn num_of_components(self) -> (r: u32)
        ensures
            r == self.spec_num_of_components(),
            1 <= r <= 16,
    {
        match self {
            AttributeType::Scalar => 1,
            AttributeType::Vector(n) => n.value(),
            AttributeType::Matrix(m, n) => {
                let (a, b) = (m.value(), n.value());
                assert(4 <= a * b <= 16) by (nonlinear_arith)
                    requires
                        2 <= a <= 4,
                        2 <= b <= 4,
                ;
                a * b
            },
        }
    }

    /// The number of whole vertices that `value_count` floats of this shape
    /// make up, or `None` where the count is no multiple of the shape's size.
    pub fn vertex_count(self, value_count: usize) -> (r: Option<usize>)
        ensures
            r == (if value_count as nat % self.spec_num_of_components() == 0 {
                Some((value_count as nat / self.spec_num_of_components()) as usize)
            } else {
                None
            }),
    {
        let k = self.num_of_components() as usize;
        if value_count % k == 0 {
            Some(value_count / k)
        } else {
            None
        }
    }
}

/// Whether a uniform's components are integers or floats.
#[derive(Clone, Copy, Debug, PartialEq, Eq, Structural)]
pub enum NumberType {
    Int,
    Float,
}

/// The declared type of a uniform in a shader.
#[derive(Debug)]
pub enum UniformType {
    Scalar(NumberType),
    Vector(NumberType, Dimension),
    Matrix(Dimension),
    Sampler2D,
    Array(Box<UniformType>, usize),
    UserType(String),
}

} // verus!
