//! Draw call dispatch.

use vstd::prelude::*;
use crate::gl;

verus! {

/// Primitive topology.
#[derive(Clone, Copy, Debug, Eq, Hash, PartialEq)]
pub enum Primitive {
    /// `[(v0, v1, v2), (v0, v1, v2), ...]`.
    Triangles,
}

impl Primitive {
    /// The driver constant the topology stands for.
    pub open spec fn spec_as_gl_enum(self) -> u32 {
        match self {
            Primitive::Triangles => gl::TRIANGLES,
        }
    }

    /// Returns the equivalent driver enumeration constant.
    #[verifier::when_used_as_spec(spec_as_gl_enum)]
    pub fn as_gl_enum(self) -> (r: u32)
        ensures
            r == self.spec_as_gl_enum(),
    {
        match self {
            Primitive::Triangles => gl::TRIANGLES,
        }
    }
}

/// Dispatch mode.
#[derive(Clone, Copy, Debug, Eq, Hash, PartialEq)]
pub enum Mode {
    /// Draw arrays once.
    Arrays,

    /// Draw arrays many times.
    ArraysInstanced(usize),

    /// Draw elements once.
    Elements,

    /// Draw elements many times.
    ElementsInstanced(usize),
}

/// A draw call command.
#[derive(Clone, Copy, Debug, Eq, Hash, PartialEq)]
pub struct Call {
    /// Where the vertices/elements begin.
    pub offset: usize,

    /// Number of vertices/elements to draw.
    pub count: usize,

    /// The primitive topology.
    pub primitive: Primitive,

    /// Dispatch mode.
    pub mode: Mode,
}

} // verus!
