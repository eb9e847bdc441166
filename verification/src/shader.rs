//! Shader objects.

use vstd::prelude::*;
use crate::gl;
use crate::program::Destroyed;
use crate::queue::Destructor;
use std::sync::Arc;

verus! {

/// Determines the shader type, e.g. a vertex or fragment shader.
#[derive(Clone, Copy, Debug, Eq, Hash, PartialEq)]
pub enum Kind {
    /// Corresponds to `GL_VERTEX_SHADER`.
    Vertex,

    /// Corresponds to `GL_FRAGMENT_SHADER`.
    Fragment,
}

impl Kind {
    /// The driver constant the shader type stands for.
    pub open spec fn spec_as_gl_enum(self) -> u32 {
        match self {
            Kind::Vertex => gl::VERTEX_SHADER,
            Kind::Fragment => gl::FRAGMENT_SHADER,
        }
    }

    /// Returns the equivalent driver enumeration constant.
    #[verifier::when_used_as_spec(spec_as_gl_enum)]
    pub fn as_gl_enum(self) -> (r: u32)
        ensures
            r == self.spec_as_gl_enum(),
    {
        match self {
            Kind::Vertex => gl::VERTEX_SHADER,
            Kind::Fragment => gl::FRAGMENT_SHADER,
        }
    }
}

/// An unlinked component of a shader program, e.g. a compiled vertex or
/// fragment shader.
#[derive(Clone, Debug)]
pub struct Object {
    /// The driver shader object ID.
    pub id: u32,

    /// Determines the shader type, e.g. a vertex or fragment shader.
    pub kind: Kind,

    /// Returns the object back to the factory upon destruction.
    pub destructor: Arc<Destructor<Destroyed>>,
}

impl Object {
    /// The destructor enqueues exactly this handle's ID, marked as a shader
    /// object.
    pub open spec fn wf(&self) -> bool {
        self.destructor.message == Destroyed::Object(self.id)
    }

    /// Constructor.
    pub fn new(id: u32, kind: Kind, tx: crossbeam_channel::Sender<Destroyed>) -> (r: Object)
        ensures
            r.id == id,
            r.kind == kind,
            r.destructor.tx == tx,
            r.wf(),
    {
        Self {
            destructor: Arc::new(Destructor { message: Destroyed::Object(id), tx }),
            id,
            kind,
        }
    }

    /// Returns the shader object ID.
    pub fn id(&self) -> (r: u32)
        ensures
            r == self.id,
    {
        self.id
    }
}

impl PartialEq for Object {
    /// Handles are equal when they name the same driver ID.
    fn eq(&self, other: &Self) -> (r: bool) {
        self.id == other.id
    }
}

impl vstd::std_specs::cmp::PartialEqSpecImpl for Object {
    open spec fn obeys_eq_spec() -> bool {
        true
    }

    open spec fn eq_spec(&self, other: &Self) -> bool {
        self.id == other.id
    }
}

impl Eq for Object {}

} // verus!
