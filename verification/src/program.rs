//! Shader programs and their interface bindings.

use vstd::prelude::*;
use crate::buffer::Buffer;
use crate::queue::Destructor;
use crate::sampler::Sampler;
use std::sync::Arc;

verus! {

/// Specifies the maximum number of uniform block slots permitted by the
/// crate.
pub const MAX_UNIFORM_BLOCKS: usize = 4;

/// Specifies the maximum number of sampler slots permitted by the crate.
pub const MAX_SAMPLERS: usize = 4;

/// A binding point for a uniform block in a compiled and linked program.
///
/// The name is a NUL-terminated byte string, as the driver's interface
/// queries expect.
#[derive(Clone, Copy, Debug, Eq, Hash, PartialEq)]
pub enum UniformBlockBinding {
    /// Binding point is required by the program to function correctly.
    Required(&'static [u8]),

    /// Binding point is unassigned.
    Unassigned,
}

impl Default for UniformBlockBinding {
    /// By default a binding point is unassigned.
    fn default() -> (r: Self)
        ensures
            r is Unassigned,
    {
        UniformBlockBinding::Unassigned
    }
}

/// A binding point for a texture sampler in a compiled and linked program.
///
/// The name is a NUL-terminated byte string, as the driver's interface
/// queries expect.
#[derive(Clone, Copy, Debug, Eq, Hash, PartialEq)]
pub enum SamplerBinding {
    /// Binding point is required by the program to function correctly.
    Required(&'static [u8]),

    /// Binding point is unassigned.
    Unassigned,
}

impl Default for SamplerBinding {
    /// By default a binding point is unassigned.
    fn default() -> (r: Self)
        ensures
            r is Unassigned,
    {
        SamplerBinding::Unassigned
    }
}

/// Program interface binding points.
///
/// The binding indices are the array indices items are assigned to.
#[derive(Clone, Copy, Debug, Eq, Hash, PartialEq)]
pub struct Bindings {
    /// The program uniform block bindings.
    pub uniform_blocks: [UniformBlockBinding; MAX_UNIFORM_BLOCKS],

    /// The program sampler bindings.
    pub samplers: [SamplerBinding; MAX_SAMPLERS],
}

impl Bindings {
    /// No slot requires a name.
    pub open spec fn all_unassigned(&self) -> bool {
        &&& forall|i: int| 0 <= i < MAX_UNIFORM_BLOCKS ==> self.uniform_blocks@[i] is Unassigned
        &&& forall|i: int| 0 <= i < MAX_SAMPLERS ==> self.samplers@[i] is Unassigned
    }
}

impl Default for Bindings {
    /// By default every binding point is unassigned.
    fn default() -> (r: Self)
        ensures
            r.all_unassigned(),
    {
        Bindings {
            uniform_blocks: [
                UniformBlockBinding::Unassigned,
                UniformBlockBinding::Unassigned,
                UniformBlockBinding::Unassigned,
                UniformBlockBinding::Unassigned,
            ],
            samplers: [
                SamplerBinding::Unassigned,
                SamplerBinding::Unassigned,
                SamplerBinding::Unassigned,
                SamplerBinding::Unassigned,
            ],
        }
    }
}

/// Specifies whether the destroyed item was an object or a program.
#[derive(Clone, Copy, Debug, Eq, Hash, PartialEq)]
pub enum Destroyed {
    /// A shader object.
    Object(u32),

    /// A compiled and linked program.
    Program(u32),
}

/// Failure to bind a required shader-interface name at link time.
///
/// This layer treats such a failure as fatal: the embedding is expected to
/// abort on it rather than continue with a partially bound program.
#[derive(Clone, Copy, Debug, Eq, Hash, PartialEq)]
pub enum InterfaceError {
    /// A required uniform block name was absent from the linked program.
    MissingUniformBlock {
        /// The slot whose requirement failed.
        binding: usize,
        /// The name that was not found.
        name: &'static [u8],
    },

    /// A required sampler name was absent from the linked program.
    MissingSampler {
        /// The slot whose requirement failed.
        binding: usize,
        /// The name that was not found.
        name: &'static [u8],
    },
}

/// An invocation of a shader program: the program plus the buffers and
/// samplers to bind to its slots for one draw dispatch.
#[derive(Clone)]
pub struct Invocation<'a> {
    /// The program to bind at draw time.
    pub program: &'a Program,

    /// Uniform buffers to be bound to the program at draw time.
    pub uniforms: [Option<&'a Buffer>; MAX_UNIFORM_BLOCKS],

    /// Texture samplers to be bound to the program at draw time.
    pub samplers: [Option<&'a Sampler>; MAX_SAMPLERS],
}

/// A compiled shader program.
#[derive(Clone, Debug)]
pub struct Program {
    /// The driver program ID.
    pub id: u32,

    /// Locations of samplers, recorded per slot at link time.
    pub samplers: [Option<u32>; MAX_SAMPLERS],

    /// Returns the program back to the factory upon destruction.
    pub destructor: Arc<Destructor<Destroyed>>,
}

impl Program {
    /// The destructor enqueues exactly this handle's ID, marked as a linked
    /// program.
    pub open spec fn wf(&self) -> bool {
        self.destructor.message == Destroyed::Program(self.id)
    }

    /// Constructor.
    pub fn new(id: u32, tx: crossbeam_channel::Sender<Destroyed>) -> (r: Program)
        ensures
            r.id == id,
            forall|i: int| 0 <= i < MAX_SAMPLERS ==> r.samplers@[i] is None,
            r.destructor.tx == tx,
            r.wf(),
    {
        Self {
            id,
            samplers: [None, None, None, None],
            destructor: Arc::new(Destructor { message: Destroyed::Program(id), tx }),
        }
    }

    /// Returns the program ID.
    pub fn id(&self) -> (r: u32)
        ensures
            r == self.id,
    {
        self.id
    }
}

impl PartialEq for Program {
    /// Handles are equal when they name the same driver ID.
    fn eq(&self, other: &Self) -> (r: bool) {
        self.id == other.id
    }
}

impl vstd::std_specs::cmp::PartialEqSpecImpl for Program {
    open spec fn obeys_eq_spec() -> bool {
        true
    }

    open spec fn eq_spec(&self, other: &Self) -> bool {
        self.id == other.id
    }
}

impl Eq for Program {}

} // verus!
