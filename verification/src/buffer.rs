//! GPU buffer management.

use vstd::prelude::*;
use crate::gl;
use crate::queue::Destructor;
use std::sync::Arc;

pub mod format;

pub use format::Format;

verus! {

/// Determines what the buffer may be used for.
#[derive(Clone, Copy, Debug, Eq, Hash, Ord, PartialEq, PartialOrd)]
pub enum Kind {
    /// Corresponds to `GL_ARRAY_BUFFER`.
    Array,

    /// Corresponds to `GL_ELEMENT_ARRAY_BUFFER`.
    Index,

    /// Corresponds to `GL_UNIFORM_BUFFER`.
    Uniform,

    /// Corresponds to `GL_TEXTURE_BUFFER`.
    Texture,
}

impl Kind {
    /// The driver constant the kind stands for.
    pub open spec fn spec_as_gl_enum(self) -> u32 {
        match self {
            Kind::Array => gl::ARRAY_BUFFER,
            Kind::Index => gl::ELEMENT_ARRAY_BUFFER,
            Kind::Uniform => gl::UNIFORM_BUFFER,
            Kind::Texture => gl::TEXTURE_BUFFER,
        }
    }

    /// Returns the equivalent driver enumeration constant.
    #[verifier::when_used_as_spec(spec_as_gl_enum)]
    pub fn as_gl_enum(self) -> (r: u32)
        ensures
            r == self.spec_as_gl_enum(),
    {
        match self {
            Kind::Array => gl::ARRAY_BUFFER,
            Kind::Index => gl::ELEMENT_ARRAY_BUFFER,
            Kind::Uniform => gl::UNIFORM_BUFFER,
            Kind::Texture => gl::TEXTURE_BUFFER,
        }
    }
}

/// A buffer data usage hint.
#[derive(Clone, Copy, Debug, Eq, Hash, Ord, PartialEq, PartialOrd)]
pub enum Usage {
    /// Corresponds to `GL_STATIC_DRAW`.
    StaticDraw,

    /// Corresponds to `GL_DYNAMIC_DRAW`.
    DynamicDraw,
}

impl Usage {
    /// The driver constant the usage hint stands for.
    pub open spec fn spec_as_gl_enum(self) -> u32 {
        match self {
            Usage::StaticDraw => gl::STATIC_DRAW,
            Usage::DynamicDraw => gl::DYNAMIC_DRAW,
        }
    }

    /// Returns the equivalent driver enumeration constant.
    #[verifier::when_used_as_spec(spec_as_gl_enum)]
    pub fn as_gl_enum(self) -> (r: u32)
        ensures
            r == self.spec_as_gl_enum(),
    {
        match self {
            Usage::StaticDraw => gl::STATIC_DRAW,
            Usage::DynamicDraw => gl::DYNAMIC_DRAW,
        }
    }
}

/// A contiguous region of GPU memory.
#[derive(Clone, Debug)]
pub struct Buffer {
    /// The driver buffer ID.
    pub id: u32,

    /// The type of buffer, e.g. a vertex buffer.
    pub kind: Kind,

    /// The number of bytes held by the buffer.
    pub size: usize,

    /// Data usage hint.
    pub usage: Usage,

    /// Returns the buffer back to the factory upon destruction.
    pub destructor: Arc<Destructor<u32>>,
}

impl Buffer {
    /// The destructor enqueues exactly this handle's ID.
    pub open spec fn wf(&self) -> bool {
        self.destructor.message == self.id
    }

    /// Constructor.
    pub fn new(
        id: u32,
        kind: Kind,
        size: usize,
        usage: Usage,
        tx: crossbeam_channel::Sender<u32>,
    ) -> (r: Buffer)
        ensures
            r.id == id,
            r.kind == kind,
            r.size == size,
            r.usage == usage,
            r.destructor.tx == tx,
            r.wf(),
    {
        Self {
            destructor: Arc::new(Destructor { message: id, tx }),
            id,
            kind,
            size,
            usage,
        }
    }

    /// Returns the driver buffer ID.
    pub fn id(&self) -> (r: u32)
        ensures
            r == self.id,
    {
        self.id
    }

    /// Returns the buffer kind.
    pub fn kind(&self) -> (r: Kind)
        ensures
            r == self.kind,
    {
        self.kind
    }

    /// Returns the number of bytes this buffer contains.
    pub fn size(&self) -> (r: usize)
        ensures
            r == self.size,
    {
        self.size
    }

    /// Returns the buffer data usage hint.
    pub fn usage(&self) -> (r: Usage)
        ensures
            r == self.usage,
    {
        self.usage
    }

    /// Returns a [`Slice`] covering the whole buffer.
    pub fn as_slice(&self) -> (r: Slice<'_>)
        ensures
            r.buffer == self,
            r.offset == 0,
            r.length == self.size,
    {
        Slice::new(self, 0, self.size)
    }

    /// Creates a slice into a [`Buffer`].
    pub fn slice(&self, offset: usize, length: usize) -> (r: Slice<'_>)
        ensures
            r.buffer == self,
            r.offset == offset,
            r.length == length,
    {
        Slice::new(self, offset, length)
    }
}

impl PartialEq for Buffer {
    /// Handles are equal when they name the same driver ID.
    fn eq(&self, other: &Self) -> (r: bool) {
        self.id == other.id
    }
}

impl vstd::std_specs::cmp::PartialEqSpecImpl for Buffer {
    open spec fn obeys_eq_spec() -> bool {
        true
    }

    open spec fn eq_spec(&self, other: &Self) -> bool {
        self.id == other.id
    }
}

impl Eq for Buffer {}

/// A contiguous sub-region of a [`Buffer`].
#[derive(Clone, Copy)]
pub struct Slice<'a> {
    /// The parent buffer.
    pub buffer: &'a Buffer,

    /// The byte offset into the parent buffer.
    pub offset: usize,

    /// The number of bytes accessed from the offset.
    pub length: usize,
}

impl<'a> Slice<'a> {
    /// Constructor.
    pub fn new(buffer: &'a Buffer, offset: usize, length: usize) -> (r: Self)
        ensures
            r.buffer == buffer,
            r.offset == offset,
            r.length == length,
    {
        Self { buffer, offset, length }
    }

    /// Returns the parent buffer driver ID.
    pub fn id(&self) -> (r: u32)
        ensures
            r == self.buffer.id,
    {
        self.buffer.id
    }

    /// Returns the parent buffer.
    pub fn buffer(&self) -> (r: &'a Buffer)
        ensures
            r == self.buffer,
    {
        self.buffer
    }

    /// Returns the parent buffer kind.
    pub fn kind(&self) -> (r: Kind)
        ensures
            r == self.buffer.kind,
    {
        self.buffer.kind
    }

    /// Returns the byte offset into the parent buffer.
    pub fn offset(&self) -> (r: usize)
        ensures
            r == self.offset,
    {
        self.offset
    }

    /// Returns the number of bytes accessed from the offset.
    pub fn length(&self) -> (r: usize)
        ensures
            r == self.length,
    {
        self.length
    }
}

/// A formatted view into a [`Buffer`].
///
/// Whether `offset`, `stride` and the element size stay within the buffer is
/// the caller's responsibility; this layer does not validate bounds.
#[derive(Clone, Debug)]
pub struct Accessor {
    /// The buffer the accessor reads from.
    pub buffer: Buffer,

    /// The accessor data format.
    pub format: Format,

    /// The number of bytes into the buffer the accessor reads from.
    pub offset: usize,

    /// The number of bytes between each element.
    pub stride: usize,
}

impl Accessor {
    /// Constructor.
    pub fn new(buffer: Buffer, format: Format, offset: usize, stride: usize) -> (r: Self)
        ensures
            r.buffer == buffer,
            r.format == format,
            r.offset == offset,
            r.stride == stride,
    {
        Self { buffer, format, offset, stride }
    }

    /// Returns the parent buffer.
    pub fn buffer(&self) -> (r: &Buffer)
        ensures
            r == self.buffer,
    {
        &self.buffer
    }

    /// Returns the accessor data format.
    pub fn format(&self) -> (r: Format)
        ensures
            r == self.format,
    {
        self.format
    }

    /// Returns the accessor byte offset into the parent buffer.
    pub fn offset(&self) -> (r: usize)
        ensures
            r == self.offset,
    {
        self.offset
    }

    /// Returns the accessor byte stride between consecutive elements.
    pub fn stride(&self) -> (r: usize)
        ensures
            r == self.stride,
    {
        self.stride
    }
}

} // verus!
