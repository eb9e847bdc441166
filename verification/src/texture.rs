//! GPU-visible pixel containers.

use vstd::prelude::*;
use crate::gl;
use crate::queue::Destructor;
use std::sync::Arc;

pub mod format;

verus! {

/// Format of texture data.
#[derive(Clone, Copy, Debug, Eq, Hash, PartialEq)]
pub enum Format {
    /// 32-bit float.
    F32(format::F32),

    /// 8-bit fixed.
    U8(format::U8),
}

impl Format {
    /// The driver constant of the internal storage format.
    pub open spec fn spec_as_gl_enum(self) -> u32 {
        match self {
            Format::F32(format::F32::Depth) => gl::DEPTH_COMPONENT32F,
            Format::F32(format::F32::Rgb) => gl::RGB32F,
            Format::F32(format::F32::Rgba) => gl::RGBA32F,
            Format::U8(format::U8::Rgb) => gl::RGB8,
            Format::U8(format::U8::Rgba) => gl::RGBA8,
        }
    }

    /// Returns the equivalent driver enumeration constant.
    #[verifier::when_used_as_spec(spec_as_gl_enum)]
    pub fn as_gl_enum(self) -> (r: u32)
        ensures
            r == self.spec_as_gl_enum(),
    {
        match self {
            Format::F32(format::F32::Depth) => gl::DEPTH_COMPONENT32F,
            Format::F32(format::F32::Rgb) => gl::RGB32F,
            Format::F32(format::F32::Rgba) => gl::RGBA32F,
            Format::U8(format::U8::Rgb) => gl::RGB8,
            Format::U8(format::U8::Rgba) => gl::RGBA8,
        }
    }
}

/// GPU-visible 2D texture.
#[derive(Clone, Debug)]
pub struct Texture2 {
    /// The driver texture ID.
    pub id: u32,

    /// The width of the texture in pixels.
    pub width: u32,

    /// The height of the texture in pixels.
    pub height: u32,

    /// The internal storage format.
    pub format: Format,

    /// Whether the texture has mipmaps.
    pub mipmap: bool,

    /// Returns the texture back to the factory upon destruction.
    ///
    /// Note: samplers share this destructor, so the texture is not released
    /// while any sampler still names it.
    pub destructor: Arc<Destructor<u32>>,
}

impl Texture2 {
    /// The destructor enqueues exactly this handle's ID.
    pub open spec fn wf(&self) -> bool {
        self.destructor.message == self.id
    }

    /// Constructor.
    pub fn new(
        id: u32,
        width: u32,
        height: u32,
        mipmap: bool,
        format: Format,
        tx: crossbeam_channel::Sender<u32>,
    ) -> (r: Texture2)
        ensures
            r.id == id,
            r.width == width,
            r.height == height,
            r.mipmap == mipmap,
            r.format == format,
            r.destructor.tx == tx,
            r.wf(),
    {
        Texture2 {
            id,
            width,
            height,
            mipmap,
            format,
            destructor: Arc::new(Destructor { message: id, tx }),
        }
    }

    /// Returns the driver texture ID.
    pub fn id(&self) -> (r: u32)
        ensures
            r == self.id,
    {
        self.id
    }

    /// Returns the internal pixel format.
    pub fn format(&self) -> (r: Format)
        ensures
            r == self.format,
    {
        self.format
    }

    /// Returns the width of the texture in pixels.
    pub fn width(&self) -> (r: usize)
        ensures
            r == self.width,
    {
        self.width as usize
    }

    /// Returns the height of the texture in pixels.
    pub fn height(&self) -> (r: usize)
        ensures
            r == self.height,
    {
        self.height as usize
    }

    /// Returns `true` if this texture has mipmaps.
    pub fn mipmap(&self) -> (r: bool)
        ensures
            r == self.mipmap,
    {
        self.mipmap
    }
}

impl PartialEq for Texture2 {
    /// Handles are equal when they name the same driver ID.
    fn eq(&self, other: &Self) -> (r: bool) {
        self.id == other.id
    }
}

impl vstd::std_specs::cmp::PartialEqSpecImpl for Texture2 {
    open spec fn obeys_eq_spec() -> bool {
        true
    }

    open spec fn eq_spec(&self, other: &Self) -> bool {
        self.id == other.id
    }
}

impl Eq for Texture2 {}

} // verus!
