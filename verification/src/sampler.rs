//! Texture sampling properties.

use vstd::prelude::*;
use crate::gl;
use crate::texture::Texture2;

verus! {

/// Texture filtering mode.
#[derive(Clone, Copy, Debug, Eq, Hash, PartialEq)]
pub enum Filter {
    /// Linear filter.
    Linear,
}

impl Filter {
    /// The driver constant the filtering mode stands for.
    pub open spec fn spec_as_gl_enum(self) -> u32 {
        match self {
            Filter::Linear => gl::LINEAR,
        }
    }

    /// Returns the equivalent driver enumeration constant.
    #[verifier::when_used_as_spec(spec_as_gl_enum)]
    pub fn as_gl_enum(self) -> (r: u32)
        ensures
            r == self.spec_as_gl_enum(),
    {
        match self {
            Filter::Linear => gl::LINEAR,
        }
    }
}

/// Texture co-ordinate wrapping mode.
#[derive(Clone, Copy, Debug, Eq, Hash, PartialEq)]
pub enum Wrap {
    /// Repeat.
    Repeat,
}

impl Wrap {
    /// The driver constant the wrapping mode stands for.
    pub open spec fn spec_as_gl_enum(self) -> u32 {
        match self {
            Wrap::Repeat => gl::REPEAT,
        }
    }

    /// Returns the equivalent driver enumeration constant.
    #[verifier::when_used_as_spec(spec_as_gl_enum)]
    pub fn as_gl_enum(self) -> (r: u32)
        ensures
            r == self.spec_as_gl_enum(),
    {
        match self {
            Wrap::Repeat => gl::REPEAT,
        }
    }
}

/// Sampling properties for a 2D texture.
#[derive(Clone, Copy, Debug, Eq, Hash, PartialEq)]
pub struct Sampler2 {
    /// Specifies the magnification filter.
    ///
    /// Default: `Linear`.
    pub mag_filter: Filter,

    /// Specifies the minification filter.
    ///
    /// Default: `Linear`.
    pub min_filter: Filter,

    /// Specifies the wrapping mode for the S axis.
    ///
    /// Default: `Repeat`.
    pub wrap_s: Wrap,

    /// Specifies the wrapping mode for the T axis.
    ///
    /// Default: `Repeat`.
    pub wrap_t: Wrap,
}

impl Default for Sampler2 {
    /// Linear filters and repeat wrapping on both axes.
    fn default() -> (r: Self)
        ensures
            r.mag_filter == Filter::Linear,
            r.min_filter == Filter::Linear,
            r.wrap_s == Wrap::Repeat,
            r.wrap_t == Wrap::Repeat,
    {
        Self {
            mag_filter: Filter::Linear,
            min_filter: Filter::Linear,
            wrap_s: Wrap::Repeat,
            wrap_t: Wrap::Repeat,
        }
    }
}

/// A 2D texture paired with its sampling properties, ready to be bound to a
/// sampler slot at draw time.
///
/// The sampler owns a clone of the texture handle, so it shares the
/// texture's destructor: the texture is not released while any sampler
/// still names it.
#[derive(Clone, Debug)]
pub struct Sampler {
    /// The sampled texture.
    pub texture: Texture2,

    /// The sampling properties.
    pub properties: Sampler2,
}

impl Sampler {
    /// Constructor.
    pub fn new(texture: Texture2, properties: Sampler2) -> (r: Self)
        ensures
            r.texture == texture,
            r.properties == properties,
    {
        Self { texture, properties }
    }

    /// Returns the driver ID of the sampled texture.
    pub fn id(&self) -> (r: u32)
        ensures
            r == self.texture.id,
    {
        self.texture.id
    }

    /// The driver constant of the sampled texture's kind.
    pub open spec fn spec_ty(self) -> u32 {
        gl::TEXTURE_2D
    }

    /// Returns the driver constant of the sampled texture's kind.
    pub fn ty(&self) -> (r: u32)
        ensures
            r == gl::TEXTURE_2D,
    {
        gl::TEXTURE_2D
    }
}

} // verus!
