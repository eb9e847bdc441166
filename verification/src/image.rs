//! CPU-visible pixel layout descriptors.

use vstd::prelude::*;
use crate::gl;

verus! {

/// Pixel format where every channel is an unsigned 8-bit integer.
#[derive(Clone, Copy, Debug, Eq, Hash, PartialEq)]
pub enum U8 {
    /// `[R; R; R; R; R, ...]`
    R,

    /// `[R, G; R, G; R, ...]`
    Rg,

    /// `[R, G, B; R, G, ...]`
    Rgb,

    /// `[B, G, R; B, G, ...]`
    Bgr,

    /// `[R, G, B, A; R, ...]`
    Rgba,

    /// `[B, G, R, A; R, ...]`
    Bgra,
}

/// Pixel format where every channel is an unsigned 32-bit integer.
#[derive(Clone, Copy, Debug, Eq, Hash, PartialEq)]
pub enum U32 {
    /// `[R; R; R; R; R, ...]`
    R,

    /// `[R, G; R, G; R, ...]`
    Rg,

    /// `[R, G, B; R, G, ...]`
    Rgb,

    /// `[B, G, R; B, G, ...]`
    Bgr,

    /// `[R, G, B, A; R, ...]`
    Rgba,

    /// `[B, G, R, A; R, ...]`
    Bgra,
}

/// Pixel format where every channel is a 32-bit floating point number.
#[derive(Clone, Copy, Debug, Eq, Hash, PartialEq)]
pub enum F32 {
    /// `[R; R; R; R; R, ...]`
    R,

    /// `[R, G; R, G; R, ...]`
    Rg,

    /// `[R, G, B; R, G, ...]`
    Rgb,

    /// `[B, G, R; B, G, ...]`
    Bgr,

    /// `[R, G, B, A; R, ...]`
    Rgba,

    /// `[B, G, R, A; R, ...]`
    Bgra,
}

/// An image pixel format: a component type paired with a channel order.
#[derive(Clone, Copy, Debug, Eq, Hash, PartialEq)]
pub enum Format {
    /// 32-bit floating point format.
    F32(F32),

    /// 8-bit unsigned integer format.
    U8(U8),

    /// 32-bit unsigned integer format.
    U32(U32),
}

impl Format {
    /// The driver constants: the component data type paired with the channel
    /// order.
    pub open spec fn spec_as_gl_enums(self) -> (u32, u32) {
        match self {
            Format::F32(F32::R) => (gl::FLOAT, gl::RED),
            Format::F32(F32::Rg) => (gl::FLOAT, gl::RG),
            Format::F32(F32::Rgb) => (gl::FLOAT, gl::RGB),
            Format::F32(F32::Bgr) => (gl::FLOAT, gl::BGR),
            Format::F32(F32::Rgba) => (gl::FLOAT, gl::RGBA),
            Format::F32(F32::Bgra) => (gl::FLOAT, gl::BGRA),
            Format::U8(U8::R) => (gl::UNSIGNED_BYTE, gl::RED),
            Format::U8(U8::Rg) => (gl::UNSIGNED_BYTE, gl::RG),
            Format::U8(U8::Rgb) => (gl::UNSIGNED_BYTE, gl::RGB),
            Format::U8(U8::Bgr) => (gl::UNSIGNED_BYTE, gl::BGR),
            Format::U8(U8::Rgba) => (gl::UNSIGNED_BYTE, gl::RGBA),
            Format::U8(U8::Bgra) => (gl::UNSIGNED_BYTE, gl::BGRA),
            Format::U32(U32::R) => (gl::UNSIGNED_INT, gl::RED),
            Format::U32(U32::Rg) => (gl::UNSIGNED_INT, gl::RG),
            Format::U32(U32::Rgb) => (gl::UNSIGNED_INT, gl::RGB),
            Format::U32(U32::Bgr) => (gl::UNSIGNED_INT, gl::BGR),
            Format::U32(U32::Rgba) => (gl::UNSIGNED_INT, gl::RGBA),
            Format::U32(U32::Bgra) => (gl::UNSIGNED_INT, gl::BGRA),
        }
    }

    /// Returns the equivalent driver enumeration constants, the component
    /// data type first and the channel order second.
    #[verifier::when_used_as_spec(spec_as_gl_enums)]
    pub fn as_gl_enums(self) -> (r: (u32, u32))
        ensures
            r == self.spec_as_gl_enums(),
    {
        match self {
            Format::F32(F32::R) => (gl::FLOAT, gl::RED),
            Format::F32(F32::Rg) => (gl::FLOAT, gl::RG),
            Format::F32(F32::Rgb) => (gl::FLOAT, gl::RGB),
            Format::F32(F32::Bgr) => (gl::FLOAT, gl::BGR),
            Format::F32(F32::Rgba) => (gl::FLOAT, gl::RGBA),
            Format::F32(F32::Bgra) => (gl::FLOAT, gl::BGRA),
            Format::U8(U8::R) => (gl::UNSIGNED_BYTE, gl::RED),
            Format::U8(U8::Rg) => (gl::UNSIGNED_BYTE, gl::RG),
            Format::U8(U8::Rgb) => (gl::UNSIGNED_BYTE, gl::RGB),
            Format::U8(U8::Bgr) => (gl::UNSIGNED_BYTE, gl::BGR),
            Format::U8(U8::Rgba) => (gl::UNSIGNED_BYTE, gl::RGBA),
            Format::U8(U8::Bgra) => (gl::UNSIGNED_BYTE, gl::BGRA),
            Format::U32(U32::R) => (gl::UNSIGNED_INT, gl::RED),
            Format::U32(U32::Rg) => (gl::UNSIGNED_INT, gl::RG),
            Format::U32(U32::Rgb) => (gl::UNSIGNED_INT, gl::RGB),
            Format::U32(U32::Bgr) => (gl::UNSIGNED_INT, gl::BGR),
            Format::U32(U32::Rgba) => (gl::UNSIGNED_INT, gl::RGBA),
            Format::U32(U32::Bgra) => (gl::UNSIGNED_INT, gl::BGRA),
        }
    }
}

} // verus!
