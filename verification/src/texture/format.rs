//! Texture storage format descriptors.

use vstd::prelude::*;

verus! {

/// 32-bit float format.
#[derive(Clone, Copy, Debug, Eq, Hash, PartialEq)]
pub enum F32 {
    /// Corresponds to `GL_DEPTH_COMPONENT32F`.
    Depth,

    /// Corresponds to `GL_RGB32F`.
    Rgb,

    /// Corresponds to `GL_RGBA32F`.
    Rgba,
}

/// 8-bit fixed format.
#[derive(Clone, Copy, Debug, Eq, Hash, PartialEq)]
pub enum U8 {
    /// Corresponds to `GL_RGB8`.
    Rgb,

    /// Corresponds to `GL_RGBA8`.
    Rgba,
}

} // verus!
