//! Enumeration constants of the graphics interface.
//!
//! These are the standard numeric values of the driver's enumeration
//! constants.  Contracts throughout the crate speak of commands in terms of
//! these constants, and the embedding passes them to the driver unchanged.

use vstd::prelude::*;

verus! {

/// Corresponds to `GL_ARRAY_BUFFER`.
pub const ARRAY_BUFFER: u32 = 0x8892;

/// Corresponds to `GL_ELEMENT_ARRAY_BUFFER`.
pub const ELEMENT_ARRAY_BUFFER: u32 = 0x8893;

/// Corresponds to `GL_UNIFORM_BUFFER`.
pub const UNIFORM_BUFFER: u32 = 0x8A11;

/// Corresponds to `GL_TEXTURE_BUFFER`.
pub const TEXTURE_BUFFER: u32 = 0x8C2A;

/// Corresponds to `GL_STATIC_DRAW`.
pub const STATIC_DRAW: u32 = 0x88E4;

/// Corresponds to `GL_DYNAMIC_DRAW`.
pub const DYNAMIC_DRAW: u32 = 0x88E8;

/// Corresponds to `GL_BYTE`.
pub const BYTE: u32 = 0x1400;

/// Corresponds to `GL_UNSIGNED_BYTE`.
pub const UNSIGNED_BYTE: u32 = 0x1401;

/// Corresponds to `GL_SHORT`.
pub const SHORT: u32 = 0x1402;

/// Corresponds to `GL_UNSIGNED_SHORT`.
pub const UNSIGNED_SHORT: u32 = 0x1403;

/// Corresponds to `GL_INT`.
pub const INT: u32 = 0x1404;

/// Corresponds to `GL_UNSIGNED_INT`.
pub const UNSIGNED_INT: u32 = 0x1405;

/// Corresponds to `GL_FLOAT`.
pub const FLOAT: u32 = 0x1406;

/// Corresponds to `GL_LINES`.
pub const LINES: u32 = 0x0001;

/// Corresponds to `GL_LINE_LOOP`.
pub const LINE_LOOP: u32 = 0x0002;

/// Corresponds to `GL_LINE_STRIP`.
pub const LINE_STRIP: u32 = 0x0003;

/// Corresponds to `GL_TRIANGLES`.
pub const TRIANGLES: u32 = 0x0004;

/// Corresponds to `GL_TRIANGLE_STRIP`.
pub const TRIANGLE_STRIP: u32 = 0x0005;

/// Corresponds to `GL_DEPTH_BUFFER_BIT`.
pub const DEPTH_BUFFER_BIT: u32 = 0x0100;

/// Corresponds to `GL_COLOR_BUFFER_BIT`.
pub const COLOR_BUFFER_BIT: u32 = 0x4000;

/// Corresponds to `GL_CULL_FACE`.
pub const CULL_FACE: u32 = 0x0B44;

/// Corresponds to `GL_DEPTH_TEST`.
pub const DEPTH_TEST: u32 = 0x0B71;

/// Corresponds to `GL_FRONT`.
pub const FRONT: u32 = 0x0404;

/// Corresponds to `GL_BACK`.
pub const BACK: u32 = 0x0405;

/// Corresponds to `GL_FRONT_AND_BACK`.
pub const FRONT_AND_BACK: u32 = 0x0408;

/// Corresponds to `GL_CW`.
pub const CW: u32 = 0x0900;

/// Corresponds to `GL_CCW`.
pub const CCW: u32 = 0x0901;

/// Corresponds to `GL_NEVER`.
pub const NEVER: u32 = 0x0200;

/// Corresponds to `GL_LESS`.
pub const LESS: u32 = 0x0201;

/// Corresponds to `GL_ALWAYS`.
pub const ALWAYS: u32 = 0x0207;

/// Corresponds to `GL_POINT`.
pub const POINT: u32 = 0x1B00;

/// Corresponds to `GL_LINE`.
pub const LINE: u32 = 0x1B01;

/// Corresponds to `GL_FILL`.
pub const FILL: u32 = 0x1B02;

/// Corresponds to `GL_TEXTURE_2D`.
pub const TEXTURE_2D: u32 = 0x0DE1;

/// Corresponds to `GL_RED`.
pub const RED: u32 = 0x1903;

/// Corresponds to `GL_RG`.
pub const RG: u32 = 0x8227;

/// Corresponds to `GL_RGB`.
pub const RGB: u32 = 0x1907;

/// Corresponds to `GL_RGBA`.
pub const RGBA: u32 = 0x1908;

/// Corresponds to `GL_BGR`.
pub const BGR: u32 = 0x80E0;

/// Corresponds to `GL_BGRA`.
pub const BGRA: u32 = 0x80E1;

/// Corresponds to `GL_DEPTH_COMPONENT32F`.
pub const DEPTH_COMPONENT32F: u32 = 0x8CAC;

/// Corresponds to `GL_RGB32F`.
pub const RGB32F: u32 = 0x8815;

/// Corresponds to `GL_RGBA32F`.
pub const RGBA32F: u32 = 0x8814;

/// Corresponds to `GL_RGB8`.
pub const RGB8: u32 = 0x8051;

/// Corresponds to `GL_RGBA8`.
pub const RGBA8: u32 = 0x8058;

/// Corresponds to `GL_LINEAR`.
pub const LINEAR: u32 = 0x2601;

/// Corresponds to `GL_REPEAT`.
pub const REPEAT: u32 = 0x2901;

/// Corresponds to `GL_TEXTURE_MAG_FILTER`.
pub const TEXTURE_MAG_FILTER: u32 = 0x2800;

/// Corresponds to `GL_TEXTURE_MIN_FILTER`.
pub const TEXTURE_MIN_FILTER: u32 = 0x2801;

/// Corresponds to `GL_TEXTURE_WRAP_S`.
pub const TEXTURE_WRAP_S: u32 = 0x2802;

/// Corresponds to `GL_TEXTURE_WRAP_T`.
pub const TEXTURE_WRAP_T: u32 = 0x2803;

/// Corresponds to `GL_TEXTURE0`.
pub const TEXTURE0: u32 = 0x84C0;

/// Corresponds to `GL_VERTEX_SHADER`.
pub const VERTEX_SHADER: u32 = 0x8B31;

/// Corresponds to `GL_FRAGMENT_SHADER`.
pub const FRAGMENT_SHADER: u32 = 0x8B30;

/// Corresponds to `GL_COLOR_ATTACHMENT0`.
pub const COLOR_ATTACHMENT0: u32 = 0x8CE0;

/// Corresponds to `GL_INVALID_INDEX`.
pub const INVALID_INDEX: u32 = 0xFFFF_FFFF;

} // verus!
