//! Buffer format descriptors.

use vstd::prelude::*;
use crate::gl;

verus! {

/// 32-bit floating point number.
#[derive(Clone, Copy, Debug, Eq, Hash, Ord, PartialEq, PartialOrd)]
pub struct F32(pub u8);

/// Signed 8-bit integer.
#[derive(Clone, Copy, Debug, Eq, Hash, Ord, PartialEq, PartialOrd)]
pub struct I8(pub u8);

/// Signed normalized 8-bit rational.
#[derive(Clone, Copy, Debug, Eq, Hash, Ord, PartialEq, PartialOrd)]
pub struct I8Norm(pub u8);

/// Signed 16-bit integer.
#[derive(Clone, Copy, Debug, Eq, Hash, Ord, PartialEq, PartialOrd)]
pub struct I16(pub u8);

/// Signed normalized 16-bit rational.
#[derive(Clone, Copy, Debug, Eq, Hash, Ord, PartialEq, PartialOrd)]
pub struct I16Norm(pub u8);

/// Signed 32-bit integer.
#[derive(Clone, Copy, Debug, Eq, Hash, Ord, PartialEq, PartialOrd)]
pub struct I32(pub u8);

/// Unsigned 8-bit integer.
#[derive(Clone, Copy, Debug, Eq, Hash, Ord, PartialEq, PartialOrd)]
pub struct U8(pub u8);

/// Unsigned normalized 8-bit rational.
#[derive(Clone, Copy, Debug, Eq, Hash, Ord, PartialEq, PartialOrd)]
pub struct U8Norm(pub u8);

/// Unsigned 16-bit integer.
#[derive(Clone, Copy, Debug, Eq, Hash, Ord, PartialEq, PartialOrd)]
pub struct U16(pub u8);

/// Unsigned normalized 16-bit rational.
#[derive(Clone, Copy, Debug, Eq, Hash, Ord, PartialEq, PartialOrd)]
pub struct U16Norm(pub u8);

/// Unsigned 32-bit integer.
#[derive(Clone, Copy, Debug, Eq, Hash, Ord, PartialEq, PartialOrd)]
pub struct U32(pub u8);

/// Describes the data format of an individual item in an accessor.
///
/// Each variant carries the number of components per element, which must lie
/// between 1 and 4.
#[derive(Clone, Copy, Debug, Eq, Hash, PartialEq)]
pub enum Format {
    /// 32-bit floating point number.
    F32(u8),

    /// Signed 8-bit integer.
    I8(u8),

    /// Signed normalized 8-bit rational.
    I8Norm(u8),

    /// Signed 16-bit integer.
    I16(u8),

    /// Signed normalized 16-bit rational.
    I16Norm(u8),

    /// Signed 32-bit integer.
    I32(u8),

    /// Unsigned 8-bit integer.
    U8(u8),

    /// Unsigned normalized 8-bit rational.
    U8Norm(u8),

    /// Unsigned 16-bit integer.
    U16(u8),

    /// Unsigned normalized 16-bit rational.
    U16Norm(u8),

    /// Unsigned 32-bit integer.
    U32(u8),
}

impl Format {
    /// The declared number of components per element, whatever the variant.
    pub open spec fn count(self) -> u8 {
        match self {
            Format::F32(size) => size,
            Format::I8(size) => size,
            Format::I8Norm(size) => size,
            Format::I16(size) => size,
            Format::I16Norm(size) => size,
            Format::I32(size) => size,
            Format::U8(size) => size,
            Format::U8Norm(size) => size,
            Format::U16(size) => size,
            Format::U16Norm(size) => size,
            Format::U32(size) => size,
        }
    }

    /// A format is well formed when it declares 1 to 4 components.
    pub open spec fn valid(self) -> bool {
        1 <= self.count() <= 4
    }

    /// The driver data-type constant of the format's component type.
    pub open spec fn spec_gl_data_type(self) -> u32 {
        match self {
            Format::F32(_) => gl::FLOAT,
            Format::I8(_) | Format::I8Norm(_) => gl::BYTE,
            Format::I16(_) | Format::I16Norm(_) => gl::SHORT,
            Format::I32(_) => gl::INT,
            Format::U8(_) | Format::U8Norm(_) => gl::UNSIGNED_BYTE,
            Format::U16(_) | Format::U16Norm(_) => gl::UNSIGNED_SHORT,
            Format::U32(_) => gl::UNSIGNED_INT,
        }
    }

    /// Returns the corresponding driver data-type enumeration constant.
    #[verifier::when_used_as_spec(spec_gl_data_type)]
    pub fn gl_data_type(self) -> (r: u32)
        ensures
            r == self.spec_gl_data_type(),
    {
        match self {
            Format::F32(_) => gl::FLOAT,
            Format::I8(_) | Format::I8Norm(_) => gl::BYTE,
            Format::I16(_) | Format::I16Norm(_) => gl::SHORT,
            Format::I32(_) => gl::INT,
            Format::U8(_) | Format::U8Norm(_) => gl::UNSIGNED_BYTE,
            Format::U16(_) | Format::U16Norm(_) => gl::UNSIGNED_SHORT,
            Format::U32(_) => gl::UNSIGNED_INT,
        }
    }

    /// Whether this is a normalized type.
    pub open spec fn spec_norm(self) -> bool {
        match self {
            Format::I8Norm(_) => true,
            Format::I16Norm(_) => true,
            Format::U8Norm(_) => true,
            Format::U16Norm(_) => true,
            _ => false,
        }
    }

    /// Returns true if this is a normalized type.
    #[verifier::when_used_as_spec(spec_norm)]
    pub fn norm(self) -> (r: bool)
        ensures
            r == self.spec_norm(),
    {
        match self {
            Format::I8Norm(_) => true,
            Format::I16Norm(_) => true,
            Format::U8Norm(_) => true,
            Format::U16Norm(_) => true,
            _ => false,
        }
    }

    /// The bit width of one component.
    pub open spec fn spec_bits(self) -> u32 {
        match self {
            Format::F32(_) => 32,
            Format::I8(_) | Format::I8Norm(_) => 8,
            Format::I16(_) | Format::I16Norm(_) => 16,
            Format::I32(_) => 32,
            Format::U8(_) | Format::U8Norm(_) => 8,
            Format::U16(_) | Format::U16Norm(_) => 16,
            Format::U32(_) => 32,
        }
    }

    /// Returns the bit width of one component.
    #[verifier::when_used_as_spec(spec_bits)]
    pub fn bits(self) -> (r: u32)
        ensures
            r == self.spec_bits(),
    {
        match self {
            Format::F32(_) => 32,
            Format::I8(_) | Format::I8Norm(_) => 8,
            Format::I16(_) | Format::I16Norm(_) => 16,
            Format::I32(_) => 32,
            Format::U8(_) | Format::U8Norm(_) => 8,
            Format::U16(_) | Format::U16Norm(_) => 16,
            Format::U32(_) => 32,
        }
    }

    /// Returns the number of components per element.
    ///
    /// A component count outside 1 to 4 is a construction error, which this
    /// layer treats as fatal; such formats are excluded here.
    pub fn size(self) -> (r: usize)
        requires
            self.valid(),
        ensures
            r == self.count(),
    {
        let size: u8 = match self {
            Format::F32(size) => size,
            Format::I8(size) => size,
            Format::I8Norm(size) => size,
            Format::I16(size) => size,
            Format::I16Norm(size) => size,
            Format::I32(size) => size,
            Format::U8(size) => size,
            Format::U8Norm(size) => size,
            Format::U16(size) => size,
            Format::U16Norm(size) => size,
            Format::U32(size) => size,
        };
        size as usize
    }
}

/// Accessor format round-trip: for every variant and every declared
/// component count, the count, the normalization flag and the bit width
/// read back exactly as constructed, and a format is valid exactly when its
/// declared count lies between 1 and 4 — outside that range `size` refuses
/// the format, which this layer treats as a construction error.
pub proof fn lemma_format_roundtrip(n: u8)
    ensures
        forall|format: Format| #[trigger] format.valid() <==> 1 <= format.count() <= 4,
        Format::F32(n).count() == n && !Format::F32(n).spec_norm() && Format::F32(n).spec_bits()
            == 32,
        Format::I8(n).count() == n && !Format::I8(n).spec_norm() && Format::I8(n).spec_bits() == 8,
        Format::I8Norm(n).count() == n && Format::I8Norm(n).spec_norm()
            && Format::I8Norm(n).spec_bits() == 8,
        Format::I16(n).count() == n && !Format::I16(n).spec_norm() && Format::I16(n).spec_bits()
            == 16,
        Format::I16Norm(n).count() == n && Format::I16Norm(n).spec_norm()
            && Format::I16Norm(n).spec_bits() == 16,
        Format::I32(n).count() == n && !Format::I32(n).spec_norm() && Format::I32(n).spec_bits()
            == 32,
        Format::U8(n).count() == n && !Format::U8(n).spec_norm() && Format::U8(n).spec_bits() == 8,
        Format::U8Norm(n).count() == n && Format::U8Norm(n).spec_norm()
            && Format::U8Norm(n).spec_bits() == 8,
        Format::U16(n).count() == n && !Format::U16(n).spec_norm() && Format::U16(n).spec_bits()
            == 16,
        Format::U16Norm(n).count() == n && Format::U16Norm(n).spec_norm()
            && Format::U16Norm(n).spec_bits() == 16,
        Format::U32(n).count() == n && !Format::U32(n).spec_norm() && Format::U32(n).spec_bits()
            == 32,
{
}

} // verus!
