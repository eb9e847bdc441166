//! Format descriptors: component counts, bit widths, normalization flags,
//! and the driver constants they translate to.

use gpu::buffer;
use gpu::buffer::format::Format;
use gpu::gl;
use gpu::image;
use gpu::texture;

#[test]
fn float_format_roundtrip() {
    let format = Format::F32(3);
    assert_eq!(format.size(), 3);
    assert_eq!(format.norm(), false);
    assert_eq!(format.bits(), 32);
    assert_eq!(format.gl_data_type(), gl::FLOAT);
}

#[test]
fn every_format_variant_roundtrip() {
    let cases: Vec<(Format, u32, bool, u32)> = vec![
        (Format::F32(2), 32, false, gl::FLOAT),
        (Format::I8(2), 8, false, gl::BYTE),
        (Format::I8Norm(2), 8, true, gl::BYTE),
        (Format::I16(2), 16, false, gl::SHORT),
        (Format::I16Norm(2), 16, true, gl::SHORT),
        (Format::I32(2), 32, false, gl::INT),
        (Format::U8(2), 8, false, gl::UNSIGNED_BYTE),
        (Format::U8Norm(2), 8, true, gl::UNSIGNED_BYTE),
        (Format::U16(2), 16, false, gl::UNSIGNED_SHORT),
        (Format::U16Norm(2), 16, true, gl::UNSIGNED_SHORT),
        (Format::U32(2), 32, false, gl::UNSIGNED_INT),
    ];
    for (format, bits, norm, data_type) in cases {
        assert_eq!(format.size(), 2);
        assert_eq!(format.bits(), bits);
        assert_eq!(format.norm(), norm);
        assert_eq!(format.gl_data_type(), data_type);
    }
}

#[test]
fn format_size_bounds() {
    assert_eq!(Format::U8(1).size(), 1);
    assert_eq!(Format::U32(4).size(), 4);
}

#[test]
fn buffer_kind_constants() {
    assert_eq!(buffer::Kind::Array.as_gl_enum(), gl::ARRAY_BUFFER);
    assert_eq!(buffer::Kind::Index.as_gl_enum(), gl::ELEMENT_ARRAY_BUFFER);
    assert_eq!(buffer::Kind::Uniform.as_gl_enum(), gl::UNIFORM_BUFFER);
    assert_eq!(buffer::Kind::Texture.as_gl_enum(), gl::TEXTURE_BUFFER);
    assert_eq!(buffer::Usage::StaticDraw.as_gl_enum(), gl::STATIC_DRAW);
    assert_eq!(buffer::Usage::DynamicDraw.as_gl_enum(), gl::DYNAMIC_DRAW);
}

#[test]
fn image_format_constants() {
    assert_eq!(
        image::Format::U8(image::U8::Rgba).as_gl_enums(),
        (gl::UNSIGNED_BYTE, gl::RGBA)
    );
    assert_eq!(
        image::Format::F32(image::F32::R).as_gl_enums(),
        (gl::FLOAT, gl::RED)
    );
    assert_eq!(
        image::Format::U32(image::U32::Bgra).as_gl_enums(),
        (gl::UNSIGNED_INT, gl::BGRA)
    );
}

#[test]
fn texture_format_constants() {
    assert_eq!(
        texture::Format::U8(texture::format::U8::Rgba).as_gl_enum(),
        gl::RGBA8
    );
    assert_eq!(
        texture::Format::U8(texture::format::U8::Rgb).as_gl_enum(),
        gl::RGB8
    );
    assert_eq!(
        texture::Format::F32(texture::format::F32::Depth).as_gl_enum(),
        gl::DEPTH_COMPONENT32F
    );
    assert_eq!(
        texture::Format::F32(texture::format::F32::Rgba).as_gl_enum(),
        gl::RGBA32F
    );
}
