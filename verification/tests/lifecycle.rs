//! Handle lifecycle: reference-counted sharing and deferred release through
//! the factory's bounded queues.

use gpu::buffer;
use gpu::program::Destroyed;
use gpu::texture;
use gpu::Factory;
use gpu::Renderbuffer;

#[test]
fn deferred_release_roundtrip() {
    let factory = Factory::new();
    let buffer = factory.buffer(7, buffer::Kind::Array, buffer::Usage::StaticDraw);
    assert_eq!(buffer.id(), 7);
    assert_eq!(factory.buffer_queue.next(), None);
    drop(buffer);
    assert_eq!(factory.buffer_queue.next(), Some(7));
    assert_eq!(factory.buffer_queue.next(), None);
}

#[test]
fn clones_share_one_release() {
    let factory = Factory::new();
    let buffer = factory.buffer(11, buffer::Kind::Uniform, buffer::Usage::DynamicDraw);
    let first = buffer.clone();
    let second = buffer.clone();
    assert_eq!(first.id(), buffer.id());
    assert_eq!(second.id(), buffer.id());
    assert!(first == second);
    drop(first);
    drop(second);
    assert_eq!(factory.buffer_queue.next(), None);
    drop(buffer);
    assert_eq!(factory.buffer_queue.next(), Some(11));
    assert_eq!(factory.buffer_queue.next(), None);
}

#[test]
fn accessor_keeps_buffer_alive() {
    let factory = Factory::new();
    let buffer = factory.buffer(3, buffer::Kind::Array, buffer::Usage::StaticDraw);
    let accessor = gpu::Accessor::new(buffer.clone(), buffer::format::Format::F32(3), 0, 12);
    drop(buffer);
    assert_eq!(factory.buffer_queue.next(), None);
    drop(accessor);
    assert_eq!(factory.buffer_queue.next(), Some(3));
}

#[test]
fn texture_release_roundtrip() {
    let factory = Factory::new();
    let format = texture::Format::U8(texture::format::U8::Rgba);
    let (texture, _commands) = factory.texture2(5, 16, 16, false, format);
    assert_eq!(texture.width(), 16);
    assert_eq!(texture.height(), 16);
    assert_eq!(texture.mipmap(), false);
    drop(texture);
    assert_eq!(factory.texture_queue.next(), Some(5));
}

#[test]
fn sampler_keeps_texture_alive() {
    let factory = Factory::new();
    let format = texture::Format::U8(texture::format::U8::Rgba);
    let (texture, _commands) = factory.texture2(9, 1, 1, false, format);
    let sampler = gpu::Sampler::new(texture.clone(), gpu::Sampler2::default());
    assert_eq!(sampler.id(), 9);
    assert_eq!(sampler.ty(), gpu::gl::TEXTURE_2D);
    drop(texture);
    assert_eq!(factory.texture_queue.next(), None);
    drop(sampler);
    assert_eq!(factory.texture_queue.next(), Some(9));
}

#[test]
fn shader_and_program_release_roundtrip() {
    let factory = Factory::new();
    let (object, _commands) = factory.shader(21, gpu::shader::Kind::Vertex);
    drop(object);
    assert_eq!(factory.program_queue.next(), Some(Destroyed::Object(21)));
    let bindings = gpu::program::Bindings::default();
    let (program, _commands) = factory
        .program(22, &bindings, &[None; 4], &[None; 4])
        .expect("an interface without required names always resolves");
    drop(program);
    assert_eq!(factory.program_queue.next(), Some(Destroyed::Program(22)));
    assert_eq!(factory.program_queue.next(), None);
}

#[test]
fn vertex_array_release_roundtrip() {
    let factory = Factory::new();
    let attributes = [None, None, None, None, None, None, None, None];
    let (vertex_array, _commands) = factory.vertex_array(13, attributes, None);
    assert_eq!(vertex_array.id(), 13);
    drop(vertex_array);
    assert_eq!(factory.vertex_array_queue.next(), Some(13));
}

#[test]
fn implicit_renderbuffer_is_never_released() {
    let factory = Factory::new();
    let implicit = Renderbuffer::implicit();
    assert_eq!(implicit.id(), 0);
    drop(implicit);
    assert_eq!(factory.renderbuffer_queue.next(), None);
}

#[test]
fn renderbuffer_release_roundtrip() {
    let factory = Factory::new();
    let format = texture::Format::U8(texture::format::U8::Rgb);
    let (renderbuffer, _commands) = factory.renderbuffer(17, 64, 64, 1, format);
    assert_eq!(renderbuffer.id(), 17);
    drop(renderbuffer);
    assert_eq!(factory.renderbuffer_queue.next(), Some(17));
}

#[test]
fn handles_of_one_id_compare_equal() {
    let factory = Factory::new();
    let a = factory.buffer(2, buffer::Kind::Array, buffer::Usage::StaticDraw);
    let b = a.clone();
    assert!(a == b);
    assert_eq!(a.id(), b.id());
    let c = factory.buffer(4, buffer::Kind::Array, buffer::Usage::StaticDraw);
    assert!(a != c);
    drop(a);
    drop(b);
    drop(c);
    assert_eq!(factory.buffer_queue.next(), Some(2));
    assert_eq!(factory.buffer_queue.next(), Some(4));
    assert_eq!(factory.buffer_queue.next(), None);
}
