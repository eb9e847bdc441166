//! End-to-end scenario: upload a small vertex buffer, bake a vertex array,
//! build a pass-through program without required bindings, and dispatch an
//! arrays draw against the default framebuffer.

use gpu::buffer;
use gpu::buffer::format::Format;
use gpu::draw_call::{DrawCall, Kind, Primitive};
use gpu::factory::Command;
use gpu::framebuffer::ColorAttachment;
use gpu::gl;
use gpu::texture;
use gpu::Accessor;
use gpu::Factory;
use gpu::Framebuffer;
use gpu::Invocation;
use gpu::State;

#[test]
fn triangle_scenario() {
    let factory = Factory::new();

    // A buffer of 3 vertices, each a 3-float position: 36 bytes.
    let vertex_buffer = factory.buffer(1, buffer::Kind::Array, buffer::Usage::StaticDraw);
    let upload = factory.initialize_buffer(&vertex_buffer, 36);
    assert_eq!(
        upload,
        vec![
            Command::BindBuffer { target: gl::ARRAY_BUFFER, id: 1 },
            Command::BufferData { target: gl::ARRAY_BUFFER, len: 36, usage: gl::STATIC_DRAW },
            Command::BindBuffer { target: gl::ARRAY_BUFFER, id: 0 },
        ]
    );

    // One attribute at offset 0 with stride 12.
    let positions = Accessor::new(vertex_buffer.clone(), Format::F32(3), 0, 12);
    let attributes = [Some(positions), None, None, None, None, None, None, None];
    let (vertex_array, setup) = factory.vertex_array(2, attributes, None);
    assert_eq!(
        setup,
        vec![
            Command::BindVertexArray { id: 2 },
            Command::BindBuffer { target: gl::ARRAY_BUFFER, id: 1 },
            Command::EnableVertexAttribArray { index: 0 },
            Command::VertexAttribPointer {
                index: 0,
                size: 3,
                data_type: gl::FLOAT,
                norm: false,
                stride: 12,
                offset: 0,
            },
            Command::BindVertexArray { id: 0 },
        ]
    );

    // A trivial pass-through program with no required interface bindings.
    let (vertex_shader, _commands) = factory.shader(3, gpu::shader::Kind::Vertex);
    let (fragment_shader, _commands) = factory.shader(4, gpu::shader::Kind::Fragment);
    let link = factory.link(5, &vertex_shader, &fragment_shader);
    assert_eq!(link.len(), 3);
    let bindings = gpu::program::Bindings::default();
    let (program, binding_commands) = factory
        .program(5, &bindings, &[None; 4], &[None; 4])
        .expect("an interface without required names always resolves");
    assert_eq!(binding_commands.len(), 0);

    // An arrays draw with offset 0 and count 3 against the default target.
    let framebuffer = Framebuffer::external();
    let call = DrawCall { offset: 0, count: 3, primitive: Primitive::Triangles, kind: Kind::Arrays };
    let invocation = Invocation { program: &program, uniforms: [None; 4], samplers: [None; 4] };
    let commands = factory
        .draw(&framebuffer, (800, 600), &State::default(), &vertex_array, &call, &invocation)
        .expect("an arrays dispatch always succeeds");
    assert_eq!(
        commands,
        vec![
            Command::BindFramebuffer { id: 0 },
            Command::Viewport { x: 0, y: 0, w: 800, h: 600 },
            Command::Enable { state: gl::CULL_FACE },
            Command::CullFace { mode: gl::BACK },
            Command::FrontFace { mode: gl::CCW },
            Command::Enable { state: gl::DEPTH_TEST },
            Command::DepthFunc { func: gl::LESS },
            Command::BindVertexArray { id: 2 },
            Command::UseProgram { id: 5 },
            Command::PolygonMode { face: gl::FRONT_AND_BACK, mode: gl::FILL },
            Command::DrawArrays { mode: gl::TRIANGLES, offset: 0, count: 3 },
            Command::UseProgram { id: 0 },
            Command::BindVertexArray { id: 0 },
        ]
    );
}

#[test]
fn textured_draw_binds_sampler_slots() {
    let factory = Factory::new();
    let format = texture::Format::U8(texture::format::U8::Rgba);
    let (texture, allocation) = factory.texture2(6, 1, 1, true, format);
    assert_eq!(
        allocation,
        vec![
            Command::BindTexture { target: gl::TEXTURE_2D, id: 6 },
            Command::TexImage2d {
                target: gl::TEXTURE_2D,
                internal_format: gl::RGBA8,
                width: 1,
                height: 1,
                format: gl::RGBA,
                data_type: gl::UNSIGNED_BYTE,
                with_data: false,
            },
            Command::GenerateMipmap { target: gl::TEXTURE_2D },
            Command::BindTexture { target: gl::TEXTURE_2D, id: 0 },
        ]
    );

    let write = factory.write_texture2(&texture, gpu::image::Format::U8(gpu::image::U8::Rgba));
    assert_eq!(
        write,
        vec![
            Command::BindTexture { target: gl::TEXTURE_2D, id: 6 },
            Command::TexImage2d {
                target: gl::TEXTURE_2D,
                internal_format: gl::RGBA8,
                width: 1,
                height: 1,
                format: gl::RGBA,
                data_type: gl::UNSIGNED_BYTE,
                with_data: true,
            },
            Command::GenerateMipmap { target: gl::TEXTURE_2D },
            Command::BindTexture { target: gl::TEXTURE_2D, id: 0 },
        ]
    );

    let read = factory.read_texture2(&texture, gpu::image::Format::U8(gpu::image::U8::Rgba));
    assert_eq!(
        read,
        vec![
            Command::BindTexture { target: gl::TEXTURE_2D, id: 6 },
            Command::GetTexImage {
                target: gl::TEXTURE_2D,
                format: gl::RGBA,
                data_type: gl::UNSIGNED_BYTE,
            },
        ]
    );

    let sampler = gpu::Sampler::new(texture, gpu::Sampler2::default());
    let uniform_buffer = factory.buffer(7, buffer::Kind::Uniform, buffer::Usage::DynamicDraw);
    let (vertex_array, _commands) =
        factory.vertex_array(8, [None, None, None, None, None, None, None, None], None);
    let bindings = gpu::program::Bindings::default();
    let (program, _commands) = factory
        .program(9, &bindings, &[None; 4], &[None; 4])
        .expect("an interface without required names always resolves");
    let call = DrawCall { offset: 0, count: 3, primitive: Primitive::Triangles, kind: Kind::Arrays };
    let invocation = Invocation {
        program: &program,
        uniforms: [Some(&uniform_buffer), None, None, None],
        samplers: [Some(&sampler), None, None, None],
    };
    let framebuffer = Framebuffer::external();
    let commands = factory
        .draw(&framebuffer, (32, 32), &State::default(), &vertex_array, &call, &invocation)
        .expect("an arrays dispatch always succeeds");
    assert!(commands.contains(&Command::BindBufferBase {
        target: gl::UNIFORM_BUFFER,
        binding: 0,
        id: 7,
    }));
    assert!(commands.contains(&Command::ActiveTexture { unit: 0 }));
    assert!(commands.contains(&Command::BindTexture { target: gl::TEXTURE_2D, id: 6 }));
    assert!(commands.contains(&Command::TexParameteri {
        target: gl::TEXTURE_2D,
        param: gl::TEXTURE_MAG_FILTER,
        value: gl::LINEAR,
    }));
    assert!(commands.contains(&Command::TexParameteri {
        target: gl::TEXTURE_2D,
        param: gl::TEXTURE_WRAP_T,
        value: gl::REPEAT,
    }));
}

#[test]
fn framebuffer_composition() {
    let factory = Factory::new();
    let format = texture::Format::U8(texture::format::U8::Rgba);
    let (texture, _commands) = factory.texture2(10, 640, 480, false, format);
    let (renderbuffer, _commands) = factory.renderbuffer(11, 640, 480, 1, format);
    let attachments = [
        ColorAttachment::Texture2(texture),
        ColorAttachment::Empty,
        ColorAttachment::Renderbuffer(renderbuffer),
    ];
    let (framebuffer, commands, draw_buffers) = factory.framebuffer(12, 640, 480, attachments);
    assert_eq!(framebuffer.id(), 12);
    assert_eq!(framebuffer.dimensions(), (640, 480));
    assert_eq!(
        commands,
        vec![
            Command::BindFramebuffer { id: 12 },
            Command::FramebufferTexture2d { attachment: 0, texture: 10 },
            Command::FramebufferRenderbuffer { attachment: 2, renderbuffer: 11 },
        ]
    );
    assert_eq!(draw_buffers, vec![gl::COLOR_ATTACHMENT0, gl::COLOR_ATTACHMENT0 + 2]);
}

#[test]
fn renderbuffer_storage_commands() {
    let factory = Factory::new();
    let format = texture::Format::F32(texture::format::F32::Rgba);
    let (_multisampled, commands) = factory.renderbuffer(13, 32, 32, 4, format);
    assert_eq!(
        commands,
        vec![
            Command::BindRenderbuffer { id: 13 },
            Command::RenderbufferStorageMultisample {
                samples: 4,
                format: gl::RGBA32F,
                width: 32,
                height: 32,
            },
        ]
    );
    let (_plain, commands) = factory.renderbuffer(14, 32, 32, 1, format);
    assert_eq!(
        commands,
        vec![
            Command::BindRenderbuffer { id: 14 },
            Command::RenderbufferStorage { format: gl::RGBA32F, width: 32, height: 32 },
        ]
    );
}

#[test]
fn buffer_slices_and_overwrite() {
    let factory = Factory::new();
    let buffer = factory.buffer(15, buffer::Kind::Array, buffer::Usage::DynamicDraw);
    assert_eq!(buffer.kind(), buffer::Kind::Array);
    assert_eq!(buffer.usage(), buffer::Usage::DynamicDraw);
    assert_eq!(buffer.size(), 0);
    let whole = buffer.as_slice();
    assert_eq!(whole.offset(), 0);
    assert_eq!(whole.length(), 0);
    assert_eq!(whole.kind(), buffer::Kind::Array);
    let slice = buffer.slice(16, 8);
    assert_eq!(slice.offset(), 16);
    assert_eq!(slice.length(), 8);
    assert_eq!(slice.buffer().id(), 15);
    let commands = factory.overwrite_buffer(slice);
    assert_eq!(
        commands,
        vec![
            Command::BindBuffer { target: gl::ARRAY_BUFFER, id: 15 },
            Command::BufferSubData { target: gl::ARRAY_BUFFER, offset: 16, len: 8 },
            Command::BindBuffer { target: gl::ARRAY_BUFFER, id: 0 },
        ]
    );
}

#[test]
fn vertex_array_accessors() {
    let factory = Factory::new();
    let buffer = factory.buffer(16, buffer::Kind::Array, buffer::Usage::StaticDraw);
    let accessor = Accessor::new(buffer.clone(), Format::U8Norm(4), 4, 20);
    assert_eq!(accessor.format(), Format::U8Norm(4));
    assert_eq!(accessor.offset(), 4);
    assert_eq!(accessor.stride(), 20);
    assert_eq!(accessor.buffer().id(), 16);
    let attributes = [None, Some(accessor), None, None, None, None, None, None];
    let index_buffer = factory.buffer(17, buffer::Kind::Index, buffer::Usage::StaticDraw);
    let indices = Accessor::new(index_buffer, Format::U32(1), 0, 0);
    let (vertex_array, commands) = factory.vertex_array(18, attributes, Some(indices));
    assert_eq!(commands[1], Command::BindBuffer { target: gl::ELEMENT_ARRAY_BUFFER, id: 17 });
    assert!(vertex_array.attribute(0).is_none());
    let attribute = vertex_array.attribute(1).expect("slot 1 is populated");
    assert_eq!(attribute.stride(), 20);
    let indices = vertex_array.indices().expect("the vertex array has indices");
    assert_eq!(indices.buffer().id(), 17);
}
