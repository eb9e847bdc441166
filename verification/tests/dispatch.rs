//! Draw dispatch: mode coverage, clear operations, and pipeline state
//! translation.

use gpu::buffer;
use gpu::buffer::format::Format;
use gpu::draw_call::{DrawCall, Kind, Primitive};
use gpu::factory::{Command, DrawError};
use gpu::framebuffer::{ClearColor, ClearDepth, ClearOp};
use gpu::gl;
use gpu::pipeline::{Culling, PolygonMode, Viewport};
use gpu::Accessor;
use gpu::Factory;
use gpu::Framebuffer;
use gpu::Invocation;
use gpu::State;

fn empty_attributes() -> [Option<Accessor>; 8] {
    [None, None, None, None, None, None, None, None]
}

#[test]
fn arrays_dispatch_succeeds() {
    let factory = Factory::new();
    let (vertex_array, _commands) = factory.vertex_array(1, empty_attributes(), None);
    let bindings = gpu::program::Bindings::default();
    let (program, _commands) = factory
        .program(2, &bindings, &[None; 4], &[None; 4])
        .expect("an interface without required names always resolves");
    let call = DrawCall { offset: 0, count: 3, primitive: Primitive::Triangles, kind: Kind::Arrays };
    let invocation = Invocation { program: &program, uniforms: [None; 4], samplers: [None; 4] };
    let framebuffer = Framebuffer::external();
    let commands = factory
        .draw(&framebuffer, (640, 480), &State::default(), &vertex_array, &call, &invocation)
        .expect("an arrays dispatch always succeeds");
    assert!(commands.contains(&Command::DrawArrays { mode: gl::TRIANGLES, offset: 0, count: 3 }));
    assert_eq!(commands[0], Command::BindFramebuffer { id: 0 });
    assert_eq!(commands[1], Command::Viewport { x: 0, y: 0, w: 640, h: 480 });
    assert_eq!(commands[commands.len() - 2], Command::UseProgram { id: 0 });
    assert_eq!(commands[commands.len() - 1], Command::BindVertexArray { id: 0 });
}

#[test]
fn elements_dispatch_succeeds() {
    let factory = Factory::new();
    let index_buffer = factory.buffer(3, buffer::Kind::Index, buffer::Usage::StaticDraw);
    let indices = Accessor::new(index_buffer, Format::U16(1), 0, 0);
    let (vertex_array, _commands) = factory.vertex_array(4, empty_attributes(), Some(indices));
    let bindings = gpu::program::Bindings::default();
    let (program, _commands) = factory
        .program(5, &bindings, &[None; 4], &[None; 4])
        .expect("an interface without required names always resolves");
    let call = DrawCall { offset: 0, count: 6, primitive: Primitive::Triangles, kind: Kind::Elements };
    let invocation = Invocation { program: &program, uniforms: [None; 4], samplers: [None; 4] };
    let framebuffer = Framebuffer::external();
    let commands = factory
        .draw(&framebuffer, (64, 64), &State::default(), &vertex_array, &call, &invocation)
        .expect("an elements dispatch succeeds when the vertex array has indices");
    assert!(commands.contains(&Command::DrawElements {
        mode: gl::TRIANGLES,
        offset: 0,
        count: 6,
        data_type: gl::UNSIGNED_SHORT,
    }));
}

#[test]
fn elements_without_indices_fails() {
    let factory = Factory::new();
    let (vertex_array, _commands) = factory.vertex_array(6, empty_attributes(), None);
    let bindings = gpu::program::Bindings::default();
    let (program, _commands) = factory
        .program(7, &bindings, &[None; 4], &[None; 4])
        .expect("an interface without required names always resolves");
    let call = DrawCall { offset: 0, count: 3, primitive: Primitive::Triangles, kind: Kind::Elements };
    let invocation = Invocation { program: &program, uniforms: [None; 4], samplers: [None; 4] };
    let framebuffer = Framebuffer::external();
    let result =
        factory.draw(&framebuffer, (64, 64), &State::default(), &vertex_array, &call, &invocation);
    assert_eq!(result.err(), Some(DrawError::MissingIndices));
}

#[test]
fn instanced_dispatch_never_silently_succeeds() {
    let factory = Factory::new();
    let (vertex_array, _commands) = factory.vertex_array(8, empty_attributes(), None);
    let bindings = gpu::program::Bindings::default();
    let (program, _commands) = factory
        .program(9, &bindings, &[None; 4], &[None; 4])
        .expect("an interface without required names always resolves");
    let invocation = Invocation { program: &program, uniforms: [None; 4], samplers: [None; 4] };
    let framebuffer = Framebuffer::external();
    for kind in [Kind::ArraysInstanced(2), Kind::ElementsInstanced(2)] {
        let call = DrawCall { offset: 0, count: 3, primitive: Primitive::Triangles, kind };
        let result = factory.draw(
            &framebuffer,
            (64, 64),
            &State::default(),
            &vertex_array,
            &call,
            &invocation,
        );
        assert_eq!(result.err(), Some(DrawError::Unimplemented));
    }
}

#[test]
fn disabled_culling_and_explicit_viewport() {
    let factory = Factory::new();
    let (vertex_array, _commands) = factory.vertex_array(10, empty_attributes(), None);
    let bindings = gpu::program::Bindings::default();
    let (program, _commands) = factory
        .program(11, &bindings, &[None; 4], &[None; 4])
        .expect("an interface without required names always resolves");
    let call = DrawCall { offset: 0, count: 3, primitive: Primitive::Triangles, kind: Kind::Arrays };
    let invocation = Invocation { program: &program, uniforms: [None; 4], samplers: [None; 4] };
    let framebuffer = Framebuffer::external();
    let state = State {
        culling: Culling::Disabled,
        polygon_mode: PolygonMode::Line(2),
        viewport: Some(Viewport { x: 10, y: 20, w: 30, h: 40 }),
        ..State::default()
    };
    let commands = factory
        .draw(&framebuffer, (640, 480), &state, &vertex_array, &call, &invocation)
        .expect("an arrays dispatch always succeeds");
    assert_eq!(commands[1], Command::Viewport { x: 10, y: 20, w: 30, h: 40 });
    assert!(commands.contains(&Command::Disable { state: gl::CULL_FACE }));
    assert!(!commands.contains(&Command::Enable { state: gl::CULL_FACE }));
    assert!(commands.contains(&Command::PolygonMode { face: gl::FRONT_AND_BACK, mode: gl::LINE }));
    assert!(commands.contains(&Command::LineWidth { width: 2 }));
}

#[test]
fn clear_color_and_depth_mask() {
    let factory = Factory::new();
    let framebuffer = Framebuffer::external();
    let op = ClearOp {
        color: ClearColor::Yes { r: 0, g: 0, b: 0, a: 0x3F80_0000 },
        depth: ClearDepth::Yes { z: 0x3FF0_0000_0000_0000 },
    };
    let commands = factory.clear(&framebuffer, op);
    assert_eq!(
        commands,
        vec![
            Command::BindFramebuffer { id: 0 },
            Command::ClearColor { r: 0, g: 0, b: 0, a: 0x3F80_0000 },
            Command::ClearDepth { z: 0x3FF0_0000_0000_0000 },
            Command::Clear { ops: gl::COLOR_BUFFER_BIT | gl::DEPTH_BUFFER_BIT },
        ]
    );
}

#[test]
fn clear_nothing_clears_no_buffer() {
    let factory = Factory::new();
    let framebuffer = Framebuffer::external();
    let op = ClearOp { color: ClearColor::No, depth: ClearDepth::No };
    let commands = factory.clear(&framebuffer, op);
    assert_eq!(
        commands,
        vec![Command::BindFramebuffer { id: 0 }, Command::Clear { ops: 0 }]
    );
}

#[test]
fn pipeline_state_constants() {
    assert_eq!(Culling::Front.as_gl_enum_if_enabled(), Some(gl::FRONT));
    assert_eq!(Culling::Back.as_gl_enum_if_enabled(), Some(gl::BACK));
    assert_eq!(Culling::All.as_gl_enum_if_enabled(), Some(gl::FRONT_AND_BACK));
    assert_eq!(Culling::Disabled.as_gl_enum_if_enabled(), None);
    assert_eq!(gpu::pipeline::DepthTest::Never.as_gl_enum(), gl::NEVER);
    assert_eq!(gpu::pipeline::DepthTest::LessThan.as_gl_enum(), gl::LESS);
    assert_eq!(gpu::pipeline::DepthTest::Always.as_gl_enum(), gl::ALWAYS);
    assert_eq!(gpu::pipeline::FrontFace::Clockwise.as_gl_enum(), gl::CW);
    assert_eq!(gpu::pipeline::FrontFace::CounterClockwise.as_gl_enum(), gl::CCW);
    assert_eq!(PolygonMode::Fill.as_gl_enum(), gl::FILL);
    assert_eq!(PolygonMode::Point(1).as_gl_enum(), gl::POINT);
    assert_eq!(PolygonMode::Line(1).as_gl_enum(), gl::LINE);
    let state = State::default();
    assert_eq!(state.culling, Culling::Back);
    assert_eq!(state.viewport, None);
}

#[test]
fn draw_module_call_descriptor() {
    let call = gpu::draw::Call {
        offset: 0,
        count: 3,
        primitive: gpu::draw::Primitive::Triangles,
        mode: gpu::draw::Mode::Arrays,
    };
    assert_eq!(call.primitive.as_gl_enum(), gl::TRIANGLES);
    assert_eq!(call.mode, gpu::draw::Mode::Arrays);
    assert_ne!(call.mode, gpu::draw::Mode::ArraysInstanced(2));
}
