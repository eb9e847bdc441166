//! Program interface binding: required names bind to their slots or fail
//! loudly, unassigned names never fail.

use gpu::factory::Command;
use gpu::gl;
use gpu::program::{Bindings, InterfaceError, SamplerBinding, UniformBlockBinding};
use gpu::Factory;

#[test]
fn all_unassigned_bindings_always_resolve() {
    let factory = Factory::new();
    let bindings = Bindings::default();
    let result = factory.program(31, &bindings, &[None; 4], &[None; 4]);
    let (program, commands) = result.expect("an interface without required names always resolves");
    assert_eq!(program.id(), 31);
    assert_eq!(commands.len(), 0);
    assert_eq!(program.samplers, [None, None, None, None]);
}

#[test]
fn required_block_binds_to_its_slot() {
    let factory = Factory::new();
    let bindings = Bindings {
        uniform_blocks: [
            UniformBlockBinding::Required(b"b_Locals\0"),
            UniformBlockBinding::Unassigned,
            UniformBlockBinding::Required(b"b_Globals\0"),
            UniformBlockBinding::Unassigned,
        ],
        samplers: [
            SamplerBinding::Unassigned,
            SamplerBinding::Required(b"u_Sampler\0"),
            SamplerBinding::Unassigned,
            SamplerBinding::Unassigned,
        ],
    };
    let block_indices = [Some(5), None, Some(2), None];
    let sampler_locations = [None, Some(7), None, None];
    let (program, commands) = factory
        .program(31, &bindings, &block_indices, &sampler_locations)
        .expect("all required names were found");
    assert_eq!(
        commands,
        vec![
            Command::UniformBlockBinding { program: 31, index: 5, binding: 0 },
            Command::UniformBlockBinding { program: 31, index: 2, binding: 2 },
        ]
    );
    assert_eq!(program.samplers, [None, Some(7), None, None]);
}

#[test]
fn missing_required_block_is_fatal() {
    let factory = Factory::new();
    let bindings = Bindings {
        uniform_blocks: [
            UniformBlockBinding::Unassigned,
            UniformBlockBinding::Required(b"b_Missing\0"),
            UniformBlockBinding::Unassigned,
            UniformBlockBinding::Unassigned,
        ],
        samplers: [SamplerBinding::Unassigned; 4],
    };
    let result = factory.program(31, &bindings, &[None; 4], &[None; 4]);
    assert_eq!(
        result.err(),
        Some(InterfaceError::MissingUniformBlock { binding: 1, name: b"b_Missing\0" })
    );
}

#[test]
fn missing_required_sampler_is_fatal() {
    let factory = Factory::new();
    let bindings = Bindings {
        uniform_blocks: [UniformBlockBinding::Unassigned; 4],
        samplers: [
            SamplerBinding::Unassigned,
            SamplerBinding::Unassigned,
            SamplerBinding::Unassigned,
            SamplerBinding::Required(b"u_Missing\0"),
        ],
    };
    let result = factory.program(8, &bindings, &[None; 4], &[None; 4]);
    assert_eq!(
        result.err(),
        Some(InterfaceError::MissingSampler { binding: 3, name: b"u_Missing\0" })
    );
}

#[test]
fn first_missing_block_wins() {
    let factory = Factory::new();
    let bindings = Bindings {
        uniform_blocks: [
            UniformBlockBinding::Required(b"b_First\0"),
            UniformBlockBinding::Required(b"b_Second\0"),
            UniformBlockBinding::Unassigned,
            UniformBlockBinding::Unassigned,
        ],
        samplers: [SamplerBinding::Required(b"u_Third\0"); 4],
    };
    let result = factory.program(8, &bindings, &[None; 4], &[None; 4]);
    assert_eq!(
        result.err(),
        Some(InterfaceError::MissingUniformBlock { binding: 0, name: b"b_First\0" })
    );
}

#[test]
fn query_translation() {
    let factory = Factory::new();
    assert_eq!(factory.query_uniform_block_index(gl::INVALID_INDEX), None);
    assert_eq!(factory.query_uniform_block_index(3), Some(3));
    assert_eq!(factory.query_uniform_index(-1), None);
    assert_eq!(factory.query_uniform_index(12), Some(12));
}

#[test]
fn link_and_shader_commands() {
    let factory = Factory::new();
    let (vertex, vertex_commands) = factory.shader(41, gpu::shader::Kind::Vertex);
    let (fragment, _fragment_commands) = factory.shader(42, gpu::shader::Kind::Fragment);
    assert_eq!(
        vertex_commands,
        vec![
            Command::ShaderSource { shader: 41 },
            Command::CompileShader { shader: 41 },
        ]
    );
    let link_commands = factory.link(43, &vertex, &fragment);
    assert_eq!(
        link_commands,
        vec![
            Command::AttachShader { program: 43, shader: 41 },
            Command::AttachShader { program: 43, shader: 42 },
            Command::LinkProgram { id: 43 },
        ]
    );
    assert_eq!(gpu::shader::Kind::Vertex.as_gl_enum(), gl::VERTEX_SHADER);
    assert_eq!(gpu::shader::Kind::Fragment.as_gl_enum(), gl::FRAGMENT_SHADER);
}
