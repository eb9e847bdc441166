//! A lean, verified wrapper around a hardware-accelerated rendering interface.
//!
//! The crate models GPU resources (buffers, textures, vertex arrays, shader
//! programs, framebuffers) as reference-counted handles around driver-assigned
//! numeric IDs.  Dropping the last owner of a handle enqueues a deferred
//! release message on a bounded channel instead of calling into the driver;
//! the factory drains these queues at controlled points.  Every operation
//! that mutates driver state is described by a list of plain [`factory::Command`]
//! values whose exact contents are stated in the contracts; an embedding
//! executes those commands against the real driver.

pub mod buffer;
pub mod draw;
pub mod draw_call;
pub mod factory;
pub mod framebuffer;
pub mod gl;
pub mod image;
pub mod pipeline;
pub mod program;
pub mod queue;
pub mod renderbuffer;
pub mod sampler;
pub mod shader;
pub mod texture;
pub mod vertex_array;

pub use buffer::Accessor;
pub use buffer::Buffer;
pub use draw_call::DrawCall;
pub use factory::Command;
pub use factory::Factory;
pub use framebuffer::Framebuffer;
pub use pipeline::State;
pub use program::Invocation;
pub use program::Program;
pub use renderbuffer::Renderbuffer;
pub use sampler::Sampler;
pub use sampler::Sampler2;
pub use texture::Texture2;
pub use vertex_array::VertexArray;
