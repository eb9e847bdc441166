//! The factory: the one component that drives the graphics driver.
//!
//! Every driver-state mutation the factory decides on is described by a
//! [`Command`] value carrying plain data.  A factory operation takes the
//! values the driver has already produced (generated IDs, interface query
//! results) and returns the handles it wraps together with the exact command
//! sequence to issue, stated in its contract.  The embedding executes each
//! command against the real driver in order, pairing it with the caller's
//! data where a command reads or fills caller memory.

use vstd::prelude::*;
use crate::buffer;
use crate::buffer::{Accessor, Buffer, Slice};
use crate::draw_call;
use crate::draw_call::DrawCall;
use crate::framebuffer::{
    ClearColor,
    ClearDepth,
    ClearOp,
    ColorAttachment,
    DepthStencilAttachment,
    Dimensions,
    Framebuffer,
    MAX_COLOR_ATTACHMENTS,
};
use crate::gl;
use crate::image;
use crate::pipeline::{PolygonMode, State};
use crate::program::{
    Bindings,
    Destroyed,
    InterfaceError,
    Invocation,
    Program,
    SamplerBinding,
    UniformBlockBinding,
    MAX_SAMPLERS,
    MAX_UNIFORM_BLOCKS,
};
use crate::queue::Queue;
use crate::renderbuffer::Renderbuffer;
use crate::sampler::Sampler;
use crate::shader;
use crate::shader::Object;
use crate::texture;
use crate::texture::Texture2;
use crate::vertex_array;
use crate::vertex_array::{VertexArray, MAX_ATTRIBUTES};

verus! {

/// One driver call, as plain data.
///
/// Commands that read or fill caller memory (buffer uploads, texture
/// transfers, shader sources) carry everything but the memory itself; the
/// embedding pairs them with the caller's data when executing.
#[derive(Clone, Copy, Debug, Eq, PartialEq, Structural)]
pub enum Command {
    /// Bind the framebuffer with the given ID.
    BindFramebuffer {
        /// The framebuffer ID.
        id: u32,
    },

    /// Set the viewport rectangle.
    Viewport {
        /// X offset in pixels.
        x: u32,
        /// Y offset in pixels.
        y: u32,
        /// Width in pixels.
        w: u32,
        /// Height in pixels.
        h: u32,
    },

    /// Enable a fixed-function capability.
    Enable {
        /// The capability constant.
        state: u32,
    },

    /// Disable a fixed-function capability.
    Disable {
        /// The capability constant.
        state: u32,
    },

    /// Select which faces are culled.
    CullFace {
        /// The face-selection constant.
        mode: u32,
    },

    /// Select the front-face winding order.
    FrontFace {
        /// The winding-order constant.
        mode: u32,
    },

    /// Select the depth comparison function.
    DepthFunc {
        /// The comparison-function constant.
        func: u32,
    },

    /// Select the polygon rasterization method for the given faces.
    PolygonMode {
        /// The face-selection constant.
        face: u32,
        /// The rasterization-method constant.
        mode: u32,
    },

    /// Set the point size; the value converts to single precision.
    PointSize {
        /// The size in pixels.
        size: i32,
    },

    /// Set the line width; the value converts to single precision.
    LineWidth {
        /// The width in pixels.
        width: i32,
    },

    /// Set the color-clear value from per-channel IEEE 754 bit patterns.
    ClearColor {
        /// Bit pattern of the red channel value.
        r: u32,
        /// Bit pattern of the green channel value.
        g: u32,
        /// Bit pattern of the blue channel value.
        b: u32,
        /// Bit pattern of the alpha channel value.
        a: u32,
    },

    /// Set the depth-clear value from an IEEE 754 bit pattern.
    ClearDepth {
        /// Bit pattern of the depth value.
        z: u64,
    },

    /// Clear the buffers selected by the mask.
    Clear {
        /// The buffer-selection bit mask.
        ops: u32,
    },

    /// Bind a buffer to a target.
    BindBuffer {
        /// The buffer target constant.
        target: u32,
        /// The buffer ID; 0 unbinds.
        id: u32,
    },

    /// Allocate the bound buffer's storage and fill it from the caller's
    /// data.
    BufferData {
        /// The buffer target constant.
        target: u32,
        /// The number of bytes to upload.
        len: usize,
        /// The usage-hint constant.
        usage: u32,
    },

    /// Overwrite a byte range of the bound buffer from the caller's data.
    BufferSubData {
        /// The buffer target constant.
        target: u32,
        /// The byte offset of the range.
        offset: usize,
        /// The number of bytes to overwrite.
        len: usize,
    },

    /// Bind a vertex array.
    BindVertexArray {
        /// The vertex array ID; 0 unbinds.
        id: u32,
    },

    /// Enable a vertex attribute slot.
    EnableVertexAttribArray {
        /// The attribute slot.
        index: u8,
    },

    /// Describe how a vertex attribute reads the bound array buffer.
    VertexAttribPointer {
        /// The attribute slot.
        index: u8,
        /// Components per element, 1 to 4.
        size: usize,
        /// The component data-type constant.
        data_type: u32,
        /// Whether fixed-point components are normalized.
        norm: bool,
        /// Bytes between consecutive elements.
        stride: usize,
        /// Byte offset of the first element.
        offset: usize,
    },

    /// Bind a texture to a target.
    BindTexture {
        /// The texture target constant.
        target: u32,
        /// The texture ID; 0 unbinds.
        id: u32,
    },

    /// Allocate the bound texture's storage, filling it from the caller's
    /// data when `with_data` is set and leaving it undefined otherwise.
    TexImage2d {
        /// The texture target constant.
        target: u32,
        /// The internal storage-format constant.
        internal_format: u32,
        /// Width in pixels.
        width: u32,
        /// Height in pixels.
        height: u32,
        /// The pixel channel-order constant of the caller's data.
        format: u32,
        /// The pixel component-type constant of the caller's data.
        data_type: u32,
        /// Whether the caller supplies pixel data.
        with_data: bool,
    },

    /// Read the bound texture's contents back into the caller's memory.
    GetTexImage {
        /// The texture target constant.
        target: u32,
        /// The pixel channel-order constant of the caller's memory.
        format: u32,
        /// The pixel component-type constant of the caller's memory.
        data_type: u32,
    },

    /// Generate mipmaps for the bound texture.
    GenerateMipmap {
        /// The texture target constant.
        target: u32,
    },

    /// Set a sampling parameter of the bound texture.
    TexParameteri {
        /// The texture target constant.
        target: u32,
        /// The parameter constant.
        param: u32,
        /// The parameter value.
        value: u32,
    },

    /// Activate the texture unit with the given index.
    ActiveTexture {
        /// The texture unit index.
        unit: u32,
    },

    /// Bind a buffer to an indexed binding point of a target.
    BindBufferBase {
        /// The buffer target constant.
        target: u32,
        /// The binding point.
        binding: u32,
        /// The buffer ID.
        id: u32,
    },

    /// Select the program used by draw dispatches; 0 deselects.
    UseProgram {
        /// The program ID.
        id: u32,
    },

    /// Hand the shader object the caller's source text.
    ShaderSource {
        /// The shader object ID.
        shader: u32,
    },

    /// Compile the shader object's source; failure is fatal.
    CompileShader {
        /// The shader object ID.
        shader: u32,
    },

    /// Attach a compiled shader object to a program.
    AttachShader {
        /// The program ID.
        program: u32,
        /// The shader object ID.
        shader: u32,
    },

    /// Link the attached shader objects; failure is fatal.
    LinkProgram {
        /// The program ID.
        id: u32,
    },

    /// Assign a uniform block to a binding point.
    UniformBlockBinding {
        /// The program ID.
        program: u32,
        /// The block index the driver reported for the block's name.
        index: u32,
        /// The binding point to assign.
        binding: u32,
    },

    /// Bind a renderbuffer.
    BindRenderbuffer {
        /// The renderbuffer ID.
        id: u32,
    },

    /// Allocate the bound renderbuffer's storage.
    RenderbufferStorage {
        /// The internal storage-format constant.
        format: u32,
        /// Width in pixels.
        width: u32,
        /// Height in pixels.
        height: u32,
    },

    /// Allocate the bound renderbuffer's storage with multisampling.
    RenderbufferStorageMultisample {
        /// The number of samples per pixel.
        samples: u32,
        /// The internal storage-format constant.
        format: u32,
        /// Width in pixels.
        width: u32,
        /// Height in pixels.
        height: u32,
    },

    /// Attach a texture to a color attachment slot of the bound framebuffer.
    FramebufferTexture2d {
        /// The color attachment slot.
        attachment: u32,
        /// The texture ID.
        texture: u32,
    },

    /// Attach a renderbuffer to a color attachment slot of the bound
    /// framebuffer.
    FramebufferRenderbuffer {
        /// The color attachment slot.
        attachment: u32,
        /// The renderbuffer ID.
        renderbuffer: u32,
    },

    /// Dispatch a non-indexed draw.
    DrawArrays {
        /// The primitive topology constant.
        mode: u32,
        /// The first vertex.
        offset: usize,
        /// The number of vertices.
        count: usize,
    },

    /// Dispatch an indexed draw using the bound element array buffer.
    DrawElements {
        /// The primitive topology constant.
        mode: u32,
        /// The byte offset of the first index.
        offset: usize,
        /// The number of indices.
        count: usize,
        /// The component data-type constant of the indices.
        data_type: u32,
    },
}

/// A draw call the factory refuses to dispatch.
#[derive(Clone, Copy, Debug, Eq, Hash, PartialEq)]
pub enum DrawError {
    /// Instanced dispatch is declared in the type system but deliberately
    /// not implemented; dispatching it must fail loudly, never no-op.
    Unimplemented,

    /// An `Elements` draw call needs a vertex array with an index accessor.
    MissingIndices,
}

/// Driver memory manager.
///
/// The factory owns one deferred-release queue per resource category.  It is
/// the sole consumer of those queues; the handles it creates hold the send
/// halves.
pub struct Factory {
    /// Destroyed buffers arrive here to be destroyed or recycled.
    pub buffer_queue: Queue<u32>,

    /// Destroyed textures arrive here to be destroyed or recycled.
    pub texture_queue: Queue<u32>,

    /// Destroyed renderbuffers arrive here to be destroyed or recycled.
    pub renderbuffer_queue: Queue<u32>,

    /// Destroyed vertex arrays arrive here to be destroyed or recycled.
    pub vertex_array_queue: Queue<u32>,

    /// Destroyed shader objects and programs arrive here to be destroyed or
    /// recycled.
    pub program_queue: Queue<Destroyed>,
}

/// The buffer-selection mask of a clear operation.
pub open spec fn clear_mask(op: ClearOp) -> u32 {
    (if op.color is Yes {
        gl::COLOR_BUFFER_BIT
    } else {
        0
    }) | (if op.depth is Yes {
        gl::DEPTH_BUFFER_BIT
    } else {
        0
    })
}

/// The command sequence of a clear operation: bind the target, set the
/// requested clear values, then clear exactly the selected buffers.
pub open spec fn clear_commands(id: u32, op: ClearOp) -> Seq<Command> {
    seq![Command::BindFramebuffer { id }] + (match op.color {
        ClearColor::Yes { r, g, b, a } => seq![Command::ClearColor { r, g, b, a }],
        ClearColor::No => Seq::empty(),
    }) + (match op.depth {
        ClearDepth::Yes { z } => seq![Command::ClearDepth { z }],
        ClearDepth::No => Seq::empty(),
    }) + seq![Command::Clear { ops: clear_mask(op) }]
}

/// The command sequence that (re)-initializes a buffer's whole contents:
/// bind, upload `len` bytes under the buffer's usage hint, unbind.
pub open spec fn initialize_buffer_commands(buffer: Buffer, len: usize) -> Seq<Command> {
    seq![
        Command::BindBuffer { target: buffer.kind.spec_as_gl_enum(), id: buffer.id },
        Command::BufferData {
            target: buffer.kind.spec_as_gl_enum(),
            len,
            usage: buffer.usage.spec_as_gl_enum(),
        },
        Command::BindBuffer { target: buffer.kind.spec_as_gl_enum(), id: 0 },
    ]
}

/// The command sequence that overwrites the byte range of a buffer slice:
/// bind, upload into `[offset, offset + length)`, unbind.
pub open spec fn overwrite_buffer_commands(slice: Slice) -> Seq<Command> {
    seq![
        Command::BindBuffer { target: slice.buffer.kind.spec_as_gl_enum(), id: slice.buffer.id },
        Command::BufferSubData {
            target: slice.buffer.kind.spec_as_gl_enum(),
            offset: slice.offset,
            len: slice.length,
        },
        Command::BindBuffer { target: slice.buffer.kind.spec_as_gl_enum(), id: 0 },
    ]
}

/// The command sequence that compiles one shader object from the caller's
/// source text.
pub open spec fn shader_commands(id: u32) -> Seq<Command> {
    seq![Command::ShaderSource { shader: id }, Command::CompileShader { shader: id }]
}

/// The command sequence that attaches two compiled objects to a program and
/// links them.
pub open spec fn link_commands(id: u32, vertex: Object, fragment: Object) -> Seq<Command> {
    seq![
        Command::AttachShader { program: id, shader: vertex.id },
        Command::AttachShader { program: id, shader: fragment.id },
        Command::LinkProgram { id },
    ]
}

/// A required interface name whose driver query found nothing.
pub open spec fn block_missing(binding: UniformBlockBinding, index: Option<u32>) -> bool {
    binding is Required && index is None
}

/// A required sampler name whose driver query found nothing.
pub open spec fn sampler_missing(binding: SamplerBinding, location: Option<u32>) -> bool {
    binding is Required && location is None
}

/// The binding command of one uniform block slot: a required slot whose
/// index was found is bound, any other slot issues nothing.
pub open spec fn block_binding_commands(
    program: u32,
    binding: UniformBlockBinding,
    index: Option<u32>,
    slot: u32,
) -> Seq<Command> {
    match binding {
        UniformBlockBinding::Required(_) => match index {
            Some(index) => seq![Command::UniformBlockBinding { program, index, binding: slot }],
            None => Seq::empty(),
        },
        UniformBlockBinding::Unassigned => Seq::empty(),
    }
}

/// The sampler location recorded for one slot: a required slot records what
/// the driver reported, an unassigned slot records nothing.
pub open spec fn resolved_sampler(binding: SamplerBinding, location: Option<u32>) -> Option<u32> {
    match binding {
        SamplerBinding::Required(_) => location,
        SamplerBinding::Unassigned => None,
    }
}

/// The command sequence that allocates a 2D texture with undefined initial
/// contents, generating mipmaps when asked to.
pub open spec fn texture2_commands(
    id: u32,
    width: u32,
    height: u32,
    mipmap: bool,
    format: texture::Format,
) -> Seq<Command> {
    seq![
        Command::BindTexture { target: gl::TEXTURE_2D, id },
        Command::TexImage2d {
            target: gl::TEXTURE_2D,
            internal_format: format.spec_as_gl_enum(),
            width,
            height,
            format: gl::RGBA,
            data_type: gl::UNSIGNED_BYTE,
            with_data: false,
        },
    ] + (if mipmap {
        seq![Command::GenerateMipmap { target: gl::TEXTURE_2D }]
    } else {
        Seq::empty()
    }) + seq![Command::BindTexture { target: gl::TEXTURE_2D, id: 0 }]
}

/// The command sequence that reads a texture back into caller memory laid
/// out as the given pixel format.
pub open spec fn read_texture2_commands(texture: Texture2, format: image::Format) -> Seq<Command> {
    seq![
        Command::BindTexture { target: gl::TEXTURE_2D, id: texture.id },
        Command::GetTexImage {
            target: gl::TEXTURE_2D,
            format: format.spec_as_gl_enums().1,
            data_type: format.spec_as_gl_enums().0,
        },
    ]
}

/// The command sequence that (re)-initializes a texture's contents from
/// caller memory laid out as the given pixel format; the driver converts
/// between that layout and the texture's internal storage format.
pub open spec fn write_texture2_commands(texture: Texture2, format: image::Format) -> Seq<Command> {
    seq![
        Command::BindTexture { target: gl::TEXTURE_2D, id: texture.id },
        Command::TexImage2d {
            target: gl::TEXTURE_2D,
            internal_format: texture.format.spec_as_gl_enum(),
            width: texture.width,
            height: texture.height,
            format: format.spec_as_gl_enums().1,
            data_type: format.spec_as_gl_enums().0,
            with_data: true,
        },
    ] + (if texture.mipmap {
        seq![Command::GenerateMipmap { target: gl::TEXTURE_2D }]
    } else {
        Seq::empty()
    }) + seq![Command::BindTexture { target: gl::TEXTURE_2D, id: 0 }]
}

/// The command sequence that allocates a renderbuffer's storage: bind it,
/// then allocate multisample storage with the requested sample count exactly
/// when more than one sample per pixel was asked for, and plain
/// single-sample storage otherwise.
pub open spec fn renderbuffer_commands(
    id: u32,
    width: u32,
    height: u32,
    samples: u32,
    format: texture::Format,
) -> Seq<Command> {
    seq![Command::BindRenderbuffer { id }] + (if samples > 1 {
        seq![
            Command::RenderbufferStorageMultisample {
                samples,
                format: format.spec_as_gl_enum(),
                width,
                height,
            },
        ]
    } else {
        seq![
            Command::RenderbufferStorage { format: format.spec_as_gl_enum(), width, height },
        ]
    })
}

/// The attachment command of one color attachment slot, together with its
/// entry in the draw-buffer list: an empty slot issues nothing and leaves
/// its draw-buffer slot unused.
pub open spec fn attachment_commands(attachment: ColorAttachment, slot: u32) -> Seq<Command> {
    match attachment {
        ColorAttachment::Renderbuffer(renderbuffer) => seq![
            Command::FramebufferRenderbuffer { attachment: slot, renderbuffer: renderbuffer.id },
        ],
        ColorAttachment::Texture2(texture) => seq![
            Command::FramebufferTexture2d { attachment: slot, texture: texture.id },
        ],
        ColorAttachment::Empty => Seq::empty(),
    }
}

/// The draw-buffer list entry of one color attachment slot.
pub open spec fn attachment_draw_buffer(attachment: ColorAttachment, slot: u32) -> Seq<u32> {
    match attachment {
        ColorAttachment::Empty => Seq::empty(),
        _ => seq![(gl::COLOR_ATTACHMENT0 + slot) as u32],
    }
}

/// The viewport command of a draw: an explicit sub-rectangle when the state
/// carries one, else the full dimensions of the target framebuffer, which
/// for the external default target are the ones its context reported.
pub open spec fn viewport_command(
    framebuffer: Framebuffer,
    external_dimensions: (u32, u32),
    state: State,
) -> Command {
    match state.viewport {
        Some(viewport) => Command::Viewport {
            x: viewport.x,
            y: viewport.y,
            w: viewport.w,
            h: viewport.h,
        },
        None => match framebuffer.dimensions {
            Dimensions::Internal { width, height } => Command::Viewport {
                x: 0,
                y: 0,
                w: width,
                h: height,
            },
            Dimensions::External => Command::Viewport {
                x: 0,
                y: 0,
                w: external_dimensions.0,
                h: external_dimensions.1,
            },
        },
    }
}

/// The face-culling commands of a draw: enable and configure culling, or
/// disable it.
pub open spec fn culling_commands(state: State) -> Seq<Command> {
    match state.culling.spec_as_gl_enum_if_enabled() {
        Some(mode) => seq![
            Command::Enable { state: gl::CULL_FACE },
            Command::CullFace { mode },
            Command::FrontFace { mode: state.front_face.spec_as_gl_enum() },
        ],
        None => seq![Command::Disable { state: gl::CULL_FACE }],
    }
}

/// The binding command of one uniform slot of an invocation.
pub open spec fn uniform_slot_commands(uniform: Option<&Buffer>, slot: u32) -> Seq<Command> {
    match uniform {
        Some(buffer) => seq![
            Command::BindBufferBase { target: gl::UNIFORM_BUFFER, binding: slot, id: buffer.id },
        ],
        None => Seq::empty(),
    }
}

/// The binding commands of one sampler slot of an invocation: activate the
/// slot's texture unit, bind the texture, apply its sampling parameters.
pub open spec fn sampler_slot_commands(sampler: Option<&Sampler>, slot: u32) -> Seq<Command> {
    match sampler {
        Some(sampler) => seq![
            Command::ActiveTexture { unit: slot },
            Command::BindTexture { target: gl::TEXTURE_2D, id: sampler.texture.id },
            Command::TexParameteri {
                target: gl::TEXTURE_2D,
                param: gl::TEXTURE_MAG_FILTER,
                value: sampler.properties.mag_filter.spec_as_gl_enum(),
            },
            Command::TexParameteri {
                target: gl::TEXTURE_2D,
                param: gl::TEXTURE_MIN_FILTER,
                value: sampler.properties.min_filter.spec_as_gl_enum(),
            },
            Command::TexParameteri {
                target: gl::TEXTURE_2D,
                param: gl::TEXTURE_WRAP_S,
                value: sampler.properties.wrap_s.spec_as_gl_enum(),
            },
            Command::TexParameteri {
                target: gl::TEXTURE_2D,
                param: gl::TEXTURE_WRAP_T,
                value: sampler.properties.wrap_t.spec_as_gl_enum(),
            },
        ],
        None => Seq::empty(),
    }
}

/// The rasterization commands of a draw: select the polygon mode and, for
/// point or line rasterization, its size or width.
pub open spec fn polygon_commands(state: State) -> Seq<Command> {
    seq![
        Command::PolygonMode {
            face: gl::FRONT_AND_BACK,
            mode: state.polygon_mode.spec_as_gl_enum(),
        },
    ] + (match state.polygon_mode {
        PolygonMode::Point(size) => seq![Command::PointSize { size }],
        PolygonMode::Line(width) => seq![Command::LineWidth { width }],
        PolygonMode::Fill => Seq::empty(),
    })
}

/// The dispatch command of a draw call: `Arrays` draws from the call's
/// offset and count, `Elements` additionally uses the index accessor's
/// component type.
pub open spec fn dispatch_commands(vertex_array: VertexArray, call: DrawCall) -> Seq<Command> {
    match call.kind {
        draw_call::Kind::Arrays => seq![
            Command::DrawArrays {
                mode: call.primitive.spec_as_gl_enum(),
                offset: call.offset,
                count: call.count,
            },
        ],
        draw_call::Kind::Elements => match vertex_array.indices {
            Some(accessor) => seq![
                Command::DrawElements {
                    mode: call.primitive.spec_as_gl_enum(),
                    offset: call.offset,
                    count: call.count,
                    data_type: accessor.format.spec_gl_data_type(),
                },
            ],
            None => Seq::empty(),
        },
        _ => Seq::empty(),
    }
}

/// The full command sequence of one draw: bind the target and resolve the
/// viewport, apply the fixed-function state, bind the vertex array and
/// program, bind the invocation's uniform buffers and samplers slot by slot,
/// select rasterization, dispatch, and defensively unbind the program and
/// vertex array.
pub open spec fn draw_commands(
    framebuffer: Framebuffer,
    external_dimensions: (u32, u32),
    state: State,
    vertex_array: VertexArray,
    call: DrawCall,
    invocation: Invocation,
) -> Seq<Command> {
    seq![
        Command::BindFramebuffer { id: framebuffer.id },
        viewport_command(framebuffer, external_dimensions, state),
    ] + culling_commands(state) + seq![
        Command::Enable { state: gl::DEPTH_TEST },
        Command::DepthFunc { func: state.depth_test.spec_as_gl_enum() },
        Command::BindVertexArray { id: vertex_array.id },
        Command::UseProgram { id: invocation.program.id },
    ] + uniform_slot_commands(invocation.uniforms@[0], 0)
        + uniform_slot_commands(invocation.uniforms@[1], 1)
        + uniform_slot_commands(invocation.uniforms@[2], 2)
        + uniform_slot_commands(invocation.uniforms@[3], 3)
        + sampler_slot_commands(invocation.samplers@[0], 0)
        + sampler_slot_commands(invocation.samplers@[1], 1)
        + sampler_slot_commands(invocation.samplers@[2], 2)
        + sampler_slot_commands(invocation.samplers@[3], 3)
        + polygon_commands(state) + dispatch_commands(vertex_array, call) + seq![
        Command::UseProgram { id: 0 },
        Command::BindVertexArray { id: 0 },
    ]
}

/// The per-slot setup commands of a vertex array: bind the accessor's
/// buffer, enable the slot, and describe the attribute layout from the
/// accessor's format, stride and offset.
pub open spec fn attribute_slot_commands(attribute: Option<Accessor>, slot: u8) -> Seq<Command> {
    match attribute {
        Some(accessor) => seq![
            Command::BindBuffer { target: gl::ARRAY_BUFFER, id: accessor.buffer.id },
            Command::EnableVertexAttribArray { index: slot },
            Command::VertexAttribPointer {
                index: slot,
                size: accessor.format.count() as usize,
                data_type: accessor.format.spec_gl_data_type(),
                norm: accessor.format.spec_norm(),
                stride: accessor.stride,
                offset: accessor.offset,
            },
        ],
        None => Seq::empty(),
    }
}

/// The setup commands of the first `n` attribute slots, in slot order.
pub open spec fn attribute_commands(attributes: Seq<Option<Accessor>>, n: int) -> Seq<Command>
    decreases n,
{
    if n <= 0 {
        Seq::empty()
    } else {
        attribute_commands(attributes, n - 1) + attribute_slot_commands(
            attributes[n - 1],
            (n - 1) as u8,
        )
    }
}

/// The command sequence that bakes accessors into a vertex array object:
/// bind it, bind the optional index buffer, set up every populated
/// attribute slot in order, unbind.
pub open spec fn vertex_array_commands(
    id: u32,
    attributes: Seq<Option<Accessor>>,
    indices: Option<Accessor>,
) -> Seq<Command> {
    seq![Command::BindVertexArray { id }] + (match indices {
        Some(accessor) => seq![
            Command::BindBuffer { target: gl::ELEMENT_ARRAY_BUFFER, id: accessor.buffer.id },
        ],
        None => Seq::empty(),
    }) + attribute_commands(attributes, MAX_ATTRIBUTES as int) + seq![
        Command::BindVertexArray { id: 0 },
    ]
}

impl Factory {
    /// Constructor: one fresh deferred-release queue per resource category.
    pub fn new() -> Self {
        Self {
            buffer_queue: Queue::new(),
            texture_queue: Queue::new(),
            renderbuffer_queue: Queue::new(),
            vertex_array_queue: Queue::new(),
            program_queue: Queue::new(),
        }
    }

    /// Clear the selected buffers of a framebuffer.
    pub fn clear(&self, framebuffer: &Framebuffer, op: ClearOp) -> (commands: Vec<Command>)
        ensures
            commands@ == clear_commands(framebuffer.id, op),
    {
        let mut commands: Vec<Command> = Vec::new();
        commands.push(Command::BindFramebuffer { id: framebuffer.id });
        match op.color {
            ClearColor::Yes { r, g, b, a } => {
                commands.push(Command::ClearColor { r, g, b, a });
            }
            ClearColor::No => {}
        }
        match op.depth {
            ClearDepth::Yes { z } => {
                commands.push(Command::ClearDepth { z });
            }
            ClearDepth::No => {}
        }
        let color_bit: u32 = match op.color {
            ClearColor::Yes { .. } => gl::COLOR_BUFFER_BIT,
            ClearColor::No => 0,
        };
        let depth_bit: u32 = match op.depth {
            ClearDepth::Yes { .. } => gl::DEPTH_BUFFER_BIT,
            ClearDepth::No => 0,
        };
        commands.push(Command::Clear { ops: color_bit | depth_bit });
        proof {
            assert(commands@ =~= clear_commands(framebuffer.id, op));
        }
        commands
    }

    /// (Re)-initialize the contents of a [`Buffer`] with `len` bytes of
    /// caller data.
    pub fn initialize_buffer(&self, buffer: &Buffer, len: usize) -> (commands: Vec<Command>)
        ensures
            commands@ == initialize_buffer_commands(*buffer, len),
    {
        let target = buffer.kind.as_gl_enum();
        let mut commands: Vec<Command> = Vec::new();
        commands.push(Command::BindBuffer { target, id: buffer.id });
        commands.push(Command::BufferData { target, len, usage: buffer.usage.as_gl_enum() });
        commands.push(Command::BindBuffer { target, id: 0 });
        proof {
            assert(commands@ =~= initialize_buffer_commands(*buffer, len));
        }
        commands
    }

    /// Overwrite part of a buffer with caller data.
    ///
    /// The caller must have sized the buffer by a prior full initialization
    /// large enough to contain the slice's range; no bounds check is
    /// performed by this layer.
    pub fn overwrite_buffer(&self, slice: Slice<'_>) -> (commands: Vec<Command>)
        ensures
            commands@ == overwrite_buffer_commands(slice),
    {
        let target = slice.buffer.kind.as_gl_enum();
        let mut commands: Vec<Command> = Vec::new();
        commands.push(Command::BindBuffer { target, id: slice.buffer.id });
        commands.push(Command::BufferSubData { target, offset: slice.offset, len: slice.length });
        commands.push(Command::BindBuffer { target, id: 0 });
        proof {
            assert(commands@ =~= overwrite_buffer_commands(slice));
        }
        commands
    }

    /// Wrap a freshly generated driver buffer ID in a zero-sized handle
    /// bound to the buffer release queue.  No driver storage is allocated
    /// yet.
    pub fn buffer(&self, id: u32, kind: buffer::Kind, usage: buffer::Usage) -> (r: Buffer)
        ensures
            r.id == id,
            r.kind == kind,
            r.size == 0,
            r.usage == usage,
            r.destructor.tx == self.buffer_queue.tx,
            r.wf(),
    {
        Buffer::new(id, kind, 0, usage, self.buffer_queue.tx())
    }

    /// Wrap a freshly generated vertex array ID, baking the given accessors
    /// into it: the returned commands bind each populated attribute slot and
    /// the optional index buffer exactly once, at creation time.
    pub fn vertex_array(
        &self,
        id: u32,
        attributes: [Option<vertex_array::Attribute>; MAX_ATTRIBUTES],
        indices: Option<vertex_array::Indices>,
    ) -> (r: (VertexArray, Vec<Command>))
        requires
            forall|i: int|
                0 <= i < MAX_ATTRIBUTES ==> ((#[trigger] attributes@[i]) matches Some(accessor)
                    ==> accessor.format.valid()),
        ensures
            r.0.id == id,
            r.0.attributes == attributes,
            r.0.indices == indices,
            r.0.destructor.tx == self.vertex_array_queue.tx,
            r.0.wf(),
            r.1@ == vertex_array_commands(id, attributes@, indices),
    {
        let mut commands: Vec<Command> = Vec::new();
        commands.push(Command::BindVertexArray { id });
        match &indices {
            Some(accessor) => {
                commands.push(
                    Command::BindBuffer {
                        target: gl::ELEMENT_ARRAY_BUFFER,
                        id: accessor.buffer.id,
                    },
                );
            }
            None => {}
        }
        let ghost head = commands@;
        let mut binding: usize = 0;
        while binding < MAX_ATTRIBUTES
            invariant
                binding <= MAX_ATTRIBUTES,
                commands@ == head + attribute_commands(attributes@, binding as int),
                forall|i: int|
                    0 <= i < MAX_ATTRIBUTES ==> ((#[trigger] attributes@[i]) matches Some(
                        accessor,
                    ) ==> accessor.format.valid()),
            decreases MAX_ATTRIBUTES - binding,
        {
            match &attributes[binding] {
                Some(accessor) => {
                    commands.push(
                        Command::BindBuffer { target: gl::ARRAY_BUFFER, id: accessor.buffer.id },
                    );
                    commands.push(Command::EnableVertexAttribArray { index: binding as u8 });
                    commands.push(
                        Command::VertexAttribPointer {
                            index: binding as u8,
                            size: accessor.format.size(),
                            data_type: accessor.format.gl_data_type(),
                            norm: accessor.format.norm(),
                            stride: accessor.stride,
                            offset: accessor.offset,
                        },
                    );
                }
                None => {}
            }
            proof {
                assert(commands@ =~= head + attribute_commands(attributes@, binding + 1));
            }
            binding = binding + 1;
        }
        commands.push(Command::BindVertexArray { id: 0 });
        proof {
            assert(commands@ =~= vertex_array_commands(id, attributes@, indices));
        }
        let vertex_array = VertexArray::new(id, attributes, indices, self.vertex_array_queue.tx());
        (vertex_array, commands)
    }

    /// Wrap a freshly created shader object ID: the returned commands hand
    /// the driver the caller's source text and compile it.  A compilation
    /// failure is fatal and surfaces at execution, not here.
    pub fn shader(&self, id: u32, kind: shader::Kind) -> (r: (Object, Vec<Command>))
        ensures
            r.0.id == id,
            r.0.kind == kind,
            r.0.destructor.tx == self.program_queue.tx,
            r.0.wf(),
            r.1@ == shader_commands(id),
    {
        let mut commands: Vec<Command> = Vec::new();
        commands.push(Command::ShaderSource { shader: id });
        commands.push(Command::CompileShader { shader: id });
        let object = Object::new(id, kind, self.program_queue.tx());
        proof {
            assert(commands@ =~= shader_commands(id));
        }
        (object, commands)
    }

    /// The commands that attach two compiled objects to a freshly created
    /// program ID and link them.  A link failure is fatal and surfaces at
    /// execution, not here.
    pub fn link(&self, id: u32, vertex: &Object, fragment: &Object) -> (commands: Vec<Command>)
        ensures
            commands@ == link_commands(id, *vertex, *fragment),
    {
        let mut commands: Vec<Command> = Vec::new();
        commands.push(Command::AttachShader { program: id, shader: vertex.id });
        commands.push(Command::AttachShader { program: id, shader: fragment.id });
        commands.push(Command::LinkProgram { id });
        proof {
            assert(commands@ =~= link_commands(id, *vertex, *fragment));
        }
        commands
    }

    /// Bind a linked program's required interface names to their slots.
    ///
    /// `block_indices` and `sampler_locations` hold, per slot, what the
    /// driver's name queries returned for that slot's required name, and
    /// anything for unassigned slots.  Every required uniform block yields a
    /// binding command for its slot; every required sampler's location is
    /// recorded in the handle.  The first required name whose query found
    /// nothing is the error, uniform blocks before samplers, lower slots
    /// first; the embedding is expected to treat it as fatal.
    pub fn program(
        &self,
        id: u32,
        bindings: &Bindings,
        block_indices: &[Option<u32>; MAX_UNIFORM_BLOCKS],
        sampler_locations: &[Option<u32>; MAX_SAMPLERS],
    ) -> (r: Result<(Program, Vec<Command>), InterfaceError>)
        ensures
            match r {
                Ok((program, commands)) => {
                    &&& forall|i: int|
                        0 <= i < MAX_UNIFORM_BLOCKS ==> !block_missing(
                            #[trigger] bindings.uniform_blocks@[i],
                            block_indices@[i],
                        )
                    &&& forall|i: int|
                        0 <= i < MAX_SAMPLERS ==> !sampler_missing(
                            #[trigger] bindings.samplers@[i],
                            sampler_locations@[i],
                        )
                    &&& program.id == id
                    &&& program.destructor.tx == self.program_queue.tx
                    &&& program.wf()
                    &&& forall|i: int|
                        0 <= i < MAX_SAMPLERS ==> #[trigger] program.samplers@[i]
                            == resolved_sampler(bindings.samplers@[i], sampler_locations@[i])
                    &&& commands@ == block_binding_commands(
                        id,
                        bindings.uniform_blocks@[0],
                        block_indices@[0],
                        0,
                    ) + block_binding_commands(
                        id,
                        bindings.uniform_blocks@[1],
                        block_indices@[1],
                        1,
                    ) + block_binding_commands(
                        id,
                        bindings.uniform_blocks@[2],
                        block_indices@[2],
                        2,
                    ) + block_binding_commands(
                        id,
                        bindings.uniform_blocks@[3],
                        block_indices@[3],
                        3,
                    )
                },
                Err(e) => match e {
                    InterfaceError::MissingUniformBlock { binding, name } => {
                        &&& binding < MAX_UNIFORM_BLOCKS
                        &&& bindings.uniform_blocks@[binding as int]
                            == UniformBlockBinding::Required(name)
                        &&& block_indices@[binding as int] is None
                        &&& forall|j: int|
                            0 <= j < binding ==> !block_missing(
                                #[trigger] bindings.uniform_blocks@[j],
                                block_indices@[j],
                            )
                    },
                    InterfaceError::MissingSampler { binding, name } => {
                        &&& binding < MAX_SAMPLERS
                        &&& bindings.samplers@[binding as int] == SamplerBinding::Required(name)
                        &&& sampler_locations@[binding as int] is None
                        &&& forall|j: int|
                            0 <= j < MAX_UNIFORM_BLOCKS ==> !block_missing(
                                #[trigger] bindings.uniform_blocks@[j],
                                block_indices@[j],
                            )
                        &&& forall|j: int|
                            0 <= j < binding ==> !sampler_missing(
                                #[trigger] bindings.samplers@[j],
                                sampler_locations@[j],
                            )
                    },
                },
            },
    {
        let mut commands: Vec<Command> = Vec::new();
        match bindings.uniform_blocks[0] {
            UniformBlockBinding::Required(name) => match block_indices[0] {
                Some(index) => {
                    commands.push(Command::UniformBlockBinding { program: id, index, binding: 0 });
                }
                None => {
                    return Err(InterfaceError::MissingUniformBlock { binding: 0, name });
                }
            },
            UniformBlockBinding::Unassigned => {}
        }
        match bindings.uniform_blocks[1] {
            UniformBlockBinding::Required(name) => match block_indices[1] {
                Some(index) => {
                    commands.push(Command::UniformBlockBinding { program: id, index, binding: 1 });
                }
                None => {
                    return Err(InterfaceError::MissingUniformBlock { binding: 1, name });
                }
            },
            UniformBlockBinding::Unassigned => {}
        }
        match bindings.uniform_blocks[2] {
            UniformBlockBinding::Required(name) => match block_indices[2] {
                Some(index) => {
                    commands.push(Command::UniformBlockBinding { program: id, index, binding: 2 });
                }
                None => {
                    return Err(InterfaceError::MissingUniformBlock { binding: 2, name });
                }
            },
            UniformBlockBinding::Unassigned => {}
        }
        match bindings.uniform_blocks[3] {
            UniformBlockBinding::Required(name) => match block_indices[3] {
                Some(index) => {
                    commands.push(Command::UniformBlockBinding { program: id, index, binding: 3 });
                }
                None => {
                    return Err(InterfaceError::MissingUniformBlock { binding: 3, name });
                }
            },
            UniformBlockBinding::Unassigned => {}
        }
        let location0 = match bindings.samplers[0] {
            SamplerBinding::Required(name) => match sampler_locations[0] {
                Some(location) => Some(location),
                None => {
                    return Err(InterfaceError::MissingSampler { binding: 0, name });
                }
            },
            SamplerBinding::Unassigned => None,
        };
        let location1 = match bindings.samplers[1] {
            SamplerBinding::Required(name) => match sampler_locations[1] {
                Some(location) => Some(location),
                None => {
                    return Err(InterfaceError::MissingSampler { binding: 1, name });
                }
            },
            SamplerBinding::Unassigned => None,
        };
        let location2 = match bindings.samplers[2] {
            SamplerBinding::Required(name) => match sampler_locations[2] {
                Some(location) => Some(location),
                None => {
                    return Err(InterfaceError::MissingSampler { binding: 2, name });
                }
            },
            SamplerBinding::Unassigned => None,
        };
        let location3 = match bindings.samplers[3] {
            SamplerBinding::Required(name) => match sampler_locations[3] {
                Some(location) => Some(location),
                None => {
                    return Err(InterfaceError::MissingSampler { binding: 3, name });
                }
            },
            SamplerBinding::Unassigned => None,
        };
        let mut program = Program::new(id, self.program_queue.tx());
        program.samplers = [location0, location1, location2, location3];
        proof {
            assert(commands@ =~= block_binding_commands(
                id,
                bindings.uniform_blocks@[0],
                block_indices@[0],
                0,
            ) + block_binding_commands(id, bindings.uniform_blocks@[1], block_indices@[1], 1)
                + block_binding_commands(id, bindings.uniform_blocks@[2], block_indices@[2], 2)
                + block_binding_commands(id, bindings.uniform_blocks@[3], block_indices@[3], 3));
        }
        Ok((program, commands))
    }

    /// Sets the binding index for a named uniform block.
    pub fn set_uniform_block_binding(&self, program: &Program, index: u32, binding: u32) -> (r:
        Command)
        ensures
            r == (Command::UniformBlockBinding { program: program.id, index, binding }),
    {
        Command::UniformBlockBinding { program: program.id, index, binding }
    }

    /// Translates the driver's answer to a uniform-block name query: the
    /// driver's invalid-index sentinel means the name was not found.  This
    /// and the uniform query below are the only two lookups whose absence is
    /// a recoverable, caller-visible outcome.
    pub fn query_uniform_block_index(&self, raw: u32) -> (r: Option<u32>)
        ensures
            r == (if raw == gl::INVALID_INDEX {
                Option::<u32>::None
            } else {
                Some(raw)
            }),
    {
        if raw == gl::INVALID_INDEX {
            None
        } else {
            Some(raw)
        }
    }

    /// Translates the driver's answer to a uniform name query: a negative
    /// location means the name was not found.
    pub fn query_uniform_index(&self, raw: i32) -> (r: Option<u32>)
        ensures
            r == (if raw == -1 {
                Option::<u32>::None
            } else {
                Some(raw as u32)
            }),
    {
        if raw == -1 {
            None
        } else {
            Some(raw as u32)
        }
    }

    /// Wrap a freshly generated texture ID: the returned commands allocate
    /// storage with undefined initial contents and generate mipmaps when
    /// asked to.
    pub fn texture2(
        &self,
        id: u32,
        width: u32,
        height: u32,
        mipmap: bool,
        format: texture::Format,
    ) -> (r: (Texture2, Vec<Command>))
        ensures
            r.0.id == id,
            r.0.width == width,
            r.0.height == height,
            r.0.mipmap == mipmap,
            r.0.format == format,
            r.0.destructor.tx == self.texture_queue.tx,
            r.0.wf(),
            r.1@ == texture2_commands(id, width, height, mipmap, format),
    {
        let mut commands: Vec<Command> = Vec::new();
        commands.push(Command::BindTexture { target: gl::TEXTURE_2D, id });
        commands.push(
            Command::TexImage2d {
                target: gl::TEXTURE_2D,
                internal_format: format.as_gl_enum(),
                width,
                height,
                format: gl::RGBA,
                data_type: gl::UNSIGNED_BYTE,
                with_data: false,
            },
        );
        if mipmap {
            commands.push(Command::GenerateMipmap { target: gl::TEXTURE_2D });
        }
        commands.push(Command::BindTexture { target: gl::TEXTURE_2D, id: 0 });
        let texture = Texture2::new(id, width, height, mipmap, format, self.texture_queue.tx());
        proof {
            assert(commands@ =~= texture2_commands(id, width, height, mipmap, format));
        }
        (texture, commands)
    }

    /// Read back the contents of a [`Texture2`] into caller memory laid out
    /// as the given pixel format.
    pub fn read_texture2(&self, texture: &Texture2, format: image::Format) -> (commands: Vec<
        Command,
    >)
        ensures
            commands@ == read_texture2_commands(*texture, format),
    {
        let (data_type, channel_order) = format.as_gl_enums();
        let mut commands: Vec<Command> = Vec::new();
        commands.push(Command::BindTexture { target: gl::TEXTURE_2D, id: texture.id });
        commands.push(
            Command::GetTexImage { target: gl::TEXTURE_2D, format: channel_order, data_type },
        );
        proof {
            assert(commands@ =~= read_texture2_commands(*texture, format));
        }
        commands
    }

    /// (Re)-initialize the contents of a [`Texture2`] from caller memory
    /// laid out as the given pixel format; the driver converts between that
    /// layout and the texture's internal storage format.
    pub fn write_texture2(&self, texture: &Texture2, format: image::Format) -> (commands: Vec<
        Command,
    >)
        ensures
            commands@ == write_texture2_commands(*texture, format),
    {
        let (data_type, channel_order) = format.as_gl_enums();
        let mut commands: Vec<Command> = Vec::new();
        commands.push(Command::BindTexture { target: gl::TEXTURE_2D, id: texture.id });
        commands.push(
            Command::TexImage2d {
                target: gl::TEXTURE_2D,
                internal_format: texture.format.as_gl_enum(),
                width: texture.width,
                height: texture.height,
                format: channel_order,
                data_type,
                with_data: true,
            },
        );
        if texture.mipmap {
            commands.push(Command::GenerateMipmap { target: gl::TEXTURE_2D });
        }
        commands.push(Command::BindTexture { target: gl::TEXTURE_2D, id: 0 });
        proof {
            assert(commands@ =~= write_texture2_commands(*texture, format));
        }
        commands
    }

    /// Wrap a freshly generated renderbuffer ID: the returned commands
    /// allocate its storage.
    pub fn renderbuffer(
        &self,
        id: u32,
        width: u32,
        height: u32,
        samples: u32,
        format: texture::Format,
    ) -> (r: (Renderbuffer, Vec<Command>))
        requires
            id != 0,
        ensures
            r.0.id == id,
            r.0.destructor matches Some(destructor) && destructor.tx == self.renderbuffer_queue.tx,
            r.0.wf(),
            r.1@ == renderbuffer_commands(id, width, height, samples, format),
    {
        let mut commands: Vec<Command> = Vec::new();
        commands.push(Command::BindRenderbuffer { id });
        if samples > 1 {
            commands.push(
                Command::RenderbufferStorageMultisample {
                    samples,
                    format: format.as_gl_enum(),
                    width,
                    height,
                },
            );
        } else {
            commands.push(
                Command::RenderbufferStorage { format: format.as_gl_enum(), width, height },
            );
        }
        let renderbuffer = Renderbuffer::new(id, self.renderbuffer_queue.tx());
        proof {
            assert(commands@ =~= renderbuffer_commands(id, width, height, samples, format));
        }
        (renderbuffer, commands)
    }

    /// Wrap a freshly generated framebuffer ID: the returned commands bind
    /// it and attach each non-empty color attachment to its slot, and the
    /// returned list holds the draw-buffer constants of exactly the
    /// non-empty slots, in slot order, for the embedding to pass to the
    /// driver's draw-buffer selection in one call.
    pub fn framebuffer(
        &self,
        id: u32,
        width: u32,
        height: u32,
        color_attachments: [ColorAttachment; MAX_COLOR_ATTACHMENTS],
    ) -> (r: (Framebuffer, Vec<Command>, Vec<u32>))
        requires
            id != 0,
        ensures
            r.0.id == id,
            r.0.dimensions == (Dimensions::Internal { width, height }),
            r.0.wf(),
            r.1@ == seq![Command::BindFramebuffer { id }] + attachment_commands(
                color_attachments@[0],
                0,
            ) + attachment_commands(color_attachments@[1], 1) + attachment_commands(
                color_attachments@[2],
                2,
            ),
            r.2@ == attachment_draw_buffer(color_attachments@[0], 0) + attachment_draw_buffer(
                color_attachments@[1],
                1,
            ) + attachment_draw_buffer(color_attachments@[2], 2),
    {
        let mut commands: Vec<Command> = Vec::new();
        let mut draw_buffers: Vec<u32> = Vec::new();
        commands.push(Command::BindFramebuffer { id });
        let mut attachment: usize = 0;
        while attachment < MAX_COLOR_ATTACHMENTS
            invariant
                attachment <= MAX_COLOR_ATTACHMENTS,
                commands@ == seq![Command::BindFramebuffer { id }] + framebuffer_commands_upto(
                    color_attachments@,
                    attachment as int,
                ),
                draw_buffers@ == draw_buffers_upto(color_attachments@, attachment as int),
            decreases MAX_COLOR_ATTACHMENTS - attachment,
        {
            match &color_attachments[attachment] {
                ColorAttachment::Renderbuffer(renderbuffer) => {
                    draw_buffers.push(gl::COLOR_ATTACHMENT0 + attachment as u32);
                    commands.push(
                        Command::FramebufferRenderbuffer {
                            attachment: attachment as u32,
                            renderbuffer: renderbuffer.id,
                        },
                    );
                }
                ColorAttachment::Texture2(texture) => {
                    draw_buffers.push(gl::COLOR_ATTACHMENT0 + attachment as u32);
                    commands.push(
                        Command::FramebufferTexture2d {
                            attachment: attachment as u32,
                            texture: texture.id,
                        },
                    );
                }
                ColorAttachment::Empty => {}
            }
            proof {
                assert(commands@ =~= seq![Command::BindFramebuffer { id }]
                    + framebuffer_commands_upto(color_attachments@, attachment + 1));
                assert(draw_buffers@ =~= draw_buffers_upto(
                    color_attachments@,
                    attachment + 1,
                ));
            }
            attachment = attachment + 1;
        }
        proof {
            assert(framebuffer_commands_upto(color_attachments@, 3)
                =~= framebuffer_commands_upto(color_attachments@, 2) + attachment_commands(
                color_attachments@[2],
                2,
            ));
            assert(framebuffer_commands_upto(color_attachments@, 2)
                =~= framebuffer_commands_upto(color_attachments@, 1) + attachment_commands(
                color_attachments@[1],
                1,
            ));
            assert(framebuffer_commands_upto(color_attachments@, 0) =~= Seq::<Command>::empty());
            assert(framebuffer_commands_upto(color_attachments@, 1) =~= attachment_commands(
                color_attachments@[0],
                0,
            ));
            assert(commands@ =~= seq![Command::BindFramebuffer { id }] + attachment_commands(
                color_attachments@[0],
                0,
            ) + attachment_commands(color_attachments@[1], 1) + attachment_commands(
                color_attachments@[2],
                2,
            ));
            assert(draw_buffers_upto(color_attachments@, 3) =~= draw_buffers_upto(
                color_attachments@,
                2,
            ) + attachment_draw_buffer(color_attachments@[2], 2));
            assert(draw_buffers_upto(color_attachments@, 2) =~= draw_buffers_upto(
                color_attachments@,
                1,
            ) + attachment_draw_buffer(color_attachments@[1], 1));
            assert(draw_buffers_upto(color_attachments@, 0) =~= Seq::<u32>::empty());
            assert(draw_buffers_upto(color_attachments@, 1) =~= attachment_draw_buffer(
                color_attachments@[0],
                0,
            ));
            assert(draw_buffers@ =~= attachment_draw_buffer(color_attachments@[0], 0)
                + attachment_draw_buffer(color_attachments@[1], 1) + attachment_draw_buffer(
                color_attachments@[2],
                2,
            ));
        }
        let framebuffer = Framebuffer::internal(
            id,
            width,
            height,
            color_attachments,
            DepthStencilAttachment::Empty,
        );
        (framebuffer, commands, draw_buffers)
    }

    /// Perform a draw call: the central per-frame operation.
    ///
    /// `external_dimensions` are the dimensions the owning context reported
    /// for the default framebuffer; they resolve the viewport when the state
    /// requests the full target and the target is the external one.
    ///
    /// Dispatch succeeds exactly for `Arrays`, and for `Elements` on a
    /// vertex array holding an index accessor; the declared instanced kinds
    /// are deliberately not implemented and fail loudly, and the embedding
    /// is expected to abort on either error.
    #[verifier::rlimit(100)]
    pub fn draw(
        &self,
        framebuffer: &Framebuffer,
        external_dimensions: (u32, u32),
        state: &State,
        vertex_array: &VertexArray,
        call: &DrawCall,
        invocation: &Invocation<'_>,
    ) -> (r: Result<Vec<Command>, DrawError>)
        ensures
            r is Ok <==> (call.kind is Arrays || (call.kind is Elements
                && vertex_array.indices is Some)),
            match r {
                Ok(commands) => commands@ == draw_commands(
                    *framebuffer,
                    external_dimensions,
                    *state,
                    *vertex_array,
                    *call,
                    *invocation,
                ),
                Err(e) => match e {
                    DrawError::Unimplemented => call.kind is ArraysInstanced
                        || call.kind is ElementsInstanced,
                    DrawError::MissingIndices => call.kind is Elements
                        && vertex_array.indices is None,
                },
            },
    {
        let dispatch: Command = match call.kind {
            draw_call::Kind::Arrays => Command::DrawArrays {
                mode: call.primitive.as_gl_enum(),
                offset: call.offset,
                count: call.count,
            },
            draw_call::Kind::ArraysInstanced(_) => {
                return Err(DrawError::Unimplemented);
            }
            draw_call::Kind::Elements => {
                match vertex_array.indices() {
                    Some(accessor) => Command::DrawElements {
                        mode: call.primitive.as_gl_enum(),
                        offset: call.offset,
                        count: call.count,
                        data_type: accessor.format.gl_data_type(),
                    },
                    None => {
                        return Err(DrawError::MissingIndices);
                    }
                }
            }
            draw_call::Kind::ElementsInstanced(_) => {
                return Err(DrawError::Unimplemented);
            }
        };
        let mut commands: Vec<Command> = Vec::new();
        commands.push(Command::BindFramebuffer { id: framebuffer.id });
        match &state.viewport {
            Some(viewport) => {
                commands.push(
                    Command::Viewport { x: viewport.x, y: viewport.y, w: viewport.w, h: viewport.h },
                );
            }
            None => {
                match &framebuffer.dimensions {
                    Dimensions::Internal { width, height } => {
                        commands.push(Command::Viewport { x: 0, y: 0, w: *width, h: *height });
                    }
                    Dimensions::External => {
                        commands.push(
                            Command::Viewport {
                                x: 0,
                                y: 0,
                                w: external_dimensions.0,
                                h: external_dimensions.1,
                            },
                        );
                    }
                }
            }
        }
        let ghost g1 = seq![
            Command::BindFramebuffer { id: framebuffer.id },
            viewport_command(*framebuffer, external_dimensions, *state),
        ];
        proof {
            assert(commands@ =~= g1);
        }
        self.push_culling_commands(&mut commands, state);
        let ghost g2 = g1 + culling_commands(*state);
        commands.push(Command::Enable { state: gl::DEPTH_TEST });
        commands.push(Command::DepthFunc { func: state.depth_test.as_gl_enum() });
        commands.push(Command::BindVertexArray { id: vertex_array.id });
        commands.push(Command::UseProgram { id: invocation.program.id });
        let ghost g3 = g2 + seq![
            Command::Enable { state: gl::DEPTH_TEST },
            Command::DepthFunc { func: state.depth_test.spec_as_gl_enum() },
            Command::BindVertexArray { id: vertex_array.id },
            Command::UseProgram { id: invocation.program.id },
        ];
        proof {
            assert(commands@ =~= g3);
        }
        self.push_uniform_commands(&mut commands, invocation.uniforms[0], 0);
        self.push_uniform_commands(&mut commands, invocation.uniforms[1], 1);
        self.push_uniform_commands(&mut commands, invocation.uniforms[2], 2);
        self.push_uniform_commands(&mut commands, invocation.uniforms[3], 3);
        let ghost g4 = g3 + uniform_slot_commands(invocation.uniforms@[0], 0)
            + uniform_slot_commands(invocation.uniforms@[1], 1) + uniform_slot_commands(
            invocation.uniforms@[2],
            2,
        ) + uniform_slot_commands(invocation.uniforms@[3], 3);
        proof {
            assert(commands@ == g4);
        }
        self.push_sampler_commands(&mut commands, invocation.samplers[0], 0);
        self.push_sampler_commands(&mut commands, invocation.samplers[1], 1);
        self.push_sampler_commands(&mut commands, invocation.samplers[2], 2);
        self.push_sampler_commands(&mut commands, invocation.samplers[3], 3);
        let ghost g5 = g4 + sampler_slot_commands(invocation.samplers@[0], 0)
            + sampler_slot_commands(invocation.samplers@[1], 1) + sampler_slot_commands(
            invocation.samplers@[2],
            2,
        ) + sampler_slot_commands(invocation.samplers@[3], 3);
        proof {
            assert(commands@ == g5);
        }
        self.push_polygon_commands(&mut commands, state);
        let ghost g6 = g5 + polygon_commands(*state);
        commands.push(dispatch);
        commands.push(Command::UseProgram { id: 0 });
        commands.push(Command::BindVertexArray { id: 0 });
        let ghost g7 = g6 + dispatch_commands(*vertex_array, *call) + seq![
            Command::UseProgram { id: 0 },
            Command::BindVertexArray { id: 0 },
        ];
        proof {
            assert(seq![dispatch] =~= dispatch_commands(*vertex_array, *call));
            assert(commands@ =~= g7);
            assert(g7 =~= draw_commands(
                *framebuffer,
                external_dimensions,
                *state,
                *vertex_array,
                *call,
                *invocation,
            ));
        }
        Ok(commands)
    }

    /// Append the binding commands of one sampler slot of an invocation.
    fn push_sampler_commands(
        &self,
        commands: &mut Vec<Command>,
        sampler: Option<&Sampler>,
        slot: u32,
    )
        ensures
            final(commands)@ == old(commands)@ + sampler_slot_commands(sampler, slot),
    {
        match sampler {
            Some(chosen) => {
                commands.push(Command::ActiveTexture { unit: slot });
                commands.push(Command::BindTexture { target: chosen.ty(), id: chosen.id() });
                commands.push(
                    Command::TexParameteri {
                        target: gl::TEXTURE_2D,
                        param: gl::TEXTURE_MAG_FILTER,
                        value: chosen.properties.mag_filter.as_gl_enum(),
                    },
                );
                commands.push(
                    Command::TexParameteri {
                        target: gl::TEXTURE_2D,
                        param: gl::TEXTURE_MIN_FILTER,
                        value: chosen.properties.min_filter.as_gl_enum(),
                    },
                );
                commands.push(
                    Command::TexParameteri {
                        target: gl::TEXTURE_2D,
                        param: gl::TEXTURE_WRAP_S,
                        value: chosen.properties.wrap_s.as_gl_enum(),
                    },
                );
                commands.push(
                    Command::TexParameteri {
                        target: gl::TEXTURE_2D,
                        param: gl::TEXTURE_WRAP_T,
                        value: chosen.properties.wrap_t.as_gl_enum(),
                    },
                );
                proof {
                    assert(commands@ =~= old(commands)@ + sampler_slot_commands(sampler, slot));
                }
            }
            None => {
                proof {
                    assert(commands@ =~= old(commands)@ + sampler_slot_commands(sampler, slot));
                }
            }
        }
    }

    /// Append the face-culling commands of a draw.
    fn push_culling_commands(&self, commands: &mut Vec<Command>, state: &State)
        ensures
            final(commands)@ == old(commands)@ + culling_commands(*state),
    {
        match state.culling.as_gl_enum_if_enabled() {
            Some(mode) => {
                commands.push(Command::Enable { state: gl::CULL_FACE });
                commands.push(Command::CullFace { mode });
                commands.push(Command::FrontFace { mode: state.front_face.as_gl_enum() });
            }
            None => {
                commands.push(Command::Disable { state: gl::CULL_FACE });
            }
        }
        proof {
            assert(commands@ =~= old(commands)@ + culling_commands(*state));
        }
    }

    /// Append the binding command of one uniform slot of an invocation.
    fn push_uniform_commands(&self, commands: &mut Vec<Command>, uniform: Option<&Buffer>, slot: u32)
        ensures
            final(commands)@ == old(commands)@ + uniform_slot_commands(uniform, slot),
    {
        match uniform {
            Some(buffer) => {
                commands.push(
                    Command::BindBufferBase {
                        target: gl::UNIFORM_BUFFER,
                        binding: slot,
                        id: buffer.id,
                    },
                );
            }
            None => {}
        }
        proof {
            assert(commands@ =~= old(commands)@ + uniform_slot_commands(uniform, slot));
        }
    }

    /// Append the rasterization commands of a draw.
    fn push_polygon_commands(&self, commands: &mut Vec<Command>, state: &State)
        ensures
            final(commands)@ == old(commands)@ + polygon_commands(*state),
    {
        commands.push(
            Command::PolygonMode {
                face: gl::FRONT_AND_BACK,
                mode: state.polygon_mode.as_gl_enum(),
            },
        );
        match state.polygon_mode {
            PolygonMode::Point(size) => {
                commands.push(Command::PointSize { size });
            }
            PolygonMode::Line(width) => {
                commands.push(Command::LineWidth { width });
            }
            PolygonMode::Fill => {}
        }
        proof {
            assert(commands@ =~= old(commands)@ + polygon_commands(*state));
        }
    }
}

/// The attachment commands of the first `n` color attachment slots, in slot
/// order.
pub open spec fn framebuffer_commands_upto(
    attachments: Seq<ColorAttachment>,
    n: int,
) -> Seq<Command>
    decreases n,
{
    if n <= 0 {
        Seq::empty()
    } else {
        framebuffer_commands_upto(attachments, n - 1) + attachment_commands(
            attachments[n - 1],
            (n - 1) as u32,
        )
    }
}

/// The draw-buffer list of the first `n` color attachment slots, in slot
/// order.
pub open spec fn draw_buffers_upto(attachments: Seq<ColorAttachment>, n: int) -> Seq<u32>
    decreases n,
{
    if n <= 0 {
        Seq::empty()
    } else {
        draw_buffers_upto(attachments, n - 1) + attachment_draw_buffer(
            attachments[n - 1],
            (n - 1) as u32,
        )
    }
}

/// Handle uniqueness: two well-formed buffer handles bound to the same
/// factory's buffer queue that name the same driver ID have equal
/// destructors.  They are clones of one logical resource; the factory never
/// yields two independently owned handles whose IDs collide while both are
/// live, because the driver does not reuse an ID while a handle referencing
/// it survives.
pub proof fn lemma_buffer_handle_uniqueness(factory: Factory, a: Buffer, b: Buffer)
    requires
        a.wf(),
        b.wf(),
        a.destructor.tx == factory.buffer_queue.tx,
        b.destructor.tx == factory.buffer_queue.tx,
        a.id == b.id,
    ensures
        a.destructor == b.destructor,
{
}

/// Handle uniqueness for textures, stated as for buffers.
pub proof fn lemma_texture_handle_uniqueness(factory: Factory, a: Texture2, b: Texture2)
    requires
        a.wf(),
        b.wf(),
        a.destructor.tx == factory.texture_queue.tx,
        b.destructor.tx == factory.texture_queue.tx,
        a.id == b.id,
    ensures
        a.destructor == b.destructor,
{
}

/// Handle uniqueness for renderbuffers: the implicit renderbuffer carries no
/// destructor at all, and two well-formed handles of one factory that name
/// the same driver ID carry equal destructors.
pub proof fn lemma_renderbuffer_handle_uniqueness(factory: Factory, a: Renderbuffer, b: Renderbuffer)
    requires
        a.wf(),
        b.wf(),
        a.destructor matches Some(destructor) && destructor.tx == factory.renderbuffer_queue.tx,
        b.destructor matches Some(destructor) && destructor.tx == factory.renderbuffer_queue.tx,
        a.id == b.id,
    ensures
        a.destructor == b.destructor,
{
}

/// Handle uniqueness for vertex arrays, stated as for buffers.
pub proof fn lemma_vertex_array_handle_uniqueness(factory: Factory, a: VertexArray, b: VertexArray)
    requires
        a.wf(),
        b.wf(),
        a.destructor.tx == factory.vertex_array_queue.tx,
        b.destructor.tx == factory.vertex_array_queue.tx,
        a.id == b.id,
    ensures
        a.destructor == b.destructor,
{
}

/// Handle uniqueness for shader objects, stated as for buffers.
pub proof fn lemma_shader_object_handle_uniqueness(factory: Factory, a: Object, b: Object)
    requires
        a.wf(),
        b.wf(),
        a.destructor.tx == factory.program_queue.tx,
        b.destructor.tx == factory.program_queue.tx,
        a.id == b.id,
    ensures
        a.destructor == b.destructor,
{
}

/// Handle uniqueness for programs, stated as for buffers.  A shader object
/// and a program never share a destructor even on one queue and with equal
/// IDs: their release messages differ.
pub proof fn lemma_program_handle_uniqueness(factory: Factory, a: Program, b: Program)
    requires
        a.wf(),
        b.wf(),
        a.destructor.tx == factory.program_queue.tx,
        b.destructor.tx == factory.program_queue.tx,
        a.id == b.id,
    ensures
        a.destructor == b.destructor,
{
}

/// Interface binding fatality, the benign half: an interface that requires
/// no names has nothing missing, whatever the driver's queries returned, so
/// program resolution succeeds regardless of shader content.
pub proof fn lemma_unassigned_interface_never_missing(
    bindings: Bindings,
    block_indices: [Option<u32>; MAX_UNIFORM_BLOCKS],
    sampler_locations: [Option<u32>; MAX_SAMPLERS],
)
    requires
        bindings.all_unassigned(),
    ensures
        forall|i: int|
            0 <= i < MAX_UNIFORM_BLOCKS ==> !block_missing(
                #[trigger] bindings.uniform_blocks@[i],
                block_indices@[i],
            ),
        forall|i: int|
            0 <= i < MAX_SAMPLERS ==> !sampler_missing(
                #[trigger] bindings.samplers@[i],
                sampler_locations@[i],
            ),
{
}

/// An arrays draw call always dispatches: whatever the target, state,
/// vertex array and invocation, the draw's command sequence ends by
/// dispatching exactly the call's primitive, offset and count, and then
/// defensively unbinding the program and the vertex array.  Together with
/// the contract of [`Factory::draw`], which returns this sequence for every
/// arrays call, this says that an arrays draw never fails in this layer.
pub proof fn lemma_arrays_draw_dispatches(
    framebuffer: Framebuffer,
    external_dimensions: (u32, u32),
    state: State,
    vertex_array: VertexArray,
    call: DrawCall,
    invocation: Invocation<'_>,
)
    requires
        call.kind is Arrays,
    ensures
        ({
            let commands = draw_commands(
                framebuffer,
                external_dimensions,
                state,
                vertex_array,
                call,
                invocation,
            );
            &&& commands.len() >= 3
            &&& commands[commands.len() - 3] == (Command::DrawArrays {
                mode: call.primitive.spec_as_gl_enum(),
                offset: call.offset,
                count: call.count,
            })
            &&& commands[commands.len() - 2] == (Command::UseProgram { id: 0 })
            &&& commands[commands.len() - 1] == (Command::BindVertexArray { id: 0 })
        }),
{
    let commands = draw_commands(
        framebuffer,
        external_dimensions,
        state,
        vertex_array,
        call,
        invocation,
    );
    let head = seq![
        Command::BindFramebuffer { id: framebuffer.id },
        viewport_command(framebuffer, external_dimensions, state),
    ] + culling_commands(state) + seq![
        Command::Enable { state: gl::DEPTH_TEST },
        Command::DepthFunc { func: state.depth_test.spec_as_gl_enum() },
        Command::BindVertexArray { id: vertex_array.id },
        Command::UseProgram { id: invocation.program.id },
    ] + uniform_slot_commands(invocation.uniforms@[0], 0)
        + uniform_slot_commands(invocation.uniforms@[1], 1)
        + uniform_slot_commands(invocation.uniforms@[2], 2)
        + uniform_slot_commands(invocation.uniforms@[3], 3)
        + sampler_slot_commands(invocation.samplers@[0], 0)
        + sampler_slot_commands(invocation.samplers@[1], 1)
        + sampler_slot_commands(invocation.samplers@[2], 2)
        + sampler_slot_commands(invocation.samplers@[3], 3)
        + polygon_commands(state);
    let dispatch = seq![
        Command::DrawArrays {
            mode: call.primitive.spec_as_gl_enum(),
            offset: call.offset,
            count: call.count,
        },
    ];
    let tail = seq![Command::UseProgram { id: 0 }, Command::BindVertexArray { id: 0 }];
    assert(dispatch_commands(vertex_array, call) =~= dispatch);
    assert(commands =~= head + (dispatch + tail));
    assert(commands.len() == head.len() + 3);
    assert(commands[commands.len() - 3] == dispatch[0]);
    assert(commands[commands.len() - 2] == tail[0]);
    assert(commands[commands.len() - 1] == tail[1]);
}

} // verus!
