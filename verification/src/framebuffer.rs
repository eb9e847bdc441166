//! Rendering targets.

use vstd::prelude::*;
use crate::renderbuffer::Renderbuffer;
use crate::texture::Texture2;

verus! {

/// The maximum number of color attachments permitted by the crate.
pub const MAX_COLOR_ATTACHMENTS: usize = 3;

/// Framebuffer color attachment.
#[derive(Clone, Debug)]
pub enum ColorAttachment {
    /// Render to a renderbuffer.
    Renderbuffer(Renderbuffer),

    /// Render to a 2D texture.
    Texture2(Texture2),

    /// No color attachment.
    Empty,
}

/// Framebuffer depth/stencil attachment.
#[derive(Clone, Debug)]
pub enum DepthStencilAttachment {
    /// Use a 2D texture as the depth attachment.
    DepthOnly(Texture2),

    /// Use a 2D texture as the stencil attachment.
    StencilOnly(Texture2),

    /// Use a 2D texture as both the depth and stencil attachment.
    Both(Texture2),

    /// No depth nor stencil attachment.
    Empty,
}

/// The framebuffer width and height.
#[derive(Clone, Copy, Debug, Eq, Hash, PartialEq)]
pub enum Dimensions {
    /// Framebuffer dimensions are known internally by the crate.
    Internal {
        /// Width in pixels.
        width: u32,
        /// Height in pixels.
        height: u32,
    },

    /// Framebuffer dimensions must be queried from the owning context,
    /// outside of the crate.
    External,
}

/// Framebuffer attachments.
#[derive(Clone, Debug)]
pub enum Attachments {
    /// The attachments of the default render target, owned outside of the
    /// crate.
    External,

    /// Attachments composed by the factory.
    Internal {
        /// Color attachments, in draw-buffer order.
        color: [ColorAttachment; MAX_COLOR_ATTACHMENTS],
        /// The depth/stencil attachment.
        depth_stencil: DepthStencilAttachment,
    },
}

/// A clear value for the color buffer, as IEEE 754 single-precision bit
/// patterns per channel.
#[derive(Clone, Copy, Debug, Eq, Hash, PartialEq)]
pub enum ClearColor {
    /// Clear the color buffer to the given channel values.
    Yes {
        /// Bit pattern of the red channel value.
        r: u32,
        /// Bit pattern of the green channel value.
        g: u32,
        /// Bit pattern of the blue channel value.
        b: u32,
        /// Bit pattern of the alpha channel value.
        a: u32,
    },

    /// Leave the color buffer as it is.
    No,
}

/// A clear value for the depth buffer, as an IEEE 754 double-precision bit
/// pattern.
#[derive(Clone, Copy, Debug, Eq, Hash, PartialEq)]
pub enum ClearDepth {
    /// Clear the depth buffer to the given value.
    Yes {
        /// Bit pattern of the depth value.
        z: u64,
    },

    /// Leave the depth buffer as it is.
    No,
}

/// Clear operation.
#[derive(Clone, Copy, Debug, Eq, Hash, PartialEq)]
pub struct ClearOp {
    /// Clear color.
    pub color: ClearColor,

    /// Depth value.
    pub depth: ClearDepth,
}

/// A framebuffer object: either the implicit, externally owned default
/// render target (reserved ID 0), or an internally created one composed of
/// color attachments.
///
/// The default render target is owned outside of this layer and is never
/// released by it; internally created framebuffers are not routed through
/// the deferred-release machinery either.
#[derive(Clone, Debug)]
pub struct Framebuffer {
    /// The driver framebuffer ID.
    pub id: u32,

    /// The framebuffer width and height.
    pub dimensions: Dimensions,

    /// Framebuffer attachments.
    pub attachments: Attachments,
}

impl Framebuffer {
    /// An internal framebuffer knows its dimensions and its attachments; the
    /// external one is the reserved ID 0 and defers both to its context.
    pub open spec fn wf(&self) -> bool {
        match self.dimensions {
            Dimensions::Internal { .. } => self.attachments is Internal && self.id != 0,
            Dimensions::External => self.attachments is External && self.id == 0,
        }
    }

    /// Whether the dimensions are known without consulting the owning
    /// context.
    pub open spec fn has_internal_dimensions(&self) -> bool {
        self.dimensions is Internal
    }

    /// Constructor for an internally managed framebuffer object.
    pub fn internal(
        id: u32,
        width: u32,
        height: u32,
        color: [ColorAttachment; MAX_COLOR_ATTACHMENTS],
        depth_stencil: DepthStencilAttachment,
    ) -> (r: Self)
        requires
            id != 0,
        ensures
            r.id == id,
            r.dimensions == (Dimensions::Internal { width, height }),
            r.attachments == (Attachments::Internal { color, depth_stencil }),
            r.wf(),
    {
        Self {
            id,
            dimensions: Dimensions::Internal { width, height },
            attachments: Attachments::Internal { color, depth_stencil },
        }
    }

    /// Constructor for the externally managed default framebuffer object.
    pub fn external() -> (r: Self)
        ensures
            r.id == 0,
            r.dimensions is External,
            r.attachments is External,
            r.wf(),
    {
        Self {
            id: 0,
            dimensions: Dimensions::External,
            attachments: Attachments::External,
        }
    }

    /// Returns the driver framebuffer ID.
    pub fn id(&self) -> (r: u32)
        ensures
            r == self.id,
    {
        self.id
    }

    /// Returns the width and height of the rendering region in pixels.
    ///
    /// The dimensions of the external default framebuffer are not known to
    /// this layer: they must be queried from the owning context.
    pub fn dimensions(&self) -> (r: (u32, u32))
        requires
            self.has_internal_dimensions(),
        ensures
            self.dimensions == (Dimensions::Internal { width: r.0, height: r.1 }),
    {
        match &self.dimensions {
            Dimensions::Internal { width, height } => (*width, *height),
            Dimensions::External => vstd::pervasive::unreached(),
        }
    }
}

impl PartialEq for Framebuffer {
    /// Handles are equal when they name the same driver ID.
    fn eq(&self, other: &Self) -> (r: bool) {
        self.id == other.id
    }
}

impl vstd::std_specs::cmp::PartialEqSpecImpl for Framebuffer {
    open spec fn obeys_eq_spec() -> bool {
        true
    }

    open spec fn eq_spec(&self, other: &Self) -> bool {
        self.id == other.id
    }
}

impl Eq for Framebuffer {}

} // verus!
