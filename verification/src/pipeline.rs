//! Fixed-function pipeline state.

use vstd::prelude::*;
use crate::gl;

verus! {

/// Specifies the polygon rasterization method.
#[derive(Clone, Copy, Debug, Eq, Hash, PartialEq)]
pub enum PolygonMode {
    /// Vertices marked as the start of a boundary edge are drawn as points
    /// of the given size.
    Point(i32),

    /// Boundary edges of the polygon are drawn as line segments of the given
    /// width.
    Line(i32),

    /// The interior of the polygon is filled.
    Fill,
}

impl Default for PolygonMode {
    /// The default rasterization method fills polygon interiors.
    fn default() -> (r: Self)
        ensures
            r == PolygonMode::Fill,
    {
        PolygonMode::Fill
    }
}

impl PolygonMode {
    /// The driver constant the rasterization method stands for.
    pub open spec fn spec_as_gl_enum(self) -> u32 {
        match self {
            PolygonMode::Point(_) => gl::POINT,
            PolygonMode::Line(_) => gl::LINE,
            PolygonMode::Fill => gl::FILL,
        }
    }

    /// Returns the equivalent driver enumeration constant.
    #[verifier::when_used_as_spec(spec_as_gl_enum)]
    pub fn as_gl_enum(self) -> (r: u32)
        ensures
            r == self.spec_as_gl_enum(),
    {
        match self {
            PolygonMode::Point(_) => gl::POINT,
            PolygonMode::Line(_) => gl::LINE,
            PolygonMode::Fill => gl::FILL,
        }
    }
}

/// Specifies depth buffer testing.
#[derive(Clone, Copy, Debug, Eq, Hash, PartialEq)]
pub enum DepthTest {
    /// Depth test never passes.
    Never,

    /// Depth test passes if the incoming depth value is less than the stored
    /// depth value.
    LessThan,

    /// Depth test always passes.
    Always,
}

impl Default for DepthTest {
    /// The default depth test passes on smaller incoming depth values.
    fn default() -> (r: Self)
        ensures
            r == DepthTest::LessThan,
    {
        DepthTest::LessThan
    }
}

impl DepthTest {
    /// The driver constant the depth test stands for.
    pub open spec fn spec_as_gl_enum(self) -> u32 {
        match self {
            DepthTest::Never => gl::NEVER,
            DepthTest::LessThan => gl::LESS,
            DepthTest::Always => gl::ALWAYS,
        }
    }

    /// Returns the equivalent driver enumeration constant.
    #[verifier::when_used_as_spec(spec_as_gl_enum)]
    pub fn as_gl_enum(self) -> (r: u32)
        ensures
            r == self.spec_as_gl_enum(),
    {
        match self {
            DepthTest::Never => gl::NEVER,
            DepthTest::LessThan => gl::LESS,
            DepthTest::Always => gl::ALWAYS,
        }
    }
}

/// Specifies the winding order of front facing triangles.
#[derive(Clone, Copy, Debug, Eq, Hash, PartialEq)]
pub enum FrontFace {
    /// Front-facing triangles are clockwise wound.
    Clockwise,

    /// Back-facing triangles are clockwise wound.
    CounterClockwise,
}

impl Default for FrontFace {
    /// By default front-facing triangles are counter-clockwise wound.
    fn default() -> (r: Self)
        ensures
            r == FrontFace::CounterClockwise,
    {
        FrontFace::CounterClockwise
    }
}

impl FrontFace {
    /// The driver constant the winding order stands for.
    pub open spec fn spec_as_gl_enum(self) -> u32 {
        match self {
            FrontFace::Clockwise => gl::CW,
            FrontFace::CounterClockwise => gl::CCW,
        }
    }

    /// Returns the equivalent driver enumeration constant.
    #[verifier::when_used_as_spec(spec_as_gl_enum)]
    pub fn as_gl_enum(self) -> (r: u32)
        ensures
            r == self.spec_as_gl_enum(),
    {
        match self {
            FrontFace::Clockwise => gl::CW,
            FrontFace::CounterClockwise => gl::CCW,
        }
    }
}

/// Hardware culling mode.
#[derive(Clone, Copy, Debug, Eq, Hash, PartialEq)]
pub enum Culling {
    /// Disable culling.
    Disabled,

    /// Cull the front-facing triangles.
    Front,

    /// Cull the back-facing triangles.
    Back,

    /// Cull all faces.
    All,
}

impl Default for Culling {
    /// By default back-facing triangles are culled.
    fn default() -> (r: Self)
        ensures
            r == Culling::Back,
    {
        Culling::Back
    }
}

impl Culling {
    /// The driver constant of the faces to cull, when culling is enabled.
    pub open spec fn spec_as_gl_enum_if_enabled(self) -> Option<u32> {
        match self {
            Culling::Disabled => None,
            Culling::Front => Some(gl::FRONT),
            Culling::Back => Some(gl::BACK),
            Culling::All => Some(gl::FRONT_AND_BACK),
        }
    }

    /// Returns the driver constant of the faces to cull, or `None` when
    /// culling is disabled.
    #[verifier::when_used_as_spec(spec_as_gl_enum_if_enabled)]
    pub fn as_gl_enum_if_enabled(self) -> (r: Option<u32>)
        ensures
            r == self.spec_as_gl_enum_if_enabled(),
    {
        match self {
            Culling::Disabled => None,
            Culling::Front => Some(gl::FRONT),
            Culling::Back => Some(gl::BACK),
            Culling::All => Some(gl::FRONT_AND_BACK),
        }
    }
}

/// Viewport region to render to.
#[derive(Clone, Copy, Debug, Eq, Hash, PartialEq)]
pub struct Viewport {
    /// X offset.
    pub x: u32,

    /// Y offset.
    pub y: u32,

    /// Width.
    pub w: u32,

    /// Height.
    pub h: u32,
}

/// Fixed-function state parameters.
///
/// A `viewport` of `None` resolves to the full dimensions of the target
/// framebuffer at draw time; `Some` selects an explicit sub-rectangle.
#[derive(Clone, Copy, Debug, Eq, Hash, PartialEq)]
pub struct State {
    /// Front face winding order.
    pub front_face: FrontFace,

    /// Hardware face culling mode.
    pub culling: Culling,

    /// Hardware depth testing mode.
    pub depth_test: DepthTest,

    /// Specifies the polygon rasterization method.
    pub polygon_mode: PolygonMode,

    /// Specifies the region to render to; `None` covers the whole target.
    pub viewport: Option<Viewport>,
}

impl Default for State {
    /// The default state: back-face culling of counter-clockwise wound
    /// triangles, less-than depth testing, filled polygons, full viewport.
    fn default() -> (r: Self)
        ensures
            r.front_face == FrontFace::CounterClockwise,
            r.culling == Culling::Back,
            r.depth_test == DepthTest::LessThan,
            r.polygon_mode == PolygonMode::Fill,
            r.viewport is None,
    {
        State {
            front_face: FrontFace::CounterClockwise,
            culling: Culling::Back,
            depth_test: DepthTest::LessThan,
            polygon_mode: PolygonMode::Fill,
            viewport: None,
        }
    }
}

} // verus!
