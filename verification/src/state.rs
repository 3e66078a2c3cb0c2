//! Fixed-function pipeline state: rasterizer, depth and stencil tests,
//! blending, and the reference values set while recording.

use vstd::prelude::*;

verus! {

/// Comparison function of depth and stencil tests.
#[derive(Clone, Copy, Debug, PartialEq, Eq, Structural, Hash)]
pub enum Comparison {
    /// The test never passes.
    Never,
    /// Passes when the new value is less.
    Less,
    /// Passes when the new value is less or equal.
    LessEqual,
    /// Passes when the values are equal.
    Equal,
    /// Passes when the new value is greater or equal.
    GreaterEqual,
    /// Passes when the new value is greater.
    Greater,
    /// Passes when the values differ.
    NotEqual,
    /// The test always passes.
    Always,
}

/// How a primitive is rasterized.
#[derive(Clone, Copy, Debug, PartialEq, Eq, Structural, Hash)]
pub enum RasterMethod {
    /// Rasterize vertices as points.
    Point,
    /// Rasterize edges as lines of the given width.
    Line(u32),
    /// Rasterize the interior of the polygon.
    Fill,
}

/// Which polygon faces are culled.
#[derive(Clone, Copy, Debug, PartialEq, Eq, Structural, Hash)]
pub enum CullFace {
    /// Cull nothing.
    Nothing,
    /// Cull front faces.
    Front,
    /// Cull back faces.
    Back,
}

/// Vertex winding taken as the front face.
#[derive(Clone, Copy, Debug, PartialEq, Eq, Structural, Hash)]
pub enum FrontFace {
    /// Clockwise winding is the front.
    Clockwise,
    /// Counter-clockwise winding is the front.
    CounterClockwise,
}

/// Which color channels a write reaches, a set of the four channel bits.
#[derive(Clone, Copy, Debug, PartialEq, Eq, Structural, Hash)]
pub struct ColorMask {
    /// Raw bit set: red 0x1, green 0x2, blue 0x4, alpha 0x8.
    pub bits: u8,
}

impl ColorMask {
    /// Every channel is written.
    pub fn all() -> (r: ColorMask)
        ensures
            r.bits == 0xf,
    {
        ColorMask { bits: 0xf }
    }

    /// No channel is written.
    pub fn none() -> (r: ColorMask)
        ensures
            r.bits == 0,
    {
        ColorMask { bits: 0 }
    }
}

/// Blend equation of one channel group.
#[derive(Clone, Copy, Debug, PartialEq, Eq, Structural, Hash)]
pub enum Equation {
    /// source * src_factor + destination * dst_factor
    Add,
    /// source * src_factor - destination * dst_factor
    Sub,
    /// destination * dst_factor - source * src_factor
    RevSub,
    /// Minimum of source and destination.
    Min,
    /// Maximum of source and destination.
    Max,
}

/// Blend factor applied to the source or the destination.
#[derive(Clone, Copy, Debug, PartialEq, Eq, Structural, Hash)]
pub enum Factor {
    /// Zero.
    Zero,
    /// One.
    One,
    /// The source alpha.
    SourceAlpha,
    /// One minus the source alpha.
    OneMinusSourceAlpha,
    /// The constant blend color set while recording.
    BlendConstant,
}

/// Blending of one channel group: an equation with its two factors.
#[derive(Clone, Copy, Debug, PartialEq, Eq, Structural, Hash)]
pub struct BlendChannel {
    /// How source and destination are combined.
    pub equation: Equation,
    /// Factor applied to the source.
    pub source: Factor,
    /// Factor applied to the destination.
    pub destination: Factor,
}

/// Blending of a color target: one channel group for color, one for alpha.
#[derive(Clone, Copy, Debug, PartialEq, Eq, Structural, Hash)]
pub struct Blend {
    /// Blending of the color channels.
    pub color: BlendChannel,
    /// Blending of the alpha channel.
    pub alpha: BlendChannel,
}

/// Depth test configuration.
#[derive(Clone, Copy, Debug, PartialEq, Eq, Structural, Hash)]
pub struct Depth {
    /// Comparison against the stored depth.
    pub fun: Comparison,
    /// Whether a passing fragment writes its depth.
    pub write: bool,
}

/// Stencil operation applied on a test outcome.
#[derive(Clone, Copy, Debug, PartialEq, Eq, Structural, Hash)]
pub enum StencilOp {
    /// Keep the stored value.
    Keep,
    /// Set the stored value to zero.
    Zero,
    /// Replace the stored value with the reference.
    Replace,
    /// Increment the stored value, clamping.
    IncrementClamp,
    /// Decrement the stored value, clamping.
    DecrementClamp,
    /// Invert the bits of the stored value.
    Invert,
}

/// Stencil test of one face side.
#[derive(Clone, Copy, Debug, PartialEq, Eq, Structural, Hash)]
pub struct StencilSide {
    /// Comparison against the stored stencil value.
    pub fun: Comparison,
    /// Mask applied to both operands of the comparison.
    pub mask_read: u8,
    /// Mask applied to writes of the stencil value.
    pub mask_write: u8,
    /// Operation when the stencil test fails.
    pub op_fail: StencilOp,
    /// Operation when the stencil passes but the depth test fails.
    pub op_depth_fail: StencilOp,
    /// Operation when both tests pass.
    pub op_pass: StencilOp,
}

/// Stencil tests of the front and back face sides.
#[derive(Clone, Copy, Debug, PartialEq, Eq, Structural, Hash)]
pub struct Stencil {
    /// Test of front faces.
    pub front: StencilSide,
    /// Test of back faces.
    pub back: StencilSide,
}

/// Reference values set while recording: stencil references of the two
/// face sides, and the constant blend color as bit patterns of 32-bit
/// IEEE floats.
#[derive(Clone, Copy, Debug, PartialEq, Eq, Hash)]
pub struct RefValues {
    /// Stencil reference of front and back faces.
    pub stencil: (u8, u8),
    /// Constant blend color, each channel the bits of a 32-bit float.
    pub blend: [u32; 4],
}

} // verus!
