//! Raw pipeline state objects: vertex input layout, shader entry points,
//! blending and depth-stencil descriptors, and the pipeline stages flag
//! set used by barriers and semaphore waits.

use vstd::prelude::*;
use crate::format::Format;
use crate::state::{
    Blend, BlendChannel, ColorMask, CullFace, Depth, FrontFace, RasterMethod, Stencil, StencilSide,
};
use crate::Primitive;

verus! {

/// Shader binding location.
pub type Location = u32;

/// Index of a vertex buffer.
pub type BufferIndex = u32;

/// Offset of an attribute from the start of a vertex, in bytes.
pub type ElemOffset = u32;

/// Byte distance between consecutive vertices of a buffer.
pub type ElemStride = u32;

/// Number of instances drawn between consecutive attribute values.
pub type InstanceRate = u8;

/// A byte offset into a vertex buffer.
pub type BufferOffset = u64;

/// Name of a shader entry point.
pub type EntryPoint = String;

/// Error creating a pipeline state object on the device.
#[derive(Clone, Copy, Debug, PartialEq, Eq, Structural, Hash)]
pub struct CreationError;

impl CreationError {
    /// Human-readable description of the error.
    pub fn description(&self) -> (r: &'static str)
        ensures
            r@ == "Could not create PSO on device."@,
    {
        "Could not create PSO on device."
    }
}

/// A struct element descriptor: a format at a byte offset.
#[derive(Clone, Copy, Debug, PartialEq, Eq, Hash)]
pub struct Element<F> {
    /// Format of the element.
    pub format: F,
    /// Offset from the start of the container, in bytes.
    pub offset: ElemOffset,
}

/// Vertex buffer descriptor.
#[derive(Clone, Copy, Debug, PartialEq, Eq, Structural, Hash)]
pub struct VertexBufferDesc {
    /// Byte distance between consecutive vertices.
    pub stride: ElemStride,
    /// 0 for per-vertex data, n for data advancing every n instances.
    pub rate: InstanceRate,
}

/// Vertex attribute descriptor.
#[derive(Clone, Copy, Debug, PartialEq, Eq, Hash)]
pub struct AttributeDesc {
    /// Binding location in the shader.
    pub location: Location,
    /// Index of the vertex buffer the attribute reads from.
    pub binding: BufferIndex,
    /// Format and offset of the attribute.
    pub element: Element<Format>,
}

/// Whether a strip-primitive restart index cuts the strip.
#[derive(Clone, Copy, Debug, PartialEq, Eq, Structural, Hash)]
pub enum PrimitiveRestart {
    /// No restarting.
    Disabled,
    /// Restart on the largest 16-bit index.
    U16,
    /// Restart on the largest 32-bit index.
    U32,
}

/// Input-assembler setup: primitive topology and restarting.
#[derive(Clone, Copy, Debug, PartialEq, Eq, Structural, Hash)]
pub struct InputAssemblerDesc {
    /// Topology of the vertex stream.
    pub primitive: Primitive,
    /// Restart behaviour of strip topologies.
    pub primitive_restart: PrimitiveRestart,
}

impl InputAssemblerDesc {
    /// An input-assembler descriptor without primitive restart.
    pub fn new(primitive: Primitive) -> (r: InputAssemblerDesc)
        ensures
            r.primitive == primitive,
            r.primitive_restart == PrimitiveRestart::Disabled,
    {
        InputAssemblerDesc { primitive, primitive_restart: PrimitiveRestart::Disabled }
    }
}

/// Depth bias applied by the rasterizer, in fixed-point device units.
#[derive(Clone, Copy, Debug, PartialEq, Eq, Structural, Hash)]
pub struct DepthBias {
    /// Constant bias, in units of the smallest depth difference.
    pub const_factor: i32,
    /// Bound of the total bias.
    pub clamp: i32,
    /// Bias proportional to the polygon's depth slope.
    pub slope_factor: i32,
}

/// Rasterizer setup of a graphics pipeline.
#[derive(Clone, Copy, Debug, PartialEq, Eq, Structural, Hash)]
pub struct Rasterizer {
    /// How polygons are rasterized.
    pub polygon_mode: RasterMethod,
    /// Which faces are culled.
    pub cull_mode: CullFace,
    /// Which winding is the front face.
    pub front_face: FrontFace,
    /// Whether depth values are clamped instead of clipped.
    pub depth_clamping: bool,
    /// Depth bias, or `None`.
    pub depth_bias: Option<DepthBias>,
    /// Whether conservative rasterization is on.
    pub conservative_rasterization: bool,
    /// Whether primitives are discarded before rasterization.
    pub rasterizer_discard: bool,
}

impl Rasterizer {
    /// A polygon-filling rasterizer: no culling, counter-clockwise front
    /// faces, depth clamping on, no bias.
    pub fn new_fill() -> (r: Rasterizer)
        ensures
            r.polygon_mode == RasterMethod::Fill,
            r.cull_mode == CullFace::Nothing,
            r.front_face == FrontFace::CounterClockwise,
            r.depth_clamping,
            r.depth_bias is None,
            !r.conservative_rasterization,
            !r.rasterizer_discard,
    {
        Rasterizer {
            polygon_mode: RasterMethod::Fill,
            cull_mode: CullFace::Nothing,
            front_face: FrontFace::CounterClockwise,
            depth_clamping: true,
            depth_bias: None,
            conservative_rasterization: false,
            rasterizer_discard: false,
        }
    }
}

/// Color output configuration of one target.
#[derive(Clone, Copy, Debug, PartialEq, Eq, Structural, Hash)]
pub struct ColorInfo {
    /// Which channels are written.
    pub mask: ColorMask,
    /// Blending of the color channels, or `None`.
    pub color: Option<BlendChannel>,
    /// Blending of the alpha channel, or `None`.
    pub alpha: Option<BlendChannel>,
}

impl core::convert::From<ColorMask> for ColorInfo {
    /// Write under the mask, without blending.
    fn from(mask: ColorMask) -> (r: ColorInfo) {
        ColorInfo { mask, color: None, alpha: None }
    }
}

impl vstd::std_specs::convert::FromSpecImpl<ColorMask> for ColorInfo {
    open spec fn obeys_from_spec() -> bool {
        true
    }

    open spec fn from_spec(mask: ColorMask) -> ColorInfo {
        ColorInfo { mask, color: None, alpha: None }
    }
}

impl core::convert::From<Blend> for ColorInfo {
    /// Blend into every channel.
    fn from(blend: Blend) -> (r: ColorInfo) {
        ColorInfo { mask: ColorMask::all(), color: Some(blend.color), alpha: Some(blend.alpha) }
    }
}

impl vstd::std_specs::convert::FromSpecImpl<Blend> for ColorInfo {
    open spec fn obeys_from_spec() -> bool {
        true
    }

    open spec fn from_spec(blend: Blend) -> ColorInfo {
        ColorInfo {
            mask: ColorMask { bits: 0xf },
            color: Some(blend.color),
            alpha: Some(blend.alpha),
        }
    }
}

/// Depth and stencil state of a pipeline.
#[derive(Clone, Copy, Debug, PartialEq, Eq, Structural, Hash)]
pub struct DepthStencilInfo {
    /// Depth test, or `None`.
    pub depth: Option<Depth>,
    /// Stencil test of front faces, or `None`.
    pub front: Option<StencilSide>,
    /// Stencil test of back faces, or `None`.
    pub back: Option<StencilSide>,
}

impl core::convert::From<Depth> for DepthStencilInfo {
    /// Depth test only.
    fn from(depth: Depth) -> (r: DepthStencilInfo) {
        DepthStencilInfo { depth: Some(depth), front: None, back: None }
    }
}

impl vstd::std_specs::convert::FromSpecImpl<Depth> for DepthStencilInfo {
    open spec fn obeys_from_spec() -> bool {
        true
    }

    open spec fn from_spec(depth: Depth) -> DepthStencilInfo {
        DepthStencilInfo { depth: Some(depth), front: None, back: None }
    }
}

impl core::convert::From<Stencil> for DepthStencilInfo {
    /// Stencil tests only.
    fn from(stencil: Stencil) -> (r: DepthStencilInfo) {
        DepthStencilInfo { depth: None, front: Some(stencil.front), back: Some(stencil.back) }
    }
}

impl vstd::std_specs::convert::FromSpecImpl<Stencil> for DepthStencilInfo {
    open spec fn obeys_from_spec() -> bool {
        true
    }

    open spec fn from_spec(stencil: Stencil) -> DepthStencilInfo {
        DepthStencilInfo { depth: None, front: Some(stencil.front), back: Some(stencil.back) }
    }
}

impl core::convert::From<(Depth, Stencil)> for DepthStencilInfo {
    /// Both depth and stencil tests.
    fn from(ds: (Depth, Stencil)) -> (r: DepthStencilInfo) {
        DepthStencilInfo { depth: Some(ds.0), front: Some(ds.1.front), back: Some(ds.1.back) }
    }
}

impl vstd::std_specs::convert::FromSpecImpl<(Depth, Stencil)> for DepthStencilInfo {
    open spec fn obeys_from_spec() -> bool {
        true
    }

    open spec fn from_spec(ds: (Depth, Stencil)) -> DepthStencilInfo {
        DepthStencilInfo { depth: Some(ds.0), front: Some(ds.1.front), back: Some(ds.1.back) }
    }
}

/// A color target: its format and output configuration.
pub type ColorTargetDesc = (Format, ColorInfo);

/// A depth-stencil target: its format and test configuration.
pub type DepthStencilDesc = (Format, DepthStencilInfo);

/// Logical operation applied to a color target instead of blending.
#[derive(Clone, Copy, Debug, PartialEq, Eq, Structural, Hash)]
pub enum LogicOp {
    /// Zero every bit.
    Clear,
    /// source AND destination
    And,
    /// source AND NOT destination
    AndReverse,
    /// NOT source AND destination
    AndInverted,
    /// source
    Copy,
    /// NOT source
    CopyInverted,
    /// destination
    NoOp,
    /// source XOR destination
    Xor,
    /// NOT (source OR destination)
    Nor,
    /// source OR destination
    Or,
    /// source OR NOT destination
    OrReverse,
    /// NOT source OR destination
    OrInverted,
    /// NOT (source XOR destination)
    Equivalent,
    /// NOT destination
    Invert,
    /// NOT (source AND destination)
    Nand,
    /// Set every bit.
    SetAll,
}

/// Blending of every color target of a pipeline.
#[derive(Clone, Debug, PartialEq, Eq, Hash)]
pub struct BlendDesc {
    /// Whether alpha-to-coverage is on.
    pub alpha_coverage: bool,
    /// Logical operation replacing blending, or `None`.
    pub logic_op: Option<LogicOp>,
    /// Output configuration of each color target.
    pub targets: Vec<ColorInfo>,
}

impl BlendDesc {
    /// An empty blend descriptor.
    pub fn new() -> (r: BlendDesc)
        ensures
            !r.alpha_coverage,
            r.logic_op is None,
            r.targets@.len() == 0,
    {
        BlendDesc { alpha_coverage: false, logic_op: None, targets: Vec::new() }
    }
}

/// A complete set of shader entry points to build a graphics pipeline.
#[derive(Clone, Debug, PartialEq, Eq, Hash)]
pub struct GraphicsShaderSet {
    /// Vertex stage entry point.
    pub vertex_shader: EntryPoint,
    /// Hull stage entry point, or `None`.
    pub hull_shader: Option<EntryPoint>,
    /// Domain stage entry point, or `None`.
    pub domain_shader: Option<EntryPoint>,
    /// Geometry stage entry point, or `None`.
    pub geometry_shader: Option<EntryPoint>,
    /// Pixel stage entry point, or `None`.
    pub pixel_shader: Option<EntryPoint>,
}

/// Everything a device needs to build a graphics pipeline.
#[derive(Clone, Debug, PartialEq, Eq, Hash)]
pub struct GraphicsPipelineDesc {
    /// Rasterizer setup.
    pub rasterizer: Rasterizer,
    /// Shader entry points.
    pub shader_entries: GraphicsShaderSet,
    /// Vertex buffers read by the input assembler.
    pub vertex_buffers: Vec<VertexBufferDesc>,
    /// Vertex attributes read by the input assembler.
    pub attributes: Vec<AttributeDesc>,
    /// Input-assembler setup.
    pub input_assembler: InputAssemblerDesc,
    /// Blending of the color targets.
    pub blender: BlendDesc,
    /// Depth-stencil target, or `None`.
    pub depth_stencil: Option<DepthStencilDesc>,
}

impl GraphicsPipelineDesc {
    /// An empty pipeline descriptor over the given primitive, rasterizer
    /// and shader set.
    pub fn new(
        primitive: Primitive,
        rasterizer: Rasterizer,
        shader_entries: GraphicsShaderSet,
    ) -> (r: GraphicsPipelineDesc)
        ensures
            r.rasterizer == rasterizer,
            r.shader_entries == shader_entries,
            r.vertex_buffers@.len() == 0,
            r.attributes@.len() == 0,
            r.input_assembler.primitive == primitive,
            r.input_assembler.primitive_restart == PrimitiveRestart::Disabled,
            !r.blender.alpha_coverage,
            r.blender.logic_op is None,
            r.blender.targets@.len() == 0,
            r.depth_stencil is None,
    {
        GraphicsPipelineDesc {
            rasterizer,
            shader_entries,
            vertex_buffers: Vec::new(),
            attributes: Vec::new(),
            input_assembler: InputAssemblerDesc::new(primitive),
            blender: BlendDesc::new(),
            depth_stencil: None,
        }
    }
}

/// The vertex buffers bound for one draw: bound buffer handles with byte
/// offsets into them.
#[derive(Clone, Debug, PartialEq, Eq, Hash)]
pub struct VertexBufferSet(pub Vec<(u64, BufferOffset)>);

impl VertexBufferSet {
    /// An empty set.
    pub fn new() -> (r: VertexBufferSet)
        ensures
            r.0@.len() == 0,
    {
        VertexBufferSet(Vec::new())
    }

    /// Splits the set into the parallel handle and offset arrays a
    /// backend binds with: one slot per vertex attribute, zero where the
    /// set has no entry.
    pub fn flatten_for_binding(&self) -> (r: (Vec<u64>, Vec<u64>))
        requires
            self.0@.len() <= crate::MAX_VERTEX_ATTRIBUTES,
        ensures
            r.0@.len() == crate::MAX_VERTEX_ATTRIBUTES,
            r.1@.len() == crate::MAX_VERTEX_ATTRIBUTES,
            forall|i: int|
                0 <= i < self.0@.len() ==> r.0@[i] == (#[trigger] self.0@[i]).0 && r.1@[i]
                    == self.0@[i].1,
            forall|i: int|
                self.0@.len() <= i < crate::MAX_VERTEX_ATTRIBUTES ==> #[trigger] r.0@[i] == 0
                    && r.1@[i] == 0,
    {
        let mut buffers: Vec<u64> = Vec::new();
        let mut offsets: Vec<u64> = Vec::new();
        let mut i: usize = 0;
        while i < crate::MAX_VERTEX_ATTRIBUTES
            invariant
                i <= crate::MAX_VERTEX_ATTRIBUTES,
                self.0@.len() <= crate::MAX_VERTEX_ATTRIBUTES,
                buffers@.len() == i,
                offsets@.len() == i,
                forall|j: int|
                    0 <= j < i && j < self.0@.len() ==> buffers@[j] == (#[trigger] self.0@[j]).0
                        && offsets@[j] == self.0@[j].1,
                forall|j: int|
                    self.0@.len() <= j < i ==> #[trigger] buffers@[j] == 0 && offsets@[j] == 0,
            decreases crate::MAX_VERTEX_ATTRIBUTES - i,
        {
            if i < self.0.len() {
                let entry = self.0[i];
                buffers.push(entry.0);
                offsets.push(entry.1);
            } else {
                buffers.push(0);
                offsets.push(0);
            }
            i = i + 1;
        }
        (buffers, offsets)
    }
}

/// Pipeline stage flags, a set of the `PipelineStage::*` bits.
#[derive(Clone, Copy, Debug, PartialEq, Eq, Structural, Hash)]
pub struct PipelineStage {
    /// Raw bit set.
    pub bits: u32,
}

impl PipelineStage {
    /// Start of the queue's work.
    pub fn top_of_pipe() -> (r: PipelineStage)
        ensures
            r.bits == 0x1,
    {
        PipelineStage { bits: 0x1 }
    }

    /// Consumption of indirect draw arguments.
    pub fn draw_indirect() -> (r: PipelineStage)
        ensures
            r.bits == 0x2,
    {
        PipelineStage { bits: 0x2 }
    }

    /// Consumption of vertex and index buffers.
    pub fn vertex_input() -> (r: PipelineStage)
        ensures
            r.bits == 0x4,
    {
        PipelineStage { bits: 0x4 }
    }

    /// Vertex shader execution.
    pub fn vertex_shader() -> (r: PipelineStage)
        ensures
            r.bits == 0x8,
    {
        PipelineStage { bits: 0x8 }
    }

    /// Pixel shader execution.
    pub fn pixel_shader() -> (r: PipelineStage)
        ensures
            r.bits == 0x80,
    {
        PipelineStage { bits: 0x80 }
    }

    /// Final color output.
    pub fn color_attachment_output() -> (r: PipelineStage)
        ensures
            r.bits == 0x400,
    {
        PipelineStage { bits: 0x400 }
    }

    /// Compute shader execution.
    pub fn compute_shader() -> (r: PipelineStage)
        ensures
            r.bits == 0x800,
    {
        PipelineStage { bits: 0x800 }
    }

    /// Transfer command execution.
    pub fn transfer() -> (r: PipelineStage)
        ensures
            r.bits == 0x1000,
    {
        PipelineStage { bits: 0x1000 }
    }

    /// End of the queue's work.
    pub fn bottom_of_pipe() -> (r: PipelineStage)
        ensures
            r.bits == 0x2000,
    {
        PipelineStage { bits: 0x2000 }
    }

    /// Host access, not a real pipeline stage.
    pub fn host() -> (r: PipelineStage)
        ensures
            r.bits == 0x4000,
    {
        PipelineStage { bits: 0x4000 }
    }

    /// Union of two flag sets.
    pub fn union(self, other: PipelineStage) -> (r: PipelineStage)
        ensures
            r.bits == self.bits | other.bits,
    {
        PipelineStage { bits: self.bits | other.bits }
    }
}

} // verus!
