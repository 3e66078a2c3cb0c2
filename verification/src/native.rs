//! Concrete resource records of the model backend.  Native handles are
//! plain integers handed out by the factory; every record holds, as plain
//! values, exactly what a backend derives from the creation parameters.

use vstd::prelude::*;
use crate::image::{Kind, Layer, Level, SamplerInfo, WrapMode};
use crate::state::{Comparison, CullFace, FrontFace, RasterMethod, StencilSide};

verus! {

/// A compiled shader module.
#[derive(Clone, Copy, Debug, PartialEq, Eq, Structural, Hash)]
pub struct Shader {
    /// Handle of the module.
    pub id: u64,
}

/// A linked shader program.
#[derive(Clone, Copy, Debug, PartialEq, Eq, Structural, Hash)]
pub struct Program {
    /// Handle of the program.
    pub id: u64,
}

/// Texture target a resource view is bound through.
#[derive(Clone, Copy, Debug, PartialEq, Eq, Structural, Hash)]
pub enum BindTarget {
    /// One-dimensional texture.
    Texture1D,
    /// Array of one-dimensional textures.
    Texture1DArray,
    /// Two-dimensional texture.
    Texture2D,
    /// Multisampled two-dimensional texture.
    Texture2DMultisample,
    /// Array of two-dimensional textures.
    Texture2DArray,
    /// Multisampled array of two-dimensional textures.
    Texture2DMultisampleArray,
    /// Three-dimensional texture.
    Texture3D,
    /// Cube map.
    TextureCube,
    /// Array of cube maps.
    TextureCubeArray,
    /// Buffer read as a texture.
    Buffer,
}

/// Texture target of an image kind.
pub open spec fn spec_kind_bind(kind: Kind) -> BindTarget {
    match kind {
        Kind::D1(_) => BindTarget::Texture1D,
        Kind::D1Array(_, _) => BindTarget::Texture1DArray,
        Kind::D2(_, _, aa) => if aa is Single {
            BindTarget::Texture2D
        } else {
            BindTarget::Texture2DMultisample
        },
        Kind::D2Array(_, _, _, aa) => if aa is Single {
            BindTarget::Texture2DArray
        } else {
            BindTarget::Texture2DMultisampleArray
        },
        Kind::D3(_, _, _) => BindTarget::Texture3D,
        Kind::Cube(_) => BindTarget::TextureCube,
        Kind::CubeArray(_, _) => BindTarget::TextureCubeArray,
    }
}

/// Texture target of an image kind.
pub fn kind_to_bind(kind: Kind) -> (r: BindTarget)
    ensures
        r == spec_kind_bind(kind),
{
    match kind {
        Kind::D1(_) => BindTarget::Texture1D,
        Kind::D1Array(_, _) => BindTarget::Texture1DArray,
        Kind::D2(_, _, aa) => match aa {
            crate::image::AaMode::Single => BindTarget::Texture2D,
            _ => BindTarget::Texture2DMultisample,
        },
        Kind::D2Array(_, _, _, aa) => match aa {
            crate::image::AaMode::Single => BindTarget::Texture2DArray,
            _ => BindTarget::Texture2DMultisampleArray,
        },
        Kind::D3(_, _, _) => BindTarget::Texture3D,
        Kind::Cube(_) => BindTarget::TextureCube,
        Kind::CubeArray(_, _) => BindTarget::TextureCubeArray,
    }
}

/// A view of a texture or buffer as a shader resource.
#[derive(Clone, Copy, Debug, PartialEq, Eq, Structural, Hash)]
pub struct ResourceView {
    /// Handle of the viewed object.
    pub object: u64,
    /// Texture target the view is bound through.
    pub bind: BindTarget,
    /// Whether the view owns the object it wraps.
    pub owned: bool,
}

impl ResourceView {
    /// View of a texture of the given kind.
    pub fn new_texture(t: u64, kind: Kind) -> (r: ResourceView)
        ensures
            r.object == t,
            r.bind == spec_kind_bind(kind),
            !r.owned,
    {
        ResourceView { object: t, bind: kind_to_bind(kind), owned: false }
    }

    /// View of a buffer read as a texture; the view owns the wrapping
    /// texture object.
    pub fn new_buffer(b: u64) -> (r: ResourceView)
        ensures
            r.object == b,
            r.bind == BindTarget::Buffer,
            r.owned,
    {
        ResourceView { object: b, bind: BindTarget::Buffer, owned: true }
    }
}

/// A pipeline running the draw stages.
#[derive(Clone, Copy, Debug, PartialEq, Eq, Structural, Hash)]
pub struct GraphicsPipeline {
    /// Handle of the linked program.
    pub program: u64,
}

/// A pipeline running a compute stage.
#[derive(Clone, Copy, Debug, PartialEq, Eq, Structural, Hash)]
pub struct ComputePipeline {
    /// Handle of the linked program.
    pub program: u64,
}

/// A sampler, either a separate sampler object or its description carried
/// along for backends without separate sampler objects.
#[derive(Clone, Copy, Debug, PartialEq, Eq, Hash)]
pub enum FatSampler {
    /// A separate sampler object.
    Sampler(Sampler),
    /// The description, applied at bind time.
    Info(SamplerInfo),
}

/// Minification or magnification filter of a sampler.
#[derive(Clone, Copy, Debug, PartialEq, Eq, Structural, Hash)]
pub enum FilterOp {
    /// Nearest texel.
    Nearest,
    /// Linear interpolation.
    Linear,
}

/// Border color of a sampler.
#[derive(Clone, Copy, Debug, PartialEq, Eq, Structural, Hash)]
pub enum BorderColor {
    /// All channels zero.
    TransparentBlack,
    /// Black with full alpha.
    OpaqueBlack,
    /// All channels one.
    OpaqueWhite,
}

/// A sampler record, as a backend derives it from a `SamplerInfo`.
#[derive(Clone, Copy, Debug, PartialEq, Eq, Structural, Hash)]
pub struct Sampler {
    /// Minification filter.
    pub min_filter: FilterOp,
    /// Magnification filter.
    pub mag_filter: FilterOp,
    /// Filter between mip levels.
    pub mip_filter: FilterOp,
    /// Maximum anisotropy, 0 when anisotropic filtering is off.
    pub max_anisotropy: u8,
    /// Wrapping along the u axis.
    pub address_u: WrapMode,
    /// Wrapping along the v axis.
    pub address_v: WrapMode,
    /// Wrapping along the w axis.
    pub address_w: WrapMode,
    /// Bias added to the level of detail.
    pub lod_bias: crate::image::Lod,
    /// Smallest level of detail.
    pub lod_min: crate::image::Lod,
    /// Largest level of detail.
    pub lod_max: crate::image::Lod,
    /// Comparison of a shadow sampler, or `None`.
    pub comparison: Option<Comparison>,
    /// Border color.
    pub border: BorderColor,
}

/// Layout of a descriptor set.
#[derive(Clone, Copy, Debug, PartialEq, Eq, Structural, Hash)]
pub struct DescriptorSetLayout;

/// A descriptor set.
#[derive(Clone, Copy, Debug, PartialEq, Eq, Structural, Hash)]
pub struct DescriptorSet;

/// A pool descriptor sets are allocated from.
#[derive(Clone, Debug, PartialEq, Eq, Hash)]
pub struct DescriptorPool {
    /// Number of sets handed out.
    pub allocated: usize,
}

impl DescriptorPool {
    /// An empty pool.
    pub fn new() -> (r: DescriptorPool)
        ensures
            r.allocated == 0,
    {
        DescriptorPool { allocated: 0 }
    }

    /// Allocates one descriptor set per layout given.
    pub fn allocate_sets(&mut self, layouts: &Vec<DescriptorSetLayout>) -> (r: Vec<DescriptorSet>)
        requires
            old(self).allocated + layouts@.len() <= usize::MAX,
        ensures
            r@.len() == layouts@.len(),
            final(self).allocated == old(self).allocated + layouts@.len(),
    {
        let mut sets: Vec<DescriptorSet> = Vec::new();
        let mut i: usize = 0;
        while i < layouts.len()
            invariant
                i <= layouts@.len(),
                sets@.len() == i,
                self.allocated == old(self).allocated + i,
                old(self).allocated + layouts@.len() <= usize::MAX,
            decreases layouts@.len() - i,
        {
            sets.push(DescriptorSet);
            self.allocated = self.allocated + 1;
            i = i + 1;
        }
        sets
    }

    /// Returns every handed-out set to the pool.
    pub fn reset(&mut self)
        ensures
            final(self).allocated == 0,
    {
        self.allocated = 0;
    }
}

/// A shader library: entry points with their compiled shaders.
#[derive(Clone, Debug, PartialEq, Eq, Hash)]
pub struct ShaderLib {
    /// Entry-point names and their shaders; names are unique.
    pub shaders: Vec<(String, Shader)>,
}

impl ShaderLib {
    /// An empty library.
    pub fn new() -> (r: ShaderLib)
        ensures
            r.shaders@.len() == 0,
    {
        ShaderLib { shaders: Vec::new() }
    }
}

/// How an attachment is initialized when a pass begins.
#[derive(Clone, Copy, Debug, PartialEq, Eq, Structural, Hash)]
pub enum LoadOp {
    /// Keep the previous contents.
    Load,
    /// Clear to the clear value of the pass.
    Clear,
    /// The previous contents need not survive.
    DontCare,
}

/// Whether an attachment's contents survive the end of the pass.
#[derive(Clone, Copy, Debug, PartialEq, Eq, Structural, Hash)]
pub enum StoreOp {
    /// The contents are written out.
    Store,
    /// The contents need not survive.
    DontCare,
}

/// One attachment of a render pass.
#[derive(Clone, Copy, Debug, PartialEq, Eq, Structural, Hash)]
pub struct Attachment {
    /// Format of the attached image.
    pub format: crate::format::Format,
    /// How the attachment is initialized.
    pub load: LoadOp,
    /// Whether the contents survive the pass.
    pub store: StoreOp,
}

/// Which attachments one subpass renders to.
#[derive(Clone, Debug, PartialEq, Eq, Hash)]
pub struct SubpassDesc {
    /// Indices into the pass's attachment list.
    pub color_attachments: Vec<usize>,
}

/// A render pass: attachments and the subpasses over them.
#[derive(Clone, Debug, PartialEq, Eq, Hash)]
pub struct RenderPass {
    /// Handle of the pass.
    pub id: u64,
    /// The attachments of the pass.
    pub attachments: Vec<Attachment>,
    /// The subpasses of the pass, at least one.
    pub subpasses: Vec<SubpassDesc>,
}

/// A framebuffer: the image views a render pass draws into, with its
/// extent.
#[derive(Clone, Debug, PartialEq, Eq, Hash)]
pub struct Framebuffer {
    /// Handle of the framebuffer.
    pub id: u64,
    /// One view per attachment of the pass.
    pub attachments: Vec<ImageView>,
    /// Width in pixels.
    pub width: u16,
    /// Height in pixels.
    pub height: u16,
}

/// A view of a constant buffer.
#[derive(Clone, Copy, Debug, PartialEq, Eq, Structural, Hash)]
pub struct ConstantBufferView;

/// A read-only shader view of an image.
#[derive(Clone, Copy, Debug, PartialEq, Eq, Structural, Hash)]
pub struct ShaderResourceView;

/// A read-write shader view of an image.
#[derive(Clone, Copy, Debug, PartialEq, Eq, Structural, Hash)]
pub struct UnorderedAccessView;

/// A depth-stencil target view.
#[derive(Clone, Copy, Debug, PartialEq, Eq, Structural, Hash)]
pub struct DepthStencilView;

/// The layout shared by the pipelines of a program: descriptor set layouts
/// in binding order.
#[derive(Clone, Debug, PartialEq, Eq, Hash)]
pub struct PipelineLayout {
    /// The descriptor set layouts.
    pub set_layouts: Vec<DescriptorSetLayout>,
}

/// A view of an image, selecting mip levels and layers.
#[derive(Clone, Copy, Debug, PartialEq, Eq, Structural, Hash)]
pub struct ImageView {
    /// Handle of the viewed image.
    pub image: u64,
    /// Channel interpretation of the view.
    pub channel: crate::format::ChannelType,
    /// First mip level of the view.
    pub base_level: Level,
    /// Number of mip levels of the view.
    pub level_count: u16,
    /// First layer of the view.
    pub base_layer: Layer,
    /// Number of layers of the view.
    pub layer_count: Layer,
}

/// A graphics pipeline record, as a backend derives it from a pipeline
/// descriptor.
#[derive(Clone, Copy, Debug, PartialEq, Eq, Structural, Hash)]
pub struct Pipeline {
    /// The vertex stage shader.
    pub vertex_shader: Shader,
    /// The geometry stage shader, where the set has one.
    pub geometry_shader: Option<Shader>,
    /// The pixel stage shader.
    pub pixel_shader: Shader,
    /// Topology of the vertex stream.
    pub primitive: crate::Primitive,
    /// How polygons are rasterized.
    pub polygon_mode: RasterMethod,
    /// Width of rasterized lines.
    pub line_width: u32,
    /// Which faces are culled.
    pub cull: CullFace,
    /// Which winding is the front face.
    pub front_face: FrontFace,
    /// Whether a depth bias is applied.
    pub depth_bias_enable: bool,
    /// Whether the depth test runs.
    pub depth_test_enable: bool,
    /// Whether passing fragments write their depth.
    pub depth_write_enable: bool,
    /// Comparison of the depth test.
    pub depth_compare: Comparison,
    /// Whether the stencil test runs.
    pub stencil_test_enable: bool,
    /// Stencil test of front faces, when enabled there.
    pub stencil_front: Option<StencilSide>,
    /// Stencil test of back faces, when enabled there.
    pub stencil_back: Option<StencilSide>,
}

} // verus!
