//! Images (textures): kinds, creation parameters, samplers and the errors
//! a device may answer a creation request with.

use vstd::prelude::*;
use crate::format::{ChannelType, Format, SurfaceType};

verus! {

/// Image extent along one axis, in texels.
pub type Size = u16;

/// Index of one layer of an array image.
pub type Layer = u16;

/// Index of one mipmap level.
pub type Level = u8;

/// Number of samples per texel.
pub type NumSamples = u8;

/// Anti-aliasing mode of an image.
#[derive(Clone, Copy, Debug, PartialEq, Eq, Structural, Hash)]
pub enum AaMode {
    /// One sample per texel.
    Single,
    /// The given number of samples per texel.
    Multi(NumSamples),
}

/// Samples per texel of the mode.
pub open spec fn spec_num_fragments(aa: AaMode) -> NumSamples {
    match aa {
        AaMode::Single => 1,
        AaMode::Multi(n) => n,
    }
}

impl AaMode {
    /// Samples per texel.
    pub fn get_num_fragments(self) -> (r: NumSamples)
        ensures
            r == spec_num_fragments(self),
    {
        match self {
            AaMode::Single => 1,
            AaMode::Multi(n) => n,
        }
    }
}

/// Shape of an image: dimensionality, extents, layering and sampling.
#[derive(Clone, Copy, Debug, PartialEq, Eq, Structural, Hash)]
pub enum Kind {
    /// One-dimensional.
    D1(Size),
    /// Array of one-dimensional images.
    D1Array(Size, Layer),
    /// Two-dimensional.
    D2(Size, Size, AaMode),
    /// Array of two-dimensional images.
    D2Array(Size, Size, Layer, AaMode),
    /// Three-dimensional.
    D3(Size, Size, Size),
    /// Cube map: six square faces.
    Cube(Size),
    /// Array of cube maps.
    CubeArray(Size, Layer),
}

/// Width, height, depth and anti-aliasing of a kind.
pub open spec fn spec_dimensions(kind: Kind) -> (Size, Size, Size, AaMode) {
    match kind {
        Kind::D1(w) => (w, 1, 1, AaMode::Single),
        Kind::D1Array(w, _) => (w, 1, 1, AaMode::Single),
        Kind::D2(w, h, aa) => (w, h, 1, aa),
        Kind::D2Array(w, h, _, aa) => (w, h, 1, aa),
        Kind::D3(w, h, d) => (w, h, d, AaMode::Single),
        Kind::Cube(w) => (w, w, 1, AaMode::Single),
        Kind::CubeArray(w, _) => (w, w, 1, AaMode::Single),
    }
}

/// Number of array slices of a kind, or `None` for a non-array kind.
pub open spec fn spec_num_slices(kind: Kind) -> Option<Layer> {
    match kind {
        Kind::D1Array(_, l) => Some(l),
        Kind::D2Array(_, _, l, _) => Some(l),
        Kind::CubeArray(_, l) => Some(l),
        _ => None,
    }
}

impl Kind {
    /// Width, height, depth and anti-aliasing.
    pub fn get_dimensions(self) -> (r: (Size, Size, Size, AaMode))
        ensures
            r == spec_dimensions(self),
    {
        match self {
            Kind::D1(w) => (w, 1, 1, AaMode::Single),
            Kind::D1Array(w, _) => (w, 1, 1, AaMode::Single),
            Kind::D2(w, h, aa) => (w, h, 1, aa),
            Kind::D2Array(w, h, _, aa) => (w, h, 1, aa),
            Kind::D3(w, h, d) => (w, h, d, AaMode::Single),
            Kind::Cube(w) => (w, w, 1, AaMode::Single),
            Kind::CubeArray(w, _) => (w, w, 1, AaMode::Single),
        }
    }

    /// Number of array slices, or `None` for a non-array kind.
    pub fn get_num_slices(self) -> (r: Option<Layer>)
        ensures
            r == spec_num_slices(self),
    {
        match self {
            Kind::D1Array(_, l) => Some(l),
            Kind::D2Array(_, _, l, _) => Some(l),
            Kind::CubeArray(_, l) => Some(l),
            _ => None,
        }
    }

    /// Whether the kind is a cube map or an array of cube maps.
    pub fn is_cube(self) -> (r: bool)
        ensures
            r == (self is Cube || self is CubeArray),
    {
        matches!(self, Kind::Cube(_) | Kind::CubeArray(_, _))
    }
}

/// Image usage flags, a set of the `ImageUsage::*` bits.
#[derive(Clone, Copy, Debug, PartialEq, Eq, Structural, Hash)]
pub struct ImageUsage {
    /// Raw bit set.
    pub bits: u16,
}

impl ImageUsage {
    /// The image may be the source of a transfer.
    pub fn transfer_src() -> (r: ImageUsage)
        ensures
            r.bits == 0x1,
    {
        ImageUsage { bits: 0x1 }
    }

    /// The image may be the destination of a transfer.
    pub fn transfer_dst() -> (r: ImageUsage)
        ensures
            r.bits == 0x2,
    {
        ImageUsage { bits: 0x2 }
    }

    /// The image may be sampled by shaders.
    pub fn sampled() -> (r: ImageUsage)
        ensures
            r.bits == 0x4,
    {
        ImageUsage { bits: 0x4 }
    }

    /// The image may be read and written as storage by shaders.
    pub fn storage() -> (r: ImageUsage)
        ensures
            r.bits == 0x8,
    {
        ImageUsage { bits: 0x8 }
    }

    /// The image may be a color render target.
    pub fn color_attachment() -> (r: ImageUsage)
        ensures
            r.bits == 0x10,
    {
        ImageUsage { bits: 0x10 }
    }

    /// The image may be a depth-stencil target.
    pub fn depth_stencil_attachment() -> (r: ImageUsage)
        ensures
            r.bits == 0x20,
    {
        ImageUsage { bits: 0x20 }
    }

    /// Union of two flag sets.
    pub fn union(self, other: ImageUsage) -> (r: ImageUsage)
        ensures
            r.bits == self.bits | other.bits,
    {
        ImageUsage { bits: self.bits | other.bits }
    }

    /// Whether every bit of `other` is set in `self`.
    pub fn contains(self, other: ImageUsage) -> (r: bool)
        ensures
            r == crate::buffer::spec_contains(self.bits, other.bits),
    {
        self.bits & other.bits == other.bits
    }
}

/// Creation parameters of an image.
#[derive(Clone, Copy, Debug, PartialEq, Eq, Structural, Hash)]
pub struct Info {
    /// Shape of the image.
    pub kind: Kind,
    /// Number of mipmap levels, at least 1.
    pub levels: Level,
    /// Bit layout of a texel.
    pub format: SurfaceType,
    /// Requested usage set.
    pub usage: ImageUsage,
}

/// Error creating an image.
#[derive(Clone, Copy, Debug, PartialEq, Eq, Structural, Hash)]
pub enum CreationError {
    /// The format is not supported, under the optional channel hint given.
    Format(SurfaceType, Option<ChannelType>),
    /// An extent of the kind is zero.
    Size,
    /// The requested usage set is not supported by the device.
    Usage(ImageUsage),
    /// The requested level count is zero.
    Levels,
}

/// Layout an image's memory is kept in between uses.
#[derive(Clone, Copy, Debug, PartialEq, Eq, Structural, Hash)]
pub enum ImageLayout {
    /// Contents undefined; any use must transition away first.
    Undefined,
    /// Usable by every operation.
    General,
    /// Optimal as a color render target.
    ColorAttachmentOptimal,
    /// Optimal as a depth-stencil target.
    DepthStencilAttachmentOptimal,
    /// Optimal for shader reads.
    ShaderReadOnlyOptimal,
    /// Optimal as a transfer source.
    TransferSrcOptimal,
    /// Optimal as a transfer destination.
    TransferDstOptimal,
    /// Ready for presentation to a surface.
    Present,
}

/// Error selecting a layer of an image for a view.
#[derive(Clone, Copy, Debug, PartialEq, Eq, Structural, Hash)]
pub enum LayerError {
    /// The image kind has no layers to select.
    NotExpected(Kind),
    /// The layer is outside the image's layer count.
    OutOfBounds(Layer, Layer),
}

/// How a sampler filters texels.
#[derive(Clone, Copy, Debug, PartialEq, Eq, Structural, Hash)]
pub enum FilterMethod {
    /// Nearest texel, nearest mip level.
    Scale,
    /// Nearest texel, interpolated mip levels.
    Mipmap,
    /// Interpolated texels, nearest mip level.
    Bilinear,
    /// Interpolated texels and mip levels.
    Trilinear,
    /// Anisotropic filtering with the given maximum anisotropy.
    Anisotropic(u8),
}

/// What a sampler answers outside the [0, 1] coordinate range.
#[derive(Clone, Copy, Debug, PartialEq, Eq, Structural, Hash)]
pub enum WrapMode {
    /// Repeat the image.
    Tile,
    /// Repeat the image mirrored.
    Mirror,
    /// Clamp to the edge texel.
    Clamp,
    /// Answer the border color.
    Border,
}

/// Level-of-detail bias or bound, in fixed point with 8 fractional bits.
pub type Lod = i16;

/// A color packed as 8-bit channels, alpha in the lowest byte.
#[derive(Clone, Copy, Debug, PartialEq, Eq, Structural, Hash)]
pub struct PackedColor(pub u32);

/// Creation parameters of a sampler.
#[derive(Clone, Copy, Debug, PartialEq, Eq, Hash)]
pub struct SamplerInfo {
    /// Filtering of texels and mip levels.
    pub filter: FilterMethod,
    /// Wrapping along the three coordinate axes.
    pub wrap_mode: (WrapMode, WrapMode, WrapMode),
    /// Bias added to the computed level of detail.
    pub lod_bias: Lod,
    /// Bounds of the level of detail.
    pub lod_range: (Lod, Lod),
    /// Comparison applied by a shadow sampler, or `None`.
    pub comparison: Option<crate::state::Comparison>,
    /// Border color for `WrapMode::Border`.
    pub border: PackedColor,
}

impl SamplerInfo {
    /// A sampler description with the given filter and one wrap mode on
    /// every axis, no bias, the full level-of-detail range, no comparison
    /// and a transparent black border.
    pub fn new(filter: FilterMethod, wrap: WrapMode) -> (r: SamplerInfo)
        ensures
            r.filter == filter,
            r.wrap_mode == (wrap, wrap, wrap),
            r.lod_bias == 0,
            r.lod_range == (i16::MIN, i16::MAX),
            r.comparison is None,
            r.border == (PackedColor(0)),
    {
        SamplerInfo {
            filter,
            wrap_mode: (wrap, wrap, wrap),
            lod_bias: 0,
            lod_range: (i16::MIN, i16::MAX),
            comparison: None,
            border: PackedColor(0),
        }
    }
}

/// A subresource range of an image: a span of mip levels and layers, as a
/// view selects it.
#[derive(Clone, Copy, Debug, PartialEq, Eq, Structural, Hash)]
pub struct ResourceDesc {
    /// Channel interpretation the view reads with.
    pub channel: ChannelType,
    /// Single layer selected, or `None` for all layers.
    pub layer: Option<Layer>,
    /// First mip level of the view.
    pub min: Level,
    /// Last mip level of the view.
    pub max: Level,
}

} // verus!
