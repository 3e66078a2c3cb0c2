//! Surface formats and channel interpretations of images and render
//! targets.

use vstd::prelude::*;

verus! {

/// Bit layout of one texel or pixel.
#[allow(non_camel_case_types)]
#[derive(Clone, Copy, Debug, PartialEq, Eq, Structural, Hash)]
pub enum SurfaceType {
    /// Single 8-bit channel.
    R8,
    /// Four 8-bit channels.
    R8_G8_B8_A8,
    /// Four 8-bit channels, blue first.
    B8_G8_R8_A8,
    /// Single 16-bit channel.
    R16,
    /// Two 16-bit channels.
    R16_G16,
    /// Single 32-bit channel.
    R32,
    /// Two 32-bit channels.
    R32_G32,
    /// Four 32-bit channels.
    R32_G32_B32_A32,
    /// 16-bit depth.
    D16,
    /// 24-bit depth with 8-bit stencil.
    D24_S8,
    /// 32-bit depth.
    D32,
}

/// Total bits of one texel of the surface type.
pub open spec fn spec_total_bits(s: SurfaceType) -> u32 {
    match s {
        SurfaceType::R8 => 8,
        SurfaceType::R8_G8_B8_A8 => 32,
        SurfaceType::B8_G8_R8_A8 => 32,
        SurfaceType::R16 => 16,
        SurfaceType::R16_G16 => 32,
        SurfaceType::R32 => 32,
        SurfaceType::R32_G32 => 64,
        SurfaceType::R32_G32_B32_A32 => 128,
        SurfaceType::D16 => 16,
        SurfaceType::D24_S8 => 32,
        SurfaceType::D32 => 32,
    }
}

/// Bits of the alpha channel of a color surface, or of the stencil part
/// of a depth-stencil surface.
pub open spec fn spec_alpha_stencil_bits(s: SurfaceType) -> u32 {
    match s {
        SurfaceType::R8_G8_B8_A8 => 8,
        SurfaceType::B8_G8_R8_A8 => 8,
        SurfaceType::R32_G32_B32_A32 => 32,
        SurfaceType::D24_S8 => 8,
        _ => 0,
    }
}

impl SurfaceType {
    /// Total bits of one texel.
    pub fn get_total_bits(self) -> (r: u32)
        ensures
            r == spec_total_bits(self),
    {
        match self {
            SurfaceType::R8 => 8,
            SurfaceType::R8_G8_B8_A8 => 32,
            SurfaceType::B8_G8_R8_A8 => 32,
            SurfaceType::R16 => 16,
            SurfaceType::R16_G16 => 32,
            SurfaceType::R32 => 32,
            SurfaceType::R32_G32 => 64,
            SurfaceType::R32_G32_B32_A32 => 128,
            SurfaceType::D16 => 16,
            SurfaceType::D24_S8 => 32,
            SurfaceType::D32 => 32,
        }
    }

    /// Bits of the alpha or stencil channel.
    pub fn get_alpha_stencil_bits(self) -> (r: u32)
        ensures
            r == spec_alpha_stencil_bits(self),
    {
        match self {
            SurfaceType::R8_G8_B8_A8 => 8,
            SurfaceType::B8_G8_R8_A8 => 8,
            SurfaceType::R32_G32_B32_A32 => 32,
            SurfaceType::D24_S8 => 8,
            _ => 0,
        }
    }
}

/// Interpretation of the bits of a channel.
#[derive(Clone, Copy, Debug, PartialEq, Eq, Structural, Hash)]
pub enum ChannelType {
    /// Unsigned integer.
    Uint,
    /// Signed integer.
    Int,
    /// Unsigned normalized.
    Unorm,
    /// Signed normalized.
    Inorm,
    /// Floating point.
    Float,
    /// Unsigned normalized with sRGB gamma.
    Srgb,
}

/// A complete format: a bit layout and the interpretation of its channels.
#[derive(Clone, Copy, Debug, PartialEq, Eq, Structural, Hash)]
pub struct Format(pub SurfaceType, pub ChannelType);

/// Buffer depths a windowing context must be configured with for a pair of
/// color and depth-stencil formats: color bits without alpha, alpha bits,
/// depth bits without stencil, stencil bits, and whether the color space
/// is sRGB.
#[derive(Clone, Copy, Debug, PartialEq, Eq, Structural, Hash)]
pub struct ContextBitDepths {
    /// Color bits, alpha excluded.
    pub color_bits: u32,
    /// Alpha bits.
    pub alpha_bits: u32,
    /// Depth bits, stencil excluded.
    pub depth_bits: u32,
    /// Stencil bits.
    pub stencil_bits: u32,
    /// Whether the color channel is sRGB-encoded.
    pub srgb: bool,
}

/// Computes the buffer depths a windowing context needs for the given
/// color and depth-stencil formats.
pub fn context_bit_depths(color_format: Format, ds_format: Format) -> (r: ContextBitDepths)
    ensures
        r.color_bits == spec_total_bits(color_format.0) - spec_alpha_stencil_bits(color_format.0),
        r.alpha_bits == spec_alpha_stencil_bits(color_format.0),
        r.depth_bits == spec_total_bits(ds_format.0) - spec_alpha_stencil_bits(ds_format.0),
        r.stencil_bits == spec_alpha_stencil_bits(ds_format.0),
        r.srgb == (color_format.1 == ChannelType::Srgb),
{
    let color_total_bits = color_format.0.get_total_bits();
    let alpha_bits = color_format.0.get_alpha_stencil_bits();
    let depth_total_bits = ds_format.0.get_total_bits();
    let stencil_bits = ds_format.0.get_alpha_stencil_bits();
    proof {
        assert(spec_alpha_stencil_bits(color_format.0) <= spec_total_bits(color_format.0));
        assert(spec_alpha_stencil_bits(ds_format.0) <= spec_total_bits(ds_format.0));
    }
    ContextBitDepths {
        color_bits: color_total_bits - alpha_bits,
        alpha_bits,
        depth_bits: depth_total_bits - stencil_bits,
        stencil_bits,
        srgb: matches!(color_format.1, ChannelType::Srgb),
    }
}

} // verus!
