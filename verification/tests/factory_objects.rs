//! Shaders, samplers, images, views and graphics pipelines.

use gfx_hal::factory::{Factory, ResourceViewError};
use gfx_hal::format::{context_bit_depths, ChannelType, Format, SurfaceType};
use gfx_hal::image::{
    AaMode, CreationError, FilterMethod, ImageUsage, Kind, LayerError, PackedColor, ResourceDesc,
    SamplerInfo, WrapMode,
};
use gfx_hal::memory::{MemoryType, Properties};
use gfx_hal::native::{
    BindTarget, BorderColor, FilterOp, Pipeline, ResourceView, ShaderLib,
};
use gfx_hal::pso::{
    AttributeDesc, Element, GraphicsPipelineDesc, GraphicsShaderSet, Rasterizer, VertexBufferDesc,
};
use gfx_hal::shade::{
    CreateShaderError, GeometryEntry, GeometryShader, PixelEntry, PixelShader, ShaderSet,
    VertexEntry, VertexShader,
};
use gfx_hal::pso::{ColorInfo, DepthStencilInfo};
use gfx_hal::state::{
    Blend, BlendChannel, ColorMask, Comparison, CullFace, Depth, Equation, Factor, FrontFace,
    RasterMethod, Stencil, StencilOp, StencilSide,
};
use gfx_hal::Primitive;

fn test_factory() -> Factory {
    Factory::new(
        vec![MemoryType { properties: Properties::device_local() }],
        256,
        1024,
        gfx_hal::buffer::Usage::vertex(),
        ImageUsage::sampled().union(ImageUsage::storage()).union(ImageUsage::transfer_dst()),
        vec![
            (SurfaceType::R8_G8_B8_A8, ChannelType::Unorm),
            (SurfaceType::R8_G8_B8_A8, ChannelType::Uint),
            (SurfaceType::R32_G32_B32_A32, ChannelType::Float),
        ],
    )
}

fn spirv(words: usize) -> Vec<u8> {
    let mut code = vec![0x03u8, 0x02, 0x23, 0x07];
    code.extend(std::iter::repeat(0u8).take((words - 1) * 4));
    code
}

#[test]
fn shader_creation_checks_the_module_header() {
    let mut factory = test_factory();
    let good = factory.create_shader(&spirv(5)).unwrap();
    let second = factory.create_shader(&spirv(8)).unwrap();
    assert!(good.id != second.id);

    // Too short, misaligned, or bad magic are refused.
    for bad in [vec![0x03u8, 0x02, 0x23, 0x07], spirv(5)[..18].to_vec(), {
        let mut m = spirv(5);
        m[3] = 0x08;
        m
    }] {
        match factory.create_shader(&bad) {
            Err(CreateShaderError::CompilationFailed(msg)) => {
                assert_eq!(msg, "shader byte code is not a SPIR-V module");
            },
            other => panic!("expected a compilation failure, got {:?}", other),
        }
    }
}

#[test]
fn shader_set_getters_and_usage() {
    let mut factory = test_factory();
    let vs = VertexShader(factory.create_shader(&spirv(5)).unwrap());
    let gs = GeometryShader(factory.create_shader(&spirv(5)).unwrap());
    let ps = PixelShader(factory.create_shader(&spirv(5)).unwrap());
    let simple = ShaderSet::Simple(
        VertexEntry(vs, "main".to_string()),
        PixelEntry(ps, "main".to_string()),
    );
    assert_eq!(simple.get_usage().bits, 0x1 | 0x4);
    assert!(simple.get_vertex_entry().is_some());
    assert!(simple.get_geometry_entry().is_none());
    assert!(simple.get_pixel_entry().is_some());

    let geometry = ShaderSet::Geometry(
        VertexEntry(vs, "vs_main".to_string()),
        GeometryEntry(gs, "gs_main".to_string()),
        PixelEntry(ps, "ps_main".to_string()),
    );
    assert_eq!(geometry.get_usage().bits, 0x1 | 0x2 | 0x4);
    assert_eq!(geometry.get_geometry_entry().unwrap().get_entry_point(), "gs_main");

    let mut f2 = test_factory();
    let stages = f2.get_shader_stages(&geometry);
    assert_eq!(stages.len(), 3);
    assert_eq!(stages[0].entry, "vs_main");
    assert_eq!(stages[1].entry, "gs_main");
    assert_eq!(stages[2].entry, "ps_main");
}

#[test]
fn sampler_mapping_is_exact() {
    let factory = test_factory();
    let info = SamplerInfo::new(FilterMethod::Bilinear, WrapMode::Tile);
    let sampler = factory.create_sampler(info);
    assert_eq!(sampler.min_filter, FilterOp::Linear);
    assert_eq!(sampler.mag_filter, FilterOp::Linear);
    assert_eq!(sampler.mip_filter, FilterOp::Nearest);
    assert_eq!(sampler.max_anisotropy, 0);
    assert_eq!(sampler.address_u, WrapMode::Tile);
    assert_eq!(sampler.border, BorderColor::TransparentBlack);

    let mut aniso = SamplerInfo::new(FilterMethod::Anisotropic(16), WrapMode::Border);
    aniso.border = PackedColor(0xff00_0000);
    aniso.comparison = Some(Comparison::LessEqual);
    let sampler = factory.create_sampler(aniso);
    assert_eq!(sampler.min_filter, FilterOp::Linear);
    assert_eq!(sampler.mip_filter, FilterOp::Linear);
    assert_eq!(sampler.max_anisotropy, 16);
    assert_eq!(sampler.border, BorderColor::OpaqueBlack);
    assert_eq!(sampler.comparison, Some(Comparison::LessEqual));

    let mut white = SamplerInfo::new(FilterMethod::Scale, WrapMode::Clamp);
    white.border = PackedColor(0xffff_ffff);
    assert_eq!(factory.create_sampler(white).border, BorderColor::OpaqueWhite);
    // An unrecognized packed color falls back to transparent black.
    let mut odd = SamplerInfo::new(FilterMethod::Mipmap, WrapMode::Mirror);
    odd.border = PackedColor(0x1234_5678);
    let s = factory.create_sampler(odd);
    assert_eq!(s.border, BorderColor::TransparentBlack);
    assert_eq!(s.min_filter, FilterOp::Nearest);
    assert_eq!(s.mip_filter, FilterOp::Linear);
}

#[test]
fn image_creation_validates_request() {
    let mut factory = test_factory();
    let good = gfx_hal::image::Info {
        kind: Kind::D2(512, 512, AaMode::Single),
        levels: 1,
        format: SurfaceType::R32_G32_B32_A32,
        usage: ImageUsage::sampled().union(ImageUsage::storage()),
    };
    let unbound = factory.create_image(good, Some(ChannelType::Float)).unwrap();
    let req = factory.get_image_requirements(&unbound);
    // 16 bytes per texel, 512 by 512, one level, aligned to 1024.
    assert_eq!(req.size, 512 * 512 * 16);
    assert_eq!(req.alignment, 1024);

    // The hint chooses the channel the format is checked under.
    let outcome = factory.create_image(good, Some(ChannelType::Srgb));
    assert_eq!(
        outcome,
        Err(CreationError::Format(SurfaceType::R32_G32_B32_A32, Some(ChannelType::Srgb)))
    );
    // Without a hint the format is checked as unsigned integers.
    let mut rgba = good;
    rgba.format = SurfaceType::R8_G8_B8_A8;
    assert!(factory.create_image(rgba, None).is_ok());

    let mut unsupported = good;
    unsupported.usage = ImageUsage::color_attachment();
    assert_eq!(
        factory.create_image(unsupported, Some(ChannelType::Float)),
        Err(CreationError::Usage(ImageUsage::color_attachment()))
    );

    let mut flat = good;
    flat.kind = Kind::D2(0, 512, AaMode::Single);
    assert_eq!(
        factory.create_image(flat, Some(ChannelType::Float)),
        Err(CreationError::Size)
    );

    let mut no_levels = good;
    no_levels.levels = 0;
    assert_eq!(
        factory.create_image(no_levels, Some(ChannelType::Float)),
        Err(CreationError::Levels)
    );
}

#[test]
fn image_views_validate_layers_and_channels() {
    let mut factory = test_factory();
    let info = gfx_hal::image::Info {
        kind: Kind::D2Array(64, 64, 6, AaMode::Single),
        levels: 4,
        format: SurfaceType::R8_G8_B8_A8,
        usage: ImageUsage::sampled(),
    };
    let unbound = factory.create_image(info, None).unwrap();
    let req = factory.get_image_requirements(&unbound);
    let heap = factory.allocate_memory(0, req.size).unwrap();
    let image = factory.bind_image_memory(&heap, 0, unbound).unwrap();

    let desc = ResourceDesc { channel: ChannelType::Unorm, layer: None, min: 1, max: 3 };
    let view = factory.view_image(&image, desc).unwrap();
    assert_eq!(view.base_level, 1);
    assert_eq!(view.level_count, 3);
    assert_eq!(view.base_layer, 0);
    assert_eq!(view.layer_count, 6);

    let one_layer = ResourceDesc { channel: ChannelType::Unorm, layer: Some(2), min: 0, max: 0 };
    let view = factory.view_image(&image, one_layer).unwrap();
    assert_eq!(view.base_layer, 2);
    assert_eq!(view.layer_count, 1);

    let out_of_bounds =
        ResourceDesc { channel: ChannelType::Unorm, layer: Some(6), min: 0, max: 0 };
    assert_eq!(
        factory.view_image(&image, out_of_bounds),
        Err(ResourceViewError::Layer(LayerError::OutOfBounds(6, 6)))
    );

    let bad_channel = ResourceDesc { channel: ChannelType::Float, layer: None, min: 0, max: 0 };
    assert_eq!(
        factory.view_image(&image, bad_channel),
        Err(ResourceViewError::Channel(ChannelType::Float))
    );

    let bad_range = ResourceDesc { channel: ChannelType::Unorm, layer: None, min: 3, max: 1 };
    assert_eq!(factory.view_image(&image, bad_range), Err(ResourceViewError::Unsupported));

    // A flat image refuses a layer selection; an image without the
    // sampled flag refuses any view.
    let flat_info = gfx_hal::image::Info {
        kind: Kind::D2(32, 32, AaMode::Single),
        levels: 1,
        format: SurfaceType::R8_G8_B8_A8,
        usage: ImageUsage::sampled(),
    };
    let unbound = factory.create_image(flat_info, None).unwrap();
    let flat = factory.bind_image_memory(&heap, 0, unbound).unwrap();
    let layered = ResourceDesc { channel: ChannelType::Unorm, layer: Some(0), min: 0, max: 0 };
    assert_eq!(
        factory.view_image(&flat, layered),
        Err(ResourceViewError::Layer(LayerError::NotExpected(Kind::D2(
            32,
            32,
            AaMode::Single
        ))))
    );

    let mut transfer_only = flat_info;
    transfer_only.usage = ImageUsage::transfer_dst();
    let unbound = factory.create_image(transfer_only, None).unwrap();
    let dst = factory.bind_image_memory(&heap, 0, unbound).unwrap();
    let desc = ResourceDesc { channel: ChannelType::Unorm, layer: None, min: 0, max: 0 };
    assert_eq!(factory.view_image(&dst, desc), Err(ResourceViewError::NoBindFlag));
}

#[test]
fn graphics_pipelines_derive_fixed_function_state() {
    let mut factory = test_factory();
    let vs = VertexShader(factory.create_shader(&spirv(5)).unwrap());
    let ps = PixelShader(factory.create_shader(&spirv(5)).unwrap());
    let set = ShaderSet::Simple(
        VertexEntry(vs, "main".to_string()),
        PixelEntry(ps, "main".to_string()),
    );

    let entries = GraphicsShaderSet {
        vertex_shader: "main".to_string(),
        hull_shader: None,
        domain_shader: None,
        geometry_shader: None,
        pixel_shader: Some("main".to_string()),
    };
    let mut desc =
        GraphicsPipelineDesc::new(Primitive::TriangleList, Rasterizer::new_fill(), entries);
    desc.depth_stencil = Some((
        Format(SurfaceType::D24_S8, ChannelType::Unorm),
        gfx_hal::pso::DepthStencilInfo {
            depth: Some(Depth { fun: Comparison::LessEqual, write: true }),
            front: None,
            back: None,
        },
    ));
    desc.vertex_buffers.push(VertexBufferDesc { stride: 20, rate: 0 });
    desc.attributes.push(AttributeDesc {
        location: 0,
        binding: 0,
        element: Element {
            format: Format(SurfaceType::R32_G32_B32_A32, ChannelType::Float),
            offset: 0,
        },
    });

    let results = factory.create_graphics_pipelines(&vec![(set.clone(), desc.clone())]);
    assert_eq!(results.len(), 1);
    let pipeline: Pipeline = results[0].clone().unwrap();
    assert_eq!(pipeline.vertex_shader, vs.0);
    assert_eq!(pipeline.geometry_shader, None);
    assert_eq!(pipeline.pixel_shader, ps.0);
    assert_eq!(pipeline.primitive, Primitive::TriangleList);
    assert_eq!(pipeline.polygon_mode, RasterMethod::Fill);
    assert_eq!(pipeline.line_width, 1);
    assert_eq!(pipeline.cull, CullFace::Nothing);
    assert_eq!(pipeline.front_face, FrontFace::CounterClockwise);
    assert!(!pipeline.depth_bias_enable);
    assert!(pipeline.depth_test_enable);
    assert!(pipeline.depth_write_enable);
    assert_eq!(pipeline.depth_compare, Comparison::LessEqual);
    assert!(!pipeline.stencil_test_enable);

    // Without a depth-stencil target the depth test is off and the
    // comparison is never.
    let mut line_desc = desc.clone();
    line_desc.depth_stencil = None;
    line_desc.rasterizer.polygon_mode = RasterMethod::Line(3);
    let results = factory.create_graphics_pipelines(&vec![(set.clone(), line_desc)]);
    let pipeline = results[0].clone().unwrap();
    assert!(!pipeline.depth_test_enable);
    assert_eq!(pipeline.depth_compare, Comparison::Never);
    assert_eq!(pipeline.polygon_mode, RasterMethod::Line(3));
    assert_eq!(pipeline.line_width, 3);

    // An attribute reading from a vertex buffer that does not exist is a
    // creation error; the other requests still go through.
    let mut bad = desc.clone();
    bad.attributes[0].binding = 5;
    let results = factory.create_graphics_pipelines(&vec![(set.clone(), bad), (set, desc)]);
    assert!(results[0].is_err());
    assert!(results[1].is_ok());
}

#[test]
fn resource_views_and_shader_libs() {
    let view = ResourceView::new_buffer(42);
    assert_eq!(view.object, 42);
    assert_eq!(view.bind, BindTarget::Buffer);
    assert!(view.owned);

    let tex = ResourceView::new_texture(7, Kind::Cube(64));
    assert_eq!(tex.bind, BindTarget::TextureCube);
    assert!(!tex.owned);
    let msaa = ResourceView::new_texture(8, Kind::D2(4, 4, AaMode::Multi(4)));
    assert_eq!(msaa.bind, BindTarget::Texture2DMultisample);

    let lib = ShaderLib::new();
    assert!(lib.shaders.is_empty());
}

#[test]
fn context_bit_depths_follow_the_formats() {
    let color = Format(SurfaceType::R8_G8_B8_A8, ChannelType::Srgb);
    let ds = Format(SurfaceType::D24_S8, ChannelType::Unorm);
    let depths = context_bit_depths(color, ds);
    assert_eq!(depths.color_bits, 24);
    assert_eq!(depths.alpha_bits, 8);
    assert_eq!(depths.depth_bits, 24);
    assert_eq!(depths.stencil_bits, 8);
    assert!(depths.srgb);

    let linear = Format(SurfaceType::B8_G8_R8_A8, ChannelType::Unorm);
    let d32 = Format(SurfaceType::D32, ChannelType::Float);
    let depths = context_bit_depths(linear, d32);
    assert_eq!(depths.depth_bits, 32);
    assert_eq!(depths.stencil_bits, 0);
    assert!(!depths.srgb);
}

#[test]
fn vertex_buffer_set_flattens_into_parallel_arrays() {
    let set = gfx_hal::pso::VertexBufferSet(vec![(11, 0), (12, 64)]);
    let (buffers, offsets) = set.flatten_for_binding();
    assert_eq!(buffers.len(), gfx_hal::MAX_VERTEX_ATTRIBUTES);
    assert_eq!(offsets.len(), gfx_hal::MAX_VERTEX_ATTRIBUTES);
    assert_eq!(buffers[0], 11);
    assert_eq!(buffers[1], 12);
    assert_eq!(offsets[1], 64);
    assert!(buffers[2..].iter().all(|b| *b == 0));

    let empty = gfx_hal::pso::VertexBufferSet::new();
    let (buffers, _) = empty.flatten_for_binding();
    assert!(buffers.iter().all(|b| *b == 0));
}

#[test]
fn error_descriptions_are_stable() {
    assert_eq!(
        gfx_hal::buffer::CreationError::Other.description(),
        "An unknown error occurred"
    );
    assert_eq!(
        gfx_hal::buffer::CreationError::UnsupportedUsage(gfx_hal::buffer::Usage::indirect())
            .description(),
        "Requested usage mode is not supported"
    );
    assert_eq!(
        gfx_hal::pso::CreationError.description(),
        "Could not create PSO on device."
    );
}

#[test]
fn pipeline_info_conversions() {
    let masked = ColorInfo::from(ColorMask::all());
    assert_eq!(masked.mask.bits, 0xf);
    assert!(masked.color.is_none());
    assert!(masked.alpha.is_none());

    let channel = BlendChannel {
        equation: Equation::Add,
        source: Factor::SourceAlpha,
        destination: Factor::OneMinusSourceAlpha,
    };
    let blended = ColorInfo::from(Blend { color: channel, alpha: channel });
    assert_eq!(blended.mask.bits, 0xf);
    assert_eq!(blended.color, Some(channel));

    let depth_only = DepthStencilInfo::from(Depth { fun: Comparison::Less, write: true });
    assert!(depth_only.depth.is_some());
    assert!(depth_only.front.is_none());

    let side = StencilSide {
        fun: Comparison::Always,
        mask_read: 0xff,
        mask_write: 0xff,
        op_fail: StencilOp::Keep,
        op_depth_fail: StencilOp::Keep,
        op_pass: StencilOp::Replace,
    };
    let both = DepthStencilInfo::from((
        Depth { fun: Comparison::Less, write: false },
        Stencil { front: side, back: side },
    ));
    assert!(both.depth.is_some());
    assert_eq!(both.front, Some(side));
    assert_eq!(both.back, Some(side));
}
