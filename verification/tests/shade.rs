use webrender::float_bits::FloatBits;
use webrender::internal_types::PatternKind;
use webrender::renderer::shade::composite::{CompositeFeatures, CompositeSurfaceFormat};
use webrender::renderer::shade::loader::{
    shader_samplers, BindAction, LazilyCompiledShader, Program, Projection, ShaderFeatures,
    ShaderKind, ShaderPrecacheFlags, ShaderStep, VertexArrayKind,
};
use webrender::renderer::shade::shaders::{
    shader_flags, BatchKind, BlendMode, GlyphFormat, PrecacheStep, ShaderOptions, Shaders,
};
use webrender::renderer::shade::{
    get_feature_string, has_platform_support, join_features, sort_features, DeviceCapabilities,
    GlType, ImageBufferKind, ShaderError, ShaderFeature, ShaderName, TextureExternalVersion,
};
use webrender::renderer::RendererError;

const FEATURES: [ShaderFeature; 14] = [
    ShaderFeature::AlphaPass,
    ShaderFeature::ColorTarget,
    ShaderFeature::DebugOverdraw,
    ShaderFeature::Dithering,
    ShaderFeature::DualSourceBlending,
    ShaderFeature::FastPath,
    ShaderFeature::GlyphTransform,
    ShaderFeature::Superellipse,
    ShaderFeature::Texture2D,
    ShaderFeature::TextureExternal,
    ShaderFeature::TextureExternalBT709,
    ShaderFeature::TextureExternalESSL1,
    ShaderFeature::TextureRect,
    ShaderFeature::Yuv,
];

const NAMES: [ShaderName; 20] = [
    ShaderName::CsBlur,
    ShaderName::CsSvgFilterNode,
    ShaderName::PsQuadMask,
    ShaderName::CsScale,
    ShaderName::PsTextRun,
    ShaderName::PsQuadTextured,
    ShaderName::PsQuadRepeat,
    ShaderName::PsQuadGradient,
    ShaderName::PsQuadBoxShadow,
    ShaderName::PsQuadYuv,
    ShaderName::PsQuadBackdrop,
    ShaderName::PsQuadBlend,
    ShaderName::PsQuadMixBlend,
    ShaderName::PsSplitComposite,
    ShaderName::PsClear,
    ShaderName::PsCopy,
    ShaderName::CsLineDecoration,
    ShaderName::CsBorderSegment,
    ShaderName::CsBorderSolid,
    ShaderName::Composite,
];

fn everything() -> ShaderFeatures {
    let mut configs = Vec::new();
    for mask in 0u32..(1 << 14) {
        if mask.count_ones() <= 3 {
            let features: Vec<ShaderFeature> =
                (0..14).filter(|i| mask & (1 << i) != 0).map(|i| FEATURES[i]).collect();
            configs.push(join_features(&sort_features(&features)));
        }
    }
    let mut available = Vec::new();
    for name in NAMES {
        for config in &configs {
            available.push((name, config.clone()));
        }
    }
    ShaderFeatures { available }
}

fn device(gl_type: GlType) -> DeviceCapabilities {
    DeviceCapabilities {
        gl_type,
        supports_dual_source_blending: true,
        supports_advanced_blend_equation: false,
        supports_image_external_essl3: true,
        supports_yuv_target: false,
    }
}

fn options() -> ShaderOptions {
    ShaderOptions {
        allow_dual_source_blending: true,
        allow_advanced_blend_equation: true,
        enable_dithering: true,
    }
}

fn shaders(gl_type: GlType) -> Shaders {
    let list = everything();
    Shaders::new(&device(gl_type), &options(), &list, &list).ok().unwrap()
}

#[test]
fn features_are_sorted_and_joined() {
    let features = vec![ShaderFeature::Texture2D, ShaderFeature::AlphaPass, ShaderFeature::Dithering];
    let sorted = sort_features(&features);
    assert_eq!(
        sorted,
        vec![ShaderFeature::AlphaPass, ShaderFeature::Dithering, ShaderFeature::Texture2D]
    );
    assert_eq!(join_features(&sorted), "ALPHA_PASS,DITHERING,TEXTURE_2D");
    assert_eq!(join_features(&Vec::new()), "");
}

#[test]
fn platforms_have_their_textures() {
    let gl = device(GlType::Gl);
    let gles = device(GlType::Gles);
    assert!(has_platform_support(ImageBufferKind::Texture2D, &gl));
    assert!(has_platform_support(ImageBufferKind::TextureRect, &gl));
    assert!(!has_platform_support(ImageBufferKind::TextureExternal, &gl));
    assert!(!has_platform_support(ImageBufferKind::TextureRect, &gles));
    assert!(has_platform_support(ImageBufferKind::TextureExternal, &gles));
    assert!(!has_platform_support(ImageBufferKind::TextureExternalBT709, &gles));
    assert_eq!(
        get_feature_string(ImageBufferKind::TextureExternal, TextureExternalVersion::ESSL1),
        "TEXTURE_EXTERNAL_ESSL1"
    );
    assert_eq!(
        get_feature_string(ImageBufferKind::Texture2D, TextureExternalVersion::ESSL3),
        "TEXTURE_2D"
    );
}

#[test]
fn a_shader_is_made_in_two_steps() {
    let list = everything();
    let mut shader = LazilyCompiledShader::new(
        ShaderKind::Cache(VertexArrayKind::Blur),
        ShaderName::CsBlur,
        &vec![ShaderFeature::ColorTarget],
        &list,
    )
    .ok()
    .unwrap();
    let full = ShaderPrecacheFlags { async_compile: false, full_compile: true };
    let part = ShaderPrecacheFlags { async_compile: true, full_compile: false };
    assert_eq!(shader.config(), "COLOR_TARGET");
    assert_eq!(shader.get_internal(full), ShaderStep::Create);
    let program = Program { id: 3, is_initialized: false };
    assert!(shader.created(Ok(program)).is_ok());
    assert_eq!(shader.get_internal(part), ShaderStep::Ready { program });
    assert_eq!(shader.get_internal(full), ShaderStep::Link { format: VertexArrayKind::Blur });
    let error = ShaderError::Link(String::from("cs_blur"), String::from("failed"));
    assert!(shader.linked(Err(error)).is_err());
    assert_eq!(shader.get_internal(full), ShaderStep::Link { format: VertexArrayKind::Blur });
    assert!(shader.linked(Ok(())).is_ok());
    assert!(matches!(shader.get_internal(full), ShaderStep::Ready { .. }));
    assert_eq!(shader.deinit().map(|program| program.id), Some(3));
}

#[test]
fn the_same_projection_is_not_set_again() {
    let list = everything();
    let mut shader =
        LazilyCompiledShader::new(ShaderKind::Clear, ShaderName::PsClear, &Vec::new(), &list)
            .ok()
            .unwrap();
    let program = Program { id: 8, is_initialized: true };
    let mut projection = Projection::identity();
    projection.m[0] = FloatBits(0x40000000);
    let mut errors = Vec::new();
    assert_eq!(
        shader.bind(Ok(program), &projection, None, &mut errors),
        vec![BindAction::BindProgram { program: 8 }, BindAction::SetUniforms { program: 8 }]
    );
    assert_eq!(
        shader.bind(Ok(program), &projection, None, &mut errors),
        vec![BindAction::BindProgram { program: 8 }]
    );
    let size = Some((FloatBits(1), FloatBits(2)));
    assert_eq!(
        shader.bind(Ok(program), &projection, size, &mut errors)[1],
        BindAction::SetTextureSize { program: 8, width: FloatBits(1), height: FloatBits(2) }
    );
    let failed = ShaderError::Compilation(String::from("ps_clear"), String::from("log"));
    assert!(shader.bind(Err(failed), &projection, None, &mut errors).is_empty());
    assert!(matches!(errors[0], RendererError::Shader(_)));
}

#[test]
fn patterns_are_drawn_by_their_shaders() {
    let mut shaders = shaders(GlType::Gl);
    let quad = |shaders: &mut Shaders, kind| {
        let shader = shaders.get(BatchKind::Quad(kind), BlendMode::NoBlend, false);
        (shader.name, shader.features.clone())
    };
    assert_eq!(
        quad(&mut shaders, PatternKind::Gradient),
        (ShaderName::PsQuadGradient, vec![ShaderFeature::Dithering])
    );
    assert_eq!(quad(&mut shaders, PatternKind::Repeat), (ShaderName::PsQuadRepeat, Vec::new()));
    assert_eq!(
        shaders.get_scale_shader(ImageBufferKind::TextureRect).features,
        vec![ShaderFeature::TextureRect]
    );
    assert_eq!(shaders.cs_blur_rgba8().features, vec![ShaderFeature::ColorTarget]);
    assert_eq!(shaders.ps_mask_superellipse().features, vec![ShaderFeature::Superellipse]);
    assert_eq!(shaders.ps_copy().kind, ShaderKind::Copy);
}

#[test]
fn text_is_drawn_as_its_blending_asks() {
    let shaders = shaders(GlType::Gl);
    let text = |format, mode, overdraw| shaders.get_handle(BatchKind::TextRun(format), mode, overdraw);
    let plain = text(GlyphFormat::Alpha, BlendMode::PremultipliedAlpha, false);
    assert_eq!(plain, shaders.ps_text_run.simple);
    assert_eq!(
        text(GlyphFormat::TransformedAlpha, BlendMode::PremultipliedAlpha, false),
        shaders.ps_text_run.glyph_transform
    );
    assert_eq!(
        text(GlyphFormat::Alpha, BlendMode::PremultipliedAlpha, true),
        shaders.ps_text_run.debug_overdraw
    );
    let dual = shaders.ps_text_run_dual_source.as_ref().unwrap();
    assert_eq!(text(GlyphFormat::Subpixel, BlendMode::SubpixelDualSource, false), dual.simple);
}

#[test]
fn surfaces_are_composited_by_their_format() {
    let mut shaders = shaders(GlType::Gles);
    let plain = CompositeFeatures {
        no_uv_clamp: false,
        no_color_modulation: false,
        no_clip_mask: false,
    };
    let shader = shaders.get_composite_shader(
        CompositeSurfaceFormat::Rgba,
        ImageBufferKind::TextureExternal,
        plain,
    );
    assert_eq!(shader.name, ShaderName::Composite);
    assert_eq!(shader.features, vec![ShaderFeature::TextureExternal]);
    let shader = shaders.get_composite_shader(
        CompositeSurfaceFormat::Yuv,
        ImageBufferKind::Texture2D,
        plain,
    );
    assert!(shader.features.contains(&ShaderFeature::Yuv));
}

#[test]
fn precaching_comes_to_an_end() {
    let shaders = shaders(GlType::Gl);
    let flags = ShaderPrecacheFlags { async_compile: true, full_compile: false };
    let mut pending = shaders.precache_all(flags);
    let total = pending.remaining_shaders.len();
    assert_eq!(total, shaders.loader.shaders.len());
    let mut steps = 0;
    loop {
        match shaders.resume_precache(&mut pending) {
            PrecacheStep::Finished => break,
            PrecacheStep::Prepare { step, .. } => {
                assert_eq!(step, ShaderStep::Create);
                steps += 1;
            }
            PrecacheStep::Nothing { .. } => panic!("a shader was passed over"),
        }
    }
    assert_eq!(steps, total);
}

#[test]
fn options_can_turn_features_off() {
    let device = device(GlType::Gl);
    let flags = shader_flags(&device, GlType::Gl, &options());
    assert!(flags.gl && !flags.gles && flags.dual_source_blending && flags.dithering);
    assert!(!flags.advanced_blend_equation);
    let none = ShaderOptions {
        allow_dual_source_blending: false,
        allow_advanced_blend_equation: false,
        enable_dithering: false,
    };
    let flags = shader_flags(&device, GlType::Gl, &none);
    assert!(!flags.dual_source_blending && !flags.dithering);
    let list = everything();
    let shaders = Shaders::new(&device, &none, &list, &list).ok().unwrap();
    assert!(shaders.ps_text_run_dual_source.is_none());
}

#[test]
fn samplers_have_their_names() {
    let samplers = shader_samplers();
    assert_eq!(samplers.len(), 11);
    assert_eq!(samplers[0].name(), "sColor0");
    assert_eq!(samplers[10].name(), "sGpuBufferI");
}
