use webrender::float_bits::{FloatBits, ONE_BITS};
use webrender::internal_types::{ColorF, FrameId, RenderTargetKind};
use webrender::renderer::commands::{
    BatchTextures, BlendFunc, DrawCommand, GpuSampler, GpuTag, InstanceRange, IntRect,
    OrthoProjection, PrimShader, Shader, TextureLayer, TextureSampler, TransformedRectKind,
    VertexArrayKind,
};
use webrender::renderer::draw::alpha_target::{draw_alpha_target, AlphaRenderTarget, ClipBatcher};
use webrender::renderer::draw::color_target::{
    draw_color_target, ColorRenderTarget, FrameOutput, OutputRequest, OutputTexture,
};
use webrender::renderer::draw::{
    count_draws, draw_instanced_batch, get_yuv_shader_index, submit_batch, BatchKey, BatchKind,
    BlendMode, BrushBatchKind, DrawContext, DrawTask, GlyphFormat, PrimitiveBatch, TargetContext,
    TextShaderMode, TransformBatchKind, YuvColorSpace, YuvFormat,
};
use webrender::renderer::frame::{
    assign_targets, collect_outputs, draw_tile_frame, CacheSize, FrameContext, FrameDebug,
    PassState, RenderPass,
};
use webrender::renderer::shade::GlType;
use webrender::renderer::debugger::ShrunkLayers;
use webrender::renderer::textures::{
    Binding, ExternalImageKey, ExternalTexture, SourceTexture, SourceTextureResolver, TextureId,
    TextureTarget,
};
use webrender::renderer::{DebugFlags, ImageBufferKind};

fn rect(x: i32, y: i32, width: i32, height: i32) -> IntRect {
    IntRect { x, y, width, height }
}

fn range(first: usize, count: usize) -> InstanceRange {
    InstanceRange { first, count }
}

fn context(enable_batcher: bool) -> DrawContext {
    DrawContext {
        gl_type: GlType::Gl,
        enable_batcher,
        enable_clear_scissor: true,
        dither_matrix_texture: None,
        alpha_prim_debug: false,
    }
}

fn projection() -> OrthoProjection {
    OrthoProjection { width: 64, height: 32, is_screen: false }
}

fn target() -> TargetContext {
    TargetContext {
        render_target: Some(TextureLayer { texture: TextureId(5), layer: 0 }),
        width: 64,
        height: 32,
        projection: projection(),
        cache_width: 16,
        cache_height: 16,
    }
}

fn resolver() -> SourceTextureResolver {
    let mut resolver = SourceTextureResolver::new(TextureId(100));
    resolver.cache_texture_map.push(TextureId(7));
    resolver
}

fn key(kind: BatchKind, blend_mode: BlendMode) -> BatchKey {
    BatchKey { kind, blend_mode, textures: BatchTextures::no_texture() }
}

fn transformable(kind: TransformBatchKind) -> BatchKind {
    BatchKind::Transformable(TransformedRectKind::AxisAligned, kind)
}

fn shader_of(kind: BatchKind) -> (Shader, GpuTag) {
    let mut out = Vec::new();
    submit_batch(
        &mut out,
        &key(kind, BlendMode::NoBlend),
        range(0, 3),
        &context(true),
        &resolver(),
        &Vec::new(),
        &target(),
    );
    let shader = out.iter().find_map(|command| match command {
        DrawCommand::BindShader { shader, .. } => Some(*shader),
        _ => None,
    });
    let tag = out.iter().find_map(|command| match command {
        DrawCommand::Marker(tag) => Some(*tag),
        _ => None,
    });
    (shader.unwrap(), tag.unwrap())
}

#[test]
fn yuv_shaders_have_their_places() {
    let mut all = Vec::new();
    for kind in [
        ImageBufferKind::Texture2D,
        ImageBufferKind::TextureRect,
        ImageBufferKind::TextureExternal,
        ImageBufferKind::Texture2DArray,
    ] {
        for format in [YuvFormat::NV12, YuvFormat::PlanarYCbCr, YuvFormat::InterleavedYCbCr] {
            for space in [YuvColorSpace::Rec601, YuvColorSpace::Rec709] {
                all.push(get_yuv_shader_index(kind, format, space));
            }
        }
    }
    all.sort();
    assert_eq!(all, (0..24).collect::<Vec<usize>>());
    assert_eq!(
        get_yuv_shader_index(
            ImageBufferKind::TextureRect,
            YuvFormat::PlanarYCbCr,
            YuvColorSpace::Rec709
        ),
        9
    );
}

#[test]
fn batches_have_their_shaders() {
    let prim = |prim| Shader::Prim { prim, transform: TransformedRectKind::AxisAligned };
    assert_eq!(
        shader_of(transformable(TransformBatchKind::Rectangle(false))),
        (prim(PrimShader::Rectangle), GpuTag::PrimRect)
    );
    assert_eq!(
        shader_of(transformable(TransformBatchKind::Rectangle(true))),
        (prim(PrimShader::RectangleClip), GpuTag::PrimRect)
    );
    assert_eq!(
        shader_of(transformable(TransformBatchKind::Line)),
        (prim(PrimShader::Line), GpuTag::PrimLine)
    );
    assert_eq!(shader_of(BatchKind::SplitComposite), (Shader::PsSplitComposite, GpuTag::PrimSplitComposite));
    assert_eq!(shader_of(BatchKind::HardwareComposite), (Shader::PsHwComposite, GpuTag::PrimHwComposite));
    assert_eq!(shader_of(BatchKind::Blend), (Shader::PsBlend, GpuTag::PrimBlend));
    assert_eq!(
        shader_of(BatchKind::Brush(BrushBatchKind::Image(RenderTargetKind::Alpha))).1,
        GpuTag::BrushImage
    );
    assert_eq!(
        shader_of(transformable(TransformBatchKind::BorderEdge)).0,
        prim(PrimShader::BorderEdge)
    );
}

#[test]
fn text_modes_follow_the_glyphs() {
    assert_eq!(TextShaderMode::from_format(GlyphFormat::Mono), TextShaderMode::Alpha);
    assert_eq!(TextShaderMode::from_format(GlyphFormat::Alpha), TextShaderMode::Alpha);
    assert_eq!(TextShaderMode::from_format(GlyphFormat::ColorBitmap), TextShaderMode::ColorBitmap);
    assert_eq!(TextShaderMode::Alpha.number(), 0);
    assert_eq!(TextShaderMode::ColorBitmap.number(), 7);
    assert_eq!(BatchKind::Blend.debug_name(), "Blend");
    assert_eq!(
        transformable(TransformBatchKind::AngleGradient).debug_name(),
        "AngleGradient"
    );
}

#[test]
fn instances_are_drawn_at_once_or_one_by_one() {
    let textures = BatchTextures::color(SourceTexture::TextureCache(0));
    let bind = DrawCommand::BindTexture {
        sampler: TextureSampler::color(0),
        binding: Binding::Texture(TextureId(7)),
    };
    let mut out = Vec::new();
    draw_instanced_batch(
        &mut out,
        &context(true),
        &resolver(),
        range(4, 2),
        VertexArrayKind::Primitive,
        &textures,
    );
    assert_eq!(
        out,
        vec![
            bind,
            DrawCommand::BindVao(VertexArrayKind::Primitive),
            DrawCommand::UploadInstances(range(4, 2)),
            DrawCommand::DrawInstanced { count: 2 },
        ]
    );
    let mut single = Vec::new();
    draw_instanced_batch(
        &mut single,
        &context(false),
        &resolver(),
        range(4, 2),
        VertexArrayKind::Primitive,
        &textures,
    );
    assert_eq!(
        single[2..],
        [
            DrawCommand::UploadInstances(range(4, 1)),
            DrawCommand::DrawOne,
            DrawCommand::UploadInstances(range(5, 1)),
            DrawCommand::DrawOne,
        ]
    );
    assert_eq!(count_draws(&out).0, 1);
    assert_eq!(count_draws(&single).0, 2);
}

fn alpha_target() -> AlphaRenderTarget {
    AlphaRenderTarget {
        used_rect: rect(0, 0, 20, 10),
        zero_clears: Vec::new(),
        vertical_blurs: range(0, 0),
        horizontal_blurs: range(0, 0),
        scalings: Vec::new(),
        brush_mask_corners: range(0, 0),
        brush_mask_rounded_rects: range(0, 0),
        clip_batcher: ClipBatcher {
            border_clears: range(0, 0),
            borders: range(0, 0),
            rectangles: range(0, 0),
            images: Vec::new(),
        },
    }
}

fn task(x: i32, y: i32) -> DrawTask {
    DrawTask { rect: rect(x, y, 4, 4), layer: 0, screen_x: 0, screen_y: 0 }
}

#[test]
fn masks_are_multiplied() {
    let mut t = alpha_target();
    t.zero_clears = vec![1];
    t.clip_batcher.rectangles = range(3, 2);
    let mut out = Vec::new();
    draw_alpha_target(
        &mut out,
        &t,
        &context(true),
        &resolver(),
        &vec![task(0, 0), task(8, 8)],
        &target(),
    );
    let one = FloatBits(ONE_BITS);
    let open = ColorF { r: one, g: one, b: one, a: FloatBits(0) };
    assert_eq!(
        out,
        vec![
            DrawCommand::AddSampler(GpuSampler::AlphaTargets),
            DrawCommand::Marker(GpuTag::SetupTarget),
            DrawCommand::BindDrawTarget {
                target: Some(TextureLayer { texture: TextureId(5), layer: 0 }),
                width: 64,
                height: 32,
            },
            DrawCommand::Depth(false),
            DrawCommand::DepthWrite(false),
            DrawCommand::ClearTargetRect { color: Some(open), depth: false, rect: rect(0, 0, 20, 10) },
            DrawCommand::ClearTargetRect {
                color: Some(ColorF::transparent()),
                depth: false,
                rect: rect(8, 8, 4, 4),
            },
            DrawCommand::Marker(GpuTag::CacheClip),
            DrawCommand::SetBlend(true),
            DrawCommand::SetBlendFunc(BlendFunc::Multiply),
            DrawCommand::BindShader {
                shader: Shader::CsClipRectangle,
                projection: projection(),
                mode: 0,
            },
            DrawCommand::BindVao(VertexArrayKind::Clip),
            DrawCommand::UploadInstances(range(3, 2)),
            DrawCommand::DrawInstanced { count: 2 },
            DrawCommand::DoneSampler,
        ]
    );
}

fn color_target() -> ColorRenderTarget {
    ColorRenderTarget {
        used_rect: rect(0, 0, 20, 10),
        vertical_blurs: range(0, 0),
        horizontal_blurs: range(0, 0),
        scalings: Vec::new(),
        text_run_cache_prims: Vec::new(),
        line_cache_prims: range(0, 0),
        opaque_batches: Vec::new(),
        alpha_batches: Vec::new(),
        outputs: Vec::new(),
    }
}

fn batch(kind: TransformBatchKind, blend_mode: BlendMode, first: usize) -> PrimitiveBatch {
    PrimitiveBatch {
        key: key(transformable(kind), blend_mode),
        instances: range(first, 1),
        item_rects: Vec::new(),
    }
}

#[test]
fn opaque_batches_are_drawn_from_front_to_back() {
    let mut t = color_target();
    t.opaque_batches = vec![
        batch(TransformBatchKind::Rectangle(false), BlendMode::NoBlend, 10),
        batch(TransformBatchKind::Line, BlendMode::NoBlend, 20),
    ];
    t.alpha_batches = vec![
        batch(TransformBatchKind::Rectangle(false), BlendMode::PremultipliedAlpha, 30),
        batch(TransformBatchKind::Line, BlendMode::PremultipliedAlpha, 40),
    ];
    let mut out = Vec::new();
    draw_color_target(
        &mut out,
        &t,
        None,
        &mut Vec::new(),
        FrameId(1),
        &context(true),
        &resolver(),
        &Vec::new(),
        &target(),
    );
    let uploads: Vec<usize> = out
        .iter()
        .filter_map(|command| match command {
            DrawCommand::UploadInstances(range) => Some(range.first),
            _ => None,
        })
        .collect();
    assert_eq!(uploads, vec![20, 10, 30, 40]);
    let blends = out
        .iter()
        .filter(|c| **c == DrawCommand::SetBlendFunc(BlendFunc::PremultipliedAlpha))
        .count();
    assert_eq!(blends, 1);
    assert!(out.contains(&DrawCommand::AddSampler(GpuSampler::OpaquePass)));
}

#[test]
fn outputs_are_copied_from_their_tasks() {
    let mut t = color_target();
    t.outputs = vec![
        OutputRequest {
            task_id: 0,
            pipeline: 3,
            reply: Some(OutputTexture { texture: 9, width: 4, height: 4 }),
        },
        OutputRequest { task_id: 0, pipeline: 4, reply: None },
    ];
    let mut outputs = Vec::new();
    let mut out = Vec::new();
    draw_color_target(
        &mut out,
        &t,
        None,
        &mut outputs,
        FrameId(6),
        &context(true),
        &resolver(),
        &vec![task(8, 8)],
        &target(),
    );
    assert_eq!(outputs.len(), 1);
    assert_eq!(outputs[0], FrameOutput { texture: 9, last_access: FrameId(6) });
    assert!(out.contains(&DrawCommand::CreateFbo { texture: 9 }));
    assert!(out.contains(&DrawCommand::UnlockOutput { pipeline: 3 }));
    assert!(!out.contains(&DrawCommand::UnlockOutput { pipeline: 4 }));

    let mut later = Vec::new();
    collect_outputs(&mut later, &mut outputs, FrameId(7));
    assert_eq!(later, vec![DrawCommand::DeleteFbo { texture: 9 }]);
    assert!(outputs.is_empty());
}

fn pass(is_framebuffer: bool) -> RenderPass {
    RenderPass {
        is_framebuffer,
        alpha_targets: Vec::new(),
        color_targets: vec![color_target()],
        alpha_layers: 0,
        color_layers: if is_framebuffer { 0 } else { 1 },
        max_alpha_width: 0,
        max_alpha_height: 0,
        max_color_width: 64,
        max_color_height: 32,
        alpha_texture: None,
        color_texture: None,
    }
}

#[test]
fn targets_come_from_the_pool() {
    let mut passes = vec![pass(false), pass(false), pass(true)];
    let mut alpha_pool = Vec::new();
    let mut color_pool = vec![TextureId(40)];
    let mut next: u32 = 50;
    assign_targets(&mut passes, &mut alpha_pool, &mut color_pool, &mut next);
    assert_eq!(passes[0].color_texture, Some(TextureId(40)));
    assert_eq!(passes[1].color_texture, Some(TextureId(50)));
    assert_eq!(passes[2].color_texture, None);
    assert!(color_pool.is_empty());
    assert_eq!(next, 51);

    let mut state = PassState {
        resolver: resolver(),
        alpha_render_targets: alpha_pool,
        color_render_targets: color_pool,
        output_targets: Vec::new(),
        cache: CacheSize { width: 0, height: 0 },
    };
    let one = FloatBits(ONE_BITS);
    let frame = FrameContext {
        frame_id: FrameId(1),
        framebuffer_width: 64,
        framebuffer_height: 32,
        window_width: 64,
        window_height: 32,
        background_color: None,
        clear_framebuffer: true,
        clear_color: ColorF { r: one, g: one, b: one, a: one },
        draw: context(true),
    };
    let key = ExternalImageKey { id: 4, channel_index: 0 };
    let image = ExternalTexture { id: 5, target: TextureTarget::Default };
    state.resolver.insert_image(key, image);
    let mut flags = DebugFlags::empty();
    flags.render_target_dbg = true;
    let shrunk = ShrunkLayers { size: 31, spacing: 0 };
    let debug = FrameDebug {
        flags,
        targets: Vec::new(),
        cache_textures: Vec::new(),
        shrunk_targets: shrunk,
        shrunk_cache: shrunk,
    };
    let mut out = Vec::new();
    let unlocked = draw_tile_frame(
        &mut out,
        &passes,
        &frame,
        &Vec::new(),
        TextureId(60),
        TextureId(61),
        &debug,
        &mut state,
    );
    assert_eq!(unlocked, vec![key]);
    assert!(state.resolver.external_images.is_empty());
    // The render targets are shown in the order of the pool, the last thing in the frame.
    let shown = |texture, x| {
        [
            DrawCommand::BindReadTarget {
                target: Some(TextureLayer { texture: TextureId(texture), layer: 0 }),
            },
            DrawCommand::Blit { src: rect(0, 0, 64, 32), dest: rect(x, 0, 31, 31) },
        ]
    };
    assert_eq!(out[out.len() - 4..out.len() - 2], shown(50, 33));
    assert_eq!(out[out.len() - 2..], shown(40, 2));
    assert_eq!(state.color_render_targets, vec![TextureId(50), TextureId(40)]);
    assert_eq!(state.resolver.cache_rgba8_texture, None);
    let draws = out
        .iter()
        .filter(|c| matches!(c, DrawCommand::BindDrawTarget { .. }))
        .count();
    assert!(draws >= 3);
}
