//! How a target with colors is drawn.

use crate::internal_types::{ColorF, FrameId};
use crate::renderer::commands::{
    BatchTextures, BlendFunc, DebugColor, DrawCommand, GpuSampler, GpuTag, InstanceRange, IntRect,
    OrthoProjection, PrimShader, Shader, TransformedRectKind, VertexArrayKind,
};
use crate::renderer::draw::{
    blur_commands, can_bind_all, draw_instanced_batch, handle_scaling, instanced_commands,
    push_blurs, range_ok, scaling_commands, scalings_ok, single_draws, submit_batch, submit_commands, submit_ok,
    BatchKey, BatchKind, BlendMode, DrawContext, DrawTask, GlyphFormat, PrimitiveBatch,
    ScalingInfo, TargetContext, TextShaderMode, TransformBatchKind,
};
use crate::renderer::textures::{SourceTexture, SourceTextureResolver};
use vstd::prelude::*;

verus! {

/// A task that is copied to a texture of the embedder, with the texture and its size,
/// where the embedder has one.
#[derive(Clone, Copy, Debug, PartialEq, Eq, Structural)]
pub struct OutputRequest {
    pub task_id: usize,
    pub pipeline: u64,
    pub reply: Option<OutputTexture>,
}

/// A texture of the embedder.
#[derive(Clone, Copy, Debug, PartialEq, Eq, Structural)]
pub struct OutputTexture {
    pub texture: u32,
    pub width: i32,
    pub height: i32,
}

/// A frame buffer for a texture of the embedder, and the frame that used it last.
#[derive(Clone, Copy, Debug, PartialEq, Eq, Structural)]
pub struct FrameOutput {
    pub texture: u32,
    pub last_access: FrameId,
}

/// Everything that is drawn to a target with colors.
pub struct ColorRenderTarget {
    pub used_rect: IntRect,
    pub vertical_blurs: InstanceRange,
    pub horizontal_blurs: InstanceRange,
    pub scalings: Vec<ScalingInfo>,
    /// Text that is drawn to be blurred, by texture.
    pub text_run_cache_prims: Vec<(SourceTexture, InstanceRange)>,
    pub line_cache_prims: InstanceRange,
    pub opaque_batches: Vec<PrimitiveBatch>,
    pub alpha_batches: Vec<PrimitiveBatch>,
    pub outputs: Vec<OutputRequest>,
}

/// What prepares the target. A texture may be cleared only where it is used.
pub open spec fn color_setup_commands(
    used_rect: IntRect,
    clear_color: Option<ColorF>,
    ctx: DrawContext,
    target: TargetContext,
) -> Seq<DrawCommand> {
    seq![
        DrawCommand::Marker(GpuTag::SetupTarget),
        DrawCommand::BindDrawTarget {
            target: target.render_target,
            width: target.width,
            height: target.height,
        },
        DrawCommand::Depth(false),
        DrawCommand::DepthWrite(true),
        DrawCommand::SetBlend(false),
        if target.render_target is Some && ctx.enable_clear_scissor {
            DrawCommand::ClearTargetRect { color: clear_color, depth: true, rect: used_rect }
        } else {
            DrawCommand::ClearTarget { color: clear_color, depth: true }
        },
        DrawCommand::DepthWrite(false),
    ]
}

pub open spec fn alpha_blend() -> Seq<DrawCommand> {
    seq![
        DrawCommand::SetBlend(true),
        DrawCommand::SetBlendFunc(BlendFunc::PremultipliedAlpha),
    ]
}

pub open spec fn cached_text_draws(
    prims: Seq<(SourceTexture, InstanceRange)>,
    ctx: DrawContext,
    resolver: SourceTextureResolver,
) -> Seq<DrawCommand>
    decreases prims.len(),
{
    if prims.len() == 0 {
        Seq::empty()
    } else {
        cached_text_draws(prims.drop_last(), ctx, resolver) + instanced_commands(
            ctx,
            resolver,
            prims.last().1,
            VertexArrayKind::Primitive,
            BatchTextures::spec_color(prims.last().0),
        )
    }
}

/// What draws text and lines that are only blurred later.
pub open spec fn cached_prim_commands(
    t: ColorRenderTarget,
    ctx: DrawContext,
    resolver: SourceTextureResolver,
    projection: OrthoProjection,
) -> Seq<DrawCommand> {
    (if t.text_run_cache_prims@.len() == 0 {
        Seq::empty()
    } else {
        alpha_blend() + seq![
            DrawCommand::Marker(GpuTag::CacheTextRun),
            DrawCommand::BindShader { shader: Shader::CsTextRun, projection, mode: 0 },
        ] + cached_text_draws(t.text_run_cache_prims@, ctx, resolver)
    }) + (if t.line_cache_prims.count == 0 {
        Seq::empty()
    } else {
        alpha_blend() + seq![
            DrawCommand::Marker(GpuTag::CacheLine),
            DrawCommand::BindShader { shader: Shader::CsLine, projection, mode: 0 },
        ] + instanced_commands(
            ctx,
            resolver,
            t.line_cache_prims,
            VertexArrayKind::Primitive,
            BatchTextures::spec_no_texture(),
        )
    })
}

/// The color of the frames around primitives of a blend mode.
pub open spec fn frame_color(mode: BlendMode) -> DebugColor {
    match mode {
        BlendMode::NoBlend => DebugColor::Black,
        BlendMode::PremultipliedAlpha => DebugColor::Grey,
        BlendMode::PremultipliedDestOut => DebugColor::Salmon,
        BlendMode::SubpixelConstantTextColor(_) => DebugColor::Green,
        BlendMode::SubpixelVariableTextColor => DebugColor::Red,
        BlendMode::SubpixelWithBgColor => DebugColor::Blue,
    }
}

pub open spec fn frame_commands(batch: PrimitiveBatch, ctx: DrawContext) -> Seq<DrawCommand> {
    if ctx.alpha_prim_debug {
        batch.item_rects@.map_values(
            |rect: IntRect|
                DrawCommand::DebugRect { rect, debug_color: frame_color(batch.key.blend_mode) },
        )
    } else {
        Seq::empty()
    }
}

/// One pass over text: how it is blended, which shader draws it and in which mode.
pub open spec fn text_pass(
    func: BlendFunc,
    prim: PrimShader,
    transform: TransformedRectKind,
    mode: TextShaderMode,
    projection: OrthoProjection,
) -> Seq<DrawCommand> {
    seq![
        DrawCommand::SetBlendFunc(func),
        DrawCommand::BindShader {
            shader: Shader::Prim { prim, transform },
            projection,
            mode: mode.spec_number(),
        },
    ]
}

/// What draws text. With an alpha for each channel it takes two passes for text of any
/// color, and three where the background has a color of its own; the later passes draw
/// what the first one has uploaded.
pub open spec fn text_commands(
    batch: PrimitiveBatch,
    transform: TransformedRectKind,
    format: GlyphFormat,
    ctx: DrawContext,
    resolver: SourceTextureResolver,
    projection: OrthoProjection,
) -> Seq<DrawCommand> {
    let draw = instanced_commands(
        ctx,
        resolver,
        batch.instances,
        VertexArrayKind::Primitive,
        batch.key.textures,
    );
    let again = seq![DrawCommand::DrawAgain { count: batch.instances.count }];
    let text = PrimShader::TextRun;
    match batch.key.blend_mode {
        BlendMode::PremultipliedAlpha => text_pass(
            BlendFunc::PremultipliedAlpha,
            text,
            transform,
            TextShaderMode::spec_from(format),
            projection,
        ) + draw,
        BlendMode::SubpixelConstantTextColor(color) => text_pass(
            BlendFunc::SubpixelConstantTextColor(color),
            text,
            transform,
            TextShaderMode::SubpixelConstantTextColor,
            projection,
        ) + draw,
        BlendMode::SubpixelVariableTextColor => text_pass(
            BlendFunc::SubpixelPass0,
            text,
            transform,
            TextShaderMode::SubpixelPass0,
            projection,
        ) + draw + text_pass(
            BlendFunc::SubpixelPass1,
            text,
            transform,
            TextShaderMode::SubpixelPass1,
            projection,
        ) + again,
        BlendMode::SubpixelWithBgColor => text_pass(
            BlendFunc::SubpixelWithBgColorPass0,
            text,
            transform,
            TextShaderMode::SubpixelWithBgColorPass0,
            projection,
        ) + draw + text_pass(
            BlendFunc::SubpixelWithBgColorPass1,
            PrimShader::TextRunSubpixelBackgroundPass1,
            transform,
            TextShaderMode::SubpixelWithBgColorPass1,
            projection,
        ) + again + text_pass(
            BlendFunc::SubpixelWithBgColorPass2,
            text,
            transform,
            TextShaderMode::SubpixelWithBgColorPass2,
            projection,
        ) + again,
        _ => Seq::empty(),
    }
}

/// The change from one blend mode to another.
pub open spec fn blend_change(from: BlendMode, to: BlendMode) -> Seq<DrawCommand> {
    if from == to {
        Seq::empty()
    } else {
        match to {
            BlendMode::PremultipliedAlpha => alpha_blend(),
            BlendMode::PremultipliedDestOut => seq![
                DrawCommand::SetBlend(true),
                DrawCommand::SetBlendFunc(BlendFunc::PremultipliedDestOut),
            ],
            _ => seq![DrawCommand::SetBlend(false)],
        }
    }
}

/// What draws a batch with blending, after batches of a blend mode.
pub open spec fn alpha_batch_commands(
    batch: PrimitiveBatch,
    prev: BlendMode,
    ctx: DrawContext,
    resolver: SourceTextureResolver,
    tasks: Seq<DrawTask>,
    target: TargetContext,
) -> Seq<DrawCommand> {
    frame_commands(batch, ctx) + match batch.key.kind {
        BatchKind::Transformable(transform, TransformBatchKind::TextRun(format)) => seq![
            DrawCommand::Marker(GpuTag::PrimTextRun),
            DrawCommand::SetBlend(true),
        ] + text_commands(batch, transform, format, ctx, resolver, target.projection) + seq![
            DrawCommand::SetBlend(false),
        ],
        _ => blend_change(prev, batch.key.blend_mode) + submit_commands(
            batch.key,
            batch.instances,
            ctx,
            resolver,
            tasks,
            target,
        ),
    }
}

/// The blend mode after a batch. Text leaves no blend mode behind.
pub open spec fn mode_after(batch: PrimitiveBatch) -> BlendMode {
    match batch.key.kind {
        BatchKind::Transformable(_, TransformBatchKind::TextRun(_)) => BlendMode::NoBlend,
        _ => batch.key.blend_mode,
    }
}

/// What draws batches with blending, and the blend mode after them.
pub open spec fn alpha_batches_commands(
    batches: Seq<PrimitiveBatch>,
    ctx: DrawContext,
    resolver: SourceTextureResolver,
    tasks: Seq<DrawTask>,
    target: TargetContext,
) -> (Seq<DrawCommand>, BlendMode)
    decreases batches.len(),
{
    if batches.len() == 0 {
        (Seq::empty(), BlendMode::NoBlend)
    } else {
        let (before, mode) = alpha_batches_commands(
            batches.drop_last(),
            ctx,
            resolver,
            tasks,
            target,
        );
        (
            before + alpha_batch_commands(batches.last(), mode, ctx, resolver, tasks, target),
            mode_after(batches.last()),
        )
    }
}

/// What draws opaque batches, those in front first.
pub open spec fn opaque_batches_commands(
    batches: Seq<PrimitiveBatch>,
    ctx: DrawContext,
    resolver: SourceTextureResolver,
    tasks: Seq<DrawTask>,
    target: TargetContext,
) -> Seq<DrawCommand>
    decreases batches.len(),
{
    if batches.len() == 0 {
        Seq::empty()
    } else {
        submit_commands(
            batches.last().key,
            batches.last().instances,
            ctx,
            resolver,
            tasks,
            target,
        ) + opaque_batches_commands(batches.drop_last(), ctx, resolver, tasks, target)
    }
}

/// What draws all the batches of a target.
pub open spec fn batches_commands(
    t: ColorRenderTarget,
    ctx: DrawContext,
    resolver: SourceTextureResolver,
    tasks: Seq<DrawTask>,
    target: TargetContext,
) -> Seq<DrawCommand> {
    if t.opaque_batches@.len() == 0 && t.alpha_batches@.len() == 0 {
        Seq::empty()
    } else {
        seq![
            DrawCommand::SetBlend(false),
            DrawCommand::AddSampler(GpuSampler::OpaquePass),
            DrawCommand::DepthFuncLessEqual,
            DrawCommand::Depth(true),
            DrawCommand::DepthWrite(true),
        ] + opaque_batches_commands(t.opaque_batches@, ctx, resolver, tasks, target) + seq![
            DrawCommand::DepthWrite(false),
            DrawCommand::AddSampler(GpuSampler::TransparentPass),
        ] + alpha_batches_commands(t.alpha_batches@, ctx, resolver, tasks, target).0 + seq![
            DrawCommand::Depth(false),
            DrawCommand::SetBlend(false),
            DrawCommand::DoneSampler,
        ]
    }
}

/// The place of the frame buffer of a texture, or their number where there is none.
pub open spec fn output_place(outputs: Seq<FrameOutput>, texture: u32) -> int
    decreases outputs.len(),
{
    if outputs.len() == 0 {
        0
    } else {
        let place = output_place(outputs.drop_last(), texture);
        if place < outputs.len() - 1 || outputs.last().texture == texture {
            place
        } else {
            outputs.len() as int
        }
    }
}

/// The frame buffers, with that of a texture used in a frame.
pub open spec fn output_used(outputs: Seq<FrameOutput>, texture: u32, frame: FrameId) -> Seq<
    FrameOutput,
> {
    let place = output_place(outputs, texture);
    let used = FrameOutput { texture, last_access: frame };
    if place < outputs.len() {
        outputs.update(place, used)
    } else {
        outputs.push(used)
    }
}

/// What copies a task to a texture of the embedder.
pub open spec fn output_commands(
    request: OutputRequest,
    outputs: Seq<FrameOutput>,
    tasks: Seq<DrawTask>,
    target: TargetContext,
) -> Seq<DrawCommand> {
    match request.reply {
        None => Seq::empty(),
        Some(reply) => (if output_place(outputs, reply.texture) < outputs.len() {
            Seq::empty()
        } else {
            seq![DrawCommand::CreateFbo { texture: reply.texture }]
        }) + seq![
            DrawCommand::BindReadTarget { target: target.render_target },
            DrawCommand::BindExternalDrawTarget { texture: reply.texture },
            DrawCommand::Blit {
                src: tasks[request.task_id as int].rect,
                dest: IntRect { x: 0, y: 0, width: reply.width, height: reply.height },
            },
            DrawCommand::UnlockOutput { pipeline: request.pipeline },
        ],
    }
}

pub open spec fn outputs_after(
    requests: Seq<OutputRequest>,
    outputs: Seq<FrameOutput>,
    frame: FrameId,
) -> Seq<FrameOutput>
    decreases requests.len(),
{
    if requests.len() == 0 {
        outputs
    } else {
        let before = outputs_after(requests.drop_last(), outputs, frame);
        match requests.last().reply {
            None => before,
            Some(reply) => output_used(before, reply.texture, frame),
        }
    }
}

pub open spec fn outputs_commands(
    requests: Seq<OutputRequest>,
    outputs: Seq<FrameOutput>,
    frame: FrameId,
    tasks: Seq<DrawTask>,
    target: TargetContext,
) -> Seq<DrawCommand>
    decreases requests.len(),
{
    if requests.len() == 0 {
        Seq::empty()
    } else {
        outputs_commands(requests.drop_last(), outputs, frame, tasks, target) + output_commands(
            requests.last(),
            outputs_after(requests.drop_last(), outputs, frame),
            tasks,
            target,
        )
    }
}

/// What draws a target with colors.
pub open spec fn color_target_commands(
    t: ColorRenderTarget,
    clear_color: Option<ColorF>,
    outputs: Seq<FrameOutput>,
    frame: FrameId,
    ctx: DrawContext,
    resolver: SourceTextureResolver,
    tasks: Seq<DrawTask>,
    target: TargetContext,
) -> Seq<DrawCommand> {
    color_setup_commands(t.used_rect, clear_color, ctx, target) + blur_commands(
        t.vertical_blurs,
        t.horizontal_blurs,
        Shader::CsBlurRgba8,
        ctx,
        resolver,
        target.projection,
    ) + scaling_commands(
        t.scalings@,
        tasks,
        resolver.spec_bind(SourceTexture::CacheRGBA8)->Texture_0,
    ) + cached_prim_commands(t, ctx, resolver, target.projection) + batches_commands(
        t,
        ctx,
        resolver,
        tasks,
        target,
    ) + outputs_commands(t.outputs@, outputs, frame, tasks, target)
}

/// A batch that is blended can be drawn: text is blended by its alpha or for each channel
/// on its own, and everything else in another way.
pub open spec fn alpha_batch_ok(
    batch: PrimitiveBatch,
    ctx: DrawContext,
    resolver: SourceTextureResolver,
    tasks: Seq<DrawTask>,
    target: TargetContext,
) -> bool {
    match batch.key.kind {
        BatchKind::Transformable(_, TransformBatchKind::TextRun(format)) => {
            &&& can_bind_all(resolver, batch.key.textures)
            &&& range_ok(batch.instances)
            &&& !(batch.key.blend_mode is NoBlend)
            &&& !(batch.key.blend_mode is PremultipliedDestOut)
            &&& batch.key.blend_mode is PremultipliedAlpha ==> !(format is Subpixel)
        },
        _ => {
            &&& submit_ok(batch.key, batch.instances, ctx, resolver, tasks, target)
            &&& batch.key.blend_mode is NoBlend || batch.key.blend_mode is PremultipliedAlpha
                || batch.key.blend_mode is PremultipliedDestOut
        },
    }
}

/// Everything of the target can be drawn.
pub open spec fn color_target_ok(
    t: ColorRenderTarget,
    ctx: DrawContext,
    resolver: SourceTextureResolver,
    tasks: Seq<DrawTask>,
    target: TargetContext,
) -> bool {
    &&& range_ok(t.vertical_blurs)
    &&& range_ok(t.horizontal_blurs)
    &&& range_ok(t.line_cache_prims)
    &&& scalings_ok(t.scalings@, tasks)
    &&& forall|i: int|
        0 <= i < t.text_run_cache_prims@.len() ==> range_ok(
            (#[trigger] t.text_run_cache_prims@[i]).1,
        ) && resolver.can_bind(t.text_run_cache_prims@[i].0)
    &&& forall|i: int|
        0 <= i < t.opaque_batches@.len() ==> submit_ok(
            (#[trigger] t.opaque_batches@[i]).key,
            t.opaque_batches@[i].instances,
            ctx,
            resolver,
            tasks,
            target,
        )
    &&& forall|i: int|
        0 <= i < t.alpha_batches@.len() ==> alpha_batch_ok(
            #[trigger] t.alpha_batches@[i],
            ctx,
            resolver,
            tasks,
            target,
        )
    &&& forall|i: int|
        0 <= i < t.outputs@.len() ==> (#[trigger] t.outputs@[i]).task_id < tasks.len()
}

fn push_setup(
    out: &mut Vec<DrawCommand>,
    used_rect: IntRect,
    clear_color: Option<ColorF>,
    ctx: &DrawContext,
    target: &TargetContext,
)
    ensures
        final(out)@ == old(out)@ + color_setup_commands(used_rect, clear_color, *ctx, *target),
{
    out.push(DrawCommand::Marker(GpuTag::SetupTarget));
    out.push(
        DrawCommand::BindDrawTarget {
            target: target.render_target,
            width: target.width,
            height: target.height,
        },
    );
    out.push(DrawCommand::Depth(false));
    out.push(DrawCommand::DepthWrite(true));
    out.push(DrawCommand::SetBlend(false));
    match target.render_target {
        Some(_) if ctx.enable_clear_scissor => {
            out.push(
                DrawCommand::ClearTargetRect { color: clear_color, depth: true, rect: used_rect },
            );
        },
        _ => {
            out.push(DrawCommand::ClearTarget { color: clear_color, depth: true });
        },
    }
    out.push(DrawCommand::DepthWrite(false));
    assert(out@ =~= old(out)@ + color_setup_commands(used_rect, clear_color, *ctx, *target));
}

fn push_cached_text(
    out: &mut Vec<DrawCommand>,
    prims: &Vec<(SourceTexture, InstanceRange)>,
    ctx: &DrawContext,
    resolver: &SourceTextureResolver,
)
    requires
        forall|i: int|
            0 <= i < prims@.len() ==> range_ok((#[trigger] prims@[i]).1) && resolver.can_bind(
                prims@[i].0,
            ),
    ensures
        final(out)@ == old(out)@ + cached_text_draws(prims@, *ctx, *resolver),
{
    let mut i: usize = 0;
    assert(out@ =~= old(out)@ + cached_text_draws(prims@.take(0), *ctx, *resolver));
    while i < prims.len()
        invariant
            i <= prims@.len(),
            forall|i: int|
                0 <= i < prims@.len() ==> range_ok((#[trigger] prims@[i]).1)
                    && resolver.can_bind(prims@[i].0),
            out@ == old(out)@ + cached_text_draws(prims@.take(i as int), *ctx, *resolver),
        decreases prims@.len() - i,
    {
        let ghost next = prims@.take(i as int + 1);
        assert(next.drop_last() =~= prims@.take(i as int));
        let (texture, instances) = prims[i];
        draw_instanced_batch(
            out,
            ctx,
            resolver,
            instances,
            VertexArrayKind::Primitive,
            &BatchTextures::color(texture),
        );
        i = i + 1;
        assert(out@ =~= old(out)@ + cached_text_draws(next, *ctx, *resolver));
    }
    assert(prims@.take(i as int) =~= prims@);
}

fn push_cached_prims(
    out: &mut Vec<DrawCommand>,
    t: &ColorRenderTarget,
    ctx: &DrawContext,
    resolver: &SourceTextureResolver,
    projection: OrthoProjection,
)
    requires
        range_ok(t.line_cache_prims),
        forall|i: int|
            0 <= i < t.text_run_cache_prims@.len() ==> range_ok(
                (#[trigger] t.text_run_cache_prims@[i]).1,
            ) && resolver.can_bind(t.text_run_cache_prims@[i].0),
    ensures
        final(out)@ == old(out)@ + cached_prim_commands(*t, *ctx, *resolver, projection),
{
    if t.text_run_cache_prims.len() > 0 {
        out.push(DrawCommand::SetBlend(true));
        out.push(DrawCommand::SetBlendFunc(BlendFunc::PremultipliedAlpha));
        out.push(DrawCommand::Marker(GpuTag::CacheTextRun));
        out.push(DrawCommand::BindShader { shader: Shader::CsTextRun, projection, mode: 0 });
        push_cached_text(out, &t.text_run_cache_prims, ctx, resolver);
    }
    if !t.line_cache_prims.is_empty() {
        out.push(DrawCommand::SetBlend(true));
        out.push(DrawCommand::SetBlendFunc(BlendFunc::PremultipliedAlpha));
        out.push(DrawCommand::Marker(GpuTag::CacheLine));
        out.push(DrawCommand::BindShader { shader: Shader::CsLine, projection, mode: 0 });
        draw_instanced_batch(
            out,
            ctx,
            resolver,
            t.line_cache_prims,
            VertexArrayKind::Primitive,
            &BatchTextures::no_texture(),
        );
    }
    assert(out@ =~= old(out)@ + cached_prim_commands(*t, *ctx, *resolver, projection));
}

fn push_frames(out: &mut Vec<DrawCommand>, batch: &PrimitiveBatch, ctx: &DrawContext)
    ensures
        final(out)@ == old(out)@ + frame_commands(*batch, *ctx),
{
    if ctx.alpha_prim_debug {
        let debug_color = match batch.key.blend_mode {
            BlendMode::NoBlend => DebugColor::Black,
            BlendMode::PremultipliedAlpha => DebugColor::Grey,
            BlendMode::PremultipliedDestOut => DebugColor::Salmon,
            BlendMode::SubpixelConstantTextColor(_) => DebugColor::Green,
            BlendMode::SubpixelVariableTextColor => DebugColor::Red,
            BlendMode::SubpixelWithBgColor => DebugColor::Blue,
        };
        let mut i: usize = 0;
        while i < batch.item_rects.len()
            invariant
                i <= batch.item_rects@.len(),
                debug_color == frame_color(batch.key.blend_mode),
                out@ == old(out)@ + batch.item_rects@.take(i as int).map_values(
                    |rect: IntRect|
                        DrawCommand::DebugRect {
                            rect,
                            debug_color: frame_color(batch.key.blend_mode),
                        },
                ),
            decreases batch.item_rects@.len() - i,
        {
            out.push(DrawCommand::DebugRect { rect: batch.item_rects[i], debug_color });
            i = i + 1;
            assert(out@ =~= old(out)@ + batch.item_rects@.take(i as int).map_values(
                |rect: IntRect|
                    DrawCommand::DebugRect {
                        rect,
                        debug_color: frame_color(batch.key.blend_mode),
                    },
            ));
        }
        assert(batch.item_rects@.take(i as int) =~= batch.item_rects@);
    }
    assert(out@ =~= old(out)@ + frame_commands(*batch, *ctx));
}

fn push_text_pass(
    out: &mut Vec<DrawCommand>,
    func: BlendFunc,
    prim: PrimShader,
    transform: TransformedRectKind,
    mode: TextShaderMode,
    projection: OrthoProjection,
)
    ensures
        final(out)@ == old(out)@ + text_pass(func, prim, transform, mode, projection),
{
    out.push(DrawCommand::SetBlendFunc(func));
    out.push(
        DrawCommand::BindShader {
            shader: Shader::Prim { prim, transform },
            projection,
            mode: mode.number(),
        },
    );
    assert(out@ =~= old(out)@ + text_pass(func, prim, transform, mode, projection));
}

fn push_text(
    out: &mut Vec<DrawCommand>,
    batch: &PrimitiveBatch,
    transform: TransformedRectKind,
    format: GlyphFormat,
    ctx: &DrawContext,
    resolver: &SourceTextureResolver,
    projection: OrthoProjection,
)
    requires
        can_bind_all(*resolver, batch.key.textures),
        range_ok(batch.instances),
        batch.key.blend_mode is PremultipliedAlpha ==> !(format is Subpixel),
    ensures
        final(out)@ == old(out)@ + text_commands(
            *batch,
            transform,
            format,
            *ctx,
            *resolver,
            projection,
        ),
{
    let text = PrimShader::TextRun;
    let (func, mode) = match batch.key.blend_mode {
        BlendMode::PremultipliedAlpha => (
            BlendFunc::PremultipliedAlpha,
            TextShaderMode::from_format(format),
        ),
        BlendMode::SubpixelConstantTextColor(color) => (
            BlendFunc::SubpixelConstantTextColor(color),
            TextShaderMode::SubpixelConstantTextColor,
        ),
        BlendMode::SubpixelVariableTextColor => (
            BlendFunc::SubpixelPass0,
            TextShaderMode::SubpixelPass0,
        ),
        BlendMode::SubpixelWithBgColor => (
            BlendFunc::SubpixelWithBgColorPass0,
            TextShaderMode::SubpixelWithBgColorPass0,
        ),
        BlendMode::PremultipliedDestOut | BlendMode::NoBlend => {
            assert(out@ =~= old(out)@ + Seq::<DrawCommand>::empty());
            return ;
        },
    };
    push_text_pass(out, func, text, transform, mode, projection);
    draw_instanced_batch(
        out,
        ctx,
        resolver,
        batch.instances,
        VertexArrayKind::Primitive,
        &batch.key.textures,
    );
    match batch.key.blend_mode {
        BlendMode::SubpixelVariableTextColor => {
            push_text_pass(
                out,
                BlendFunc::SubpixelPass1,
                text,
                transform,
                TextShaderMode::SubpixelPass1,
                projection,
            );
            out.push(DrawCommand::DrawAgain { count: batch.instances.count });
        },
        BlendMode::SubpixelWithBgColor => {
            push_text_pass(
                out,
                BlendFunc::SubpixelWithBgColorPass1,
                PrimShader::TextRunSubpixelBackgroundPass1,
                transform,
                TextShaderMode::SubpixelWithBgColorPass1,
                projection,
            );
            out.push(DrawCommand::DrawAgain { count: batch.instances.count });
            push_text_pass(
                out,
                BlendFunc::SubpixelWithBgColorPass2,
                text,
                transform,
                TextShaderMode::SubpixelWithBgColorPass2,
                projection,
            );
            out.push(DrawCommand::DrawAgain { count: batch.instances.count });
        },
        _ => {},
    }
    assert(out@ =~= old(out)@ + text_commands(
        *batch,
        transform,
        format,
        *ctx,
        *resolver,
        projection,
    ));
}

fn push_blend_change(out: &mut Vec<DrawCommand>, from: BlendMode, to: BlendMode)
    ensures
        final(out)@ == old(out)@ + blend_change(from, to),
{
    if to != from {
        match to {
            BlendMode::PremultipliedAlpha => {
                out.push(DrawCommand::SetBlend(true));
                out.push(DrawCommand::SetBlendFunc(BlendFunc::PremultipliedAlpha));
            },
            BlendMode::PremultipliedDestOut => {
                out.push(DrawCommand::SetBlend(true));
                out.push(DrawCommand::SetBlendFunc(BlendFunc::PremultipliedDestOut));
            },
            _ => {
                out.push(DrawCommand::SetBlend(false));
            },
        }
    }
    assert(out@ =~= old(out)@ + blend_change(from, to));
}

fn push_alpha_batch(
    out: &mut Vec<DrawCommand>,
    batch: &PrimitiveBatch,
    prev: BlendMode,
    ctx: &DrawContext,
    resolver: &SourceTextureResolver,
    tasks: &Vec<DrawTask>,
    target: &TargetContext,
) -> (r: BlendMode)
    requires
        alpha_batch_ok(*batch, *ctx, *resolver, tasks@, *target),
    ensures
        r == mode_after(*batch),
        final(out)@ == old(out)@ + alpha_batch_commands(
            *batch,
            prev,
            *ctx,
            *resolver,
            tasks@,
            *target,
        ),
{
    push_frames(out, batch, ctx);
    match batch.key.kind {
        BatchKind::Transformable(transform, TransformBatchKind::TextRun(format)) => {
            out.push(DrawCommand::Marker(GpuTag::PrimTextRun));
            out.push(DrawCommand::SetBlend(true));
            push_text(out, batch, transform, format, ctx, resolver, target.projection);
            out.push(DrawCommand::SetBlend(false));
            assert(out@ =~= old(out)@ + alpha_batch_commands(
                *batch,
                prev,
                *ctx,
                *resolver,
                tasks@,
                *target,
            ));
            BlendMode::NoBlend
        },
        _ => {
            push_blend_change(out, prev, batch.key.blend_mode);
            submit_batch(out, &batch.key, batch.instances, ctx, resolver, tasks, target);
            assert(out@ =~= old(out)@ + alpha_batch_commands(
                *batch,
                prev,
                *ctx,
                *resolver,
                tasks@,
                *target,
            ));
            batch.key.blend_mode
        },
    }
}

fn push_alpha_batches(
    out: &mut Vec<DrawCommand>,
    batches: &Vec<PrimitiveBatch>,
    ctx: &DrawContext,
    resolver: &SourceTextureResolver,
    tasks: &Vec<DrawTask>,
    target: &TargetContext,
)
    requires
        forall|i: int|
            0 <= i < batches@.len() ==> alpha_batch_ok(
                #[trigger] batches@[i],
                *ctx,
                *resolver,
                tasks@,
                *target,
            ),
    ensures
        final(out)@ == old(out)@ + alpha_batches_commands(
            batches@,
            *ctx,
            *resolver,
            tasks@,
            *target,
        ).0,
{
    let mut mode = BlendMode::NoBlend;
    let mut i: usize = 0;
    assert(out@ =~= old(out)@ + alpha_batches_commands(
        batches@.take(0),
        *ctx,
        *resolver,
        tasks@,
        *target,
    ).0);
    while i < batches.len()
        invariant
            i <= batches@.len(),
            forall|i: int|
                0 <= i < batches@.len() ==> alpha_batch_ok(
                    #[trigger] batches@[i],
                    *ctx,
                    *resolver,
                    tasks@,
                    *target,
                ),
            out@ == old(out)@ + alpha_batches_commands(
                batches@.take(i as int),
                *ctx,
                *resolver,
                tasks@,
                *target,
            ).0,
            mode == alpha_batches_commands(
                batches@.take(i as int),
                *ctx,
                *resolver,
                tasks@,
                *target,
            ).1,
        decreases batches@.len() - i,
    {
        let ghost next = batches@.take(i as int + 1);
        assert(next.drop_last() =~= batches@.take(i as int));
        assert(next.last() == batches@[i as int]);
        mode = push_alpha_batch(out, &batches[i], mode, ctx, resolver, tasks, target);
        i = i + 1;
        assert(out@ =~= old(out)@ + alpha_batches_commands(
            next,
            *ctx,
            *resolver,
            tasks@,
            *target,
        ).0);
    }
    assert(batches@.take(i as int) =~= batches@);
}

fn push_opaque_batches(
    out: &mut Vec<DrawCommand>,
    batches: &Vec<PrimitiveBatch>,
    ctx: &DrawContext,
    resolver: &SourceTextureResolver,
    tasks: &Vec<DrawTask>,
    target: &TargetContext,
)
    requires
        forall|i: int|
            0 <= i < batches@.len() ==> submit_ok(
                (#[trigger] batches@[i]).key,
                batches@[i].instances,
                *ctx,
                *resolver,
                tasks@,
                *target,
            ),
    ensures
        final(out)@ == old(out)@ + opaque_batches_commands(
            batches@,
            *ctx,
            *resolver,
            tasks@,
            *target,
        ),
{
    let mut i: usize = batches.len();
    assert(batches@.take(i as int) =~= batches@);
    while i > 0
        invariant
            i <= batches@.len(),
            forall|i: int|
                0 <= i < batches@.len() ==> submit_ok(
                    (#[trigger] batches@[i]).key,
                    batches@[i].instances,
                    *ctx,
                    *resolver,
                    tasks@,
                    *target,
                ),
            out@ + opaque_batches_commands(
                batches@.take(i as int),
                *ctx,
                *resolver,
                tasks@,
                *target,
            ) == old(out)@ + opaque_batches_commands(
                batches@,
                *ctx,
                *resolver,
                tasks@,
                *target,
            ),
        decreases i,
    {
        let ghost now = batches@.take(i as int);
        assert(now.drop_last() =~= batches@.take(i - 1));
        assert(now.last() == batches@[i - 1]);
        let ghost before = out@;
        i = i - 1;
        submit_batch(out, &batches[i].key, batches[i].instances, ctx, resolver, tasks, target);
        assert(before + opaque_batches_commands(now, *ctx, *resolver, tasks@, *target) =~= out@
            + opaque_batches_commands(now.drop_last(), *ctx, *resolver, tasks@, *target));
    }
    assert(out@ =~= out@ + opaque_batches_commands(
        batches@.take(0),
        *ctx,
        *resolver,
        tasks@,
        *target,
    ));
}

fn push_batches(
    out: &mut Vec<DrawCommand>,
    t: &ColorRenderTarget,
    ctx: &DrawContext,
    resolver: &SourceTextureResolver,
    tasks: &Vec<DrawTask>,
    target: &TargetContext,
)
    requires
        color_target_ok(*t, *ctx, *resolver, tasks@, *target),
    ensures
        final(out)@ == old(out)@ + batches_commands(*t, *ctx, *resolver, tasks@, *target),
{
    if t.opaque_batches.len() > 0 || t.alpha_batches.len() > 0 {
        out.push(DrawCommand::SetBlend(false));
        out.push(DrawCommand::AddSampler(GpuSampler::OpaquePass));
        out.push(DrawCommand::DepthFuncLessEqual);
        out.push(DrawCommand::Depth(true));
        out.push(DrawCommand::DepthWrite(true));
        push_opaque_batches(out, &t.opaque_batches, ctx, resolver, tasks, target);
        out.push(DrawCommand::DepthWrite(false));
        out.push(DrawCommand::AddSampler(GpuSampler::TransparentPass));
        push_alpha_batches(out, &t.alpha_batches, ctx, resolver, tasks, target);
        out.push(DrawCommand::Depth(false));
        out.push(DrawCommand::SetBlend(false));
        out.push(DrawCommand::DoneSampler);
    }
    assert(out@ =~= old(out)@ + batches_commands(*t, *ctx, *resolver, tasks@, *target));
}

proof fn lemma_output_place(outputs: Seq<FrameOutput>, texture: u32)
    ensures
        0 <= output_place(outputs, texture) <= outputs.len(),
        output_place(outputs, texture) < outputs.len() ==> outputs[output_place(
            outputs,
            texture,
        )].texture == texture,
        forall|i: int|
            0 <= i < output_place(outputs, texture) ==> (#[trigger] outputs[i]).texture != texture,
    decreases outputs.len(),
{
    if outputs.len() > 0 {
        let before = outputs.drop_last();
        lemma_output_place(before, texture);
        let place = output_place(before, texture);
        assert forall|i: int| 0 <= i < output_place(outputs, texture) implies (
        #[trigger] outputs[i]).texture != texture by {
            if i < outputs.len() - 1 {
                assert(outputs[i] == before[i]);
            }
        }
        if place < outputs.len() - 1 {
            assert(outputs[place] == before[place]);
        }
    }
}

fn push_output(
    out: &mut Vec<DrawCommand>,
    request: &OutputRequest,
    outputs: &mut Vec<FrameOutput>,
    frame: FrameId,
    tasks: &Vec<DrawTask>,
    target: &TargetContext,
)
    requires
        request.task_id < tasks@.len(),
    ensures
        final(out)@ == old(out)@ + output_commands(*request, old(outputs)@, tasks@, *target),
        final(outputs)@ == (match request.reply {
            None => old(outputs)@,
            Some(reply) => output_used(old(outputs)@, reply.texture, frame),
        }),
{
    if let Some(reply) = request.reply {
        let ghost place = output_place(outputs@, reply.texture);
        proof {
            lemma_output_place(outputs@, reply.texture);
        }
        let mut i: usize = 0;
        while i < outputs.len() && outputs[i].texture != reply.texture
            invariant
                *outputs == *old(outputs),
                i <= place <= outputs@.len(),
                place == output_place(outputs@, reply.texture),
                place < outputs@.len() ==> outputs@[place].texture == reply.texture,
                forall|j: int|
                    0 <= j < place ==> (#[trigger] outputs@[j]).texture != reply.texture,
            decreases outputs@.len() - i,
        {
            i = i + 1;
        }
        let used = FrameOutput { texture: reply.texture, last_access: frame };
        if i < outputs.len() {
            outputs.set(i, used);
        } else {
            out.push(DrawCommand::CreateFbo { texture: reply.texture });
            outputs.push(used);
        }
        out.push(DrawCommand::BindReadTarget { target: target.render_target });
        out.push(DrawCommand::BindExternalDrawTarget { texture: reply.texture });
        out.push(
            DrawCommand::Blit {
                src: tasks[request.task_id].rect,
                dest: IntRect { x: 0, y: 0, width: reply.width, height: reply.height },
            },
        );
        out.push(DrawCommand::UnlockOutput { pipeline: request.pipeline });
    }
    assert(out@ =~= old(out)@ + output_commands(*request, old(outputs)@, tasks@, *target));
}

fn push_outputs(
    out: &mut Vec<DrawCommand>,
    requests: &Vec<OutputRequest>,
    outputs: &mut Vec<FrameOutput>,
    frame: FrameId,
    tasks: &Vec<DrawTask>,
    target: &TargetContext,
)
    requires
        forall|i: int|
            0 <= i < requests@.len() ==> (#[trigger] requests@[i]).task_id < tasks@.len(),
    ensures
        final(out)@ == old(out)@ + outputs_commands(
            requests@,
            old(outputs)@,
            frame,
            tasks@,
            *target,
        ),
        final(outputs)@ == outputs_after(requests@, old(outputs)@, frame),
{
    let mut i: usize = 0;
    assert(requests@.take(0) =~= Seq::<OutputRequest>::empty());
    assert(out@ =~= old(out)@ + outputs_commands(
        requests@.take(0),
        old(outputs)@,
        frame,
        tasks@,
        *target,
    ));
    while i < requests.len()
        invariant
            i <= requests@.len(),
            forall|i: int|
                0 <= i < requests@.len() ==> (#[trigger] requests@[i]).task_id < tasks@.len(),
            out@ == old(out)@ + outputs_commands(
                requests@.take(i as int),
                old(outputs)@,
                frame,
                tasks@,
                *target,
            ),
            outputs@ == outputs_after(requests@.take(i as int), old(outputs)@, frame),
        decreases requests@.len() - i,
    {
        let ghost next = requests@.take(i as int + 1);
        assert(next.drop_last() =~= requests@.take(i as int));
        assert(next.last() == requests@[i as int]);
        push_output(out, &requests[i], outputs, frame, tasks, target);
        i = i + 1;
        assert(out@ =~= old(out)@ + outputs_commands(
            next,
            old(outputs)@,
            frame,
            tasks@,
            *target,
        ));
    }
    assert(requests@.take(i as int) =~= requests@);
}

/// Draws a target with colors.
pub fn draw_color_target(
    out: &mut Vec<DrawCommand>,
    t: &ColorRenderTarget,
    clear_color: Option<ColorF>,
    output_targets: &mut Vec<FrameOutput>,
    frame_id: FrameId,
    ctx: &DrawContext,
    resolver: &SourceTextureResolver,
    tasks: &Vec<DrawTask>,
    target: &TargetContext,
)
    requires
        color_target_ok(*t, *ctx, *resolver, tasks@, *target),
    ensures
        final(out)@ == old(out)@ + color_target_commands(
            *t,
            clear_color,
            old(output_targets)@,
            frame_id,
            *ctx,
            *resolver,
            tasks@,
            *target,
        ),
        final(output_targets)@ == outputs_after(t.outputs@, old(output_targets)@, frame_id),
{
    push_setup(out, t.used_rect, clear_color, ctx, target);
    push_blurs(
        out,
        t.vertical_blurs,
        t.horizontal_blurs,
        Shader::CsBlurRgba8,
        ctx,
        resolver,
        target.projection,
    );
    handle_scaling(out, tasks, &t.scalings, SourceTexture::CacheRGBA8, resolver);
    push_cached_prims(out, t, ctx, resolver, target.projection);
    push_batches(out, t, ctx, resolver, tasks, target);
    push_outputs(out, &t.outputs, output_targets, frame_id, tasks, target);
    assert(out@ =~= old(out)@ + color_target_commands(
        *t,
        clear_color,
        old(output_targets)@,
        frame_id,
        *ctx,
        *resolver,
        tasks@,
        *target,
    ));
}

/// How the device blends: whether it does, and in which way.
pub struct BlendState {
    pub on: bool,
    pub func: Option<BlendFunc>,
}

/// How the device blends after commands.
pub open spec fn blend_after(commands: Seq<DrawCommand>, before: BlendState) -> BlendState
    decreases commands.len(),
{
    if commands.len() == 0 {
        before
    } else {
        let state = blend_after(commands.drop_last(), before);
        match commands.last() {
            DrawCommand::SetBlend(on) => BlendState { on, ..state },
            DrawCommand::SetBlendFunc(func) => BlendState { func: Some(func), ..state },
            _ => state,
        }
    }
}

/// The device blends as a blend mode asks.
pub open spec fn in_effect(state: BlendState, mode: BlendMode) -> bool {
    match mode {
        BlendMode::NoBlend => !state.on,
        BlendMode::PremultipliedAlpha => state.on && state.func == Some(
            BlendFunc::PremultipliedAlpha,
        ),
        BlendMode::PremultipliedDestOut => state.on && state.func == Some(
            BlendFunc::PremultipliedDestOut,
        ),
        _ => false,
    }
}

proof fn lemma_blend_parts(a: Seq<DrawCommand>, b: Seq<DrawCommand>, before: BlendState)
    ensures
        blend_after(a + b, before) == blend_after(b, blend_after(a, before)),
    decreases b.len(),
{
    if b.len() == 0 {
        assert(a + b =~= a);
    } else {
        lemma_blend_parts(a, b.drop_last(), before);
        assert((a + b).drop_last() =~= a + b.drop_last());
    }
}

/// The command leaves the blending alone.
pub open spec fn keeps_blending(command: DrawCommand) -> bool {
    !(command is SetBlend) && !(command is SetBlendFunc)
}

proof fn lemma_blend_kept(commands: Seq<DrawCommand>, before: BlendState)
    requires
        forall|i: int| 0 <= i < commands.len() ==> keeps_blending(#[trigger] commands[i]),
    ensures
        blend_after(commands, before) == before,
    decreases commands.len(),
{
    if commands.len() > 0 {
        assert(keeps_blending(commands[commands.len() - 1]));
        assert forall|i: int| 0 <= i < commands.drop_last().len() implies keeps_blending(
            #[trigger] commands.drop_last()[i],
        ) by {
            assert(keeps_blending(commands[i]));
        }
        lemma_blend_kept(commands.drop_last(), before);
    }
}

proof fn lemma_single_draws_keep_blending(first: int, n: int)
    ensures
        forall|i: int|
            0 <= i < single_draws(first, n).len() ==> keeps_blending(
                #[trigger] single_draws(first, n)[i],
            ),
    decreases n,
{
    if n > 0 {
        lemma_single_draws_keep_blending(first, n - 1);
        assert forall|i: int| 0 <= i < single_draws(first, n).len() implies keeps_blending(
            #[trigger] single_draws(first, n)[i],
        ) by {
            if i < single_draws(first, n - 1).len() {
                assert(single_draws(first, n)[i] == single_draws(first, n - 1)[i]);
            }
        }
    }
}

proof fn lemma_submit_keeps_blending(
    key: BatchKey,
    instances: InstanceRange,
    ctx: DrawContext,
    resolver: SourceTextureResolver,
    tasks: Seq<DrawTask>,
    target: TargetContext,
)
    ensures
        ({
            let c = submit_commands(key, instances, ctx, resolver, tasks, target);
            forall|i: int| 0 <= i < c.len() ==> keeps_blending(#[trigger] c[i])
        }),
{
    lemma_single_draws_keep_blending(instances.first as int, instances.count as int);
}

proof fn lemma_change_takes_effect(from: BlendMode, to: BlendMode, state: BlendState)
    requires
        in_effect(state, from),
        to is NoBlend || to is PremultipliedAlpha || to is PremultipliedDestOut,
    ensures
        in_effect(blend_after(blend_change(from, to), state), to),
{
    reveal_with_fuel(blend_after, 3);
    let change = blend_change(from, to);
    if change.len() == 2 {
        assert(change.drop_last().drop_last() =~= Seq::<DrawCommand>::empty());
    } else if change.len() == 1 {
        assert(change.drop_last() =~= Seq::<DrawCommand>::empty());
    }
}

proof fn lemma_plain_batch(
    last: PrimitiveBatch,
    mode: BlendMode,
    ctx: DrawContext,
    resolver: SourceTextureResolver,
    tasks: Seq<DrawTask>,
    target: TargetContext,
    state: BlendState,
)
    requires
        in_effect(state, mode),
        alpha_batch_ok(last, ctx, resolver, tasks, target),
        !(last.key.kind matches BatchKind::Transformable(_, TransformBatchKind::TextRun(_))),
    ensures
        in_effect(
            blend_after(
                frame_commands(last, ctx) + blend_change(mode, last.key.blend_mode),
                state,
            ),
            last.key.blend_mode,
        ),
        in_effect(
            blend_after(alpha_batch_commands(last, mode, ctx, resolver, tasks, target), state),
            last.key.blend_mode,
        ),
{
    let frames = frame_commands(last, ctx);
    let change = blend_change(mode, last.key.blend_mode);
    let submit = submit_commands(last.key, last.instances, ctx, resolver, tasks, target);
    assert(alpha_batch_commands(last, mode, ctx, resolver, tasks, target) =~= frames + change
        + submit);
    lemma_blend_parts(frames + change, submit, state);
    lemma_blend_parts(frames, change, state);
    lemma_blend_kept(frames, state);
    lemma_change_takes_effect(mode, last.key.blend_mode, state);
    lemma_submit_keeps_blending(last.key, last.instances, ctx, resolver, tasks, target);
    lemma_blend_kept(submit, blend_after(change, state));
}

/// The state of the device before a batch is drawn with blending: what was set for the
/// batches before it, then for itself.
pub open spec fn state_for(
    batches: Seq<PrimitiveBatch>,
    ctx: DrawContext,
    resolver: SourceTextureResolver,
    tasks: Seq<DrawTask>,
    target: TargetContext,
    before: BlendState,
) -> BlendState {
    let (commands, mode) = alpha_batches_commands(
        batches.drop_last(),
        ctx,
        resolver,
        tasks,
        target,
    );
    blend_after(
        commands + frame_commands(batches.last(), ctx) + blend_change(
            mode,
            batches.last().key.blend_mode,
        ),
        before,
    )
}

/// Every batch with blending but text is drawn with its own blend mode in effect, and the
/// mode that is kept in mind is the one that the device is in.
pub proof fn blend_modes_are_in_effect(
    batches: Seq<PrimitiveBatch>,
    ctx: DrawContext,
    resolver: SourceTextureResolver,
    tasks: Seq<DrawTask>,
    target: TargetContext,
    before: BlendState,
)
    requires
        !before.on,
        forall|i: int|
            0 <= i < batches.len() ==> alpha_batch_ok(
                #[trigger] batches[i],
                ctx,
                resolver,
                tasks,
                target,
            ),
    ensures
        ({
            let (commands, mode) = alpha_batches_commands(batches, ctx, resolver, tasks, target);
            in_effect(blend_after(commands, before), mode)
        }),
        batches.len() > 0 && !(batches.last().key.kind matches BatchKind::Transformable(
            _,
            TransformBatchKind::TextRun(_),
        )) ==> in_effect(
            state_for(batches, ctx, resolver, tasks, target, before),
            batches.last().key.blend_mode,
        ),
    decreases batches.len(),
{
    if batches.len() > 0 {
        let rest = batches.drop_last();
        let last = batches.last();
        assert(alpha_batch_ok(batches[batches.len() - 1], ctx, resolver, tasks, target));
        assert forall|i: int| 0 <= i < rest.len() implies alpha_batch_ok(
            #[trigger] rest[i],
            ctx,
            resolver,
            tasks,
            target,
        ) by {
            assert(rest[i] == batches[i]);
        }
        blend_modes_are_in_effect(rest, ctx, resolver, tasks, target, before);
        let (commands, mode) = alpha_batches_commands(rest, ctx, resolver, tasks, target);
        let frames = frame_commands(last, ctx);
        let own = alpha_batch_commands(last, mode, ctx, resolver, tasks, target);
        lemma_blend_parts(commands, own, before);
        let state = blend_after(commands, before);
        match last.key.kind {
            BatchKind::Transformable(transform, TransformBatchKind::TextRun(format)) => {
                assert(own.last() == DrawCommand::SetBlend(false));
            },
            _ => {
                let change = blend_change(mode, last.key.blend_mode);
                lemma_plain_batch(last, mode, ctx, resolver, tasks, target, state);
                assert(commands + frames + change =~= commands + (frames + change));
                lemma_blend_parts(commands, frames + change, before);
            },
        }
    }
}

} // verus!
