//! What drawing a target with colors makes the device do.

use crate::internal_types::FrameId;
use crate::renderer::commands::{
    BatchTextures, BlendFunc, DrawCommand, GpuTag, PrimShader, Shader, TransformedRectKind,
    VertexArrayKind,
};
use crate::renderer::draw::color_target::{
    alpha_batch_commands, alpha_batch_ok, alpha_batches_commands, batches_commands, blend_change,
    color_target_ok, frame_commands, mode_after, opaque_batches_commands, text_commands, text_pass,
    ColorRenderTarget,
};
use crate::renderer::draw::device::{
    added, batches_are_drawn_by_their_kind, draws_batch, draws_instances, goes_by,
    instances_are_drawn, left, lemma_parts, reads_textures, run_to, Canvas, Effect, Settings,
};
use crate::renderer::draw::{
    can_bind_all, instanced_commands, range_ok, submit_commands, submit_ok, BatchKind, BlendMode,
    DrawContext, DrawTask, GlyphFormat, PrimitiveBatch, TargetContext, TransformBatchKind,
};
use crate::renderer::textures::SourceTextureResolver;
use vstd::prelude::*;

verus! {

/// The passes that draw text: how each is blended, the shader that draws it and the number
/// that the shader knows the pass by. Glyphs that have an alpha for each channel
/// take two passes where they may have any color, and three over a background color.
pub open spec fn text_passes(mode: BlendMode, format: GlyphFormat) -> Seq<
    (BlendFunc, PrimShader, i32),
> {
    match mode {
        BlendMode::PremultipliedAlpha => seq![
            (
                BlendFunc::PremultipliedAlpha,
                PrimShader::TextRun,
                if format is ColorBitmap {
                    7i32
                } else {
                    0i32
                },
            ),
        ],
        BlendMode::SubpixelConstantTextColor(color) => seq![
            (BlendFunc::SubpixelConstantTextColor(color), PrimShader::TextRun, 1i32),
        ],
        BlendMode::SubpixelVariableTextColor => seq![
            (BlendFunc::SubpixelPass0, PrimShader::TextRun, 2i32),
            (BlendFunc::SubpixelPass1, PrimShader::TextRun, 3i32),
        ],
        BlendMode::SubpixelWithBgColor => seq![
            (BlendFunc::SubpixelWithBgColorPass0, PrimShader::TextRun, 4i32),
            (
                BlendFunc::SubpixelWithBgColorPass1,
                PrimShader::TextRunSubpixelBackgroundPass1,
                5i32,
            ),
            (BlendFunc::SubpixelWithBgColorPass2, PrimShader::TextRun, 6i32),
        ],
        _ => Seq::empty(),
    }
}

/// The settings are those of a pass over text.
pub open spec fn set_for_pass(
    settings: Settings,
    s: Settings,
    pass: (BlendFunc, PrimShader, i32),
    transform: TransformedRectKind,
    ctx: DrawContext,
    resolver: SourceTextureResolver,
    textures: BatchTextures,
    target: TargetContext,
) -> bool {
    &&& settings.blend
    &&& settings.func == Some(pass.0)
    &&& settings.shader == Some(Shader::Prim { prim: pass.1, transform })
    &&& settings.mode == pass.2
    &&& settings.projection == target.projection
    &&& settings.tag == Some(GpuTag::PrimTextRun)
    &&& settings.vao == Some(VertexArrayKind::Primitive)
    &&& settings.canvas == s.canvas
    &&& settings.depth == s.depth
    &&& settings.depth_write == s.depth_write
    &&& reads_textures(settings, s, ctx, resolver, textures)
}

/// The effects draw text: its instances in the first pass, and what was uploaded once more in
/// each of the others.
pub open spec fn draws_text(
    log: Seq<Effect>,
    s: Settings,
    batch: PrimitiveBatch,
    transform: TransformedRectKind,
    format: GlyphFormat,
    ctx: DrawContext,
    resolver: SourceTextureResolver,
    target: TargetContext,
) -> bool {
    let passes = text_passes(batch.key.blend_mode, format);
    let n = if ctx.enable_batcher {
        1
    } else {
        batch.instances.count as int
    };
    &&& log.len() == n + passes.len() - 1
    &&& draws_instances(log.take(n), batch.instances, ctx.enable_batcher)
    &&& forall|i: int|
        0 <= i < n ==> (#[trigger] log[i] matches Effect::Draw { settings, .. } && set_for_pass(
            settings,
            s,
            passes[0],
            transform,
            ctx,
            resolver,
            batch.key.textures,
            target,
        ))
    &&& forall|i: int|
        n <= i < log.len() ==> (#[trigger] log[i] matches Effect::DrawAgain { settings, count }
            && count == batch.instances.count && set_for_pass(
            settings,
            s,
            passes[i - n + 1],
            transform,
            ctx,
            resolver,
            batch.key.textures,
            target,
        ))
}

/// The device blends as a mode asks that is not one of text.
pub open spec fn blends(s: Settings, mode: BlendMode) -> bool {
    match mode {
        BlendMode::NoBlend => !s.blend,
        BlendMode::PremultipliedAlpha => s.blend && s.func == Some(BlendFunc::PremultipliedAlpha),
        BlendMode::PremultipliedDestOut => s.blend && s.func == Some(
            BlendFunc::PremultipliedDestOut,
        ),
        _ => false,
    }
}

/// The effects draw a batch with blending: text in its passes, and any other batch in its own
/// blend mode.
pub open spec fn draws_alpha_batch(
    log: Seq<Effect>,
    s: Settings,
    batch: PrimitiveBatch,
    ctx: DrawContext,
    resolver: SourceTextureResolver,
    tasks: Seq<DrawTask>,
    target: TargetContext,
) -> bool {
    match batch.key.kind {
        BatchKind::Transformable(transform, TransformBatchKind::TextRun(format)) => draws_text(
            log,
            s,
            batch,
            transform,
            format,
            ctx,
            resolver,
            target,
        ),
        _ => blends(s, batch.key.blend_mode) && draws_batch(
            log,
            s,
            batch.key,
            batch.instances,
            ctx,
            resolver,
            tasks,
            target,
        ),
    }
}

/// The settings that do not change while batches are drawn.
pub open spec fn same_pass(a: Settings, b: Settings) -> bool {
    &&& a.canvas == b.canvas
    &&& a.depth == b.depth
    &&& a.depth_write == b.depth_write
}

/// The effects draw opaque batches, the last one first, each without blending.
pub open spec fn draws_opaque(
    log: Seq<Effect>,
    s: Settings,
    batches: Seq<PrimitiveBatch>,
    ctx: DrawContext,
    resolver: SourceTextureResolver,
    tasks: Seq<DrawTask>,
    target: TargetContext,
) -> bool
    decreases batches.len(),
{
    if batches.len() == 0 {
        log.len() == 0
    } else {
        exists|n: int, t: Settings|
            #![trigger log.take(n), same_pass(t, s)]
            0 <= n <= log.len() && same_pass(t, s) && !t.blend && draws_batch(
                log.take(n),
                t,
                batches.last().key,
                batches.last().instances,
                ctx,
                resolver,
                tasks,
                target,
            ) && draws_opaque(
                log.skip(n),
                s,
                batches.drop_last(),
                ctx,
                resolver,
                tasks,
                target,
            )
    }
}

/// The effects draw batches with blending, the first one first.
pub open spec fn draws_alpha(
    log: Seq<Effect>,
    s: Settings,
    batches: Seq<PrimitiveBatch>,
    ctx: DrawContext,
    resolver: SourceTextureResolver,
    tasks: Seq<DrawTask>,
    target: TargetContext,
) -> bool
    decreases batches.len(),
{
    if batches.len() == 0 {
        log.len() == 0
    } else {
        exists|n: int, t: Settings|
            #![trigger log.take(n), same_pass(t, s)]
            0 <= n <= log.len() && same_pass(t, s) && draws_alpha(
                log.take(n),
                s,
                batches.drop_last(),
                ctx,
                resolver,
                tasks,
                target,
            ) && draws_alpha_batch(
                log.skip(n),
                t,
                batches.last(),
                ctx,
                resolver,
                tasks,
                target,
            )
    }
}

proof fn lemma_opaque(
    batches: Seq<PrimitiveBatch>,
    ctx: DrawContext,
    resolver: SourceTextureResolver,
    tasks: Seq<DrawTask>,
    target: TargetContext,
    s: Settings,
    r: Settings,
)
    requires
        forall|i: int|
            0 <= i < batches.len() ==> submit_ok(
                (#[trigger] batches[i]).key,
                batches[i].instances,
                ctx,
                resolver,
                tasks,
                target,
            ),
        s.canvas == Canvas::Target(target.render_target),
        !s.blend,
        same_pass(s, r),
    ensures
        ({
            let c = opaque_batches_commands(batches, ctx, resolver, tasks, target);
            &&& draws_opaque(added(c, s), r, batches, ctx, resolver, tasks, target)
            &&& same_pass(left(c, s), r)
            &&& !left(c, s).blend
        }),
    decreases batches.len(),
{
    let c = opaque_batches_commands(batches, ctx, resolver, tasks, target);
    if batches.len() > 0 {
        let last = batches.last();
        let rest = batches.drop_last();
        assert(submit_ok(
            batches[batches.len() - 1].key,
            batches[batches.len() - 1].instances,
            ctx,
            resolver,
            tasks,
            target,
        ));
        assert forall|i: int| 0 <= i < rest.len() implies submit_ok(
            (#[trigger] rest[i]).key,
            rest[i].instances,
            ctx,
            resolver,
            tasks,
            target,
        ) by {
            assert(rest[i] == batches[i]);
        }
        let own = submit_commands(last.key, last.instances, ctx, resolver, tasks, target);
        let more = opaque_batches_commands(rest, ctx, resolver, tasks, target);
        batches_are_drawn_by_their_kind(
            last.key,
            last.instances,
            ctx,
            resolver,
            tasks,
            target,
            s,
        );
        lemma_opaque(rest, ctx, resolver, tasks, target, left(own, s), r);
        lemma_parts(own, more, s);
        let log = added(c, s);
        let n = added(own, s).len() as int;
        assert(log.take(n) =~= added(own, s));
        assert(log.skip(n) =~= added(more, left(own, s)));
        assert(same_pass(s, r));
    } else {
        reveal(added);
        reveal(left);
        reveal_with_fuel(run_to, 1);
    }
}

proof fn lemma_frames(batch: PrimitiveBatch, ctx: DrawContext, s: Settings)
    ensures
        added(frame_commands(batch, ctx), s) == Seq::<Effect>::empty(),
        left(frame_commands(batch, ctx), s) == s,
{
    let c = frame_commands(batch, ctx);
    reveal(added);
    reveal(left);
    lemma_inert(c, s, c.len() as int);
}

proof fn lemma_inert(c: Seq<DrawCommand>, s: Settings, n: int)
    requires
        0 <= n <= c.len(),
        forall|i: int| 0 <= i < c.len() ==> (#[trigger] c[i]) is DebugRect,
    ensures
        ({
            let d = crate::renderer::draw::device::Device { settings: s, log: Seq::empty() };
            run_to(c, d, n) == d
        }),
    decreases n,
{
    if n > 0 {
        lemma_inert(c, s, n - 1);
        assert(c[n - 1] is DebugRect);
    }
}

proof fn lemma_text_pass(
    pass: (BlendFunc, PrimShader, i32),
    mode: crate::renderer::draw::TextShaderMode,
    transform: TransformedRectKind,
    target: TargetContext,
    s: Settings,
)
    requires
        mode.spec_number() == pass.2,
    ensures
        ({
            let c = text_pass(pass.0, pass.1, transform, mode, target.projection);
            &&& added(c, s) == Seq::<Effect>::empty()
            &&& left(c, s) == (Settings {
                func: Some(pass.0),
                shader: Some(Shader::Prim { prim: pass.1, transform }),
                projection: target.projection,
                mode: pass.2,
                ..s
            })
        }),
{
    reveal(added);
    reveal(left);
    reveal_with_fuel(run_to, 3);
}

proof fn lemma_again(count: usize, s: Settings)
    ensures
        ({
            let c = seq![DrawCommand::DrawAgain { count }];
            &&& added(c, s) == seq![Effect::DrawAgain { settings: s, count }]
            &&& left(c, s) == s
        }),
{
    reveal(added);
    reveal(left);
    reveal_with_fuel(run_to, 2);
    let c = seq![DrawCommand::DrawAgain { count }];
    assert(added(c, s) =~= seq![Effect::DrawAgain { settings: s, count }]);
}

#[verifier::spinoff_prover]
#[verifier::rlimit(80)]
proof fn lemma_text(
    batch: PrimitiveBatch,
    transform: TransformedRectKind,
    format: GlyphFormat,
    ctx: DrawContext,
    resolver: SourceTextureResolver,
    target: TargetContext,
    s: Settings,
)
    requires
        can_bind_all(resolver, batch.key.textures),
        range_ok(batch.instances),
        !(batch.key.blend_mode is NoBlend),
        !(batch.key.blend_mode is PremultipliedDestOut),
        s.blend,
        s.tag == Some(GpuTag::PrimTextRun),
    ensures
        ({
            let c = text_commands(batch, transform, format, ctx, resolver, target.projection);
            &&& draws_text(
                added(c, s),
                s,
                batch,
                transform,
                format,
                ctx,
                resolver,
                target,
            )
            &&& same_pass(left(c, s), s)
        }),
{
    let c = text_commands(batch, transform, format, ctx, resolver, target.projection);
    let passes = text_passes(batch.key.blend_mode, format);
    let draw = instanced_commands(
        ctx,
        resolver,
        batch.instances,
        VertexArrayKind::Primitive,
        batch.key.textures,
    );
    let again = seq![DrawCommand::DrawAgain { count: batch.instances.count }];
    let (first, mode0) = match batch.key.blend_mode {
        BlendMode::PremultipliedAlpha => (
            passes[0],
            crate::renderer::draw::TextShaderMode::spec_from(format),
        ),
        BlendMode::SubpixelConstantTextColor(color) => (
            passes[0],
            crate::renderer::draw::TextShaderMode::SubpixelConstantTextColor,
        ),
        BlendMode::SubpixelVariableTextColor => (
            passes[0],
            crate::renderer::draw::TextShaderMode::SubpixelPass0,
        ),
        _ => (passes[0], crate::renderer::draw::TextShaderMode::SubpixelWithBgColorPass0),
    };
    let p0 = text_pass(first.0, first.1, transform, mode0, target.projection);
    lemma_text_pass(first, mode0, transform, target, s);
    let s0 = left(p0, s);
    instances_are_drawn(
        ctx,
        resolver,
        batch.instances,
        VertexArrayKind::Primitive,
        batch.key.textures,
        s0,
    );
    lemma_parts(p0, draw, s);
    let s1 = left(draw, s0);
    let n = if ctx.enable_batcher {
        1
    } else {
        batch.instances.count as int
    };
    let drawn = added(p0 + draw, s);
    assert(drawn =~= added(draw, s0));
    assert forall|i: int| 0 <= i < n implies (#[trigger] drawn[i] matches Effect::Draw {
        settings,
        ..
    } && set_for_pass(
        settings,
        s,
        passes[0],
        transform,
        ctx,
        resolver,
        batch.key.textures,
        target,
    )) by {
        assert(goes_by(added(draw, s0), s1));
        assert(added(draw, s0)[i] is Draw);
    }
    match batch.key.blend_mode {
        BlendMode::SubpixelVariableTextColor => {
            let mode1 = crate::renderer::draw::TextShaderMode::SubpixelPass1;
            let p1 = text_pass(passes[1].0, passes[1].1, transform, mode1, target.projection);
            lemma_text_pass(passes[1], mode1, transform, target, s1);
            let s2 = left(p1, s1);
            lemma_again(batch.instances.count, s2);
            lemma_parts(p0 + draw, p1, s);
            lemma_parts(p0 + draw + p1, again, s);
            assert(c == p0 + draw + p1 + again);
            let log = added(c, s);
            assert(log =~= drawn.push(
                Effect::DrawAgain { settings: s2, count: batch.instances.count },
            ));
            assert(log.take(n) =~= drawn);
            assert forall|i: int| 0 <= i < n implies #[trigger] log[i] == drawn[i] by {}
        },
        BlendMode::SubpixelWithBgColor => {
            let mode1 = crate::renderer::draw::TextShaderMode::SubpixelWithBgColorPass1;
            let mode2 = crate::renderer::draw::TextShaderMode::SubpixelWithBgColorPass2;
            let p1 = text_pass(passes[1].0, passes[1].1, transform, mode1, target.projection);
            let p2 = text_pass(passes[2].0, passes[2].1, transform, mode2, target.projection);
            lemma_text_pass(passes[1], mode1, transform, target, s1);
            let s2 = left(p1, s1);
            lemma_again(batch.instances.count, s2);
            lemma_text_pass(passes[2], mode2, transform, target, s2);
            let s3 = left(p2, s2);
            lemma_again(batch.instances.count, s3);
            lemma_parts(p0 + draw, p1, s);
            lemma_parts(p0 + draw + p1, again, s);
            lemma_parts(p0 + draw + p1 + again, p2, s);
            lemma_parts(p0 + draw + p1 + again + p2, again, s);
            assert(c == p0 + draw + p1 + again + p2 + again);
            let log = added(c, s);
            assert(log =~= drawn.push(
                Effect::DrawAgain { settings: s2, count: batch.instances.count },
            ).push(Effect::DrawAgain { settings: s3, count: batch.instances.count }));
            assert(log.take(n) =~= drawn);
            assert forall|i: int| 0 <= i < n implies #[trigger] log[i] == drawn[i] by {}
        },
        _ => {
            assert(c == p0 + draw);
            assert(drawn.take(n) =~= drawn);
        },
    }
}

proof fn lemma_blend_change(from: BlendMode, to: BlendMode, s: Settings)
    requires
        blends(s, from),
        to is NoBlend || to is PremultipliedAlpha || to is PremultipliedDestOut,
    ensures
        ({
            let c = blend_change(from, to);
            &&& added(c, s) == Seq::<Effect>::empty()
            &&& blends(left(c, s), to)
            &&& left(c, s) == (Settings {
                blend: left(c, s).blend,
                func: left(c, s).func,
                ..s
            })
        }),
{
    reveal(added);
    reveal(left);
    reveal_with_fuel(run_to, 3);
}

#[verifier::spinoff_prover]
#[verifier::rlimit(60)]
proof fn lemma_alpha_batch(
    batch: PrimitiveBatch,
    mode: BlendMode,
    ctx: DrawContext,
    resolver: SourceTextureResolver,
    tasks: Seq<DrawTask>,
    target: TargetContext,
    s: Settings,
) -> (t: Settings)
    requires
        alpha_batch_ok(batch, ctx, resolver, tasks, target),
        s.canvas == Canvas::Target(target.render_target),
        blends(s, mode),
    ensures
        ({
            let c = alpha_batch_commands(batch, mode, ctx, resolver, tasks, target);
            &&& same_pass(t, s)
            &&& draws_alpha_batch(added(c, s), t, batch, ctx, resolver, tasks, target)
            &&& same_pass(left(c, s), s)
            &&& blends(left(c, s), mode_after(batch))
        }),
{
    let c = alpha_batch_commands(batch, mode, ctx, resolver, tasks, target);
    let frames = frame_commands(batch, ctx);
    lemma_frames(batch, ctx, s);
    match batch.key.kind {
        BatchKind::Transformable(transform, TransformBatchKind::TextRun(format)) => {
            let on = seq![DrawCommand::Marker(GpuTag::PrimTextRun), DrawCommand::SetBlend(true)];
            let off = seq![DrawCommand::SetBlend(false)];
            let text = text_commands(batch, transform, format, ctx, resolver, target.projection);
            let t = left(on, s);
            assert(added(on, s) == Seq::<Effect>::empty() && t == (Settings {
                tag: Some(GpuTag::PrimTextRun),
                blend: true,
                ..s
            })) by {
                reveal(added);
                reveal(left);
                reveal_with_fuel(run_to, 3);
            }
            lemma_text(batch, transform, format, ctx, resolver, target, t);
            let u = left(text, t);
            assert(added(off, u) == Seq::<Effect>::empty() && left(off, u) == (Settings {
                blend: false,
                ..u
            })) by {
                reveal(added);
                reveal(left);
                reveal_with_fuel(run_to, 2);
            }
            lemma_parts(frames, on, s);
            lemma_parts(frames + on, text, s);
            lemma_parts(frames + on + text, off, s);
            assert(c =~= frames + on + text + off);
            assert(added(c, s) =~= added(text, t));
            t
        },
        _ => {
            let change = blend_change(mode, batch.key.blend_mode);
            let own = submit_commands(
                batch.key,
                batch.instances,
                ctx,
                resolver,
                tasks,
                target,
            );
            lemma_blend_change(mode, batch.key.blend_mode, s);
            let t = left(change, s);
            batches_are_drawn_by_their_kind(
                batch.key,
                batch.instances,
                ctx,
                resolver,
                tasks,
                target,
                t,
            );
            lemma_parts(frames, change, s);
            lemma_parts(frames + change, own, s);
            assert(c =~= frames + change + own);
            assert(added(c, s) =~= added(own, t));
            t
        },
    }
}

proof fn lemma_alpha(
    batches: Seq<PrimitiveBatch>,
    ctx: DrawContext,
    resolver: SourceTextureResolver,
    tasks: Seq<DrawTask>,
    target: TargetContext,
    s: Settings,
)
    requires
        forall|i: int|
            0 <= i < batches.len() ==> alpha_batch_ok(
                #[trigger] batches[i],
                ctx,
                resolver,
                tasks,
                target,
            ),
        s.canvas == Canvas::Target(target.render_target),
        !s.blend,
    ensures
        ({
            let (c, mode) = alpha_batches_commands(batches, ctx, resolver, tasks, target);
            &&& draws_alpha(added(c, s), s, batches, ctx, resolver, tasks, target)
            &&& same_pass(left(c, s), s)
            &&& blends(left(c, s), mode)
        }),
    decreases batches.len(),
{
    let (c, mode) = alpha_batches_commands(batches, ctx, resolver, tasks, target);
    if batches.len() > 0 {
        let last = batches.last();
        let rest = batches.drop_last();
        assert(alpha_batch_ok(batches[batches.len() - 1], ctx, resolver, tasks, target));
        assert forall|i: int| 0 <= i < rest.len() implies alpha_batch_ok(
            #[trigger] rest[i],
            ctx,
            resolver,
            tasks,
            target,
        ) by {
            assert(rest[i] == batches[i]);
        }
        let (most, before) = alpha_batches_commands(rest, ctx, resolver, tasks, target);
        lemma_alpha(rest, ctx, resolver, tasks, target, s);
        let own = alpha_batch_commands(last, before, ctx, resolver, tasks, target);
        let t = lemma_alpha_batch(last, before, ctx, resolver, tasks, target, left(most, s));
        lemma_parts(most, own, s);
        let log = added(c, s);
        let n = added(most, s).len() as int;
        assert(log.take(n) =~= added(most, s));
        assert(log.skip(n) =~= added(own, left(most, s)));
        assert(same_pass(t, s));
    } else {
        reveal(added);
        reveal(left);
        reveal_with_fuel(run_to, 1);
    }
}

/// What is switched before the opaque batches, between them and the others, and at the end.
proof fn lemma_switches(s: Settings)
    ensures
        ({
            let setup = seq![
                DrawCommand::SetBlend(false),
                DrawCommand::AddSampler(crate::renderer::commands::GpuSampler::OpaquePass),
                DrawCommand::DepthFuncLessEqual,
                DrawCommand::Depth(true),
                DrawCommand::DepthWrite(true),
            ];
            let middle = seq![
                DrawCommand::DepthWrite(false),
                DrawCommand::AddSampler(crate::renderer::commands::GpuSampler::TransparentPass),
            ];
            let end = seq![
                DrawCommand::Depth(false),
                DrawCommand::SetBlend(false),
                DrawCommand::DoneSampler,
            ];
            &&& added(setup, s) == Seq::<Effect>::empty()
            &&& left(setup, s) == (Settings { blend: false, depth: true, depth_write: true, ..s })
            &&& added(middle, s) == Seq::<Effect>::empty()
            &&& left(middle, s) == (Settings { depth_write: false, ..s })
            &&& added(end, s) == Seq::<Effect>::empty()
            &&& left(end, s) == (Settings { depth: false, blend: false, ..s })
        }),
{
    reveal(added);
    reveal(left);
    reveal_with_fuel(run_to, 6);
}

/// The batches of a target are all drawn: first the opaque ones, the last of them first, with
/// depth tested and written and without blending; after that those with blending, in order,
/// with depth tested but not written, each in its own blend mode. Afterwards depth is not
/// tested and nothing is blended.
#[verifier::spinoff_prover]
#[verifier::rlimit(60)]
pub proof fn batches_are_drawn_in_order(
    t: ColorRenderTarget,
    ctx: DrawContext,
    resolver: SourceTextureResolver,
    tasks: Seq<DrawTask>,
    target: TargetContext,
    s: Settings,
) -> (r: (int, Settings, Settings))
    requires
        color_target_ok(t, ctx, resolver, tasks, target),
        s.canvas == Canvas::Target(target.render_target),
    ensures
        ({
            let c = batches_commands(t, ctx, resolver, tasks, target);
            let log = added(c, s);
            let (n, opaque, blended) = r;
            &&& 0 <= n <= log.len()
            &&& opaque.depth && opaque.depth_write
            &&& blended.depth && !blended.depth_write
            &&& opaque.canvas == s.canvas
            &&& blended.canvas == s.canvas
            &&& draws_opaque(
                log.take(n),
                opaque,
                t.opaque_batches@,
                ctx,
                resolver,
                tasks,
                target,
            )
            &&& draws_alpha(
                log.skip(n),
                blended,
                t.alpha_batches@,
                ctx,
                resolver,
                tasks,
                target,
            )
            &&& left(c, s).canvas == s.canvas
            &&& t.opaque_batches@.len() > 0 || t.alpha_batches@.len() > 0 ==> !left(c, s).depth
                && !left(c, s).blend && !left(c, s).depth_write
            &&& t.opaque_batches@.len() == 0 && t.alpha_batches@.len() == 0 ==> left(c, s) == s
                && log.len() == 0
        }),
{
    let c = batches_commands(t, ctx, resolver, tasks, target);
    let log = added(c, s);
    let on = Settings { blend: false, depth: true, depth_write: true, ..s };
    if t.opaque_batches@.len() == 0 && t.alpha_batches@.len() == 0 {
        reveal(added);
        reveal(left);
        reveal_with_fuel(run_to, 1);
        assert(log.take(0) =~= log);
        assert(log.skip(0) =~= log);
        (0, on, Settings { depth_write: false, ..on })
    } else {
        let setup = seq![
            DrawCommand::SetBlend(false),
            DrawCommand::AddSampler(crate::renderer::commands::GpuSampler::OpaquePass),
            DrawCommand::DepthFuncLessEqual,
            DrawCommand::Depth(true),
            DrawCommand::DepthWrite(true),
        ];
        let opaque = opaque_batches_commands(t.opaque_batches@, ctx, resolver, tasks, target);
        let middle = seq![
            DrawCommand::DepthWrite(false),
            DrawCommand::AddSampler(crate::renderer::commands::GpuSampler::TransparentPass),
        ];
        let alpha = alpha_batches_commands(t.alpha_batches@, ctx, resolver, tasks, target).0;
        let end = seq![
            DrawCommand::Depth(false),
            DrawCommand::SetBlend(false),
            DrawCommand::DoneSampler,
        ];
        lemma_switches(s);
        lemma_opaque(t.opaque_batches@, ctx, resolver, tasks, target, on, on);
        let s2 = left(opaque, on);
        let s3 = left(middle, s2);
        lemma_switches(s2);
        lemma_alpha(t.alpha_batches@, ctx, resolver, tasks, target, s3);
        let s4 = left(alpha, s3);
        lemma_switches(s4);
        lemma_parts(setup, opaque, s);
        lemma_parts(setup + opaque, middle, s);
        lemma_parts(setup + opaque + middle, alpha, s);
        lemma_parts(setup + opaque + middle + alpha, end, s);
        assert(c == setup + opaque + middle + alpha + end);
        let n = added(opaque, on).len() as int;
        assert(log =~= added(opaque, on) + added(alpha, s3));
        assert(log.take(n) =~= added(opaque, on));
        assert(log.skip(n) =~= added(alpha, s3));
        (n, on, s3)
    }
}

} // verus!
