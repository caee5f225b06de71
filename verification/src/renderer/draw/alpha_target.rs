//! How a target with only alpha is drawn.

use crate::float_bits::{FloatBits, ONE_BITS};
use crate::internal_types::ColorF;
use crate::renderer::commands::{
    BatchTextures, BlendFunc, DrawCommand, GpuSampler, GpuTag, InstanceRange, IntRect, Shader,
    VertexArrayKind,
};
use crate::renderer::draw::{
    blur_commands, draw_instanced_batch, handle_scaling, instanced_commands, push_blurs, range_ok,
    scaling_commands, scalings_ok, DrawContext, DrawTask, ScalingInfo, TargetContext,
};
use crate::renderer::textures::{SourceTexture, SourceTextureResolver};
use vstd::prelude::*;

verus! {

/// The clips that are drawn to a target.
pub struct ClipBatcher {
    /// Clear the places of border corners.
    pub border_clears: InstanceRange,
    /// The dots and dashes of border corners.
    pub borders: InstanceRange,
    pub rectangles: InstanceRange,
    /// Image masks, by texture.
    pub images: Vec<(SourceTexture, InstanceRange)>,
}

/// Everything that is drawn to a target with only alpha.
pub struct AlphaRenderTarget {
    pub used_rect: IntRect,
    /// The tasks that are cleared to zero.
    pub zero_clears: Vec<usize>,
    pub vertical_blurs: InstanceRange,
    pub horizontal_blurs: InstanceRange,
    pub scalings: Vec<ScalingInfo>,
    pub brush_mask_corners: InstanceRange,
    pub brush_mask_rounded_rects: InstanceRange,
    pub clip_batcher: ClipBatcher,
}

/// A mask that lets everything through.
pub open spec fn one_color() -> ColorF {
    ColorF {
        r: FloatBits(ONE_BITS),
        g: FloatBits(ONE_BITS),
        b: FloatBits(ONE_BITS),
        a: FloatBits(0),
    }
}

pub open spec fn zero_clear_commands(clears: Seq<usize>, tasks: Seq<DrawTask>) -> Seq<DrawCommand> {
    clears.map_values(
        |id: usize|
            DrawCommand::ClearTargetRect {
                color: Some(ColorF::spec_transparent()),
                depth: false,
                rect: tasks[id as int].rect,
            },
    )
}

/// What draws instances with a shader and no texture, where there are any.
pub open spec fn shader_commands(
    data: InstanceRange,
    setup: Seq<DrawCommand>,
    shader: Shader,
    kind: VertexArrayKind,
    ctx: DrawContext,
    resolver: SourceTextureResolver,
    target: TargetContext,
) -> Seq<DrawCommand> {
    if data.count == 0 {
        Seq::empty()
    } else {
        setup + seq![DrawCommand::BindShader { shader, projection: target.projection, mode: 0 }]
            + instanced_commands(ctx, resolver, data, kind, BatchTextures::spec_no_texture())
    }
}

pub open spec fn mask_setup() -> Seq<DrawCommand> {
    seq![DrawCommand::SetBlend(false), DrawCommand::Marker(GpuTag::BrushMask)]
}

/// What draws image masks.
pub open spec fn image_mask_commands(
    images: Seq<(SourceTexture, InstanceRange)>,
    ctx: DrawContext,
    resolver: SourceTextureResolver,
    target: TargetContext,
) -> Seq<DrawCommand>
    decreases images.len(),
{
    if images.len() == 0 {
        Seq::empty()
    } else {
        image_mask_commands(images.drop_last(), ctx, resolver, target) + seq![
            DrawCommand::BindShader {
                shader: Shader::CsClipImage,
                projection: target.projection,
                mode: 0,
            },
        ] + instanced_commands(
            ctx,
            resolver,
            images.last().1,
            VertexArrayKind::Clip,
            BatchTextures::spec_color(images.last().0),
        )
    }
}

/// What draws the clips: first corners are cleared, then their dots and dashes are added
/// up, and then everything else is multiplied with what is there.
pub open spec fn clip_commands(
    clips: ClipBatcher,
    ctx: DrawContext,
    resolver: SourceTextureResolver,
    target: TargetContext,
) -> Seq<DrawCommand> {
    seq![DrawCommand::Marker(GpuTag::CacheClip)] + shader_commands(
        clips.border_clears,
        seq![DrawCommand::SetBlend(false)],
        Shader::CsClipBorder,
        VertexArrayKind::Clip,
        ctx,
        resolver,
        target,
    ) + shader_commands(
        clips.borders,
        seq![DrawCommand::SetBlend(true), DrawCommand::SetBlendFunc(BlendFunc::Max)],
        Shader::CsClipBorder,
        VertexArrayKind::Clip,
        ctx,
        resolver,
        target,
    ) + seq![DrawCommand::SetBlend(true), DrawCommand::SetBlendFunc(BlendFunc::Multiply)]
        + shader_commands(
        clips.rectangles,
        Seq::empty(),
        Shader::CsClipRectangle,
        VertexArrayKind::Clip,
        ctx,
        resolver,
        target,
    ) + image_mask_commands(clips.images@, ctx, resolver, target)
}

/// What prepares the target: all of what is used lets everything through, but for the
/// tasks that start out empty.
pub open spec fn alpha_setup_commands(
    t: AlphaRenderTarget,
    tasks: Seq<DrawTask>,
    target: TargetContext,
) -> Seq<DrawCommand> {
    seq![
        DrawCommand::AddSampler(GpuSampler::AlphaTargets),
        DrawCommand::Marker(GpuTag::SetupTarget),
        DrawCommand::BindDrawTarget {
            target: target.render_target,
            width: target.width,
            height: target.height,
        },
        DrawCommand::Depth(false),
        DrawCommand::DepthWrite(false),
        DrawCommand::ClearTargetRect { color: Some(one_color()), depth: false, rect: t.used_rect },
    ] + zero_clear_commands(t.zero_clears@, tasks)
}

pub open spec fn alpha_target_commands(
    t: AlphaRenderTarget,
    ctx: DrawContext,
    resolver: SourceTextureResolver,
    tasks: Seq<DrawTask>,
    target: TargetContext,
) -> Seq<DrawCommand> {
    alpha_setup_commands(t, tasks, target) + blur_commands(
        t.vertical_blurs,
        t.horizontal_blurs,
        Shader::CsBlurA8,
        ctx,
        resolver,
        target.projection,
    ) + scaling_commands(
        t.scalings@,
        tasks,
        resolver.spec_bind(SourceTexture::CacheA8)->Texture_0,
    ) + shader_commands(
        t.brush_mask_corners,
        mask_setup(),
        Shader::BrushMaskCorner,
        VertexArrayKind::Primitive,
        ctx,
        resolver,
        target,
    ) + shader_commands(
        t.brush_mask_rounded_rects,
        mask_setup(),
        Shader::BrushMaskRoundedRect,
        VertexArrayKind::Primitive,
        ctx,
        resolver,
        target,
    ) + clip_commands(t.clip_batcher, ctx, resolver, target) + seq![DrawCommand::DoneSampler]
}

/// The tasks that are spoken of are there, and image masks have textures.
pub open spec fn alpha_target_ok(
    t: AlphaRenderTarget,
    resolver: SourceTextureResolver,
    tasks: Seq<DrawTask>,
) -> bool {
    &&& forall|i: int| 0 <= i < t.zero_clears@.len() ==> #[trigger] t.zero_clears@[i] < tasks.len()
    &&& scalings_ok(t.scalings@, tasks)
    &&& range_ok(t.vertical_blurs)
    &&& range_ok(t.horizontal_blurs)
    &&& range_ok(t.brush_mask_corners)
    &&& range_ok(t.brush_mask_rounded_rects)
    &&& range_ok(t.clip_batcher.border_clears)
    &&& range_ok(t.clip_batcher.borders)
    &&& range_ok(t.clip_batcher.rectangles)
    &&& forall|i: int|
        0 <= i < t.clip_batcher.images@.len() ==> range_ok(
            (#[trigger] t.clip_batcher.images@[i]).1,
        ) && resolver.can_bind(t.clip_batcher.images@[i].0)
}

fn push_setup(
    out: &mut Vec<DrawCommand>,
    t: &AlphaRenderTarget,
    tasks: &Vec<DrawTask>,
    target: &TargetContext,
)
    requires
        forall|i: int|
            0 <= i < t.zero_clears@.len() ==> #[trigger] t.zero_clears@[i] < tasks@.len(),
    ensures
        final(out)@ == old(out)@ + alpha_setup_commands(*t, tasks@, *target),
{
    out.push(DrawCommand::AddSampler(GpuSampler::AlphaTargets));
    out.push(DrawCommand::Marker(GpuTag::SetupTarget));
    out.push(
        DrawCommand::BindDrawTarget {
            target: target.render_target,
            width: target.width,
            height: target.height,
        },
    );
    out.push(DrawCommand::Depth(false));
    out.push(DrawCommand::DepthWrite(false));
    let clear_color = ColorF {
        r: FloatBits(ONE_BITS),
        g: FloatBits(ONE_BITS),
        b: FloatBits(ONE_BITS),
        a: FloatBits(0),
    };
    out.push(
        DrawCommand::ClearTargetRect { color: Some(clear_color), depth: false, rect: t.used_rect },
    );
    let ghost start = out@;
    let mut i: usize = 0;
    assert(out@ =~= start + zero_clear_commands(t.zero_clears@.take(0), tasks@));
    while i < t.zero_clears.len()
        invariant
            i <= t.zero_clears@.len(),
            forall|i: int|
                0 <= i < t.zero_clears@.len() ==> #[trigger] t.zero_clears@[i] < tasks@.len(),
            out@ == start + zero_clear_commands(t.zero_clears@.take(i as int), tasks@),
        decreases t.zero_clears@.len() - i,
    {
        let rect = tasks[t.zero_clears[i]].rect;
        out.push(
            DrawCommand::ClearTargetRect {
                color: Some(ColorF::transparent()),
                depth: false,
                rect,
            },
        );
        i = i + 1;
        assert(out@ =~= start + zero_clear_commands(t.zero_clears@.take(i as int), tasks@));
    }
    assert(t.zero_clears@.take(i as int) =~= t.zero_clears@);
    assert(out@ =~= old(out)@ + alpha_setup_commands(*t, tasks@, *target));
}

fn push_shader(
    out: &mut Vec<DrawCommand>,
    data: InstanceRange,
    setup: Vec<DrawCommand>,
    shader: Shader,
    kind: VertexArrayKind,
    ctx: &DrawContext,
    resolver: &SourceTextureResolver,
    target: &TargetContext,
)
    requires
        range_ok(data),
    ensures
        final(out)@ == old(out)@ + shader_commands(
            data,
            setup@,
            shader,
            kind,
            *ctx,
            *resolver,
            *target,
        ),
{
    if !data.is_empty() {
        let mut setup = setup;
        out.append(&mut setup);
        out.push(DrawCommand::BindShader { shader, projection: target.projection, mode: 0 });
        draw_instanced_batch(out, ctx, resolver, data, kind, &BatchTextures::no_texture());
    }
    assert(out@ =~= old(out)@ + shader_commands(
        data,
        setup@,
        shader,
        kind,
        *ctx,
        *resolver,
        *target,
    ));
}

fn push_image_masks(
    out: &mut Vec<DrawCommand>,
    images: &Vec<(SourceTexture, InstanceRange)>,
    ctx: &DrawContext,
    resolver: &SourceTextureResolver,
    target: &TargetContext,
)
    requires
        forall|i: int|
            0 <= i < images@.len() ==> range_ok((#[trigger] images@[i]).1) && resolver.can_bind(
                images@[i].0,
            ),
    ensures
        final(out)@ == old(out)@ + image_mask_commands(images@, *ctx, *resolver, *target),
{
    let mut i: usize = 0;
    assert(out@ =~= old(out)@ + image_mask_commands(images@.take(0), *ctx, *resolver, *target));
    while i < images.len()
        invariant
            i <= images@.len(),
            forall|i: int|
                0 <= i < images@.len() ==> range_ok((#[trigger] images@[i]).1)
                    && resolver.can_bind(images@[i].0),
            out@ == old(out)@ + image_mask_commands(
                images@.take(i as int),
                *ctx,
                *resolver,
                *target,
            ),
        decreases images@.len() - i,
    {
        let ghost next = images@.take(i as int + 1);
        assert(next.drop_last() =~= images@.take(i as int));
        let (texture, items) = images[i];
        out.push(
            DrawCommand::BindShader {
                shader: Shader::CsClipImage,
                projection: target.projection,
                mode: 0,
            },
        );
        draw_instanced_batch(
            out,
            ctx,
            resolver,
            items,
            VertexArrayKind::Clip,
            &BatchTextures::color(texture),
        );
        i = i + 1;
        assert(out@ =~= old(out)@ + image_mask_commands(next, *ctx, *resolver, *target));
    }
    assert(images@.take(i as int) =~= images@);
}

fn push_clips(
    out: &mut Vec<DrawCommand>,
    clips: &ClipBatcher,
    ctx: &DrawContext,
    resolver: &SourceTextureResolver,
    target: &TargetContext,
)
    requires
        range_ok(clips.border_clears),
        range_ok(clips.borders),
        range_ok(clips.rectangles),
        forall|i: int|
            0 <= i < clips.images@.len() ==> range_ok((#[trigger] clips.images@[i]).1)
                && resolver.can_bind(clips.images@[i].0),
    ensures
        final(out)@ == old(out)@ + clip_commands(*clips, *ctx, *resolver, *target),
{
    out.push(DrawCommand::Marker(GpuTag::CacheClip));
    let clearing: Vec<DrawCommand> = vec![DrawCommand::SetBlend(false)];
    assert(clearing@ =~= seq![DrawCommand::SetBlend(false)]);
    push_shader(
        out,
        clips.border_clears,
        clearing,
        Shader::CsClipBorder,
        VertexArrayKind::Clip,
        ctx,
        resolver,
        target,
    );
    let adding: Vec<DrawCommand> = vec![
        DrawCommand::SetBlend(true),
        DrawCommand::SetBlendFunc(BlendFunc::Max),
    ];
    assert(adding@ =~= seq![
        DrawCommand::SetBlend(true),
        DrawCommand::SetBlendFunc(BlendFunc::Max),
    ]);
    push_shader(
        out,
        clips.borders,
        adding,
        Shader::CsClipBorder,
        VertexArrayKind::Clip,
        ctx,
        resolver,
        target,
    );
    out.push(DrawCommand::SetBlend(true));
    out.push(DrawCommand::SetBlendFunc(BlendFunc::Multiply));
    let nothing: Vec<DrawCommand> = Vec::new();
    assert(nothing@ =~= Seq::<DrawCommand>::empty());
    push_shader(
        out,
        clips.rectangles,
        nothing,
        Shader::CsClipRectangle,
        VertexArrayKind::Clip,
        ctx,
        resolver,
        target,
    );
    push_image_masks(out, &clips.images, ctx, resolver, target);
    assert(out@ =~= old(out)@ + clip_commands(*clips, *ctx, *resolver, *target));
}

/// Draws a target with only alpha.
pub fn draw_alpha_target(
    out: &mut Vec<DrawCommand>,
    t: &AlphaRenderTarget,
    ctx: &DrawContext,
    resolver: &SourceTextureResolver,
    tasks: &Vec<DrawTask>,
    target: &TargetContext,
)
    requires
        alpha_target_ok(*t, *resolver, tasks@),
    ensures
        final(out)@ == old(out)@ + alpha_target_commands(*t, *ctx, *resolver, tasks@, *target),
{
    push_setup(out, t, tasks, target);
    push_blurs(
        out,
        t.vertical_blurs,
        t.horizontal_blurs,
        Shader::CsBlurA8,
        ctx,
        resolver,
        target.projection,
    );
    handle_scaling(out, tasks, &t.scalings, SourceTexture::CacheA8, resolver);
    let corners: Vec<DrawCommand> = vec![
        DrawCommand::SetBlend(false),
        DrawCommand::Marker(GpuTag::BrushMask),
    ];
    assert(corners@ =~= mask_setup());
    push_shader(
        out,
        t.brush_mask_corners,
        corners,
        Shader::BrushMaskCorner,
        VertexArrayKind::Primitive,
        ctx,
        resolver,
        target,
    );
    let rounded: Vec<DrawCommand> = vec![
        DrawCommand::SetBlend(false),
        DrawCommand::Marker(GpuTag::BrushMask),
    ];
    assert(rounded@ =~= mask_setup());
    push_shader(
        out,
        t.brush_mask_rounded_rects,
        rounded,
        Shader::BrushMaskRoundedRect,
        VertexArrayKind::Primitive,
        ctx,
        resolver,
        target,
    );
    push_clips(out, &t.clip_batcher, ctx, resolver, target);
    out.push(DrawCommand::DoneSampler);
    assert(out@ =~= old(out)@ + alpha_target_commands(*t, *ctx, *resolver, tasks@, *target));
}

} // verus!
