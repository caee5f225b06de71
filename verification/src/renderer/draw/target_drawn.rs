//! What drawing a whole target makes the device do.

use crate::internal_types::{ColorF, FrameId};
use crate::renderer::commands::{
    BatchTextures, BlendFunc, DrawCommand, GpuSampler, GpuTag, InstanceRange, IntRect, Shader,
    TextureLayer, VertexArrayKind,
};
use crate::renderer::draw::alpha_target::{
    alpha_setup_commands, alpha_target_commands, alpha_target_ok, clip_commands,
    image_mask_commands, mask_setup, one_color, shader_commands, zero_clear_commands,
    AlphaRenderTarget, ClipBatcher,
};
use crate::renderer::draw::color_drawn::{batches_are_drawn_in_order, draws_alpha, draws_opaque};
use crate::renderer::draw::color_target::{
    alpha_blend, batches_commands, cached_prim_commands, cached_text_draws, color_setup_commands,
    color_target_commands, color_target_ok, output_commands, outputs_after, outputs_commands,
    ColorRenderTarget, FrameOutput, OutputRequest,
};
use crate::renderer::draw::device::{
    added, draws_instances, goes_by, instances_are_drawn, left, lemma_parts, run_to, Canvas, Effect,
    Settings,
};
use crate::renderer::draw::{
    blur_commands, instanced_commands, nonempty_commands, range_ok, scaling_commands, DrawContext,
    DrawTask, ScalingInfo, TargetContext,
};
use crate::renderer::textures::{SourceTexture, SourceTextureResolver, TextureId};
use vstd::prelude::*;

verus! {

/// How instances are drawn: by a shader, with a layout, blended in some way or not at all,
/// and reading a texture or none.
pub struct Look {
    pub shader: Shader,
    pub layout: VertexArrayKind,
    pub blend: Option<BlendFunc>,
    pub texture: SourceTexture,
}

/// The settings are those of a look, and draw to a target.
pub open spec fn looks(
    s: Settings,
    look: Look,
    resolver: SourceTextureResolver,
    target: TargetContext,
) -> bool {
    &&& s.shader == Some(look.shader)
    &&& s.projection == target.projection
    &&& s.mode == 0
    &&& s.canvas == Canvas::Target(target.render_target)
    &&& s.vao == Some(look.layout)
    &&& look.blend is None ==> !s.blend
    &&& look.blend is Some ==> s.blend && s.func == look.blend
    &&& !(look.texture is Invalid) ==> s.color0 == Some(resolver.spec_bind(look.texture))
}

/// The effects draw instances with a look, all of them and in order.
pub open spec fn draws_with(
    log: Seq<Effect>,
    data: InstanceRange,
    look: Look,
    ctx: DrawContext,
    resolver: SourceTextureResolver,
    target: TargetContext,
) -> bool {
    &&& draws_instances(log, data, ctx.enable_batcher)
    &&& forall|i: int|
        0 <= i < log.len() ==> (#[trigger] log[i] matches Effect::Draw { settings, .. } && looks(
            settings,
            look,
            resolver,
            target,
        ))
}

/// The effects draw instances with a look, where there are any.
pub open spec fn draws_any(
    log: Seq<Effect>,
    data: InstanceRange,
    look: Look,
    ctx: DrawContext,
    resolver: SourceTextureResolver,
    target: TargetContext,
) -> bool {
    if data.count == 0 {
        log.len() == 0
    } else {
        draws_with(log, data, look, ctx, resolver, target)
    }
}

/// The effects draw groups of instances in order, each reading its own texture.
pub open spec fn draws_groups(
    log: Seq<Effect>,
    groups: Seq<(SourceTexture, InstanceRange)>,
    look: Look,
    ctx: DrawContext,
    resolver: SourceTextureResolver,
    target: TargetContext,
) -> bool
    decreases groups.len(),
{
    if groups.len() == 0 {
        log.len() == 0
    } else {
        exists|n: int|
            #![trigger log.take(n)]
            0 <= n <= log.len() && draws_groups(
                log.take(n),
                groups.drop_last(),
                look,
                ctx,
                resolver,
                target,
            ) && draws_with(
                log.skip(n),
                groups.last().1,
                Look { texture: groups.last().0, ..look },
                ctx,
                resolver,
                target,
            )
    }
}

/// The effects copy tasks from the targets of the pass before, each as large as its
/// target is.
pub open spec fn copies_tasks(
    log: Seq<Effect>,
    scalings: Seq<ScalingInfo>,
    tasks: Seq<DrawTask>,
    texture: TextureId,
    target: TargetContext,
) -> bool {
    &&& log.len() == scalings.len()
    &&& forall|i: int|
        0 <= i < log.len() ==> (#[trigger] log[i] matches Effect::Blit { settings, src, dest } && {
            let source = tasks[scalings[i].src_task_id as int];
            &&& settings.read_from == Some(Some(TextureLayer { texture, layer: source.layer }))
            &&& settings.canvas == Canvas::Target(target.render_target)
            &&& src == source.rect
            &&& dest == tasks[scalings[i].dest_task_id as int].rect
        })
}

/// The commands set a shader and draw instances with it.
proof fn lemma_drawn(
    data: InstanceRange,
    look: Look,
    ctx: DrawContext,
    resolver: SourceTextureResolver,
    target: TargetContext,
    s: Settings,
)
    requires
        range_ok(data),
        resolver.can_bind(look.texture),
        s.shader == Some(look.shader),
        s.projection == target.projection,
        s.mode == 0,
        s.canvas == Canvas::Target(target.render_target),
        look.blend is None ==> !s.blend,
        look.blend is Some ==> s.blend && s.func == look.blend,
    ensures
        ({
            let c = instanced_commands(
                ctx,
                resolver,
                data,
                look.layout,
                BatchTextures::spec_color(look.texture),
            );
            &&& draws_with(added(c, s), data, look, ctx, resolver, target)
            &&& kept(left(c, s), s)
        }),
{
    instances_are_drawn(
        ctx,
        resolver,
        data,
        look.layout,
        BatchTextures::spec_color(look.texture),
        s,
    );
    let c = instanced_commands(
        ctx,
        resolver,
        data,
        look.layout,
        BatchTextures::spec_color(look.texture),
    );
    let log = added(c, s);
    assert forall|i: int| 0 <= i < log.len() implies (#[trigger] log[i] matches Effect::Draw {
        settings,
        ..
    } && looks(settings, look, resolver, target)) by {
        assert(goes_by(log, left(c, s)));
        assert(log[i] is Draw);
    }
}

/// What drawing instances leaves alone.
spec fn kept(a: Settings, b: Settings) -> bool {
    &&& a.shader == b.shader
    &&& a.projection == b.projection
    &&& a.mode == b.mode
    &&& a.canvas == b.canvas
    &&& a.blend == b.blend
    &&& a.func == b.func
    &&& a.depth == b.depth
    &&& a.depth_write == b.depth_write
}

proof fn lemma_bind(shader: Shader, target: TargetContext, s: Settings)
    ensures
        ({
            let c = seq![DrawCommand::BindShader { shader, projection: target.projection, mode: 0 }];
            &&& added(c, s) == Seq::<Effect>::empty()
            &&& left(c, s) == (Settings {
                shader: Some(shader),
                projection: target.projection,
                mode: 0,
                ..s
            })
        }),
{
    reveal(added);
    reveal(left);
    reveal_with_fuel(run_to, 2);
}

proof fn lemma_nothing(s: Settings)
    ensures
        added(Seq::empty(), s) == Seq::<Effect>::empty(),
        left(Seq::empty(), s) == s,
{
    reveal(added);
    reveal(left);
}

proof fn lemma_blend_func(func: BlendFunc, s: Settings)
    ensures
        ({
            let c = seq![DrawCommand::SetBlend(true), DrawCommand::SetBlendFunc(func)];
            &&& added(c, s) == Seq::<Effect>::empty()
            &&& left(c, s) == (Settings { blend: true, func: Some(func), ..s })
        }),
{
    reveal(added);
    reveal(left);
    reveal_with_fuel(run_to, 3);
}

proof fn lemma_shader_commands(
    data: InstanceRange,
    setup: Seq<DrawCommand>,
    look: Look,
    ctx: DrawContext,
    resolver: SourceTextureResolver,
    target: TargetContext,
    s: Settings,
)
    requires
        range_ok(data),
        look.texture is Invalid,
        s.canvas == Canvas::Target(target.render_target),
        ({
            let t = left(setup, s);
            &&& added(setup, s) == Seq::<Effect>::empty()
            &&& t.canvas == s.canvas
            &&& look.blend is None ==> !t.blend
            &&& look.blend is Some ==> t.blend && t.func == look.blend
        }),
    ensures
        ({
            let c = shader_commands(data, setup, look.shader, look.layout, ctx, resolver, target);
            &&& draws_any(added(c, s), data, look, ctx, resolver, target)
            &&& left(c, s).canvas == s.canvas
            &&& data.count == 0 ==> left(c, s) == s
            &&& data.count > 0 ==> left(c, s).blend == left(setup, s).blend && left(c, s).func
                == left(setup, s).func
        }),
{
    let c = shader_commands(data, setup, look.shader, look.layout, ctx, resolver, target);
    if data.count == 0 {
        lemma_nothing(s);
    } else {
        let bind = seq![
            DrawCommand::BindShader {
                shader: look.shader,
                projection: target.projection,
                mode: 0,
            },
        ];
        let draw = instanced_commands(
            ctx,
            resolver,
            data,
            look.layout,
            BatchTextures::spec_color(look.texture),
        );
        let t = left(setup, s);
        lemma_bind(look.shader, target, t);
        lemma_drawn(data, look, ctx, resolver, target, left(bind, t));
        lemma_parts(setup, bind, s);
        lemma_parts(setup + bind, draw, s);
        assert(BatchTextures::spec_color(look.texture) == BatchTextures::spec_no_texture());
        assert(c == setup + bind + draw);
        assert(added(c, s) =~= added(draw, left(bind, t)));
    }
}

proof fn lemma_image_masks(
    images: Seq<(SourceTexture, InstanceRange)>,
    ctx: DrawContext,
    resolver: SourceTextureResolver,
    target: TargetContext,
    s: Settings,
)
    requires
        forall|i: int|
            0 <= i < images.len() ==> range_ok((#[trigger] images[i]).1) && resolver.can_bind(
                images[i].0,
            ),
        s.canvas == Canvas::Target(target.render_target),
        s.blend,
        s.func == Some(BlendFunc::Multiply),
    ensures
        ({
            let c = image_mask_commands(images, ctx, resolver, target);
            &&& draws_groups(added(c, s), images, image_mask_look(), ctx, resolver, target)
            &&& left(c, s).canvas == s.canvas
            &&& left(c, s).blend == s.blend
            &&& left(c, s).func == s.func
        }),
    decreases images.len(),
{
    let c = image_mask_commands(images, ctx, resolver, target);
    if images.len() == 0 {
        lemma_nothing(s);
    } else {
        let rest = images.drop_last();
        let last = images.last();
        assert(range_ok(images[images.len() - 1].1));
        assert forall|i: int| 0 <= i < rest.len() implies range_ok((#[trigger] rest[i]).1)
            && resolver.can_bind(rest[i].0) by {
            assert(rest[i] == images[i]);
        }
        let most = image_mask_commands(rest, ctx, resolver, target);
        lemma_image_masks(rest, ctx, resolver, target, s);
        let bind = seq![
            DrawCommand::BindShader {
                shader: Shader::CsClipImage,
                projection: target.projection,
                mode: 0,
            },
        ];
        let look = Look { texture: last.0, ..image_mask_look() };
        let draw = instanced_commands(
            ctx,
            resolver,
            last.1,
            VertexArrayKind::Clip,
            BatchTextures::spec_color(last.0),
        );
        let t = left(most, s);
        lemma_bind(Shader::CsClipImage, target, t);
        lemma_drawn(last.1, look, ctx, resolver, target, left(bind, t));
        lemma_parts(most, bind, s);
        lemma_parts(most + bind, draw, s);
        assert(c == most + bind + draw);
        let log = added(c, s);
        let n = added(most, s).len() as int;
        assert(log =~= added(most, s) + added(draw, left(bind, t)));
        assert(log.take(n) =~= added(most, s));
        assert(log.skip(n) =~= added(draw, left(bind, t)));
    }
}

/// Image masks are multiplied with what is there.
pub open spec fn image_mask_look() -> Look {
    Look {
        shader: Shader::CsClipImage,
        layout: VertexArrayKind::Clip,
        blend: Some(BlendFunc::Multiply),
        texture: SourceTexture::Invalid,
    }
}

/// A look without a texture.
pub open spec fn plain_look(
    shader: Shader,
    layout: VertexArrayKind,
    blend: Option<BlendFunc>,
) -> Look {
    Look { shader, layout, blend, texture: SourceTexture::Invalid }
}

proof fn lemma_nonempty(
    data: InstanceRange,
    look: Look,
    ctx: DrawContext,
    resolver: SourceTextureResolver,
    target: TargetContext,
    s: Settings,
)
    requires
        range_ok(data),
        look.texture is Invalid,
        s.shader == Some(look.shader),
        s.projection == target.projection,
        s.mode == 0,
        s.canvas == Canvas::Target(target.render_target),
        look.blend is None ==> !s.blend,
        look.blend is Some ==> s.blend && s.func == look.blend,
    ensures
        ({
            let c = nonempty_commands(
                data,
                look.layout,
                BatchTextures::spec_no_texture(),
                ctx,
                resolver,
            );
            &&& draws_any(added(c, s), data, look, ctx, resolver, target)
            &&& kept(left(c, s), s)
        }),
{
    assert(BatchTextures::spec_color(look.texture) == BatchTextures::spec_no_texture());
    if data.count == 0 {
        lemma_nothing(s);
    } else {
        lemma_drawn(data, look, ctx, resolver, target, s);
    }
}

/// The blurs of a target are drawn without blending: first all the vertical ones, whose
/// results the horizontal ones may not read before the next pass, then the horizontal ones.
pub proof fn blurs_are_drawn(
    vertical: InstanceRange,
    horizontal: InstanceRange,
    shader: Shader,
    ctx: DrawContext,
    resolver: SourceTextureResolver,
    target: TargetContext,
    s: Settings,
) -> (r: (Seq<Effect>, Seq<Effect>))
    requires
        range_ok(vertical),
        range_ok(horizontal),
        s.canvas == Canvas::Target(target.render_target),
    ensures
        ({
            let c = blur_commands(vertical, horizontal, shader, ctx, resolver, target.projection);
            let look = plain_look(shader, VertexArrayKind::Blur, None);
            &&& added(c, s) == r.0 + r.1
            &&& draws_any(r.0, vertical, look, ctx, resolver, target)
            &&& draws_any(r.1, horizontal, look, ctx, resolver, target)
            &&& left(c, s).canvas == s.canvas
            &&& left(c, s).depth == s.depth
            &&& left(c, s).depth_write == s.depth_write
        }),
{
    let c = blur_commands(vertical, horizontal, shader, ctx, resolver, target.projection);
    let none = BatchTextures::spec_no_texture();
    let look = plain_look(shader, VertexArrayKind::Blur, None);
    let v = nonempty_commands(vertical, VertexArrayKind::Blur, none, ctx, resolver);
    let h = nonempty_commands(horizontal, VertexArrayKind::Blur, none, ctx, resolver);
    if vertical.count == 0 && horizontal.count == 0 {
        lemma_nothing(s);
        let e = Seq::<Effect>::empty();
        assert(added(c, s) =~= e + e);
        (e, e)
    } else {
        let setup = seq![
            DrawCommand::Marker(GpuTag::Blur),
            DrawCommand::SetBlend(false),
            DrawCommand::BindShader { shader, projection: target.projection, mode: 0 },
        ];
        let s1 = left(setup, s);
        assert(added(setup, s) == Seq::<Effect>::empty() && s1 == (Settings {
            tag: Some(GpuTag::Blur),
            blend: false,
            shader: Some(shader),
            projection: target.projection,
            mode: 0,
            ..s
        })) by {
            reveal(added);
            reveal(left);
            reveal_with_fuel(run_to, 4);
        }
        lemma_nonempty(vertical, look, ctx, resolver, target, s1);
        let s2 = left(v, s1);
        lemma_nonempty(horizontal, look, ctx, resolver, target, s2);
        lemma_parts(setup, v, s);
        lemma_parts(setup + v, h, s);
        assert(c == setup + v + h);
        assert(added(c, s) =~= added(v, s1) + added(h, s2));
        (added(v, s1), added(h, s2))
    }
}

/// Scaled copies are made one by one, from where the source is in the pass before.
pub proof fn scalings_are_copied(
    scalings: Seq<ScalingInfo>,
    tasks: Seq<DrawTask>,
    texture: TextureId,
    target: TargetContext,
    s: Settings,
)
    requires
        s.canvas == Canvas::Target(target.render_target),
    ensures
        ({
            let c = scaling_commands(scalings, tasks, texture);
            &&& copies_tasks(added(c, s), scalings, tasks, texture, target)
            &&& left(c, s) == (Settings { read_from: left(c, s).read_from, ..s })
        }),
    decreases scalings.len(),
{
    let c = scaling_commands(scalings, tasks, texture);
    if scalings.len() == 0 {
        lemma_nothing(s);
    } else {
        let rest = scalings.drop_last();
        let most = scaling_commands(rest, tasks, texture);
        scalings_are_copied(rest, tasks, texture, target, s);
        let source = tasks[scalings.last().src_task_id as int];
        let dest = tasks[scalings.last().dest_task_id as int];
        let two = seq![
            DrawCommand::BindReadTarget {
                target: Some(TextureLayer { texture, layer: source.layer }),
            },
            DrawCommand::Blit { src: source.rect, dest: dest.rect },
        ];
        let t = left(most, s);
        let u = Settings {
            read_from: Some(Some(TextureLayer { texture, layer: source.layer })),
            ..t
        };
        assert(added(two, t).len() == 1 && added(two, t)[0] == (Effect::Blit {
            settings: u,
            src: source.rect,
            dest: dest.rect,
        }) && left(two, t) == u) by {
            reveal(added);
            reveal(left);
            reveal_with_fuel(run_to, 3);
        }
        lemma_parts(most, two, s);
        assert(c == most + two);
        let log = added(c, s);
        let before = added(most, s);
        assert forall|i: int| 0 <= i < log.len() implies (#[trigger] log[i] matches Effect::Blit {
            settings,
            src,
            dest,
        } && {
            let source = tasks[scalings[i].src_task_id as int];
            &&& settings.read_from == Some(Some(TextureLayer { texture, layer: source.layer }))
            &&& settings.canvas == Canvas::Target(target.render_target)
            &&& src == source.rect
            &&& dest == tasks[scalings[i].dest_task_id as int].rect
        }) by {
            if i < before.len() {
                assert(log[i] == before[i]);
                assert(rest[i] == scalings[i]);
            }
        }
    }
}

/// The clips of a target are drawn in an order that keeps them apart: first the corners of
/// borders are cleared, then what is in them is added up, and everything else is
/// multiplied with what is there, rectangles before images.
pub proof fn clips_are_multiplied(
    clips: ClipBatcher,
    ctx: DrawContext,
    resolver: SourceTextureResolver,
    target: TargetContext,
    s: Settings,
) -> (r: (Seq<Effect>, Seq<Effect>, Seq<Effect>, Seq<Effect>))
    requires
        range_ok(clips.border_clears),
        range_ok(clips.borders),
        range_ok(clips.rectangles),
        forall|i: int|
            0 <= i < clips.images@.len() ==> range_ok((#[trigger] clips.images@[i]).1)
                && resolver.can_bind(clips.images@[i].0),
        s.canvas == Canvas::Target(target.render_target),
    ensures
        ({
            let c = clip_commands(clips, ctx, resolver, target);
            let layout = VertexArrayKind::Clip;
            &&& added(c, s) == r.0 + r.1 + r.2 + r.3
            &&& draws_any(
                r.0,
                clips.border_clears,
                plain_look(Shader::CsClipBorder, layout, None),
                ctx,
                resolver,
                target,
            )
            &&& draws_any(
                r.1,
                clips.borders,
                plain_look(Shader::CsClipBorder, layout, Some(BlendFunc::Max)),
                ctx,
                resolver,
                target,
            )
            &&& draws_any(
                r.2,
                clips.rectangles,
                plain_look(Shader::CsClipRectangle, layout, Some(BlendFunc::Multiply)),
                ctx,
                resolver,
                target,
            )
            &&& draws_groups(r.3, clips.images@, image_mask_look(), ctx, resolver, target)
        }),
{
    let c = clip_commands(clips, ctx, resolver, target);
    let layout = VertexArrayKind::Clip;
    let mark = seq![DrawCommand::Marker(GpuTag::CacheClip)];
    let off = seq![DrawCommand::SetBlend(false)];
    let max = seq![DrawCommand::SetBlend(true), DrawCommand::SetBlendFunc(BlendFunc::Max)];
    let mul = seq![DrawCommand::SetBlend(true), DrawCommand::SetBlendFunc(BlendFunc::Multiply)];
    let none = Seq::<DrawCommand>::empty();
    let s1 = left(mark, s);
    assert(added(mark, s) == Seq::<Effect>::empty() && s1 == (Settings {
        tag: Some(GpuTag::CacheClip),
        ..s
    })) by {
        reveal(added);
        reveal(left);
        reveal_with_fuel(run_to, 2);
    }
    assert(added(off, s1) == Seq::<Effect>::empty() && left(off, s1) == (Settings {
        blend: false,
        ..s1
    })) by {
        reveal(added);
        reveal(left);
        reveal_with_fuel(run_to, 2);
    }
    let look0 = plain_look(Shader::CsClipBorder, layout, None);
    let look1 = plain_look(Shader::CsClipBorder, layout, Some(BlendFunc::Max));
    let look2 = plain_look(Shader::CsClipRectangle, layout, Some(BlendFunc::Multiply));
    let c0 = shader_commands(
        clips.border_clears,
        off,
        Shader::CsClipBorder,
        layout,
        ctx,
        resolver,
        target,
    );
    lemma_shader_commands(clips.border_clears, off, look0, ctx, resolver, target, s1);
    let s2 = left(c0, s1);
    let c1 = shader_commands(
        clips.borders,
        max,
        Shader::CsClipBorder,
        layout,
        ctx,
        resolver,
        target,
    );
    lemma_blend_func(BlendFunc::Max, s2);
    lemma_shader_commands(clips.borders, max, look1, ctx, resolver, target, s2);
    let s3 = left(c1, s2);
    lemma_blend_func(BlendFunc::Multiply, s3);
    let s4 = left(mul, s3);
    let c2 = shader_commands(
        clips.rectangles,
        none,
        Shader::CsClipRectangle,
        layout,
        ctx,
        resolver,
        target,
    );
    lemma_nothing(s4);
    lemma_shader_commands(clips.rectangles, none, look2, ctx, resolver, target, s4);
    let s5 = left(c2, s4);
    let c3 = image_mask_commands(clips.images@, ctx, resolver, target);
    lemma_image_masks(clips.images@, ctx, resolver, target, s5);
    lemma_parts(mark, c0, s);
    lemma_parts(mark + c0, c1, s);
    lemma_parts(mark + c0 + c1, mul, s);
    lemma_parts(mark + c0 + c1 + mul, c2, s);
    lemma_parts(mark + c0 + c1 + mul + c2, c3, s);
    assert(c == mark + c0 + c1 + mul + c2 + c3);
    let r = (added(c0, s1), added(c1, s2), added(c2, s4), added(c3, s5));
    assert(added(c, s) =~= r.0 + r.1 + r.2 + r.3);
    r
}

/// What starts a target out: all of it, or where asked for what is used of it, is cleared to
/// one color, and to the farthest depth where it has one.
pub open spec fn clears_target(
    effect: Effect,
    color: Option<ColorF>,
    depth: bool,
    rect: Option<IntRect>,
    target: TargetContext,
) -> bool {
    effect matches Effect::Clear { settings, color: c, depth: d, rect: r } && {
        &&& c == color
        &&& d == depth
        &&& r == rect
        &&& settings.canvas == Canvas::Target(target.render_target)
        &&& d ==> settings.depth_write
    }
}

/// A color target is cleared before anything is drawn to it: with its depth, and only where
/// it is used if it is a texture and clears are confined to that.
pub proof fn color_targets_start_cleared(
    used_rect: IntRect,
    clear_color: Option<ColorF>,
    ctx: DrawContext,
    target: TargetContext,
    s: Settings,
)
    ensures
        ({
            let c = color_setup_commands(used_rect, clear_color, ctx, target);
            let t = left(c, s);
            &&& added(c, s).len() == 1
            &&& clears_target(
                added(c, s)[0],
                clear_color,
                true,
                if target.render_target is Some && ctx.enable_clear_scissor {
                    Some(used_rect)
                } else {
                    None
                },
                target,
            )
            &&& t.canvas == Canvas::Target(target.render_target)
            &&& !t.depth
            &&& !t.depth_write
            &&& !t.blend
        }),
{
    reveal(added);
    reveal(left);
    reveal_with_fuel(run_to, 8);
}

proof fn lemma_alpha_blend(tag: GpuTag, shader: Shader, target: TargetContext, s: Settings)
    ensures
        ({
            let c = alpha_blend() + seq![
                DrawCommand::Marker(tag),
                DrawCommand::BindShader { shader, projection: target.projection, mode: 0 },
            ];
            &&& added(c, s) == Seq::<Effect>::empty()
            &&& left(c, s) == (Settings {
                blend: true,
                func: Some(BlendFunc::PremultipliedAlpha),
                tag: Some(tag),
                shader: Some(shader),
                projection: target.projection,
                mode: 0,
                ..s
            })
        }),
{
    reveal(added);
    reveal(left);
    reveal_with_fuel(run_to, 5);
}

/// Text and lines that are only blurred later are blended by their alpha.
pub open spec fn cached_look(shader: Shader) -> Look {
    plain_look(shader, VertexArrayKind::Primitive, Some(BlendFunc::PremultipliedAlpha))
}

proof fn lemma_cached_text(
    prims: Seq<(SourceTexture, InstanceRange)>,
    ctx: DrawContext,
    resolver: SourceTextureResolver,
    target: TargetContext,
    s: Settings,
)
    requires
        forall|i: int|
            0 <= i < prims.len() ==> range_ok((#[trigger] prims[i]).1) && resolver.can_bind(
                prims[i].0,
            ),
        s.canvas == Canvas::Target(target.render_target),
        s.shader == Some(Shader::CsTextRun),
        s.projection == target.projection,
        s.mode == 0,
        s.blend,
        s.func == Some(BlendFunc::PremultipliedAlpha),
    ensures
        ({
            let c = cached_text_draws(prims, ctx, resolver);
            &&& draws_groups(
                added(c, s),
                prims,
                cached_look(Shader::CsTextRun),
                ctx,
                resolver,
                target,
            )
            &&& kept(left(c, s), s)
        }),
    decreases prims.len(),
{
    let c = cached_text_draws(prims, ctx, resolver);
    if prims.len() == 0 {
        lemma_nothing(s);
    } else {
        let rest = prims.drop_last();
        let last = prims.last();
        assert(range_ok(prims[prims.len() - 1].1));
        assert forall|i: int| 0 <= i < rest.len() implies range_ok((#[trigger] rest[i]).1)
            && resolver.can_bind(rest[i].0) by {
            assert(rest[i] == prims[i]);
        }
        let most = cached_text_draws(rest, ctx, resolver);
        lemma_cached_text(rest, ctx, resolver, target, s);
        let look = Look { texture: last.0, ..cached_look(Shader::CsTextRun) };
        let draw = instanced_commands(
            ctx,
            resolver,
            last.1,
            VertexArrayKind::Primitive,
            BatchTextures::spec_color(last.0),
        );
        let t = left(most, s);
        lemma_drawn(last.1, look, ctx, resolver, target, t);
        lemma_parts(most, draw, s);
        assert(c == most + draw);
        let log = added(c, s);
        let n = added(most, s).len() as int;
        assert(log.take(n) =~= added(most, s));
        assert(log.skip(n) =~= added(draw, t));
    }
}

/// What is only blurred later is drawn, blended by its alpha: first text, by texture, and
/// then lines.
pub proof fn cached_primitives_are_drawn(
    t: ColorRenderTarget,
    ctx: DrawContext,
    resolver: SourceTextureResolver,
    target: TargetContext,
    s: Settings,
) -> (r: (Seq<Effect>, Seq<Effect>))
    requires
        range_ok(t.line_cache_prims),
        forall|i: int|
            0 <= i < t.text_run_cache_prims@.len() ==> range_ok(
                (#[trigger] t.text_run_cache_prims@[i]).1,
            ) && resolver.can_bind(t.text_run_cache_prims@[i].0),
        s.canvas == Canvas::Target(target.render_target),
    ensures
        ({
            let c = cached_prim_commands(t, ctx, resolver, target.projection);
            &&& added(c, s) == r.0 + r.1
            &&& draws_groups(
                r.0,
                t.text_run_cache_prims@,
                cached_look(Shader::CsTextRun),
                ctx,
                resolver,
                target,
            )
            &&& draws_any(
                r.1,
                t.line_cache_prims,
                cached_look(Shader::CsLine),
                ctx,
                resolver,
                target,
            )
            &&& left(c, s).canvas == s.canvas
        }),
{
    let c = cached_prim_commands(t, ctx, resolver, target.projection);
    let prims = t.text_run_cache_prims@;
    let bind_text = alpha_blend() + seq![
        DrawCommand::Marker(GpuTag::CacheTextRun),
        DrawCommand::BindShader {
            shader: Shader::CsTextRun,
            projection: target.projection,
            mode: 0,
        },
    ];
    let bind_line = alpha_blend() + seq![
        DrawCommand::Marker(GpuTag::CacheLine),
        DrawCommand::BindShader { shader: Shader::CsLine, projection: target.projection, mode: 0 },
    ];
    let text = if prims.len() == 0 {
        Seq::<DrawCommand>::empty()
    } else {
        bind_text + cached_text_draws(prims, ctx, resolver)
    };
    if prims.len() == 0 {
        lemma_nothing(s);
    } else {
        lemma_alpha_blend(GpuTag::CacheTextRun, Shader::CsTextRun, target, s);
        lemma_cached_text(prims, ctx, resolver, target, left(bind_text, s));
        lemma_parts(bind_text, cached_text_draws(prims, ctx, resolver), s);
        assert(added(text, s) =~= added(
            cached_text_draws(prims, ctx, resolver),
            left(bind_text, s),
        ));
    }
    let s1 = left(text, s);
    let draw = instanced_commands(
        ctx,
        resolver,
        t.line_cache_prims,
        VertexArrayKind::Primitive,
        BatchTextures::spec_no_texture(),
    );
    let line = if t.line_cache_prims.count == 0 {
        Seq::<DrawCommand>::empty()
    } else {
        bind_line + draw
    };
    if t.line_cache_prims.count == 0 {
        lemma_nothing(s1);
    } else {
        lemma_alpha_blend(GpuTag::CacheLine, Shader::CsLine, target, s1);
        assert(BatchTextures::spec_color(SourceTexture::Invalid)
            == BatchTextures::spec_no_texture());
        lemma_drawn(
            t.line_cache_prims,
            cached_look(Shader::CsLine),
            ctx,
            resolver,
            target,
            left(bind_line, s1),
        );
        lemma_parts(bind_line, draw, s1);
        assert(added(line, s1) =~= added(draw, left(bind_line, s1)));
    }
    lemma_parts(text, line, s);
    assert(c == text + line);
    (added(text, s), added(line, s1))
}

/// What is drawn to a target with colors, by kind and in the order in which it is drawn.
pub struct ColorLog {
    pub clear: Effect,
    pub vertical: Seq<Effect>,
    pub horizontal: Seq<Effect>,
    pub copies: Seq<Effect>,
    pub text: Seq<Effect>,
    pub lines: Seq<Effect>,
    pub batches: Seq<Effect>,
    pub outputs: Seq<Effect>,
    /// The number of effects that draw opaque batches, and the settings of the two passes.
    pub opaque: int,
    pub opaque_pass: Settings,
    pub blended_pass: Settings,
}

/// The effects copy tasks to textures of the embedder, for each request that has one.
pub open spec fn copies_outputs(
    log: Seq<Effect>,
    requests: Seq<OutputRequest>,
    tasks: Seq<DrawTask>,
    target: TargetContext,
) -> bool
    decreases requests.len(),
{
    if requests.len() == 0 {
        log.len() == 0
    } else {
        match requests.last().reply {
            None => copies_outputs(log, requests.drop_last(), tasks, target),
            Some(reply) => {
                &&& log.len() > 0
                &&& copies_outputs(log.drop_last(), requests.drop_last(), tasks, target)
                &&& log.last() matches Effect::Blit { settings, src, dest } && {
                    &&& settings.read_from == Some(target.render_target)
                    &&& settings.canvas == Canvas::External(reply.texture)
                    &&& src == tasks[requests.last().task_id as int].rect
                    &&& dest.x == 0
                    &&& dest.y == 0
                    &&& dest.width == reply.width
                    &&& dest.height == reply.height
                }
            },
        }
    }
}

/// Each output that the embedder has a texture for is copied to it, whole.
pub proof fn outputs_are_copied(
    requests: Seq<OutputRequest>,
    outputs: Seq<FrameOutput>,
    frame: FrameId,
    tasks: Seq<DrawTask>,
    target: TargetContext,
    s: Settings,
)
    ensures
        copies_outputs(
            added(outputs_commands(requests, outputs, frame, tasks, target), s),
            requests,
            tasks,
            target,
        ),
    decreases requests.len(),
{
    let c = outputs_commands(requests, outputs, frame, tasks, target);
    if requests.len() == 0 {
        lemma_nothing(s);
    } else {
        let rest = requests.drop_last();
        let most = outputs_commands(rest, outputs, frame, tasks, target);
        outputs_are_copied(rest, outputs, frame, tasks, target, s);
        let known = outputs_after(rest, outputs, frame);
        let own = output_commands(requests.last(), known, tasks, target);
        let t = left(most, s);
        lemma_parts(most, own, s);
        lemma_output(requests.last(), known, tasks, target, t);
        let log = added(c, s);
        if requests.last().reply is Some {
            assert(log.drop_last() =~= added(most, s));
        } else {
            assert(log =~= added(most, s));
        }
    }
}

proof fn lemma_output(
    request: OutputRequest,
    outputs: Seq<FrameOutput>,
    tasks: Seq<DrawTask>,
    target: TargetContext,
    s: Settings,
)
    ensures
        ({
            let log = added(output_commands(request, outputs, tasks, target), s);
            match request.reply {
                None => log.len() == 0,
                Some(reply) => log.len() == 1 && (log[0] matches Effect::Blit {
                    settings,
                    src,
                    dest,
                } && {
                    &&& settings.read_from == Some(target.render_target)
                    &&& settings.canvas == Canvas::External(reply.texture)
                    &&& src == tasks[request.task_id as int].rect
                    &&& dest == (IntRect { x: 0, y: 0, width: reply.width, height: reply.height })
                }),
            }
        }),
{
    reveal(added);
    reveal(left);
    reveal_with_fuel(run_to, 6);
}

/// A target with colors is cleared first. Then its blurs are drawn and its scaled copies
/// are made, from the color targets of the pass before, then what is only blurred later,
/// the opaque batches, those with blending, and at last it is copied to the textures of the
/// embedder. Nothing else is drawn.
#[verifier::spinoff_prover]
#[verifier::rlimit(60)]
pub proof fn color_targets_are_drawn(
    t: ColorRenderTarget,
    clear_color: Option<ColorF>,
    outputs: Seq<FrameOutput>,
    frame: FrameId,
    ctx: DrawContext,
    resolver: SourceTextureResolver,
    tasks: Seq<DrawTask>,
    target: TargetContext,
    s: Settings,
) -> (r: ColorLog)
    requires
        color_target_ok(t, ctx, resolver, tasks, target),
    ensures
        ({
            let c = color_target_commands(
                t,
                clear_color,
                outputs,
                frame,
                ctx,
                resolver,
                tasks,
                target,
            );
            let blur = plain_look(Shader::CsBlurRgba8, VertexArrayKind::Blur, None);
            &&& added(c, s) == seq![r.clear] + (r.vertical + r.horizontal) + r.copies + (r.text
                + r.lines) + r.batches + r.outputs
            &&& clears_target(
                r.clear,
                clear_color,
                true,
                if target.render_target is Some && ctx.enable_clear_scissor {
                    Some(t.used_rect)
                } else {
                    None
                },
                target,
            )
            &&& draws_any(r.vertical, t.vertical_blurs, blur, ctx, resolver, target)
            &&& draws_any(r.horizontal, t.horizontal_blurs, blur, ctx, resolver, target)
            &&& copies_tasks(
                r.copies,
                t.scalings@,
                tasks,
                resolver.spec_bind(SourceTexture::CacheRGBA8)->Texture_0,
                target,
            )
            &&& draws_groups(
                r.text,
                t.text_run_cache_prims@,
                cached_look(Shader::CsTextRun),
                ctx,
                resolver,
                target,
            )
            &&& draws_any(
                r.lines,
                t.line_cache_prims,
                cached_look(Shader::CsLine),
                ctx,
                resolver,
                target,
            )
            &&& 0 <= r.opaque <= r.batches.len()
            &&& r.opaque_pass.depth && r.opaque_pass.depth_write
            &&& r.blended_pass.depth && !r.blended_pass.depth_write
            &&& draws_opaque(
                r.batches.take(r.opaque),
                r.opaque_pass,
                t.opaque_batches@,
                ctx,
                resolver,
                tasks,
                target,
            )
            &&& draws_alpha(
                r.batches.skip(r.opaque),
                r.blended_pass,
                t.alpha_batches@,
                ctx,
                resolver,
                tasks,
                target,
            )
            &&& copies_outputs(r.outputs, t.outputs@, tasks, target)
        }),
{
    let texture = resolver.spec_bind(SourceTexture::CacheRGBA8)->Texture_0;
    let c0 = color_setup_commands(t.used_rect, clear_color, ctx, target);
    let c1 = blur_commands(
        t.vertical_blurs,
        t.horizontal_blurs,
        Shader::CsBlurRgba8,
        ctx,
        resolver,
        target.projection,
    );
    let c2 = scaling_commands(t.scalings@, tasks, texture);
    let c3 = cached_prim_commands(t, ctx, resolver, target.projection);
    let c4 = batches_commands(t, ctx, resolver, tasks, target);
    let c5 = outputs_commands(t.outputs@, outputs, frame, tasks, target);
    color_targets_start_cleared(t.used_rect, clear_color, ctx, target, s);
    let s1 = left(c0, s);
    let (vertical, horizontal) = blurs_are_drawn(
        t.vertical_blurs,
        t.horizontal_blurs,
        Shader::CsBlurRgba8,
        ctx,
        resolver,
        target,
        s1,
    );
    let s2 = left(c1, s1);
    scalings_are_copied(t.scalings@, tasks, texture, target, s2);
    let s3 = left(c2, s2);
    let (text, lines) = cached_primitives_are_drawn(t, ctx, resolver, target, s3);
    let s4 = left(c3, s3);
    let (opaque, opaque_pass, blended_pass) = batches_are_drawn_in_order(
        t,
        ctx,
        resolver,
        tasks,
        target,
        s4,
    );
    let s5 = left(c4, s4);
    outputs_are_copied(t.outputs@, outputs, frame, tasks, target, s5);
    lemma_parts(c0, c1, s);
    lemma_parts(c0 + c1, c2, s);
    lemma_parts(c0 + c1 + c2, c3, s);
    lemma_parts(c0 + c1 + c2 + c3, c4, s);
    lemma_parts(c0 + c1 + c2 + c3 + c4, c5, s);
    let clear = added(c0, s)[0];
    assert(added(c0, s) =~= seq![clear]);
    ColorLog {
        clear,
        vertical,
        horizontal,
        copies: added(c2, s2),
        text,
        lines,
        batches: added(c4, s4),
        outputs: added(c5, s5),
        opaque,
        opaque_pass,
        blended_pass,
    }
}

proof fn lemma_zero_clears(clears: Seq<usize>, tasks: Seq<DrawTask>, target: TargetContext, s: Settings)
    requires
        s.canvas == Canvas::Target(target.render_target),
    ensures
        zeroes_tasks(added(zero_clear_commands(clears, tasks), s), clears, tasks, target),
        left(zero_clear_commands(clears, tasks), s) == s,
    decreases clears.len(),
{
    let c = zero_clear_commands(clears, tasks);
    if clears.len() == 0 {
        lemma_nothing(s);
        assert(c =~= Seq::<DrawCommand>::empty());
    } else {
        let rest = clears.drop_last();
        let most = zero_clear_commands(rest, tasks);
        lemma_zero_clears(rest, tasks, target, s);
        let one = seq![c.last()];
        lemma_parts(most, one, s);
        assert(c =~= most + one);
        assert(added(one, s).len() == 1 && added(one, s)[0] == (Effect::Clear {
            settings: s,
            color: Some(ColorF::spec_transparent()),
            depth: false,
            rect: Some(tasks[clears.last() as int].rect),
        }) && left(one, s) == s) by {
            reveal(added);
            reveal(left);
            reveal_with_fuel(run_to, 2);
        }
        let log = added(c, s);
        assert forall|i: int| 0 <= i < log.len() implies #[trigger] zeroes(
            log[i],
            tasks[clears[i] as int].rect,
            target,
        ) by {
            if i < rest.len() {
                assert(zeroes(added(most, s)[i], tasks[rest[i] as int].rect, target));
            }
        }
    }
}

/// The effect clears a part of the target to nothing.
pub open spec fn zeroes(effect: Effect, rect: IntRect, target: TargetContext) -> bool {
    effect matches Effect::Clear { settings, color: Some(color), depth: false, rect: Some(r) } && {
        &&& r == rect
        &&& settings.canvas == Canvas::Target(target.render_target)
        &&& color.r.0 == 0
        &&& color.g.0 == 0
        &&& color.b.0 == 0
        &&& color.a.0 == 0
    }
}

/// The effects clear tasks to nothing, each where it is.
pub open spec fn zeroes_tasks(
    log: Seq<Effect>,
    clears: Seq<usize>,
    tasks: Seq<DrawTask>,
    target: TargetContext,
) -> bool {
    &&& log.len() == clears.len()
    &&& forall|i: int|
        0 <= i < log.len() ==> #[trigger] zeroes(log[i], tasks[clears[i] as int].rect, target)
}

/// A target with only alpha starts out letting everything through where it is used, but for
/// the tasks that start out empty. Depth is neither tested nor written.
pub proof fn alpha_targets_start_cleared(
    t: AlphaRenderTarget,
    tasks: Seq<DrawTask>,
    target: TargetContext,
    s: Settings,
)
    ensures
        ({
            let c = alpha_setup_commands(t, tasks, target);
            let log = added(c, s);
            let u = left(c, s);
            &&& log.len() == 1 + t.zero_clears@.len()
            &&& log[0] matches Effect::Clear { settings, color: Some(color), depth: false, rect }
                && {
                &&& rect == Some(t.used_rect)
                &&& settings.canvas == Canvas::Target(target.render_target)
                &&& color.r.0 == 0x3F80_0000
                &&& color.g.0 == 0x3F80_0000
                &&& color.b.0 == 0x3F80_0000
            }
            &&& zeroes_tasks(log.skip(1), t.zero_clears@, tasks, target)
            &&& u.canvas == Canvas::Target(target.render_target)
            &&& !u.depth
            &&& !u.depth_write
        }),
{
    let first = seq![
        DrawCommand::AddSampler(GpuSampler::AlphaTargets),
        DrawCommand::Marker(GpuTag::SetupTarget),
        DrawCommand::BindDrawTarget {
            target: target.render_target,
            width: target.width,
            height: target.height,
        },
        DrawCommand::Depth(false),
        DrawCommand::DepthWrite(false),
        DrawCommand::ClearTargetRect { color: Some(one_color()), depth: false, rect: t.used_rect },
    ];
    let u = Settings {
        tag: Some(GpuTag::SetupTarget),
        canvas: Canvas::Target(target.render_target),
        depth: false,
        depth_write: false,
        ..s
    };
    assert(added(first, s).len() == 1 && left(first, s) == u && added(first, s)[0] == (
    Effect::Clear {
        settings: u,
        color: Some(one_color()),
        depth: false,
        rect: Some(t.used_rect),
    })) by {
        reveal(added);
        reveal(left);
        reveal_with_fuel(run_to, 7);
    }
    let zero = zero_clear_commands(t.zero_clears@, tasks);
    lemma_zero_clears(t.zero_clears@, tasks, target, u);
    lemma_parts(first, zero, s);
    let c = alpha_setup_commands(t, tasks, target);
    assert(c == first + zero);
    assert(added(c, s).skip(1) =~= added(zero, u));
}

/// What is drawn to a target with only alpha, in the order in which it is drawn.
pub struct AlphaLog {
    pub clears: Seq<Effect>,
    pub vertical: Seq<Effect>,
    pub horizontal: Seq<Effect>,
    pub copies: Seq<Effect>,
    pub corners: Seq<Effect>,
    pub rounded: Seq<Effect>,
    pub border_clears: Seq<Effect>,
    pub borders: Seq<Effect>,
    pub rectangles: Seq<Effect>,
    pub images: Seq<Effect>,
}

/// A target with only alpha is cleared first. Then its blurs are drawn and its scaled copies
/// are made, from the alpha targets of the pass before, then the masks of brushes
/// without blending, and at last the clips, which are multiplied. Nothing else is drawn.
#[verifier::spinoff_prover]
#[verifier::rlimit(60)]
pub proof fn alpha_targets_are_drawn(
    t: AlphaRenderTarget,
    ctx: DrawContext,
    resolver: SourceTextureResolver,
    tasks: Seq<DrawTask>,
    target: TargetContext,
    s: Settings,
) -> (r: AlphaLog)
    requires
        alpha_target_ok(t, resolver, tasks),
    ensures
        ({
            let c = alpha_target_commands(t, ctx, resolver, tasks, target);
            let blur = plain_look(Shader::CsBlurA8, VertexArrayKind::Blur, None);
            let prim = VertexArrayKind::Primitive;
            let clip = VertexArrayKind::Clip;
            let clips = t.clip_batcher;
            &&& added(c, s) == r.clears + (r.vertical + r.horizontal) + r.copies + r.corners
                + r.rounded + (r.border_clears + r.borders + r.rectangles + r.images)
            &&& r.clears.len() == 1 + t.zero_clears@.len()
            &&& r.clears[0] is Clear
            &&& zeroes_tasks(r.clears.skip(1), t.zero_clears@, tasks, target)
            &&& draws_any(r.vertical, t.vertical_blurs, blur, ctx, resolver, target)
            &&& draws_any(r.horizontal, t.horizontal_blurs, blur, ctx, resolver, target)
            &&& copies_tasks(
                r.copies,
                t.scalings@,
                tasks,
                resolver.spec_bind(SourceTexture::CacheA8)->Texture_0,
                target,
            )
            &&& draws_any(
                r.corners,
                t.brush_mask_corners,
                plain_look(Shader::BrushMaskCorner, prim, None),
                ctx,
                resolver,
                target,
            )
            &&& draws_any(
                r.rounded,
                t.brush_mask_rounded_rects,
                plain_look(Shader::BrushMaskRoundedRect, prim, None),
                ctx,
                resolver,
                target,
            )
            &&& draws_any(
                r.border_clears,
                clips.border_clears,
                plain_look(Shader::CsClipBorder, clip, None),
                ctx,
                resolver,
                target,
            )
            &&& draws_any(
                r.borders,
                clips.borders,
                plain_look(Shader::CsClipBorder, clip, Some(BlendFunc::Max)),
                ctx,
                resolver,
                target,
            )
            &&& draws_any(
                r.rectangles,
                clips.rectangles,
                plain_look(Shader::CsClipRectangle, clip, Some(BlendFunc::Multiply)),
                ctx,
                resolver,
                target,
            )
            &&& draws_groups(r.images, clips.images@, image_mask_look(), ctx, resolver, target)
        }),
{
    let texture = resolver.spec_bind(SourceTexture::CacheA8)->Texture_0;
    let prim = VertexArrayKind::Primitive;
    let c0 = alpha_setup_commands(t, tasks, target);
    let c1 = blur_commands(
        t.vertical_blurs,
        t.horizontal_blurs,
        Shader::CsBlurA8,
        ctx,
        resolver,
        target.projection,
    );
    let c2 = scaling_commands(t.scalings@, tasks, texture);
    let c3 = shader_commands(
        t.brush_mask_corners,
        mask_setup(),
        Shader::BrushMaskCorner,
        prim,
        ctx,
        resolver,
        target,
    );
    let c4 = shader_commands(
        t.brush_mask_rounded_rects,
        mask_setup(),
        Shader::BrushMaskRoundedRect,
        prim,
        ctx,
        resolver,
        target,
    );
    let c5 = clip_commands(t.clip_batcher, ctx, resolver, target);
    let c6 = seq![DrawCommand::DoneSampler];
    alpha_targets_start_cleared(t, tasks, target, s);
    let s1 = left(c0, s);
    let (vertical, horizontal) = blurs_are_drawn(
        t.vertical_blurs,
        t.horizontal_blurs,
        Shader::CsBlurA8,
        ctx,
        resolver,
        target,
        s1,
    );
    let s2 = left(c1, s1);
    scalings_are_copied(t.scalings@, tasks, texture, target, s2);
    let s3 = left(c2, s2);
    lemma_mask_setup(s3);
    lemma_shader_commands(
        t.brush_mask_corners,
        mask_setup(),
        plain_look(Shader::BrushMaskCorner, prim, None),
        ctx,
        resolver,
        target,
        s3,
    );
    let s4 = left(c3, s3);
    lemma_mask_setup(s4);
    lemma_shader_commands(
        t.brush_mask_rounded_rects,
        mask_setup(),
        plain_look(Shader::BrushMaskRoundedRect, prim, None),
        ctx,
        resolver,
        target,
        s4,
    );
    let s5 = left(c4, s4);
    let (border_clears, borders, rectangles, images) = clips_are_multiplied(
        t.clip_batcher,
        ctx,
        resolver,
        target,
        s5,
    );
    let s6 = left(c5, s5);
    assert(added(c6, s6) == Seq::<Effect>::empty()) by {
        reveal(added);
        reveal_with_fuel(run_to, 2);
    }
    lemma_parts(c0, c1, s);
    lemma_parts(c0 + c1, c2, s);
    lemma_parts(c0 + c1 + c2, c3, s);
    lemma_parts(c0 + c1 + c2 + c3, c4, s);
    lemma_parts(c0 + c1 + c2 + c3 + c4, c5, s);
    lemma_parts(c0 + c1 + c2 + c3 + c4 + c5, c6, s);
    let r = AlphaLog {
        clears: added(c0, s),
        vertical,
        horizontal,
        copies: added(c2, s2),
        corners: added(c3, s3),
        rounded: added(c4, s4),
        border_clears,
        borders,
        rectangles,
        images,
    };
    let c = alpha_target_commands(t, ctx, resolver, tasks, target);
    assert(c == c0 + c1 + c2 + c3 + c4 + c5 + c6);
    let all = r.clears + (vertical + horizontal) + r.copies + r.corners + r.rounded + (
    border_clears + borders + rectangles + images);
    assert(all + Seq::<Effect>::empty() =~= all);
    assert(added(c, s) == all);
    r
}

proof fn lemma_mask_setup(s: Settings)
    ensures
        added(mask_setup(), s) == Seq::<Effect>::empty(),
        left(mask_setup(), s) == (Settings { blend: false, tag: Some(GpuTag::BrushMask), ..s }),
{
    reveal(added);
    reveal(left);
    reveal_with_fuel(run_to, 3);
}

} // verus!
