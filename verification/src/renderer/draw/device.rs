//! What commands do to a device, and what they make it draw.

use crate::internal_types::ColorF;
use crate::renderer::commands::{
    BatchTextures, BlendFunc, DrawCommand, DrawTarget, GpuTag, InstanceRange, IntRect,
    OrthoProjection, PrimShader, Shader, TextureSampler, VertexArrayKind,
};
use crate::renderer::draw::{
    bind_command, dither_command, instanced_commands, readback_commands, single_draws,
    spec_yuv_shader_index, submit_commands, submit_ok, texture_commands, BatchKey, BatchKind,
    BlendMode, BrushBatchKind, DrawContext, DrawTask, TargetContext, TransformBatchKind,
};
use crate::renderer::textures::{Binding, SourceTexture, SourceTextureResolver};
use vstd::prelude::*;

verus! {

/// Where the device draws to: a layer of a texture or the screen, or a texture of the
/// embedder.
pub enum Canvas {
    Unknown,
    Target(DrawTarget),
    External(u32),
}

/// The settings of the device that a draw call goes by.
pub struct Settings {
    pub shader: Option<Shader>,
    pub projection: OrthoProjection,
    pub mode: i32,
    pub canvas: Canvas,
    pub read_from: Option<DrawTarget>,
    pub blend: bool,
    pub func: Option<BlendFunc>,
    pub depth: bool,
    pub depth_write: bool,
    pub vao: Option<VertexArrayKind>,
    pub color0: Option<Binding>,
    pub color1: Option<Binding>,
    pub color2: Option<Binding>,
    pub dither: Option<Binding>,
    pub uploaded: InstanceRange,
    pub tag: Option<GpuTag>,
}

/// Something that changes pixels, with the settings that it goes by.
pub enum Effect {
    Draw { settings: Settings, instances: InstanceRange },
    /// The instances that are uploaded are drawn once more.
    DrawAgain { settings: Settings, count: usize },
    Clear { settings: Settings, color: Option<ColorF>, depth: bool, rect: Option<IntRect> },
    Blit { settings: Settings, src: IntRect, dest: IntRect },
}

/// A device: its settings, and what it has done.
pub struct Device {
    pub settings: Settings,
    pub log: Seq<Effect>,
}

/// The settings after a command.
pub open spec fn settings_after(s: Settings, command: DrawCommand) -> Settings {
    match command {
        DrawCommand::Marker(tag) => Settings { tag: Some(tag), ..s },
        DrawCommand::BindDrawTarget { target, .. } => Settings {
            canvas: Canvas::Target(target),
            ..s
        },
        DrawCommand::BindExternalDrawTarget { texture } => Settings {
            canvas: Canvas::External(texture),
            ..s
        },
        DrawCommand::BindReadTarget { target } => Settings { read_from: Some(target), ..s },
        DrawCommand::Depth(on) => Settings { depth: on, ..s },
        DrawCommand::DepthWrite(on) => Settings { depth_write: on, ..s },
        DrawCommand::SetBlend(on) => Settings { blend: on, ..s },
        DrawCommand::SetBlendFunc(func) => Settings { func: Some(func), ..s },
        DrawCommand::BindShader { shader, projection, mode } => Settings {
            shader: Some(shader),
            projection,
            mode,
            ..s
        },
        DrawCommand::BindTexture { sampler: TextureSampler::Color0, binding } => Settings {
            color0: Some(binding),
            ..s
        },
        DrawCommand::BindTexture { sampler: TextureSampler::Color1, binding } => Settings {
            color1: Some(binding),
            ..s
        },
        DrawCommand::BindTexture { sampler: TextureSampler::Color2, binding } => Settings {
            color2: Some(binding),
            ..s
        },
        DrawCommand::BindTexture { sampler: TextureSampler::Dither, binding } => Settings {
            dither: Some(binding),
            ..s
        },
        DrawCommand::BindVao(kind) => Settings { vao: Some(kind), ..s },
        DrawCommand::UploadInstances(range) => Settings { uploaded: range, ..s },
        _ => s,
    }
}

/// What a command does to pixels.
pub open spec fn effect_of(s: Settings, command: DrawCommand) -> Option<Effect> {
    match command {
        DrawCommand::DrawInstanced { count } => Some(
            Effect::Draw {
                settings: s,
                instances: InstanceRange { first: s.uploaded.first, count },
            },
        ),
        DrawCommand::DrawOne => Some(
            Effect::Draw {
                settings: s,
                instances: InstanceRange { first: s.uploaded.first, count: 1 },
            },
        ),
        DrawCommand::DrawAgain { count } => Some(Effect::DrawAgain { settings: s, count }),
        DrawCommand::ClearTarget { color, depth } => Some(
            Effect::Clear { settings: s, color, depth, rect: None },
        ),
        DrawCommand::ClearTargetRect { color, depth, rect } => Some(
            Effect::Clear { settings: s, color, depth, rect: Some(rect) },
        ),
        DrawCommand::Blit { src, dest } => Some(Effect::Blit { settings: s, src, dest }),
        _ => None,
    }
}

/// The device after one command more.
pub open spec fn stepped(d: Device, command: DrawCommand) -> Device {
    Device {
        settings: settings_after(d.settings, command),
        log: match effect_of(d.settings, command) {
            Some(effect) => d.log.push(effect),
            None => d.log,
        },
    }
}

/// The device after the first `n` commands.
pub open spec fn run_to(commands: Seq<DrawCommand>, d: Device, n: int) -> Device
    decreases n,
{
    if n <= 0 {
        d
    } else {
        stepped(run_to(commands, d, n - 1), commands[n - 1])
    }
}

/// The device after commands.
pub open spec fn run(commands: Seq<DrawCommand>, d: Device) -> Device {
    run_to(commands, d, commands.len() as int)
}

proof fn lemma_run_prefix(a: Seq<DrawCommand>, b: Seq<DrawCommand>, d: Device, n: int)
    requires
        0 <= n <= a.len(),
        n <= b.len(),
        forall|i: int| 0 <= i < n ==> a[i] == b[i],
    ensures
        run_to(a, d, n) == run_to(b, d, n),
    decreases n,
{
    if n > 0 {
        lemma_run_prefix(a, b, d, n - 1);
    }
}

proof fn lemma_run_on(a: Seq<DrawCommand>, b: Seq<DrawCommand>, d: Device, k: int)
    requires
        0 <= k <= b.len(),
    ensures
        run_to(a + b, d, a.len() + k) == run_to(b, run(a, d), k),
    decreases k,
{
    if k > 0 {
        lemma_run_on(a, b, d, k - 1);
        assert((a + b)[a.len() + k - 1] == b[k - 1]);
    } else {
        lemma_run_prefix(a + b, a, d, a.len() as int);
    }
}

/// Commands that follow others go on from what those leave behind.
pub proof fn lemma_run_parts(a: Seq<DrawCommand>, b: Seq<DrawCommand>, d: Device)
    ensures
        run(a + b, d) == run(b, run(a, d)),
{
    lemma_run_on(a, b, d, b.len() as int);
}

proof fn lemma_log_grows_to(commands: Seq<DrawCommand>, d: Device, n: int)
    requires
        0 <= n <= commands.len(),
    ensures
        ({
            let e = run_to(commands, Device { settings: d.settings, log: Seq::empty() }, n);
            &&& run_to(commands, d, n).settings == e.settings
            &&& run_to(commands, d, n).log == d.log + e.log
        }),
    decreases n,
{
    let e = Device { settings: d.settings, log: Seq::<Effect>::empty() };
    if n > 0 {
        lemma_log_grows_to(commands, d, n - 1);
    }
    assert(run_to(commands, d, n).log =~= d.log + run_to(commands, e, n).log);
}

/// What commands do: the part of the log that they add.
#[verifier::opaque]
pub open spec fn added(commands: Seq<DrawCommand>, settings: Settings) -> Seq<Effect> {
    run(commands, Device { settings, log: Seq::empty() }).log
}

/// The settings that commands leave behind.
#[verifier::opaque]
pub open spec fn left(commands: Seq<DrawCommand>, settings: Settings) -> Settings {
    run(commands, Device { settings, log: Seq::empty() }).settings
}

/// What commands do depends on the settings alone.
pub proof fn lemma_log_grows(commands: Seq<DrawCommand>, d: Device)
    ensures
        run(commands, d).log == d.log + added(commands, d.settings),
        run(commands, d).settings == left(commands, d.settings),
{
    reveal(added);
    reveal(left);
    lemma_log_grows_to(commands, d, commands.len() as int);
}

/// Commands one after the other do what each of them does.
pub proof fn lemma_parts(a: Seq<DrawCommand>, b: Seq<DrawCommand>, s: Settings)
    ensures
        added(a + b, s) == added(a, s) + added(b, left(a, s)),
        left(a + b, s) == left(b, left(a, s)),
{
    reveal(added);
    reveal(left);
    let d = Device { settings: s, log: Seq::empty() };
    lemma_run_parts(a, b, d);
    lemma_log_grows(b, run(a, d));
}

/// The settings in which a batch is drawn: those of before, but for what is bound.
pub open spec fn same_but_bound(a: Settings, b: Settings) -> bool {
    a == (Settings {
        color0: a.color0,
        color1: a.color1,
        color2: a.color2,
        dither: a.dither,
        vao: a.vao,
        uploaded: a.uploaded,
        ..b
    })
}

/// The sampler reads a source, or is left alone by one that is invalid.
pub open spec fn reads(
    bound: Option<Binding>,
    before: Option<Binding>,
    resolver: SourceTextureResolver,
    source: SourceTexture,
) -> bool {
    if source is Invalid {
        bound == before
    } else {
        bound == Some(resolver.spec_bind(source))
    }
}

/// The samplers read the textures of a batch, and the dither pattern where there is one.
pub open spec fn reads_textures(
    s: Settings,
    before: Settings,
    ctx: DrawContext,
    resolver: SourceTextureResolver,
    textures: BatchTextures,
) -> bool {
    &&& reads(s.color0, before.color0, resolver, textures.color0)
    &&& reads(s.color1, before.color1, resolver, textures.color1)
    &&& reads(s.color2, before.color2, resolver, textures.color2)
    &&& s.dither == match ctx.dither_matrix_texture {
        Some(texture) => Some(Binding::Texture(texture)),
        None => before.dither,
    }
}

/// The effects are draw calls for instances, all of them once and in order: in one call
/// where batches are drawn at once, else in a call for each.
pub open spec fn draws_instances(log: Seq<Effect>, data: InstanceRange, at_once: bool) -> bool {
    &&& log.len() == if at_once {
        1
    } else {
        data.count as int
    }
    &&& forall|i: int|
        0 <= i < log.len() ==> (#[trigger] log[i] matches Effect::Draw { instances, .. }
            && instances == if at_once {
            data
        } else {
            InstanceRange { first: (data.first + i) as usize, count: 1 }
        })
}

/// All the draw calls go by settings that differ at most in what is uploaded.
pub open spec fn goes_by(log: Seq<Effect>, s: Settings) -> bool {
    forall|i: int|
        0 <= i < log.len() ==> (#[trigger] log[i] matches Effect::Draw { settings, .. }
            && settings == (Settings { uploaded: settings.uploaded, ..s }))
}

proof fn lemma_bind(resolver: SourceTextureResolver, source: SourceTexture, n: int, s: Settings)
    requires
        0 <= n < 3,
        resolver.can_bind(source),
    ensures
        ({
            let c = bind_command(resolver, source, TextureSampler::spec_color(n));
            &&& added(c, s) == Seq::<Effect>::empty()
            &&& left(c, s) == (Settings {
                color0: left(c, s).color0,
                color1: left(c, s).color1,
                color2: left(c, s).color2,
                ..s
            })
            &&& if n == 0 {
                reads(left(c, s).color0, s.color0, resolver, source)
            } else {
                left(c, s).color0 == s.color0
            }
            &&& if n == 1 {
                reads(left(c, s).color1, s.color1, resolver, source)
            } else {
                left(c, s).color1 == s.color1
            }
            &&& if n == 2 {
                reads(left(c, s).color2, s.color2, resolver, source)
            } else {
                left(c, s).color2 == s.color2
            }
        }),
{
    reveal(added);
    reveal(left);
    reveal_with_fuel(run_to, 2);
}

proof fn lemma_single_draws(first: int, n: int, s: Settings)
    requires
        0 <= n,
        0 <= first,
        first + n <= usize::MAX,
    ensures
        ({
            let c = single_draws(first, n);
            let data = InstanceRange { first: first as usize, count: n as usize };
            &&& draws_instances(added(c, s), data, false)
            &&& goes_by(added(c, s), s)
            &&& left(c, s) == (Settings { uploaded: left(c, s).uploaded, ..s })
        }),
    decreases n,
{
    if n <= 0 {
        reveal(added);
        reveal(left);
    } else {
        let c = single_draws(first, n - 1);
        lemma_single_draws(first, n - 1, s);
        let two = seq![
            DrawCommand::UploadInstances(
                InstanceRange { first: (first + n - 1) as usize, count: 1 },
            ),
            DrawCommand::DrawOne,
        ];
        lemma_parts(c, two, s);
        let t = left(c, s);
        let log = added(two, t);
        assert(log.len() == 1 && log[0] is Draw && left(two, t) == (Settings {
            uploaded: InstanceRange { first: (first + n - 1) as usize, count: 1 },
            ..t
        }) && log[0]->Draw_settings == left(two, t) && log[0]->Draw_instances == (InstanceRange {
            first: (first + n - 1) as usize,
            count: 1,
        })) by {
            reveal(added);
            reveal(left);
            reveal_with_fuel(run_to, 3);
        }
        assert(single_draws(first, n) == c + two);
        let before = added(c, s);
        let after = added(single_draws(first, n), s);
        assert(after == before + log);
        assert forall|i: int| 0 <= i < after.len() implies (#[trigger] after[i] matches
            Effect::Draw { instances, .. } && instances == (InstanceRange {
            first: (first + i) as usize,
            count: 1,
        })) by {
            if i < before.len() {
                assert(after[i] == before[i]);
            }
        }
        assert forall|i: int| 0 <= i < after.len() implies (#[trigger] after[i] matches
            Effect::Draw { settings, .. } && settings == (Settings {
            uploaded: settings.uploaded,
            ..s
        })) by {
            if i < before.len() {
                assert(after[i] == before[i]);
            }
        }
    }
}

/// Instances are drawn all, each once and in order, by what is set, with their textures
/// and their layout bound. Nothing else is set.
pub proof fn instances_are_drawn(
    ctx: DrawContext,
    resolver: SourceTextureResolver,
    data: InstanceRange,
    kind: VertexArrayKind,
    textures: BatchTextures,
    s: Settings,
)
    requires
        crate::renderer::draw::can_bind_all(resolver, textures),
        data.first + data.count <= usize::MAX,
    ensures
        ({
            let c = instanced_commands(ctx, resolver, data, kind, textures);
            let t = left(c, s);
            &&& draws_instances(added(c, s), data, ctx.enable_batcher)
            &&& goes_by(added(c, s), t)
            &&& same_but_bound(t, s)
            &&& reads_textures(t, s, ctx, resolver, textures)
            &&& t.vao == Some(kind)
        }),
{
    let c0 = bind_command(resolver, textures.color0, TextureSampler::Color0);
    let c1 = bind_command(resolver, textures.color1, TextureSampler::Color1);
    let c2 = bind_command(resolver, textures.color2, TextureSampler::Color2);
    let s0 = left(c0, s);
    let s1 = left(c1, s0);
    let s2 = left(c2, s1);
    lemma_bind(resolver, textures.color0, 0, s);
    lemma_bind(resolver, textures.color1, 1, s0);
    lemma_bind(resolver, textures.color2, 2, s1);
    lemma_parts(c0, c1, s);
    lemma_parts(c0 + c1, c2, s);
    let bound = texture_commands(resolver, textures);
    assert(bound == c0 + c1 + c2);
    let dither = dither_command(ctx.dither_matrix_texture);
    let s3 = left(dither, s2);
    assert(added(dither, s2) == Seq::<Effect>::empty() && s3 == (Settings {
        dither: match ctx.dither_matrix_texture {
            Some(texture) => Some(Binding::Texture(texture)),
            None => s.dither,
        },
        ..s2
    })) by {
        reveal(added);
        reveal(left);
        reveal_with_fuel(run_to, 2);
    }
    lemma_parts(bound, dither, s);
    let vao = seq![DrawCommand::BindVao(kind)];
    let s4 = left(vao, s3);
    assert(added(vao, s3) == Seq::<Effect>::empty() && s4 == (Settings { vao: Some(kind), ..s3 }))
        by {
        reveal(added);
        reveal(left);
        reveal_with_fuel(run_to, 2);
    }
    lemma_parts(bound + dither, vao, s);
    let setup = bound + dither + vao;
    assert(added(setup, s) =~= Seq::<Effect>::empty());
    if ctx.enable_batcher {
        let draw = seq![
            DrawCommand::UploadInstances(data),
            DrawCommand::DrawInstanced { count: data.count },
        ];
        lemma_parts(setup, draw, s);
        assert(added(draw, s4).len() == 1 && left(draw, s4) == (Settings { uploaded: data, ..s4 })
            && added(draw, s4)[0] == (Effect::Draw {
            settings: left(draw, s4),
            instances: data,
        })) by {
            reveal(added);
            reveal(left);
            reveal_with_fuel(run_to, 3);
        }
        assert(instanced_commands(ctx, resolver, data, kind, textures) == setup + draw);
        assert(added(setup + draw, s) =~= added(draw, s4));
    } else {
        let draw = single_draws(data.first as int, data.count as int);
        lemma_parts(setup, draw, s);
        lemma_single_draws(data.first as int, data.count as int, s4);
        assert(instanced_commands(ctx, resolver, data, kind, textures) == setup + draw);
        assert(added(setup + draw, s) =~= added(draw, s4));
    }
}

/// The shader draws a kind of batch, and the label is that of the kind. Each kind has a
/// shader of its own: rectangles, with a clip mask or without, lines, text, images by
/// the buffer that they are in, YUV images by how they are stored, the corners and edges
/// of borders, the three kinds of gradients, and the ways to compose tasks.
pub open spec fn shader_fits(shader: Shader, tag: GpuTag, key: BatchKey) -> bool {
    match key.kind {
        BatchKind::Composite { .. } => shader is PsComposite && tag is PrimComposite,
        BatchKind::HardwareComposite => shader is PsHwComposite && tag is PrimHwComposite,
        BatchKind::SplitComposite => shader is PsSplitComposite && tag is PrimSplitComposite,
        BatchKind::Blend => shader is PsBlend && tag is PrimBlend,
        BatchKind::Brush(BrushBatchKind::Image(target)) => {
            &&& shader == (Shader::BrushImage { target, alpha: key.blend_mode != BlendMode::NoBlend })
            &&& tag is BrushImage
        },
        BatchKind::Transformable(turned, kind) => shader matches Shader::Prim { prim, transform }
            && transform == turned && match kind {
            TransformBatchKind::Rectangle(false) => prim is Rectangle && tag is PrimRect,
            TransformBatchKind::Rectangle(true) => prim is RectangleClip && tag is PrimRect,
            TransformBatchKind::Line => prim is Line && tag is PrimLine,
            TransformBatchKind::TextRun(_) => prim is TextRun && tag is PrimTextRun,
            TransformBatchKind::Image(kind) => prim == PrimShader::Image(kind) && tag is PrimImage,
            TransformBatchKind::YuvImage(kind, format, space) => tag is PrimYuvImage && prim
                == PrimShader::YuvImage(spec_yuv_shader_index(kind, format, space) as usize),
            TransformBatchKind::BorderCorner => prim is BorderCorner && tag is PrimBorderCorner,
            TransformBatchKind::BorderEdge => prim is BorderEdge && tag is PrimBorderEdge,
            TransformBatchKind::AlignedGradient => prim is Gradient && tag is PrimGradient,
            TransformBatchKind::AngleGradient => prim is AngleGradient && tag is PrimAngleGradient,
            TransformBatchKind::RadialGradient => prim is RadialGradient
                && tag is PrimRadialGradient,
        },
    }
}

/// The two kinds differ at most in the tasks that are composed, or in the glyphs of text.
pub open spec fn same_kind(a: BatchKind, b: BatchKind) -> bool {
    match (a, b) {
        (BatchKind::Composite { .. }, BatchKind::Composite { .. }) => true,
        (
            BatchKind::Transformable(t1, TransformBatchKind::TextRun(_)),
            BatchKind::Transformable(t2, TransformBatchKind::TextRun(_)),
        ) => t1 == t2,
        _ => a == b,
    }
}

/// What is copied before a task is composed with what lies behind it: pixels of the target,
/// from where the source lies over the backdrop, to where the shader reads them. They are as
/// many as the copy has. On the screen, whose rows are counted from below, the
/// copy is turned over.
pub open spec fn copies_backdrop(
    effect: Effect,
    backdrop: DrawTask,
    source: DrawTask,
    readback: DrawTask,
    resolver: SourceTextureResolver,
    target: TargetContext,
) -> bool {
    effect matches Effect::Blit { settings, src, dest } && {
        &&& settings.read_from == Some(target.render_target)
        &&& settings.canvas matches Canvas::Target(Some(layer)) && layer.layer == readback.layer
            && Binding::Texture(layer.texture) == resolver.spec_bind(SourceTexture::CacheRGBA8)
        &&& src.x - backdrop.rect.x == source.screen_x - backdrop.screen_x
        &&& src.width == readback.rect.width
        &&& src.height == readback.rect.height
        &&& dest.x == readback.rect.x
        &&& dest.width == readback.rect.width
        &&& if target.render_target is Some {
            &&& src.y - backdrop.rect.y == source.screen_y - backdrop.screen_y
            &&& dest.y == readback.rect.y
            &&& dest.height == readback.rect.height
        } else {
            &&& target.height - (src.y + src.height) - backdrop.rect.y == source.screen_y
                - backdrop.screen_y
            &&& dest.y == readback.rect.y + readback.rect.height
            &&& dest.height == -readback.rect.height
        }
    }
}

/// The effects draw a batch: its instances, with the shader of its kind and its textures,
/// to the target, blended as the device was set. For a composite, what lies behind it is
/// copied first.
pub open spec fn draws_batch(
    log: Seq<Effect>,
    s: Settings,
    key: BatchKey,
    instances: InstanceRange,
    ctx: DrawContext,
    resolver: SourceTextureResolver,
    tasks: Seq<DrawTask>,
    target: TargetContext,
) -> bool {
    let copied: int = if key.kind is Composite {
        1
    } else {
        0
    };
    &&& log.len() >= copied
    &&& key.kind matches BatchKind::Composite { task_id, source_id, backdrop_id }
        ==> copies_backdrop(
        log[0],
        tasks[task_id as int],
        tasks[source_id as int],
        tasks[backdrop_id as int],
        resolver,
        target,
    )
    &&& draws_instances(log.skip(copied), instances, ctx.enable_batcher)
    &&& forall|i: int|
        copied <= i < log.len() ==> (#[trigger] log[i] matches Effect::Draw { settings, .. } && {
            &&& settings.shader is Some
            &&& settings.tag is Some
            &&& shader_fits(settings.shader->0, settings.tag->0, key)
            &&& settings.projection == target.projection
            &&& settings.mode == 0
            &&& settings.canvas == Canvas::Target(target.render_target)
            &&& settings.vao == Some(VertexArrayKind::Primitive)
            &&& reads_textures(settings, s, ctx, resolver, key.textures)
            &&& settings.blend == s.blend
            &&& settings.func == s.func
            &&& settings.depth == s.depth
            &&& settings.depth_write == s.depth_write
        })
}

/// A batch is drawn with the shader of its kind, and nothing else is drawn. What the
/// device was set to otherwise, it is set to afterwards.
#[verifier::rlimit(40)]
pub proof fn batches_are_drawn_by_their_kind(
    key: BatchKey,
    instances: InstanceRange,
    ctx: DrawContext,
    resolver: SourceTextureResolver,
    tasks: Seq<DrawTask>,
    target: TargetContext,
    s: Settings,
)
    requires
        submit_ok(key, instances, ctx, resolver, tasks, target),
        s.canvas == Canvas::Target(target.render_target),
    ensures
        ({
            let c = submit_commands(key, instances, ctx, resolver, tasks, target);
            let t = left(c, s);
            &&& draws_batch(added(c, s), s, key, instances, ctx, resolver, tasks, target)
            &&& t.canvas == s.canvas
            &&& t.blend == s.blend
            &&& t.func == s.func
            &&& t.depth == s.depth
            &&& t.depth_write == s.depth_write
        }),
{
    let c = submit_commands(key, instances, ctx, resolver, tasks, target);
    let (shader, tag) = crate::renderer::draw::batch_shader(key);
    let bind = seq![DrawCommand::BindShader { shader, projection: target.projection, mode: 0 }];
    let back = readback_commands(key.kind, tasks, resolver, target);
    let mark = seq![DrawCommand::Marker(tag)];
    let draw = instanced_commands(
        ctx,
        resolver,
        instances,
        VertexArrayKind::Primitive,
        key.textures,
    );
    let s1 = left(bind, s);
    assert(added(bind, s) == Seq::<Effect>::empty() && s1 == (Settings {
        shader: Some(shader),
        projection: target.projection,
        mode: 0,
        ..s
    })) by {
        reveal(added);
        reveal(left);
        reveal_with_fuel(run_to, 2);
    }
    let s2 = left(back, s1);
    let copied: int = if key.kind is Composite {
        1
    } else {
        0
    };
    assert(added(back, s1).len() == copied && s2 == (Settings { read_from: s2.read_from, ..s1 }))
        by {
        reveal(added);
        reveal(left);
        reveal_with_fuel(run_to, 5);
    }
    assert(key.kind matches BatchKind::Composite { task_id, source_id, backdrop_id }
        ==> copies_backdrop(
        added(back, s1)[0],
        tasks[task_id as int],
        tasks[source_id as int],
        tasks[backdrop_id as int],
        resolver,
        target,
    )) by {
        reveal(added);
        reveal(left);
        reveal_with_fuel(run_to, 5);
    }
    let s3 = left(mark, s2);
    assert(added(mark, s2) == Seq::<Effect>::empty() && s3 == (Settings { tag: Some(tag), ..s2 }))
        by {
        reveal(added);
        reveal(left);
        reveal_with_fuel(run_to, 2);
    }
    instances_are_drawn(ctx, resolver, instances, VertexArrayKind::Primitive, key.textures, s3);
    lemma_parts(bind, back, s);
    lemma_parts(bind + back, mark, s);
    lemma_parts(bind + back + mark, draw, s);
    assert(c == bind + back + mark + draw);
    let log = added(c, s);
    assert(log =~= added(back, s1) + added(draw, s3));
    assert(log.skip(copied) =~= added(draw, s3));
    lemma_shader_fits(key);
    assert forall|i: int| copied <= i < log.len() implies (#[trigger] log[i] matches
        Effect::Draw { settings, .. } && settings == (Settings {
        uploaded: settings.uploaded,
        ..left(draw, s3)
    })) by {
        assert(log[i] == added(draw, s3)[i - copied]);
    }
}

proof fn lemma_shader_fits(key: BatchKey)
    ensures
        ({
            let (shader, tag) = crate::renderer::draw::batch_shader(key);
            shader_fits(shader, tag, key)
        }),
{
}

/// Batches that are drawn by one shader are of one kind.
pub proof fn shaders_tell_kinds_apart(
    a: BatchKey,
    b: BatchKey,
    x: InstanceRange,
    y: InstanceRange,
    ctx: DrawContext,
    resolver: SourceTextureResolver,
    tasks: Seq<DrawTask>,
    target: TargetContext,
    i: int,
    j: int,
)
    requires
        ({
            let c = submit_commands(a, x, ctx, resolver, tasks, target);
            let d = submit_commands(b, y, ctx, resolver, tasks, target);
            &&& 0 <= i < c.len()
            &&& 0 <= j < d.len()
            &&& c[i] matches DrawCommand::BindShader { shader: first, .. } && d[j] matches
                DrawCommand::BindShader { shader: second, .. } && first == second
        }),
        submit_ok(a, x, ctx, resolver, tasks, target),
        submit_ok(b, y, ctx, resolver, tasks, target),
    ensures
        same_kind(a.kind, b.kind),
        a.kind is Brush ==> (a.blend_mode is NoBlend <==> b.blend_mode is NoBlend),
{
    lemma_one_shader(a, x, ctx, resolver, tasks, target, i);
    lemma_one_shader(b, y, ctx, resolver, tasks, target, j);
    if let (
        BatchKind::Transformable(_, TransformBatchKind::YuvImage(k1, f1, s1)),
        BatchKind::Transformable(_, TransformBatchKind::YuvImage(k2, f2, s2)),
    ) = (a.kind, b.kind) {
        crate::renderer::draw::yuv_shaders_have_their_own_places(k1, f1, s1, k2, f2, s2);
    }
}

/// A batch binds one shader, that of its kind.
proof fn lemma_one_shader(
    key: BatchKey,
    instances: InstanceRange,
    ctx: DrawContext,
    resolver: SourceTextureResolver,
    tasks: Seq<DrawTask>,
    target: TargetContext,
    i: int,
)
    requires
        ({
            let c = submit_commands(key, instances, ctx, resolver, tasks, target);
            0 <= i < c.len() && c[i] is BindShader
        }),
    ensures
        ({
            let c = submit_commands(key, instances, ctx, resolver, tasks, target);
            c[i]->BindShader_shader == crate::renderer::draw::batch_shader(key).0
        }),
{
    lemma_single_draws_bind_nothing(instances.first as int, instances.count as int);
}

proof fn lemma_single_draws_bind_nothing(first: int, n: int)
    ensures
        forall|i: int|
            0 <= i < single_draws(first, n).len() ==> !(#[trigger] single_draws(first, n)[i]
                is BindShader),
    decreases n,
{
    if n > 0 {
        lemma_single_draws_bind_nothing(first, n - 1);
        let c = single_draws(first, n);
        assert forall|i: int| 0 <= i < c.len() implies !(#[trigger] c[i] is BindShader) by {
            if i < single_draws(first, n - 1).len() {
                assert(c[i] == single_draws(first, n - 1)[i]);
            }
        }
    }
}

} // verus!
