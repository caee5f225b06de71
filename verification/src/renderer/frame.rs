//! How the passes of a frame are drawn.

use crate::internal_types::{ColorF, FrameId, RenderTargetKind};
use crate::renderer::commands::{DrawCommand, GpuTag, OrthoProjection, TextureLayer, TextureSampler};
use crate::renderer::debugger::{
    cache_debug_commands, draw_render_target_debug, draw_texture_cache_debug, layers_ok,
    target_debug_commands, LayeredTexture, ShrunkLayers,
};
use crate::renderer::draw::alpha_target::{
    alpha_target_commands, alpha_target_ok, draw_alpha_target, AlphaRenderTarget,
};
use crate::renderer::draw::color_target::{
    color_target_commands, color_target_ok, draw_color_target, outputs_after, ColorRenderTarget,
    FrameOutput,
};
use crate::renderer::draw::{bind_command, push_binding, DrawContext, DrawTask, TargetContext};
use crate::renderer::textures::{
    pass_ended, Binding, ExternalImageKey, ExternalTexture, ResolverView, SourceTexture,
    SourceTextureResolver, TextureId,
};
use crate::renderer::DebugFlags;
use vstd::prelude::*;

verus! {

/// One pass of a frame. Its targets are the layers of at most two textures, but for the
/// last pass, whose color target is the screen.
pub struct RenderPass {
    pub is_framebuffer: bool,
    pub alpha_targets: Vec<AlphaRenderTarget>,
    pub color_targets: Vec<ColorRenderTarget>,
    /// How many layers of each kind the pass needs.
    pub alpha_layers: usize,
    pub color_layers: usize,
    pub max_alpha_width: u32,
    pub max_alpha_height: u32,
    pub max_color_width: u32,
    pub max_color_height: u32,
    pub alpha_texture: Option<TextureId>,
    pub color_texture: Option<TextureId>,
}

/// What drawing a frame depends on, apart from its passes.
#[derive(Clone, Copy, Debug, PartialEq, Eq, Structural)]
pub struct FrameContext {
    pub frame_id: FrameId,
    pub framebuffer_width: u32,
    pub framebuffer_height: u32,
    pub window_width: u32,
    pub window_height: u32,
    /// The color of the page, where it has one.
    pub background_color: Option<ColorF>,
    /// The screen is cleared before it is drawn to.
    pub clear_framebuffer: bool,
    /// What the screen is cleared to where the page has no color.
    pub clear_color: ColorF,
    pub draw: DrawContext,
}

impl FrameContext {
    /// The window is smaller than the screen, which shows around it.
    pub open spec fn needs_clear(self) -> bool {
        self.window_width < self.framebuffer_width || self.window_height < self.framebuffer_height
    }

    /// What the screen is cleared to.
    pub open spec fn screen_clear(self) -> Option<ColorF> {
        if self.clear_framebuffer || self.needs_clear() {
            Some(
                match self.background_color {
                    Some(color) => color,
                    None => self.clear_color,
                },
            )
        } else {
            None
        }
    }
}

/// The size of the color targets that a pass can read.
#[derive(Clone, Copy, Debug, PartialEq, Eq, Structural)]
pub struct CacheSize {
    pub width: u32,
    pub height: u32,
}

pub open spec fn alpha_context(pass: RenderPass, index: int, cache: CacheSize) -> TargetContext {
    TargetContext {
        render_target: Some(
            TextureLayer { texture: pass.alpha_texture->0, layer: index as i32 },
        ),
        width: pass.max_alpha_width,
        height: pass.max_alpha_height,
        projection: OrthoProjection {
            width: pass.max_alpha_width,
            height: pass.max_alpha_height,
            is_screen: false,
        },
        cache_width: cache.width,
        cache_height: cache.height,
    }
}

pub open spec fn color_context(
    pass: RenderPass,
    index: int,
    frame: FrameContext,
    cache: CacheSize,
) -> TargetContext {
    let (width, height) = if pass.is_framebuffer {
        (frame.framebuffer_width, frame.framebuffer_height)
    } else {
        (pass.max_color_width, pass.max_color_height)
    };
    TargetContext {
        render_target: match pass.color_texture {
            Some(texture) => Some(TextureLayer { texture, layer: index as i32 }),
            None => None,
        },
        width,
        height,
        projection: OrthoProjection { width, height, is_screen: pass.is_framebuffer },
        cache_width: cache.width,
        cache_height: cache.height,
    }
}

/// What a color target is cleared to: nothing is left of a texture.
pub open spec fn target_clear(pass: RenderPass, frame: FrameContext) -> Option<ColorF> {
    if pass.is_framebuffer {
        frame.screen_clear()
    } else {
        Some(ColorF::spec_transparent())
    }
}

/// What draws the first `n` alpha targets of a pass.
pub open spec fn alpha_targets_commands(
    pass: RenderPass,
    n: int,
    frame: FrameContext,
    resolver: SourceTextureResolver,
    tasks: Seq<DrawTask>,
    cache: CacheSize,
) -> Seq<DrawCommand>
    decreases n,
{
    if n <= 0 {
        Seq::empty()
    } else {
        alpha_targets_commands(pass, n - 1, frame, resolver, tasks, cache) + alpha_target_commands(
            pass.alpha_targets@[n - 1],
            frame.draw,
            resolver,
            tasks,
            alpha_context(pass, n - 1, cache),
        )
    }
}

/// The frame buffers of the embedder after the first `n` color targets.
pub open spec fn pass_outputs(pass: RenderPass, n: int, outputs: Seq<FrameOutput>, id: FrameId) -> Seq<
    FrameOutput,
>
    decreases n,
{
    if n <= 0 {
        outputs
    } else {
        outputs_after(
            pass.color_targets@[n - 1].outputs@,
            pass_outputs(pass, n - 1, outputs, id),
            id,
        )
    }
}

/// What draws the first `n` color targets of a pass.
pub open spec fn color_targets_commands(
    pass: RenderPass,
    n: int,
    outputs: Seq<FrameOutput>,
    frame: FrameContext,
    resolver: SourceTextureResolver,
    tasks: Seq<DrawTask>,
    cache: CacheSize,
) -> Seq<DrawCommand>
    decreases n,
{
    if n <= 0 {
        Seq::empty()
    } else {
        color_targets_commands(pass, n - 1, outputs, frame, resolver, tasks, cache)
            + color_target_commands(
            pass.color_targets@[n - 1],
            target_clear(pass, frame),
            pass_outputs(pass, n - 1, outputs, frame.frame_id),
            frame.frame_id,
            frame.draw,
            resolver,
            tasks,
            color_context(pass, n - 1, frame, cache),
        )
    }
}

/// The state of the renderer between two passes.
#[verifier::ext_equal]
pub struct FrameState {
    pub resolver: SourceTextureResolver,
    pub alpha_pool: Seq<TextureId>,
    pub color_pool: Seq<TextureId>,
    pub outputs: Seq<FrameOutput>,
    pub cache: CacheSize,
    pub commands: Seq<DrawCommand>,
}

/// What binds the alpha targets of the first pass for all later ones.
pub open spec fn shared_alpha_command(index: int, resolver: SourceTextureResolver) -> Seq<
    DrawCommand,
> {
    if index == 0 {
        bind_command(resolver, SourceTexture::CacheA8, TextureSampler::SharedCacheA8)
    } else {
        Seq::empty()
    }
}

/// What draws the targets of a pass.
pub open spec fn pass_commands(
    pass: RenderPass,
    frame: FrameContext,
    tasks: Seq<DrawTask>,
    state: FrameState,
) -> Seq<DrawCommand> {
    bind_command(state.resolver, SourceTexture::CacheA8, TextureSampler::CacheA8) + bind_command(
        state.resolver,
        SourceTexture::CacheRGBA8,
        TextureSampler::CacheRGBA8,
    ) + alpha_targets_commands(
        pass,
        pass.alpha_targets@.len() as int,
        frame,
        state.resolver,
        tasks,
        state.cache,
    ) + color_targets_commands(
        pass,
        pass.color_targets@.len() as int,
        state.outputs,
        frame,
        state.resolver,
        tasks,
        state.cache,
    )
}

/// The size of the color targets that the next pass reads.
pub open spec fn cache_after(pass: RenderPass, last: bool) -> CacheSize {
    if pass.color_texture is Some && !last {
        CacheSize { width: pass.max_color_width, height: pass.max_color_height }
    } else {
        CacheSize { width: 1, height: 1 }
    }
}

/// The state after a pass.
pub open spec fn pass_drawn(
    pass: RenderPass,
    index: int,
    count: int,
    frame: FrameContext,
    tasks: Seq<DrawTask>,
    state: FrameState,
) -> FrameState {
    let last = index == count - 1;
    let a8 = pass_ended(
        state.alpha_pool,
        state.resolver.cache_a8_texture,
        pass.alpha_texture,
        last,
    );
    let rgba8 = pass_ended(
        state.color_pool,
        state.resolver.cache_rgba8_texture,
        pass.color_texture,
        last,
    );
    let resolver = SourceTextureResolver {
        cache_a8_texture: a8.1,
        cache_rgba8_texture: rgba8.1,
        ..state.resolver
    };
    FrameState {
        resolver,
        alpha_pool: a8.0,
        color_pool: rgba8.0,
        outputs: pass_outputs(
            pass,
            pass.color_targets@.len() as int,
            state.outputs,
            frame.frame_id,
        ),
        cache: cache_after(pass, last),
        commands: state.commands + pass_commands(pass, frame, tasks, state)
            + shared_alpha_command(index, resolver),
    }
}

/// The state after the first `n` passes.
pub open spec fn passes_drawn(
    passes: Seq<RenderPass>,
    n: int,
    frame: FrameContext,
    tasks: Seq<DrawTask>,
    state: FrameState,
) -> FrameState
    decreases n,
{
    if n <= 0 {
        state
    } else {
        pass_drawn(
            passes[n - 1],
            n - 1,
            passes.len() as int,
            frame,
            tasks,
            passes_drawn(passes, n - 1, frame, tasks, state),
        )
    }
}

/// The targets of a pass can be drawn.
pub open spec fn pass_ok(
    pass: RenderPass,
    frame: FrameContext,
    tasks: Seq<DrawTask>,
    resolver: SourceTextureResolver,
    cache: CacheSize,
) -> bool {
    &&& pass.alpha_targets@.len() <= i32::MAX
    &&& pass.color_targets@.len() <= i32::MAX
    &&& pass.alpha_targets@.len() > 0 ==> pass.alpha_texture is Some
    &&& forall|i: int|
        0 <= i < pass.alpha_targets@.len() ==> alpha_target_ok(
            #[trigger] pass.alpha_targets@[i],
            resolver,
            tasks,
        )
    &&& forall|i: int|
        0 <= i < pass.color_targets@.len() ==> color_target_ok(
            #[trigger] pass.color_targets@[i],
            frame.draw,
            resolver,
            tasks,
            color_context(pass, i, frame, cache),
        )
}

/// Every pass can be drawn after those before it.
#[verifier::opaque]
pub open spec fn passes_ok(
    passes: Seq<RenderPass>,
    frame: FrameContext,
    tasks: Seq<DrawTask>,
    state: FrameState,
) -> bool {
    forall|i: int|
        0 <= i < passes.len() ==> pass_ok(
            #[trigger] passes[i],
            frame,
            tasks,
            passes_drawn(passes, i, frame, tasks, state).resolver,
            passes_drawn(passes, i, frame, tasks, state).cache,
        )
}

/// What the renderer keeps from pass to pass.
pub struct PassState {
    pub resolver: SourceTextureResolver,
    pub alpha_render_targets: Vec<TextureId>,
    pub color_render_targets: Vec<TextureId>,
    pub output_targets: Vec<FrameOutput>,
    pub cache: CacheSize,
}

impl PassState {
    pub open spec fn with(self, commands: Seq<DrawCommand>) -> FrameState {
        FrameState {
            resolver: self.resolver,
            alpha_pool: self.alpha_render_targets@,
            color_pool: self.color_render_targets@,
            outputs: self.output_targets@,
            cache: self.cache,
            commands,
        }
    }
}

fn draw_alpha_targets(
    out: &mut Vec<DrawCommand>,
    pass: &RenderPass,
    frame: &FrameContext,
    state: &PassState,
    tasks: &Vec<DrawTask>,
)
    requires
        pass_ok(*pass, *frame, tasks@, state.resolver, state.cache),
    ensures
        final(out)@ == old(out)@ + alpha_targets_commands(
            *pass,
            pass.alpha_targets@.len() as int,
            *frame,
            state.resolver,
            tasks@,
            state.cache,
        ),
{
    let mut i: usize = 0;
    assert(out@ =~= old(out)@ + alpha_targets_commands(
        *pass,
        0,
        *frame,
        state.resolver,
        tasks@,
        state.cache,
    ));
    while i < pass.alpha_targets.len()
        invariant
            i <= pass.alpha_targets@.len(),
            pass_ok(*pass, *frame, tasks@, state.resolver, state.cache),
            out@ == old(out)@ + alpha_targets_commands(
                *pass,
                i as int,
                *frame,
                state.resolver,
                tasks@,
                state.cache,
            ),
        decreases pass.alpha_targets@.len() - i,
    {
        assert(alpha_target_ok(pass.alpha_targets@[i as int], state.resolver, tasks@));
        let texture = match pass.alpha_texture {
            Some(texture) => texture,
            None => TextureId(0),
        };
        let target = TargetContext {
            render_target: Some(TextureLayer { texture, layer: i as i32 }),
            width: pass.max_alpha_width,
            height: pass.max_alpha_height,
            projection: OrthoProjection {
                width: pass.max_alpha_width,
                height: pass.max_alpha_height,
                is_screen: false,
            },
            cache_width: state.cache.width,
            cache_height: state.cache.height,
        };
        draw_alpha_target(
            out,
            &pass.alpha_targets[i],
            &frame.draw,
            &state.resolver,
            tasks,
            &target,
        );
        i = i + 1;
        assert(out@ =~= old(out)@ + alpha_targets_commands(
            *pass,
            i as int,
            *frame,
            state.resolver,
            tasks@,
            state.cache,
        ));
    }
}

fn screen_clear(frame: &FrameContext) -> (r: Option<ColorF>)
    ensures
        r == frame.screen_clear(),
{
    let needs_clear = frame.window_width < frame.framebuffer_width || frame.window_height
        < frame.framebuffer_height;
    if frame.clear_framebuffer || needs_clear {
        Some(
            match frame.background_color {
                Some(color) => color,
                None => frame.clear_color,
            },
        )
    } else {
        None
    }
}

fn draw_color_targets(
    out: &mut Vec<DrawCommand>,
    pass: &RenderPass,
    frame: &FrameContext,
    state: &mut PassState,
    tasks: &Vec<DrawTask>,
)
    requires
        pass_ok(*pass, *frame, tasks@, old(state).resolver, old(state).cache),
    ensures
        final(out)@ == old(out)@ + color_targets_commands(
            *pass,
            pass.color_targets@.len() as int,
            old(state).output_targets@,
            *frame,
            old(state).resolver,
            tasks@,
            old(state).cache,
        ),
        final(state).resolver == old(state).resolver,
        final(state).cache == old(state).cache,
        final(state).alpha_render_targets == old(state).alpha_render_targets,
        final(state).color_render_targets == old(state).color_render_targets,
        final(state).output_targets@ == pass_outputs(
            *pass,
            pass.color_targets@.len() as int,
            old(state).output_targets@,
            frame.frame_id,
        ),
{
    let clear_color = if pass.is_framebuffer {
        screen_clear(frame)
    } else {
        Some(ColorF::transparent())
    };
    let mut i: usize = 0;
    assert(out@ =~= old(out)@ + color_targets_commands(
        *pass,
        0,
        old(state).output_targets@,
        *frame,
        old(state).resolver,
        tasks@,
        old(state).cache,
    ));
    while i < pass.color_targets.len()
        invariant
            i <= pass.color_targets@.len(),
            pass_ok(*pass, *frame, tasks@, old(state).resolver, old(state).cache),
            clear_color == target_clear(*pass, *frame),
            state.resolver == old(state).resolver,
            state.cache == old(state).cache,
            state.alpha_render_targets == old(state).alpha_render_targets,
            state.color_render_targets == old(state).color_render_targets,
            state.output_targets@ == pass_outputs(
                *pass,
                i as int,
                old(state).output_targets@,
                frame.frame_id,
            ),
            out@ == old(out)@ + color_targets_commands(
                *pass,
                i as int,
                old(state).output_targets@,
                *frame,
                old(state).resolver,
                tasks@,
                old(state).cache,
            ),
        decreases pass.color_targets@.len() - i,
    {
        assert(color_target_ok(
            pass.color_targets@[i as int],
            frame.draw,
            state.resolver,
            tasks@,
            color_context(*pass, i as int, *frame, state.cache),
        ));
        let (width, height) = if pass.is_framebuffer {
            (frame.framebuffer_width, frame.framebuffer_height)
        } else {
            (pass.max_color_width, pass.max_color_height)
        };
        let target = TargetContext {
            render_target: match pass.color_texture {
                Some(texture) => Some(TextureLayer { texture, layer: i as i32 }),
                None => None,
            },
            width,
            height,
            projection: OrthoProjection { width, height, is_screen: pass.is_framebuffer },
            cache_width: state.cache.width,
            cache_height: state.cache.height,
        };
        draw_color_target(
            out,
            &pass.color_targets[i],
            clear_color,
            &mut state.output_targets,
            frame.frame_id,
            &frame.draw,
            &state.resolver,
            tasks,
            &target,
        );
        i = i + 1;
        assert(out@ =~= old(out)@ + color_targets_commands(
            *pass,
            i as int,
            old(state).output_targets@,
            *frame,
            old(state).resolver,
            tasks@,
            old(state).cache,
        ));
    }
}

/// Draws one pass, and hands its targets on.
pub fn draw_pass(
    out: &mut Vec<DrawCommand>,
    pass: &RenderPass,
    pass_index: usize,
    pass_count: usize,
    frame: &FrameContext,
    state: &mut PassState,
    tasks: &Vec<DrawTask>,
)
    requires
        pass_index < pass_count,
        pass_ok(*pass, *frame, tasks@, old(state).resolver, old(state).cache),
    ensures
        final(state).with(final(out)@) == pass_drawn(
            *pass,
            pass_index as int,
            pass_count as int,
            *frame,
            tasks@,
            old(state).with(old(out)@),
        ),
{
    let ghost start = old(state).with(old(out)@);
    push_binding(out, &state.resolver, &SourceTexture::CacheA8, TextureSampler::CacheA8);
    push_binding(out, &state.resolver, &SourceTexture::CacheRGBA8, TextureSampler::CacheRGBA8);
    draw_alpha_targets(out, pass, frame, state, tasks);
    draw_color_targets(out, pass, frame, state, tasks);
    assert(out@ =~= start.commands + pass_commands(*pass, *frame, tasks@, start));
    state.resolver.end_pass(
        pass_index,
        pass_count,
        pass.alpha_texture,
        pass.color_texture,
        &mut state.alpha_render_targets,
        &mut state.color_render_targets,
    );
    state.cache = match pass.color_texture {
        Some(_) if pass_index != pass_count - 1 => CacheSize {
            width: pass.max_color_width,
            height: pass.max_color_height,
        },
        _ => CacheSize { width: 1, height: 1 },
    };
    if pass_index == 0 {
        push_binding(
            out,
            &state.resolver,
            &SourceTexture::CacheA8,
            TextureSampler::SharedCacheA8,
        );
    }
    assert(state.with(out@).commands =~= pass_drawn(
        *pass,
        pass_index as int,
        pass_count as int,
        *frame,
        tasks@,
        start,
    ).commands);
}

/// Draws the passes of a frame one after the other.
pub fn draw_passes(
    out: &mut Vec<DrawCommand>,
    passes: &Vec<RenderPass>,
    frame: &FrameContext,
    state: &mut PassState,
    tasks: &Vec<DrawTask>,
)
    requires
        passes_ok(passes@, *frame, tasks@, old(state).with(old(out)@)),
    ensures
        final(state).with(final(out)@) == passes_drawn(
            passes@,
            passes@.len() as int,
            *frame,
            tasks@,
            old(state).with(old(out)@),
        ),
{
    let ghost start = old(state).with(old(out)@);
    let count: usize = passes.len();
    let mut i: usize = 0;
    while i < count
        invariant
            i <= count == passes@.len(),
            passes_ok(passes@, *frame, tasks@, start),
            state.with(out@) == passes_drawn(passes@, i as int, *frame, tasks@, start),
        decreases count - i,
    {
        let ghost now = passes_drawn(passes@, i as int, *frame, tasks@, start);
        proof {
            reveal(passes_ok);
        }
        assert(pass_ok(passes@[i as int], *frame, tasks@, now.resolver, now.cache));
        draw_pass(out, &passes[i], i, count, frame, state, tasks);
        i = i + 1;
    }
}

/// After the last pass no target is kept, so that the next frame starts from the pools
/// alone, and the textures of the cache and of the embedder are those of before.
pub proof fn frame_leaves_no_target_behind(
    passes: Seq<RenderPass>,
    frame: FrameContext,
    tasks: Seq<DrawTask>,
    state: FrameState,
)
    requires
        passes.len() > 0,
    ensures
        ({
            let after = passes_drawn(passes, passes.len() as int, frame, tasks, state);
            &&& after.resolver.cache_a8_texture is None
            &&& after.resolver.cache_rgba8_texture is None
            &&& after.resolver.cache_texture_map == state.resolver.cache_texture_map
            &&& after.resolver.external_images == state.resolver.external_images
            &&& after.resolver.dummy_cache_texture == state.resolver.dummy_cache_texture
        }),
{
    lemma_passes_keep(passes, passes.len() as int, frame, tasks, state);
}

proof fn lemma_passes_keep(
    passes: Seq<RenderPass>,
    n: int,
    frame: FrameContext,
    tasks: Seq<DrawTask>,
    state: FrameState,
)
    requires
        0 <= n <= passes.len(),
    ensures
        ({
            let after = passes_drawn(passes, n, frame, tasks, state);
            &&& after.resolver.cache_texture_map == state.resolver.cache_texture_map
            &&& after.resolver.external_images == state.resolver.external_images
            &&& after.resolver.dummy_cache_texture == state.resolver.dummy_cache_texture
            &&& state.commands.is_prefix_of(after.commands)
        }),
    decreases n,
{
    if n > 0 {
        lemma_passes_keep(passes, n - 1, frame, tasks, state);
    }
}

/// How often a texture is in the pool of color targets or kept for the next pass.
pub open spec fn color_times(state: FrameState, texture: TextureId) -> nat {
    crate::renderer::textures::times(
        state.color_pool,
        state.resolver.cache_rgba8_texture,
        texture,
    )
}

/// How often a texture is that of one of the first `n` passes.
pub open spec fn passes_times(passes: Seq<RenderPass>, n: int, texture: TextureId) -> nat
    decreases n,
{
    if n <= 0 {
        0
    } else {
        passes_times(passes, n - 1, texture) + (if passes[n - 1].color_texture == Some(texture) {
            1nat
        } else {
            0nat
        })
    }
}

/// No color target is lost or duplicated by a frame: each comes from a pool or from a
/// pass, and ends up in a pool.
pub proof fn frame_keeps_color_targets(
    passes: Seq<RenderPass>,
    n: int,
    frame: FrameContext,
    tasks: Seq<DrawTask>,
    state: FrameState,
    texture: TextureId,
)
    requires
        0 <= n <= passes.len(),
    ensures
        color_times(passes_drawn(passes, n, frame, tasks, state), texture) == color_times(
            state,
            texture,
        ) + passes_times(passes, n, texture),
    decreases n,
{
    if n > 0 {
        frame_keeps_color_targets(passes, n - 1, frame, tasks, state, texture);
        let before = passes_drawn(passes, n - 1, frame, tasks, state);
        crate::renderer::textures::end_pass_keeps_textures(
            before.color_pool,
            before.resolver.cache_rgba8_texture,
            passes[n - 1].color_texture,
            n - 1 == passes.len() - 1,
            texture,
        );
    }
}

/// What gives the passes their textures.
#[verifier::ext_equal]
pub struct TargetSupply {
    pub alpha_pool: Seq<TextureId>,
    pub color_pool: Seq<TextureId>,
    /// The number of the next texture that is made.
    pub next: int,
}

/// A texture from the end of a pool, or a new one.
pub open spec fn taken(pool: Seq<TextureId>, next: int) -> (TextureId, Seq<TextureId>, int) {
    if pool.len() > 0 {
        (pool.last(), pool.drop_last(), next)
    } else {
        (TextureId(next as u32), pool, next + 1)
    }
}

/// The supply after a pass has taken its textures.
pub open spec fn supply_after(supply: TargetSupply, needs_color: bool, needs_alpha: bool) -> TargetSupply {
    let color = if needs_color {
        taken(supply.color_pool, supply.next)
    } else {
        (TextureId(0), supply.color_pool, supply.next)
    };
    let alpha = if needs_alpha {
        taken(supply.alpha_pool, color.2)
    } else {
        (TextureId(0), supply.alpha_pool, color.2)
    };
    TargetSupply { alpha_pool: alpha.1, color_pool: color.1, next: alpha.2 }
}

/// The textures that a pass takes: that for colors first.
pub open spec fn pass_textures(supply: TargetSupply, needs_color: bool, needs_alpha: bool) -> (
    Option<TextureId>,
    Option<TextureId>,
) {
    let color = taken(supply.color_pool, supply.next);
    let next = if needs_color {
        color.2
    } else {
        supply.next
    };
    (
        if needs_color {
            Some(color.0)
        } else {
            None
        },
        if needs_alpha {
            Some(taken(supply.alpha_pool, next).0)
        } else {
            None
        },
    )
}

pub open spec fn supplied(passes: Seq<RenderPass>, n: int, supply: TargetSupply) -> TargetSupply
    decreases n,
{
    if n <= 0 {
        supply
    } else {
        supply_after(
            supplied(passes, n - 1, supply),
            passes[n - 1].color_layers > 0,
            passes[n - 1].alpha_layers > 0,
        )
    }
}

/// The pass with its textures.
pub open spec fn with_textures(pass: RenderPass, supply: TargetSupply) -> RenderPass {
    let textures = pass_textures(supply, pass.color_layers > 0, pass.alpha_layers > 0);
    RenderPass { color_texture: textures.0, alpha_texture: textures.1, ..pass }
}

fn take_texture(pool: &mut Vec<TextureId>, next: &mut u32) -> (r: TextureId)
    requires
        *old(next) < u32::MAX,
    ensures
        ({
            let t = taken(old(pool)@, *old(next) as int);
            &&& r == t.0
            &&& final(pool)@ == t.1
            &&& *final(next) == t.2
        }),
{
    match pool.pop() {
        Some(texture) => texture,
        None => {
            let texture = TextureId(*next);
            *next = *next + 1;
            texture
        },
    }
}

/// Gives every pass the textures it needs: the last ones of the pools, and new ones where
/// a pool is empty.
pub fn assign_targets(
    passes: &mut Vec<RenderPass>,
    alpha_pool: &mut Vec<TextureId>,
    color_pool: &mut Vec<TextureId>,
    next_texture: &mut u32,
)
    requires
        *old(next_texture) + 2 * old(passes)@.len() < u32::MAX,
        forall|i: int|
            0 <= i < old(passes)@.len() ==> (#[trigger] old(passes)@[i]).color_texture is None
                && old(passes)@[i].alpha_texture is None,
    ensures
        ({
            let start = TargetSupply {
                alpha_pool: old(alpha_pool)@,
                color_pool: old(color_pool)@,
                next: *old(next_texture) as int,
            };
            let end = supplied(old(passes)@, old(passes)@.len() as int, start);
            &&& final(alpha_pool)@ == end.alpha_pool
            &&& final(color_pool)@ == end.color_pool
            &&& *final(next_texture) == end.next
            &&& final(passes)@.len() == old(passes)@.len()
            &&& forall|i: int|
                0 <= i < old(passes)@.len() ==> #[trigger] final(passes)@[i] == with_textures(
                    old(passes)@[i],
                    supplied(old(passes)@, i, start),
                )
        }),
{
    let ghost start = TargetSupply {
        alpha_pool: alpha_pool@,
        color_pool: color_pool@,
        next: *next_texture as int,
    };
    let ghost before = passes@;
    let mut i: usize = 0;
    while i < passes.len()
        invariant
            i <= passes@.len() == before.len(),
            before == old(passes)@,
            start.next + 2 * before.len() < u32::MAX,
            start.next == *old(next_texture),
            *next_texture <= start.next + 2 * i,
            ({
                let now = supplied(before, i as int, start);
                &&& alpha_pool@ == now.alpha_pool
                &&& color_pool@ == now.color_pool
                &&& *next_texture == now.next
            }),
            forall|j: int| i <= j < before.len() ==> #[trigger] passes@[j] == before[j],
            forall|j: int|
                0 <= j < before.len() ==> (#[trigger] before[j]).color_texture is None
                    && before[j].alpha_texture is None,
            forall|j: int|
                0 <= j < i ==> #[trigger] passes@[j] == with_textures(
                    before[j],
                    supplied(before, j, start),
                ),
        decreases before.len() - i,
    {
        assert(passes@[i as int] == before[i as int]);
        assert(before[i as int].color_texture is None && before[i as int].alpha_texture is None);
        if passes[i].color_layers > 0 {
            let texture = take_texture(color_pool, next_texture);
            passes[i].color_texture = Some(texture);
        }
        if passes[i].alpha_layers > 0 {
            let texture = take_texture(alpha_pool, next_texture);
            passes[i].alpha_texture = Some(texture);
        }
        assert(passes@[i as int] == with_textures(
            before[i as int],
            supplied(before, i as int, start),
        ));
        i = i + 1;
    }
}

/// What gives the textures of a pass their storage.
pub open spec fn init_commands(pass: RenderPass) -> Seq<DrawCommand> {
    (match pass.color_texture {
        Some(targets) => seq![
            DrawCommand::InitTargets {
                targets,
                kind: RenderTargetKind::Color,
                width: pass.max_color_width,
                height: pass.max_color_height,
                layers: pass.color_layers as i32,
            },
        ],
        None => Seq::empty(),
    }) + (match pass.alpha_texture {
        Some(targets) => seq![
            DrawCommand::InitTargets {
                targets,
                kind: RenderTargetKind::Alpha,
                width: pass.max_alpha_width,
                height: pass.max_alpha_height,
                layers: pass.alpha_layers as i32,
            },
        ],
        None => Seq::empty(),
    })
}

pub open spec fn inits_commands(passes: Seq<RenderPass>) -> Seq<DrawCommand>
    decreases passes.len(),
{
    if passes.len() == 0 {
        Seq::empty()
    } else {
        inits_commands(passes.drop_last()) + init_commands(passes.last())
    }
}

/// What begins a frame, once its passes have their textures.
pub open spec fn start_commands(
    passes: Seq<RenderPass>,
    node_data: TextureId,
    render_tasks: TextureId,
) -> Seq<DrawCommand> {
    seq![DrawCommand::Marker(GpuTag::SetupData)] + inits_commands(passes) + seq![
        DrawCommand::BindTexture {
            sampler: TextureSampler::ClipScrollNodes,
            binding: Binding::Texture(node_data),
        },
        DrawCommand::BindTexture {
            sampler: TextureSampler::RenderTasks,
            binding: Binding::Texture(render_tasks),
        },
    ]
}

/// Begins a frame: gives the textures of its passes their storage, and binds what all of
/// them read.
pub fn start_frame(
    out: &mut Vec<DrawCommand>,
    passes: &Vec<RenderPass>,
    node_data: TextureId,
    render_tasks: TextureId,
)
    requires
        forall|i: int|
            0 <= i < passes@.len() ==> (#[trigger] passes@[i]).color_layers <= i32::MAX
                && passes@[i].alpha_layers <= i32::MAX,
    ensures
        final(out)@ == old(out)@ + start_commands(passes@, node_data, render_tasks),
{
    out.push(DrawCommand::Marker(GpuTag::SetupData));
    let ghost begun = out@;
    let mut i: usize = 0;
    assert(out@ =~= begun + inits_commands(passes@.take(0)));
    while i < passes.len()
        invariant
            i <= passes@.len(),
            forall|i: int|
                0 <= i < passes@.len() ==> (#[trigger] passes@[i]).color_layers <= i32::MAX
                    && passes@[i].alpha_layers <= i32::MAX,
            out@ == begun + inits_commands(passes@.take(i as int)),
        decreases passes@.len() - i,
    {
        let ghost next = passes@.take(i as int + 1);
        assert(next.drop_last() =~= passes@.take(i as int));
        let pass = &passes[i];
        let ghost before = out@;
        if let Some(targets) = pass.color_texture {
            out.push(
                DrawCommand::InitTargets {
                    targets,
                    kind: RenderTargetKind::Color,
                    width: pass.max_color_width,
                    height: pass.max_color_height,
                    layers: pass.color_layers as i32,
                },
            );
        }
        if let Some(targets) = pass.alpha_texture {
            out.push(
                DrawCommand::InitTargets {
                    targets,
                    kind: RenderTargetKind::Alpha,
                    width: pass.max_alpha_width,
                    height: pass.max_alpha_height,
                    layers: pass.alpha_layers as i32,
                },
            );
        }
        assert(out@ =~= before + init_commands(*pass));
        i = i + 1;
        assert(out@ =~= begun + inits_commands(next));
    }
    assert(passes@.take(i as int) =~= passes@);
    out.push(
        DrawCommand::BindTexture {
            sampler: TextureSampler::ClipScrollNodes,
            binding: Binding::Texture(node_data),
        },
    );
    out.push(
        DrawCommand::BindTexture {
            sampler: TextureSampler::RenderTasks,
            binding: Binding::Texture(render_tasks),
        },
    );
    assert(out@ =~= old(out)@ + start_commands(passes@, node_data, render_tasks));
}

/// The frame buffers that a frame has used.
pub open spec fn used_outputs(outputs: Seq<FrameOutput>, frame: FrameId) -> Seq<FrameOutput> {
    outputs.filter(|o: FrameOutput| o.last_access == frame)
}

/// What deletes the frame buffers that a frame has not used.
pub open spec fn unused_commands(outputs: Seq<FrameOutput>, frame: FrameId) -> Seq<DrawCommand>
    decreases outputs.len(),
{
    if outputs.len() == 0 {
        Seq::empty()
    } else if outputs.last().last_access == frame {
        unused_commands(outputs.drop_last(), frame)
    } else {
        unused_commands(outputs.drop_last(), frame).push(
            DrawCommand::DeleteFbo { texture: outputs.last().texture },
        )
    }
}

/// Deletes the frame buffers that a frame has not used.
pub fn collect_outputs(
    out: &mut Vec<DrawCommand>,
    outputs: &mut Vec<FrameOutput>,
    frame: FrameId,
)
    ensures
        final(out)@ == old(out)@ + unused_commands(old(outputs)@, frame),
        final(outputs)@ == used_outputs(old(outputs)@, frame),
{
    let mut kept: Vec<FrameOutput> = Vec::new();
    let mut i: usize = 0;
    assert(outputs@.take(0) =~= Seq::<FrameOutput>::empty());
    assert(kept@ =~= used_outputs(outputs@.take(0), frame)) by {
        reveal(Seq::filter);
    }
    assert(out@ =~= old(out)@ + unused_commands(outputs@.take(0), frame));
    while i < outputs.len()
        invariant
            i <= outputs@.len(),
            *outputs == *old(outputs),
            kept@ == used_outputs(outputs@.take(i as int), frame),
            out@ == old(out)@ + unused_commands(outputs@.take(i as int), frame),
        decreases outputs@.len() - i,
    {
        let ghost next = outputs@.take(i as int + 1);
        assert(next.drop_last() =~= outputs@.take(i as int));
        assert(next.last() == outputs@[i as int]);
        proof {
            reveal(Seq::filter);
        }
        let output = outputs[i];
        if output.last_access == frame {
            kept.push(output);
        } else {
            out.push(DrawCommand::DeleteFbo { texture: output.texture });
        }
        i = i + 1;
        assert(kept@ =~= used_outputs(next, frame));
        assert(out@ =~= old(out)@ + unused_commands(next, frame));
    }
    assert(outputs@.take(i as int) =~= outputs@);
    *outputs = kept;
}

fn reverse_pool(pool: &mut Vec<TextureId>)
    ensures
        final(pool)@ == old(pool)@.reverse(),
{
    let mut r: Vec<TextureId> = Vec::new();
    let mut i: usize = pool.len();
    while i > 0
        invariant
            i <= pool@.len(),
            *pool == *old(pool),
            r@ == pool@.reverse().take(pool@.len() - i),
        decreases i,
    {
        i = i - 1;
        r.push(pool[i]);
        assert(r@ =~= pool@.reverse().take(pool@.len() - i));
    }
    assert(r@ =~= pool@.reverse());
    *pool = r;
}

/// What a frame without passes does, or else what begins its passes.
pub open spec fn frame_prelude() -> Seq<DrawCommand> {
    seq![
        DrawCommand::DepthWrite(false),
        DrawCommand::Stencil(false),
        DrawCommand::SetBlend(false),
    ]
}

/// What is shown of a frame to those who debug it.
pub struct FrameDebug {
    pub flags: DebugFlags,
    /// The render targets that have storage before the frame, with their layers that can be
    /// drawn to, and the textures of the texture cache, with all their layers.
    pub targets: Vec<LayeredTexture>,
    pub cache_textures: Vec<LayeredTexture>,
    /// How they are shown where they do not fit beside each other in full size.
    pub shrunk_targets: ShrunkLayers,
    pub shrunk_cache: ShrunkLayers,
}

/// The storage of a texture: what it was given last. A texture without storage has no layers.
pub open spec fn storage(textures: Seq<LayeredTexture>, id: TextureId) -> LayeredTexture
    decreases textures.len(),
{
    if textures.len() == 0 {
        LayeredTexture { texture: id, width: 0, height: 0, layers: 0 }
    } else if textures.last().texture == id {
        textures.last()
    } else {
        storage(textures.drop_last(), id)
    }
}

pub open spec fn storages(textures: Seq<LayeredTexture>, ids: Seq<TextureId>) -> Seq<
    LayeredTexture,
> {
    ids.map_values(|id: TextureId| storage(textures, id))
}

/// The storage that a pass gives to its textures.
pub open spec fn pass_storage(pass: RenderPass) -> Seq<LayeredTexture> {
    (match pass.color_texture {
        Some(texture) => seq![
            LayeredTexture {
                texture,
                width: pass.max_color_width as i32,
                height: pass.max_color_height as i32,
                layers: pass.color_layers,
            },
        ],
        None => Seq::empty(),
    }) + (match pass.alpha_texture {
        Some(texture) => seq![
            LayeredTexture {
                texture,
                width: pass.max_alpha_width as i32,
                height: pass.max_alpha_height as i32,
                layers: pass.alpha_layers,
            },
        ],
        None => Seq::empty(),
    })
}

/// The storage of the render targets once the passes of a frame have theirs.
pub open spec fn target_storage(
    before: Seq<LayeredTexture>,
    passes: Seq<RenderPass>,
) -> Seq<LayeredTexture>
    decreases passes.len(),
{
    if passes.len() == 0 {
        before
    } else {
        target_storage(before, passes.drop_last()) + pass_storage(passes.last())
    }
}

/// The render targets as they are shown, once the passes are drawn and the pools are turned
/// around: those with colors come first.
pub open spec fn shown_targets(
    drawn: FrameState,
    passes: Seq<RenderPass>,
    debug: FrameDebug,
) -> Seq<LayeredTexture> {
    storages(
        target_storage(debug.targets@, passes),
        drawn.color_pool.reverse() + drawn.alpha_pool.reverse(),
    )
}

pub open spec fn shown_cache(drawn: FrameState, debug: FrameDebug) -> Seq<LayeredTexture> {
    storages(debug.cache_textures@, drawn.resolver.cache_texture_map@)
}

/// What is shown has a place on the screen.
pub open spec fn debug_ok(
    drawn: FrameState,
    passes: Seq<RenderPass>,
    frame: FrameContext,
    debug: FrameDebug,
) -> bool {
    &&& debug.flags.render_target_dbg ==> layers_ok(
        shown_targets(drawn, passes, debug),
        frame.framebuffer_width as int,
        debug.shrunk_targets,
    )
    &&& debug.flags.render_target_dbg ==> forall|i: int|
        #![trigger passes[i]]
        0 <= i < passes.len() ==> passes[i].max_color_width <= i32::MAX
            && passes[i].max_color_height <= i32::MAX && passes[i].max_alpha_width <= i32::MAX
            && passes[i].max_alpha_height <= i32::MAX
    &&& debug.flags.texture_cache_dbg ==> layers_ok(
        shown_cache(drawn, debug),
        frame.framebuffer_width as int,
        debug.shrunk_cache,
    )
}

/// The state once a frame is finished. The textures are shown to those who debug it after
/// the pools are turned around, and before frame buffers are deleted.
pub open spec fn frame_finished(
    drawn: FrameState,
    passes: Seq<RenderPass>,
    frame: FrameContext,
    debug: FrameDebug,
) -> FrameState {
    FrameState {
        alpha_pool: drawn.alpha_pool.reverse(),
        color_pool: drawn.color_pool.reverse(),
        outputs: used_outputs(drawn.outputs, frame.frame_id),
        commands: drawn.commands + target_debug_commands(
            debug.flags,
            shown_targets(drawn, passes, debug),
            frame.framebuffer_width as i32,
            debug.shrunk_targets,
        ) + cache_debug_commands(
            debug.flags,
            shown_cache(drawn, debug),
            frame.framebuffer_width as i32,
            debug.shrunk_cache,
        ) + unused_commands(drawn.outputs, frame.frame_id),
        ..drawn
    }
}

fn storage_of(textures: &Vec<LayeredTexture>, id: TextureId) -> (r: LayeredTexture)
    ensures
        r == storage(textures@, id),
{
    let mut i: usize = textures.len();
    assert(textures@.take(i as int) =~= textures@);
    while i > 0
        invariant
            i <= textures@.len(),
            storage(textures@, id) == storage(textures@.take(i as int), id),
        decreases i,
    {
        assert(textures@.take(i as int).drop_last() =~= textures@.take(i - 1));
        i = i - 1;
        if textures[i].texture == id {
            return textures[i];
        }
    }
    LayeredTexture { texture: id, width: 0, height: 0, layers: 0 }
}

/// Adds the storage of textures.
fn push_storages(
    shown: &mut Vec<LayeredTexture>,
    textures: &Vec<LayeredTexture>,
    ids: &Vec<TextureId>,
)
    ensures
        final(shown)@ == old(shown)@ + storages(textures@, ids@),
{
    let mut i: usize = 0;
    assert(shown@ =~= old(shown)@ + storages(textures@, ids@.take(0)));
    while i < ids.len()
        invariant
            i <= ids@.len(),
            shown@ == old(shown)@ + storages(textures@, ids@.take(i as int)),
        decreases ids@.len() - i,
    {
        shown.push(storage_of(textures, ids[i]));
        i = i + 1;
        assert(shown@ =~= old(shown)@ + storages(textures@, ids@.take(i as int)));
    }
    assert(ids@.take(i as int) =~= ids@);
}

fn stored_targets(before: &Vec<LayeredTexture>, passes: &Vec<RenderPass>) -> (r: Vec<
    LayeredTexture,
>)
    ensures
        r@ == target_storage(before@, passes@),
{
    let mut r: Vec<LayeredTexture> = crate::table::copied(before);
    let mut i: usize = 0;
    assert(passes@.take(0) =~= Seq::<RenderPass>::empty());
    while i < passes.len()
        invariant
            i <= passes@.len(),
            r@ == target_storage(before@, passes@.take(i as int)),
        decreases passes@.len() - i,
    {
        let ghost next = passes@.take(i as int + 1);
        let ghost earlier = r@;
        let pass = &passes[i];
        proof {
            assert(next.drop_last() =~= passes@.take(i as int));
            assert(next.last() == *pass);
        }
        if let Some(texture) = pass.color_texture {
            r.push(
                LayeredTexture {
                    texture,
                    width: pass.max_color_width as i32,
                    height: pass.max_color_height as i32,
                    layers: pass.color_layers,
                },
            );
        }
        if let Some(texture) = pass.alpha_texture {
            r.push(
                LayeredTexture {
                    texture,
                    width: pass.max_alpha_width as i32,
                    height: pass.max_alpha_height as i32,
                    layers: pass.alpha_layers,
                },
            );
        }
        assert(r@ =~= earlier + pass_storage(*pass));
        i = i + 1;
    }
    assert(passes@.take(i as int) =~= passes@);
    r
}

fn finish_frame(
    out: &mut Vec<DrawCommand>,
    passes: &Vec<RenderPass>,
    frame: &FrameContext,
    debug: &FrameDebug,
    state: &mut PassState,
)
    requires
        debug_ok(old(state).with(old(out)@), passes@, *frame, *debug),
    ensures
        final(state).with(final(out)@) == frame_finished(
            old(state).with(old(out)@),
            passes@,
            *frame,
            *debug,
        ),
{
    let ghost drawn = state.with(out@);
    reverse_pool(&mut state.color_render_targets);
    reverse_pool(&mut state.alpha_render_targets);
    let mut shown: Vec<LayeredTexture> = Vec::new();
    let mut cache: Vec<LayeredTexture> = Vec::new();
    if debug.flags.render_target_dbg {
        let textures = stored_targets(&debug.targets, passes);
        push_storages(&mut shown, &textures, &state.color_render_targets);
        push_storages(&mut shown, &textures, &state.alpha_render_targets);
        assert(shown@ =~= shown_targets(drawn, passes@, *debug));
    }
    if debug.flags.texture_cache_dbg {
        push_storages(&mut cache, &debug.cache_textures, &state.resolver.cache_texture_map);
        assert(cache@ =~= shown_cache(drawn, *debug));
    }
    let fb_width: i32 = frame.framebuffer_width as i32;
    draw_render_target_debug(out, &debug.flags, &shown, fb_width, &debug.shrunk_targets);
    draw_texture_cache_debug(out, &debug.flags, &cache, fb_width, &debug.shrunk_cache);
    collect_outputs(out, &mut state.output_targets, frame.frame_id);
}

/// What a frame leaves behind.
pub open spec fn frame_drawn(
    passes: Seq<RenderPass>,
    frame: FrameContext,
    tasks: Seq<DrawTask>,
    node_data: TextureId,
    render_tasks: TextureId,
    debug: FrameDebug,
    state: FrameState,
) -> FrameState {
    let prelude = state.commands + frame_prelude();
    if passes.len() == 0 {
        FrameState {
            commands: prelude.push(
                DrawCommand::ClearTarget { color: Some(frame.clear_color), depth: true },
            ),
            ..state
        }
    } else {
        let started = FrameState {
            commands: prelude + start_commands(passes, node_data, render_tasks),
            ..state
        };
        frame_finished(
            passes_drawn(passes, passes.len() as int, frame, tasks, started),
            passes,
            frame,
            debug,
        )
    }
}

/// Draws a frame whose passes have their textures. Without passes the screen is cleared.
/// At the end the pools are turned around, so that the next frame takes the textures in
/// the same order, the textures are shown to those who debug the frame, and frame buffers
/// that were not used are deleted. Gives the images of the embedder that are to be unlocked.
pub fn draw_tile_frame(
    out: &mut Vec<DrawCommand>,
    passes: &Vec<RenderPass>,
    frame: &FrameContext,
    tasks: &Vec<DrawTask>,
    node_data: TextureId,
    render_tasks: TextureId,
    debug: &FrameDebug,
    state: &mut PassState,
) -> (r: Vec<ExternalImageKey>)
    requires
        forall|i: int|
            0 <= i < passes@.len() ==> (#[trigger] passes@[i]).color_layers <= i32::MAX
                && passes@[i].alpha_layers <= i32::MAX,
        passes_ok(
            passes@,
            *frame,
            tasks@,
            old(state).with(
                old(out)@ + frame_prelude() + start_commands(passes@, node_data, render_tasks),
            ),
        ),
        passes@.len() > 0 ==> debug_ok(
            passes_drawn(
                passes@,
                passes@.len() as int,
                *frame,
                tasks@,
                old(state).with(
                    old(out)@ + frame_prelude() + start_commands(
                        passes@,
                        node_data,
                        render_tasks,
                    ),
                ),
            ),
            passes@,
            *frame,
            *debug,
        ),
    ensures
        ({
            let drawn = frame_drawn(
                passes@,
                *frame,
                tasks@,
                node_data,
                render_tasks,
                *debug,
                old(state).with(old(out)@),
            );
            &&& final(state).with(final(out)@) == (FrameState {
                resolver: final(state).resolver,
                ..drawn
            })
            &&& final(state).resolver@ == (ResolverView {
                external_images: Seq::empty(),
                ..drawn.resolver@
            })
            &&& r@ == drawn.resolver@.external_images.map_values(
                |image: (ExternalImageKey, ExternalTexture)| image.0,
            )
        }),
{
    out.push(DrawCommand::DepthWrite(false));
    out.push(DrawCommand::Stencil(false));
    out.push(DrawCommand::SetBlend(false));
    assert(out@ =~= old(out)@ + frame_prelude());
    if passes.len() == 0 {
        out.push(DrawCommand::ClearTarget { color: Some(frame.clear_color), depth: true });
    } else {
        start_frame(out, passes, node_data, render_tasks);
        let ghost started = state.with(out@);
        assert(started == old(state).with(
            old(out)@ + frame_prelude() + start_commands(passes@, node_data, render_tasks),
        ));
        draw_passes(out, passes, frame, state, tasks);
        finish_frame(out, passes, frame, debug, state);
    }
    state.resolver.unlock_external_images()
}

/// A pass reads what the pass before it has drawn, and the last one leaves nothing to be read.
/// The size that goes with the color targets is theirs.
pub proof fn passes_read_the_pass_before(
    pass: RenderPass,
    index: int,
    count: int,
    frame: FrameContext,
    tasks: Seq<DrawTask>,
    state: FrameState,
)
    ensures
        ({
            let after = pass_drawn(pass, index, count, frame, tasks, state);
            let last = index + 1 == count;
            &&& !last ==> after.resolver.cache_a8_texture == pass.alpha_texture
                && after.resolver.cache_rgba8_texture == pass.color_texture
            &&& last ==> after.resolver.cache_a8_texture is None
                && after.resolver.cache_rgba8_texture is None
            &&& !last && pass.color_texture is Some ==> after.cache.width == pass.max_color_width
                && after.cache.height == pass.max_color_height
            &&& last || pass.color_texture is None ==> after.cache.width == 1
                && after.cache.height == 1
            &&& state.commands.is_prefix_of(after.commands)
        }),
{
}

/// A texture is cleared to nothing before it is drawn to. The screen is cleared where that is
/// asked for or the window does not cover it, to the color of the page, or to another
/// where the page has none; and else it is not cleared.
pub proof fn targets_are_cleared_to_their_color(pass: RenderPass, frame: FrameContext)
    ensures
        ({
            let uncovered = frame.window_width < frame.framebuffer_width || frame.window_height
                < frame.framebuffer_height;
            let color = target_clear(pass, frame);
            &&& !pass.is_framebuffer ==> color is Some && color->0.r.0 == 0 && color->0.g.0 == 0
                && color->0.b.0 == 0 && color->0.a.0 == 0
            &&& pass.is_framebuffer ==> {
                &&& color is Some <==> frame.clear_framebuffer || uncovered
                &&& color is Some && frame.background_color is Some ==> color
                    == frame.background_color
                &&& color is Some && frame.background_color is None ==> color == Some(
                    frame.clear_color,
                )
            }
        }),
{
}

/// Each target is a layer of its own, of the texture of its kind, and is projected to the size
/// of that texture. Where a pass has no texture for colors, it draws to the screen; only
/// the last pass is projected as the screen is, from below, in the size of the screen.
pub proof fn targets_are_layers(
    pass: RenderPass,
    i: int,
    j: int,
    frame: FrameContext,
    cache: CacheSize,
)
    requires
        0 <= i < j <= i32::MAX,
    ensures
        ({
            let a = alpha_context(pass, i, cache);
            let c = color_context(pass, i, frame, cache);
            &&& a.render_target != alpha_context(pass, j, cache).render_target
            &&& a.render_target is Some && a.render_target->0.layer == i
            &&& pass.alpha_texture matches Some(t) ==> a.render_target->0.texture == t
            &&& a.width == pass.max_alpha_width && a.height == pass.max_alpha_height
            &&& a.projection.width == a.width && a.projection.height == a.height
            &&& !a.projection.is_screen
            &&& c.render_target is None <==> pass.color_texture is None
            &&& pass.color_texture matches Some(t) ==> {
                &&& c.render_target->0.texture == t
                &&& c.render_target->0.layer == i
                &&& c.render_target != color_context(pass, j, frame, cache).render_target
            }
            &&& c.projection.is_screen == pass.is_framebuffer
            &&& c.projection.width == c.width && c.projection.height == c.height
            &&& pass.is_framebuffer ==> c.width == frame.framebuffer_width && c.height
                == frame.framebuffer_height
            &&& !pass.is_framebuffer ==> c.width == pass.max_color_width && c.height
                == pass.max_color_height
            &&& c.cache_width == cache.width && c.cache_height == cache.height
        }),
{
}

} // verus!
