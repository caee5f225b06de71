//! What a debugger is shown: the batches of a frame, and the textures that it uses.

use crate::renderer::commands::{DrawCommand, InstanceRange, IntRect, TextureLayer};
use crate::renderer::draw::alpha_target::AlphaRenderTarget;
use crate::renderer::draw::color_target::ColorRenderTarget;
use crate::renderer::draw::PrimitiveBatch;
use crate::renderer::frame::RenderPass;
use crate::renderer::textures::{SourceTexture, TextureId};
use crate::renderer::DebugFlags;
use vstd::prelude::*;

verus! {

/// What a batch is a part of.
#[derive(Clone, Copy, Debug, PartialEq, Eq, Structural)]
pub enum DebugBatchKind {
    Clip,
    Cache,
    Opaque,
    Alpha,
}

/// Instances that are drawn at once.
#[derive(Clone, Copy, Debug)]
pub struct DebugBatch {
    pub kind: DebugBatchKind,
    pub description: &'static str,
    pub count: usize,
}

pub type BatchView = (DebugBatchKind, Seq<char>, usize);

/// The batches of a target.
#[derive(Debug)]
pub struct DebugTarget {
    pub kind: &'static str,
    pub batches: Vec<DebugBatch>,
}

/// The targets of a pass.
#[derive(Debug)]
pub struct DebugPass {
    pub targets: Vec<DebugTarget>,
}

pub open spec fn batch_views(batches: Seq<DebugBatch>) -> Seq<BatchView> {
    batches.map_values(|b: DebugBatch| (b.kind, b.description@, b.count))
}

/// The batches with one more, where it has instances.
pub open spec fn with_batch(
    batches: Seq<BatchView>,
    kind: DebugBatchKind,
    description: Seq<char>,
    count: usize,
) -> Seq<BatchView> {
    if count > 0 {
        batches.push((kind, description, count))
    } else {
        batches
    }
}

impl DebugTarget {
    pub open spec fn view(self) -> (Seq<char>, Seq<BatchView>) {
        (self.kind@, batch_views(self.batches@))
    }

    pub fn new(kind: &'static str) -> (r: Self)
        ensures
            r@ == (kind@, Seq::<BatchView>::empty()),
    {
        let r = DebugTarget { kind, batches: Vec::new() };
        assert(batch_views(r.batches@) =~= Seq::<BatchView>::empty());
        r
    }

    /// Adds a batch. Batches without instances are not shown.
    pub fn add_batch(&mut self, kind: DebugBatchKind, description: &'static str, count: usize)
        ensures
            final(self)@ == (
                old(self)@.0,
                with_batch(old(self)@.1, kind, description@, count),
            ),
    {
        if count > 0 {
            self.batches.push(DebugBatch { kind, description, count });
        }
        assert(batch_views(self.batches@) =~= with_batch(old(self)@.1, kind, description@, count));
    }
}

/// The batches with several more of one description.
pub open spec fn with_all(
    batches: Seq<BatchView>,
    kind: DebugBatchKind,
    description: Seq<char>,
    ranges: Seq<(SourceTexture, InstanceRange)>,
) -> Seq<BatchView>
    decreases ranges.len(),
{
    if ranges.len() == 0 {
        batches
    } else {
        with_batch(
            with_all(batches, kind, description, ranges.drop_last()),
            kind,
            description,
            ranges.last().1.count,
        )
    }
}

/// The batches of a target with only alpha.
pub open spec fn alpha_batches(t: AlphaRenderTarget) -> Seq<BatchView> {
    let clip = DebugBatchKind::Clip;
    let cache = DebugBatchKind::Cache;
    let b0 = Seq::<BatchView>::empty();
    let b1 = with_batch(b0, clip, "Clear"@, t.clip_batcher.border_clears.count);
    let b2 = with_batch(b1, clip, "Borders"@, t.clip_batcher.borders.count);
    let b3 = with_batch(b2, cache, "Vertical Blur"@, t.vertical_blurs.count);
    let b4 = with_batch(b3, cache, "Horizontal Blur"@, t.horizontal_blurs.count);
    let b5 = with_batch(b4, clip, "Rectangles"@, t.clip_batcher.rectangles.count);
    let b6 = with_batch(b5, cache, "Rectangle Brush (Corner)"@, t.brush_mask_corners.count);
    let b7 = with_batch(
        b6,
        cache,
        "Rectangle Brush (Rounded Rect)"@,
        t.brush_mask_rounded_rects.count,
    );
    with_all(b7, clip, "Image mask"@, t.clip_batcher.images@)
}

/// Batches that are drawn, with their names.
pub open spec fn named_batches(
    batches: Seq<BatchView>,
    kind: DebugBatchKind,
    drawn: Seq<PrimitiveBatch>,
) -> Seq<BatchView>
    decreases drawn.len(),
{
    if drawn.len() == 0 {
        batches
    } else {
        with_batch(
            named_batches(batches, kind, drawn.drop_last()),
            kind,
            drawn.last().key.kind.spec_debug_name(),
            drawn.last().instances.count,
        )
    }
}

/// The batches of a target with colors. The opaque ones are in the order in which they
/// are drawn.
pub open spec fn color_batches(t: ColorRenderTarget) -> Seq<BatchView> {
    let cache = DebugBatchKind::Cache;
    let b0 = Seq::<BatchView>::empty();
    let b1 = with_batch(b0, cache, "Vertical Blur"@, t.vertical_blurs.count);
    let b2 = with_batch(b1, cache, "Horizontal Blur"@, t.horizontal_blurs.count);
    let b3 = with_all(b2, cache, "Text Shadow"@, t.text_run_cache_prims@);
    let b4 = with_batch(b3, cache, "Lines"@, t.line_cache_prims.count);
    let b5 = named_batches(b4, DebugBatchKind::Opaque, t.opaque_batches@.reverse());
    named_batches(b5, DebugBatchKind::Alpha, t.alpha_batches@)
}

/// The targets of a pass: first those with only alpha.
pub open spec fn is_debug_pass(shown: DebugPass, pass: RenderPass) -> bool {
    let n = pass.alpha_targets@.len();
    &&& shown.targets@.len() == n + pass.color_targets@.len()
    &&& forall|i: int|
        0 <= i < n ==> (#[trigger] shown.targets@[i])@ == (
            "A8"@,
            alpha_batches(pass.alpha_targets@[i]),
        )
    &&& forall|i: int|
        n <= i < shown.targets@.len() ==> (#[trigger] shown.targets@[i])@ == (
            "RGBA8"@,
            color_batches(pass.color_targets@[i - n]),
        )
}

fn add_all(
    target: &mut DebugTarget,
    kind: DebugBatchKind,
    description: &'static str,
    ranges: &Vec<(SourceTexture, InstanceRange)>,
)
    ensures
        final(target)@ == (
            old(target)@.0,
            with_all(old(target)@.1, kind, description@, ranges@),
        ),
{
    let mut i: usize = 0;
    assert(ranges@.take(0) =~= Seq::<(SourceTexture, InstanceRange)>::empty());
    while i < ranges.len()
        invariant
            i <= ranges@.len(),
            target@ == (
                old(target)@.0,
                with_all(old(target)@.1, kind, description@, ranges@.take(i as int)),
            ),
        decreases ranges@.len() - i,
    {
        assert(ranges@.take(i as int + 1).drop_last() =~= ranges@.take(i as int));
        target.add_batch(kind, description, ranges[i].1.count);
        i = i + 1;
    }
    assert(ranges@.take(i as int) =~= ranges@);
}

fn show_alpha_target(t: &AlphaRenderTarget) -> (r: DebugTarget)
    ensures
        r@ == ("A8"@, alpha_batches(*t)),
{
    let clip = DebugBatchKind::Clip;
    let cache = DebugBatchKind::Cache;
    let mut target = DebugTarget::new("A8");
    target.add_batch(clip, "Clear", t.clip_batcher.border_clears.count);
    target.add_batch(clip, "Borders", t.clip_batcher.borders.count);
    target.add_batch(cache, "Vertical Blur", t.vertical_blurs.count);
    target.add_batch(cache, "Horizontal Blur", t.horizontal_blurs.count);
    target.add_batch(clip, "Rectangles", t.clip_batcher.rectangles.count);
    target.add_batch(cache, "Rectangle Brush (Corner)", t.brush_mask_corners.count);
    target.add_batch(cache, "Rectangle Brush (Rounded Rect)", t.brush_mask_rounded_rects.count);
    add_all(&mut target, clip, "Image mask", &t.clip_batcher.images);
    target
}

fn add_named(target: &mut DebugTarget, kind: DebugBatchKind, drawn: &Vec<PrimitiveBatch>)
    ensures
        final(target)@ == (old(target)@.0, named_batches(old(target)@.1, kind, drawn@)),
{
    let mut i: usize = 0;
    assert(drawn@.take(0) =~= Seq::<PrimitiveBatch>::empty());
    while i < drawn.len()
        invariant
            i <= drawn@.len(),
            target@ == (
                old(target)@.0,
                named_batches(old(target)@.1, kind, drawn@.take(i as int)),
            ),
        decreases drawn@.len() - i,
    {
        assert(drawn@.take(i as int + 1).drop_last() =~= drawn@.take(i as int));
        target.add_batch(kind, drawn[i].key.kind.debug_name(), drawn[i].instances.count);
        i = i + 1;
    }
    assert(drawn@.take(i as int) =~= drawn@);
}

fn add_named_reversed(target: &mut DebugTarget, kind: DebugBatchKind, drawn: &Vec<PrimitiveBatch>)
    ensures
        final(target)@ == (
            old(target)@.0,
            named_batches(old(target)@.1, kind, drawn@.reverse()),
        ),
{
    let ghost turned = drawn@.reverse();
    let n: usize = drawn.len();
    let mut i: usize = 0;
    assert(turned.take(0) =~= Seq::<PrimitiveBatch>::empty());
    while i < n
        invariant
            i <= n == drawn@.len(),
            turned == drawn@.reverse(),
            target@ == (
                old(target)@.0,
                named_batches(old(target)@.1, kind, turned.take(i as int)),
            ),
        decreases n - i,
    {
        assert(turned.take(i as int + 1).drop_last() =~= turned.take(i as int));
        assert(turned.take(i as int + 1).last() == drawn@[n - 1 - i]);
        let batch = &drawn[n - 1 - i];
        target.add_batch(kind, batch.key.kind.debug_name(), batch.instances.count);
        i = i + 1;
    }
    assert(turned.take(i as int) =~= turned);
}

fn show_color_target(t: &ColorRenderTarget) -> (r: DebugTarget)
    ensures
        r@ == ("RGBA8"@, color_batches(*t)),
{
    let cache = DebugBatchKind::Cache;
    let mut target = DebugTarget::new("RGBA8");
    target.add_batch(cache, "Vertical Blur", t.vertical_blurs.count);
    target.add_batch(cache, "Horizontal Blur", t.horizontal_blurs.count);
    add_all(&mut target, cache, "Text Shadow", &t.text_run_cache_prims);
    target.add_batch(cache, "Lines", t.line_cache_prims.count);
    add_named_reversed(&mut target, DebugBatchKind::Opaque, &t.opaque_batches);
    add_named(&mut target, DebugBatchKind::Alpha, &t.alpha_batches);
    target
}

fn show_pass(pass: &RenderPass) -> (r: DebugPass)
    ensures
        is_debug_pass(r, *pass),
{
    let mut targets: Vec<DebugTarget> = Vec::new();
    let mut i: usize = 0;
    while i < pass.alpha_targets.len()
        invariant
            i <= pass.alpha_targets@.len(),
            targets@.len() == i,
            forall|j: int|
                0 <= j < i ==> (#[trigger] targets@[j])@ == (
                    "A8"@,
                    alpha_batches(pass.alpha_targets@[j]),
                ),
        decreases pass.alpha_targets@.len() - i,
    {
        targets.push(show_alpha_target(&pass.alpha_targets[i]));
        i = i + 1;
    }
    let ghost n = pass.alpha_targets@.len();
    let mut k: usize = 0;
    while k < pass.color_targets.len()
        invariant
            k <= pass.color_targets@.len(),
            n == pass.alpha_targets@.len(),
            targets@.len() == n + k,
            forall|j: int|
                0 <= j < n ==> (#[trigger] targets@[j])@ == (
                    "A8"@,
                    alpha_batches(pass.alpha_targets@[j]),
                ),
            forall|j: int|
                n <= j < n + k ==> (#[trigger] targets@[j])@ == (
                    "RGBA8"@,
                    color_batches(pass.color_targets@[j - n]),
                ),
        decreases pass.color_targets@.len() - k,
    {
        targets.push(show_color_target(&pass.color_targets[k]));
        k = k + 1;
    }
    DebugPass { targets }
}

/// The batches of a frame, pass by pass.
pub fn get_passes_for_debugger(passes: &Vec<RenderPass>) -> (r: Vec<DebugPass>)
    ensures
        r@.len() == passes@.len(),
        forall|i: int| 0 <= i < r@.len() ==> is_debug_pass(#[trigger] r@[i], passes@[i]),
{
    let mut r: Vec<DebugPass> = Vec::new();
    let mut i: usize = 0;
    while i < passes.len()
        invariant
            i <= passes@.len(),
            r@.len() == i,
            forall|j: int| 0 <= j < i ==> is_debug_pass(#[trigger] r@[j], passes@[j]),
        decreases passes@.len() - i,
    {
        r.push(show_pass(&passes[i]));
        i = i + 1;
    }
    r
}

/// A texture with its size and the number of its layers.
#[derive(Clone, Copy, Debug, PartialEq, Eq, Structural)]
pub struct LayeredTexture {
    pub texture: TextureId,
    pub width: i32,
    pub height: i32,
    pub layers: usize,
}

/// The number of layers of several textures.
pub open spec fn layer_count(textures: Seq<LayeredTexture>) -> int
    decreases textures.len(),
{
    if textures.len() == 0 {
        0
    } else {
        layer_count(textures.drop_last()) + textures.last().layers
    }
}

/// How large layers are shown, and how far from each other.
#[derive(Clone, Copy, Debug, PartialEq, Eq, Structural)]
pub struct LayerLayout {
    pub fb_width: i32,
    pub size: i32,
    pub spacing: i32,
}

/// How layers are shown that do not fit beside each other in full size. Both lengths are
/// those of full size, scaled by the part of the layers that fits, without what follows the
/// point.
#[derive(Clone, Copy, Debug, PartialEq, Eq, Structural)]
pub struct ShrunkLayers {
    pub size: i32,
    pub spacing: i32,
}

/// Layers of full size do not fit beside each other.
pub open spec fn layers_must_shrink(layers: int, fb_width: int) -> bool {
    layers * 528 > fb_width
}

/// How several textures are shown: in full size, where that fits.
pub open spec fn layer_layout(
    textures: Seq<LayeredTexture>,
    fb_width: i32,
    shrunk: ShrunkLayers,
) -> LayerLayout {
    if layers_must_shrink(layer_count(textures), fb_width as int) {
        LayerLayout { fb_width, size: shrunk.size, spacing: shrunk.spacing }
    } else {
        LayerLayout { fb_width, size: 512, spacing: 16 }
    }
}

/// What shows one layer, the `index`th from the right.
pub open spec fn layer_commands(
    texture: LayeredTexture,
    layer: int,
    index: int,
    y: int,
    layout: LayerLayout,
) -> Seq<DrawCommand> {
    seq![
        DrawCommand::BindReadTarget {
            target: Some(TextureLayer { texture: texture.texture, layer: layer as i32 }),
        },
        DrawCommand::Blit {
            src: IntRect { x: 0, y: 0, width: texture.width, height: texture.height },
            dest: IntRect {
                x: (layout.fb_width - (layout.spacing + layout.size) * (index + 1)) as i32,
                y: y as i32,
                width: layout.size,
                height: layout.size,
            },
        },
    ]
}

/// What shows the first layers of a texture.
pub open spec fn texture_layers(
    texture: LayeredTexture,
    layers: int,
    first: int,
    y: int,
    layout: LayerLayout,
) -> Seq<DrawCommand>
    decreases layers,
{
    if layers <= 0 {
        Seq::empty()
    } else {
        texture_layers(texture, layers - 1, first, y, layout) + layer_commands(
            texture,
            layers - 1,
            first + layers - 1,
            y,
            layout,
        )
    }
}

/// What shows all layers of textures, beside each other.
pub open spec fn layers_commands(textures: Seq<LayeredTexture>, y: int, layout: LayerLayout) -> Seq<
    DrawCommand,
>
    decreases textures.len(),
{
    if textures.len() == 0 {
        Seq::empty()
    } else {
        layers_commands(textures.drop_last(), y, layout) + texture_layers(
            textures.last(),
            textures.last().layers as int,
            layer_count(textures.drop_last()),
            y,
            layout,
        )
    }
}

/// The places of all layers can be computed.
pub open spec fn layers_ok(
    textures: Seq<LayeredTexture>,
    fb_width: int,
    shrunk: ShrunkLayers,
) -> bool {
    &&& 0 <= fb_width <= i32::MAX
    &&& 0 <= shrunk.size <= 512
    &&& 0 <= shrunk.spacing <= 16
    &&& layer_count(textures) * 528 <= i32::MAX
}

/// What shows the render targets, where they are to be shown.
pub open spec fn target_debug_commands(
    flags: DebugFlags,
    textures: Seq<LayeredTexture>,
    fb_width: i32,
    shrunk: ShrunkLayers,
) -> Seq<DrawCommand> {
    let layout = layer_layout(textures, fb_width, shrunk);
    if flags.render_target_dbg {
        layers_commands(textures, layout.spacing as int, layout)
    } else {
        Seq::empty()
    }
}

/// What shows the textures of the texture cache, where they are to be shown: above the
/// render targets, where those are shown too.
pub open spec fn cache_debug_commands(
    flags: DebugFlags,
    textures: Seq<LayeredTexture>,
    fb_width: i32,
    shrunk: ShrunkLayers,
) -> Seq<DrawCommand> {
    let layout = layer_layout(textures, fb_width, shrunk);
    let above = if flags.render_target_dbg {
        528int
    } else {
        0int
    };
    if flags.texture_cache_dbg {
        layers_commands(textures, layout.spacing + above, layout)
    } else {
        Seq::empty()
    }
}

proof fn lemma_layers_grow(textures: Seq<LayeredTexture>, n: int)
    requires
        0 <= n <= textures.len(),
    ensures
        0 <= layer_count(textures.take(n)) <= layer_count(textures),
    decreases textures.len(),
{
    if n == textures.len() {
        assert(textures.take(n) =~= textures);
        if n > 0 {
            lemma_layers_grow(textures.drop_last(), n - 1);
        }
    } else {
        lemma_layers_grow(textures.drop_last(), n);
        assert(textures.drop_last().take(n) =~= textures.take(n));
    }
}

fn show_layers(
    out: &mut Vec<DrawCommand>,
    texture: &LayeredTexture,
    first: usize,
    y: i32,
    layout: &LayerLayout,
)
    requires
        0 <= layout.fb_width,
        0 <= layout.size <= 512,
        0 <= layout.spacing <= 16,
        (first + texture.layers) * 528 <= i32::MAX,
    ensures
        final(out)@ == old(out)@ + texture_layers(
            *texture,
            texture.layers as int,
            first as int,
            y as int,
            *layout,
        ),
{
    let step: i32 = layout.spacing + layout.size;
    let mut i: usize = 0;
    assert(out@ =~= old(out)@ + texture_layers(*texture, 0, first as int, y as int, *layout));
    while i < texture.layers
        invariant
            i <= texture.layers,
            0 <= layout.fb_width,
            0 <= step <= 528,
            step == layout.spacing + layout.size,
            (first + texture.layers) * 528 <= i32::MAX,
            out@ == old(out)@ + texture_layers(
                *texture,
                i as int,
                first as int,
                y as int,
                *layout,
            ),
        decreases texture.layers - i,
    {
        let index: i32 = (first + i) as i32;
        assert(0 <= step * (index + 1) <= 528 * (index + 1)) by (nonlinear_arith)
            requires
                0 <= step <= 528,
                0 <= index,
        ;
        let x: i32 = layout.fb_width - step * (index + 1);
        out.push(
            DrawCommand::BindReadTarget {
                target: Some(TextureLayer { texture: texture.texture, layer: i as i32 }),
            },
        );
        out.push(
            DrawCommand::Blit {
                src: IntRect { x: 0, y: 0, width: texture.width, height: texture.height },
                dest: IntRect { x, y, width: layout.size, height: layout.size },
            },
        );
        i = i + 1;
        assert(out@ =~= old(out)@ + texture_layers(
            *texture,
            i as int,
            first as int,
            y as int,
            *layout,
        ));
    }
}

fn count_layers(textures: &Vec<LayeredTexture>) -> (r: usize)
    requires
        layer_count(textures@) * 528 <= i32::MAX,
    ensures
        r == layer_count(textures@),
{
    let mut count: usize = 0;
    let mut i: usize = 0;
    assert(textures@.take(0) =~= Seq::<LayeredTexture>::empty());
    while i < textures.len()
        invariant
            i <= textures@.len(),
            layer_count(textures@) * 528 <= i32::MAX,
            count == layer_count(textures@.take(i as int)),
        decreases textures@.len() - i,
    {
        proof {
            let next = textures@.take(i as int + 1);
            assert(next.drop_last() =~= textures@.take(i as int));
            assert(next.last() == textures@[i as int]);
            lemma_layers_grow(textures@, i as int + 1);
        }
        count = count + textures[i].layers;
        i = i + 1;
    }
    assert(textures@.take(i as int) =~= textures@);
    count
}

fn layout_of(textures: &Vec<LayeredTexture>, fb_width: i32, shrunk: &ShrunkLayers) -> (r:
    LayerLayout)
    requires
        layers_ok(textures@, fb_width as int, *shrunk),
    ensures
        r == layer_layout(textures@, fb_width, *shrunk),
{
    let layers: usize = count_layers(textures);
    if (layers as i64) * 528 > fb_width as i64 {
        LayerLayout { fb_width, size: shrunk.size, spacing: shrunk.spacing }
    } else {
        LayerLayout { fb_width, size: 512, spacing: 16 }
    }
}

fn show_textures(
    out: &mut Vec<DrawCommand>,
    textures: &Vec<LayeredTexture>,
    y: i32,
    layout: &LayerLayout,
)
    requires
        0 <= layout.fb_width,
        0 <= layout.size <= 512,
        0 <= layout.spacing <= 16,
        layer_count(textures@) * 528 <= i32::MAX,
    ensures
        final(out)@ == old(out)@ + layers_commands(textures@, y as int, *layout),
{
    let mut first: usize = 0;
    let mut i: usize = 0;
    assert(out@ =~= old(out)@ + layers_commands(textures@.take(0), y as int, *layout));
    while i < textures.len()
        invariant
            i <= textures@.len(),
            0 <= layout.fb_width,
            0 <= layout.size <= 512,
            0 <= layout.spacing <= 16,
            layer_count(textures@) * 528 <= i32::MAX,
            first == layer_count(textures@.take(i as int)),
            out@ == old(out)@ + layers_commands(textures@.take(i as int), y as int, *layout),
        decreases textures@.len() - i,
    {
        let ghost next = textures@.take(i as int + 1);
        proof {
            assert(next.drop_last() =~= textures@.take(i as int));
            assert(next.last() == textures@[i as int]);
            lemma_layers_grow(textures@, i as int + 1);
        }
        show_layers(out, &textures[i], first, y, layout);
        first = first + textures[i].layers;
        i = i + 1;
        assert(out@ =~= old(out)@ + layers_commands(next, y as int, *layout));
    }
    assert(textures@.take(i as int) =~= textures@);
}

/// Shows the render targets, where they are to be shown: those with colors come first.
pub fn draw_render_target_debug(
    out: &mut Vec<DrawCommand>,
    debug_flags: &DebugFlags,
    targets: &Vec<LayeredTexture>,
    fb_width: i32,
    shrunk: &ShrunkLayers,
)
    requires
        debug_flags.render_target_dbg ==> layers_ok(targets@, fb_width as int, *shrunk),
    ensures
        final(out)@ == old(out)@ + target_debug_commands(
            *debug_flags,
            targets@,
            fb_width,
            *shrunk,
        ),
{
    if debug_flags.render_target_dbg {
        let layout = layout_of(targets, fb_width, shrunk);
        show_textures(out, targets, layout.spacing, &layout);
    }
    assert(out@ =~= old(out)@ + target_debug_commands(*debug_flags, targets@, fb_width, *shrunk));
}

/// Shows the textures of the texture cache, where they are to be shown.
pub fn draw_texture_cache_debug(
    out: &mut Vec<DrawCommand>,
    debug_flags: &DebugFlags,
    textures: &Vec<LayeredTexture>,
    fb_width: i32,
    shrunk: &ShrunkLayers,
)
    requires
        debug_flags.texture_cache_dbg ==> layers_ok(textures@, fb_width as int, *shrunk),
    ensures
        final(out)@ == old(out)@ + cache_debug_commands(
            *debug_flags,
            textures@,
            fb_width,
            *shrunk,
        ),
{
    if debug_flags.texture_cache_dbg {
        let layout = layout_of(textures, fb_width, shrunk);
        let y: i32 = layout.spacing + (if debug_flags.render_target_dbg {
            528
        } else {
            0
        });
        show_textures(out, textures, y, &layout);
    }
    assert(out@ =~= old(out)@ + cache_debug_commands(*debug_flags, textures@, fb_width, *shrunk));
}

} // verus!
