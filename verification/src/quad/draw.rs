//! Drawing quads: one, repeated ones, and those of a border image.

use crate::internal_types::{
    EdgeMask, FloatPoint, GpuTransformId, QuadFlags, RenderTaskId,
};
use crate::quad::batch::{QuadPrimitive, QuadSegment};
use crate::quad::clips::{clips_work, ClipForTask};
use crate::quad::prepare::{
    add_composite_prim, add_plain_quad, composite_command, composite_quad, indirect_ok, opaque_if,
    plain_quad_address, prepare_indirect_pattern, prepare_pattern_source, source_ok,
    with_indirect_quad, with_pattern_source, with_plain_quad, with_segmented_quad, FrameCommand,
    FrameCommandView, IndirectQuad, Pattern, PatternSource, QuadCommand, QuadFrame,
    QuadFrameView,
};
use crate::quad::split::{
    corners_ok, prepare_nine_patch, prepare_tiles, quad_tiles, tiles_ok, with_nine_patch,
    with_tiles, NinePatchCuts, SplitQuad, TileClip, MAX_TILES,
};
use crate::quad::tiles::QuadTileClassifier;
use crate::quad::{
    aa_edges, quad_flags, quad_strategy, repetition_strategy, spec_quad_flags, spec_quad_strategy,
    spec_repetition, ClipSummary, QuadRenderStrategy, QuadTransformState, QuadTransformStateView,
    RepetitionMeasures, RepetitionStrategy,
};
use crate::render_task::gpu_data::{float_rect, to_float_rect};
use crate::render_task::FloatRect;
use crate::units::DeviceIntRect;
use vstd::prelude::*;

verus! {

/// The positions of a quad that is drawn in parts.
#[derive(Clone, Copy, Debug)]
pub struct SplitGeometry {
    pub task_prim: QuadPrimitive,
    pub direct_prim: QuadPrimitive,
    pub composite_rect: FloatRect,
    pub coverage_rect: FloatRect,
}

/// The positions that a strategy needs. The surface rectangle is missing where the
/// quad cannot be mapped to the surface.
pub enum QuadGeometry {
    Direct { prim: QuadPrimitive },
    Indirect {
        surface_rect: Option<DeviceIntRect>,
        prim: QuadPrimitive,
        quad_rect: DeviceIntRect,
        coverage_rect: FloatRect,
    },
    NinePatch { surface_rect: Option<DeviceIntRect>, split: SplitGeometry, cuts: NinePatchCuts },
    Tiled {
        surface_rect: Option<DeviceIntRect>,
        split: SplitGeometry,
        clips: Vec<TileClip>,
    },
}

/// A quad that is to be drawn.
pub struct QuadInputs {
    pub pattern: Pattern,
    pub prim_size: FloatPoint,
    pub aligned_aa_edges: EdgeMask,
    pub transformed_aa_edges: EdgeMask,
    pub prim_instance_index: u32,
    /// From the quad to the target, for a quad that is not merely scaled and moved.
    pub to_raster: GpuTransformId,
    pub clips: Vec<ClipForTask>,
    /// The task that the cache has for the quad.
    pub cached: Option<RenderTaskId>,
    pub geometry: QuadGeometry,
}

/// The geometry is that of the strategy.
pub open spec fn geometry_fits(strategy: QuadRenderStrategy, geometry: QuadGeometry) -> bool {
    match strategy {
        QuadRenderStrategy::Direct => geometry is Direct,
        QuadRenderStrategy::Indirect => geometry is Indirect,
        QuadRenderStrategy::NinePatch { .. } => geometry is NinePatch,
        QuadRenderStrategy::Tiled => geometry is Tiled,
    }
}

pub open spec fn input_edges(q: QuadInputs, t: QuadTransformStateView) -> EdgeMask {
    if t.axis_aligned {
        q.aligned_aa_edges
    } else {
        q.transformed_aa_edges
    }
}

/// Quads that are scaled and moved come in device pixels already.
pub open spec fn input_transform(q: QuadInputs, t: QuadTransformStateView) -> GpuTransformId {
    if t.scale_offset is Some {
        GpuTransformId::spec_identity()
    } else {
        q.to_raster
    }
}

pub open spec fn input_flags(q: QuadInputs, t: QuadTransformStateView) -> QuadFlags {
    spec_quad_flags(q.prim_size, t.scale_offset is Some)
}

/// The frame with a quad that is drawn where it belongs. The surface reads what the
/// quad reads.
pub open spec fn with_direct_quad(
    f: QuadFrameView,
    q: QuadInputs,
    t: QuadTransformStateView,
    prim: QuadPrimitive,
) -> QuadFrameView {
    let f1 = with_plain_quad(f, prim);
    let command = QuadCommand {
        pattern: q.pattern.kind,
        pattern_input: q.pattern.shader_input,
        src_task: q.pattern.texture_input,
        prim_instance_index: q.prim_instance_index,
        address: plain_quad_address(f),
        transform_id: input_transform(q, t),
        quad_flags: opaque_if(input_flags(q, t), q.pattern.is_opaque),
        edge_flags: input_edges(q, t),
    };
    QuadFrameView {
        commands: f1.commands.push(
            FrameCommandView::PushPrim { command, spatial_node: t.prim_node },
        ),
        surface_tasks: if q.pattern.texture_input == RenderTaskId::spec_invalid() {
            f1.surface_tasks
        } else {
            f1.surface_tasks.push(q.pattern.texture_input)
        },
        ..f1
    }
}

pub open spec fn indirect_of(
    q: QuadInputs,
    t: QuadTransformStateView,
    surface_rect: DeviceIntRect,
    prim: QuadPrimitive,
    quad_rect: DeviceIntRect,
    coverage_rect: FloatRect,
) -> IndirectQuad {
    IndirectQuad {
        pattern: q.pattern,
        prim,
        surface_rect,
        quad_rect,
        is_scale_offset: t.scale_offset is Some,
        transform_id: input_transform(q, t),
        quad_flags: input_flags(q, t),
        aa_flags: input_edges(q, t),
        clips: q.clips,
        coverage_rect,
        cached: q.cached,
    }
}

pub open spec fn split_of(
    q: QuadInputs,
    t: QuadTransformStateView,
    split: SplitGeometry,
) -> SplitQuad {
    SplitQuad {
        pattern: q.pattern,
        prim_instance_index: q.prim_instance_index,
        transform_id: input_transform(q, t),
        is_scale_offset: t.scale_offset is Some,
        aa_flags: input_edges(q, t),
        quad_flags: input_flags(q, t),
        clips: q.clips,
        coverage_rect: split.coverage_rect,
        task_prim: split.task_prim,
        direct_prim: split.direct_prim,
        composite_rect: split.composite_rect,
    }
}

/// The pixels that a quad can touch, where it can touch any.
pub open spec fn visible(surface_rect: Option<DeviceIntRect>) -> Option<DeviceIntRect> {
    match surface_rect {
        Some(rect) => if rect.spec_is_empty() {
            None
        } else {
            Some(rect)
        },
        None => None,
    }
}

/// The frame with a quad drawn as its geometry says. A quad that takes a detour and
/// touches no pixel changes nothing.
pub open spec fn with_quad_impl(
    f: QuadFrameView,
    q: QuadInputs,
    t: QuadTransformStateView,
) -> QuadFrameView {
    match q.geometry {
        QuadGeometry::Direct { prim } => with_direct_quad(f, q, t, prim),
        QuadGeometry::Indirect { surface_rect, prim, quad_rect, coverage_rect } => match visible(
            surface_rect,
        ) {
            None => f,
            Some(rect) => {
                let (f1, task) = with_indirect_quad(
                    f,
                    indirect_of(q, t, rect, prim, quad_rect, coverage_rect),
                );
                match task {
                    None => f1,
                    Some(id) => with_segmented_quad(
                        f1,
                        composite_quad(q.pattern.base_color, float_rect(rect)),
                        seq![QuadSegment { rect: float_rect(rect), task_id: id }],
                        composite_command(q.prim_instance_index),
                    ),
                }
            },
        },
        QuadGeometry::NinePatch { surface_rect, split, cuts } => match visible(surface_rect) {
            None => f,
            Some(_) => with_nine_patch(f, split_of(q, t, split), cuts),
        },
        QuadGeometry::Tiled { surface_rect, split, clips } => match visible(surface_rect) {
            None => f,
            Some(rect) => with_tiles(f, split_of(q, t, split), rect, clips@),
        },
    }
}

/// The tasks that the quad needs can be made.
pub open spec fn quad_ok(q: QuadInputs, t: QuadTransformStateView) -> bool {
    match q.geometry {
        QuadGeometry::Direct { .. } => true,
        QuadGeometry::Indirect { surface_rect, prim, quad_rect, coverage_rect } => visible(
            surface_rect,
        ) matches Some(rect) ==> indirect_ok(
            indirect_of(q, t, rect, prim, quad_rect, coverage_rect),
        ),
        QuadGeometry::NinePatch { cuts, .. } => corners_ok(cuts),
        QuadGeometry::Tiled { surface_rect, clips, .. } => visible(surface_rect) matches Some(
            rect,
        ) ==> rect.sized() && tiles_ok(quad_tiles(rect, !(t.scale_offset is Some), clips@)),
    }
}

/// The room that a quad can take up.
pub open spec fn quad_work(q: QuadInputs) -> int {
    (MAX_TILES * (clips_work(q.clips@) + 1) + 3) as int
}

/// Draws a quad as its geometry says.
pub fn prepare_quad_impl(
    q: QuadInputs,
    transform: &QuadTransformState,
    classifier: &mut QuadTileClassifier,
    frame: &mut QuadFrame,
)
    requires
        old(classifier).wf(),
        quad_ok(q, transform@),
        old(frame).room(quad_work(q)),
    ensures
        final(classifier).wf(),
        final(frame)@ == with_quad_impl(old(frame)@, q, transform@),
        final(frame).used(*old(frame), quad_work(q)),
{
    let is_scale_offset: bool = transform.is_2d_scale_offset();
    let transform_id = if is_scale_offset {
        GpuTransformId::identity()
    } else {
        q.to_raster
    };
    let flags = quad_flags(q.prim_size, is_scale_offset);
    let aa_flags = aa_edges(transform, q.aligned_aa_edges, q.transformed_aa_edges);
    match q.geometry {
        QuadGeometry::Direct { prim } => {
            let mut direct_flags = flags;
            if q.pattern.is_opaque {
                direct_flags.is_opaque = true;
            }
            let address = add_plain_quad(&prim, frame);
            let command = QuadCommand {
                pattern: q.pattern.kind,
                pattern_input: q.pattern.shader_input,
                src_task: q.pattern.texture_input,
                prim_instance_index: q.prim_instance_index,
                address,
                transform_id,
                quad_flags: direct_flags,
                edge_flags: aa_flags,
            };
            frame.push_command(
                FrameCommand::PushPrim {
                    command,
                    spatial_node: transform.prim_spatial_node_index(),
                },
            );
            if q.pattern.texture_input != RenderTaskId::invalid() {
                frame.push_surface_task(q.pattern.texture_input);
            }
        },
        QuadGeometry::Indirect { surface_rect, prim, quad_rect, coverage_rect } => {
            if let Some(rect) = surface_rect {
                if !rect.is_empty() {
                    let indirect = IndirectQuad {
                        pattern: q.pattern,
                        prim,
                        surface_rect: rect,
                        quad_rect,
                        is_scale_offset,
                        transform_id,
                        quad_flags: flags,
                        aa_flags,
                        clips: q.clips,
                        coverage_rect,
                        cached: q.cached,
                    };
                    if let Some(id) = prepare_indirect_pattern(&indirect, frame) {
                        let mut segments: Vec<QuadSegment> = Vec::new();
                        segments.push(QuadSegment { rect: to_float_rect(rect), task_id: id });
                        assert(segments@ =~= seq![
                            QuadSegment { rect: float_rect(rect), task_id: id },
                        ]);
                        add_composite_prim(
                            q.pattern.base_color,
                            q.prim_instance_index,
                            to_float_rect(rect),
                            segments,
                            frame,
                        );
                    }
                }
            }
        },
        QuadGeometry::NinePatch { surface_rect, split, cuts } => {
            if let Some(rect) = surface_rect {
                if !rect.is_empty() {
                    let parts = SplitQuad {
                        pattern: q.pattern,
                        prim_instance_index: q.prim_instance_index,
                        transform_id,
                        is_scale_offset,
                        aa_flags,
                        quad_flags: flags,
                        clips: q.clips,
                        coverage_rect: split.coverage_rect,
                        task_prim: split.task_prim,
                        direct_prim: split.direct_prim,
                        composite_rect: split.composite_rect,
                    };
                    prepare_nine_patch(&parts, &cuts, frame);
                }
            }
        },
        QuadGeometry::Tiled { surface_rect, split, clips } => {
            if let Some(rect) = surface_rect {
                if !rect.is_empty() {
                    let parts = SplitQuad {
                        pattern: q.pattern,
                        prim_instance_index: q.prim_instance_index,
                        transform_id,
                        is_scale_offset,
                        aa_flags,
                        quad_flags: flags,
                        clips: q.clips,
                        coverage_rect: split.coverage_rect,
                        task_prim: split.task_prim,
                        direct_prim: split.direct_prim,
                        composite_rect: split.composite_rect,
                    };
                    prepare_tiles(&parts, rect, &clips, classifier, frame);
                }
            }
        },
    }
}

/// Draws a quad with the strategy that its clips call for. Only a quad that has a key is
/// looked for in the cache, and is then drawn to a task.
pub fn prepare_quad(
    q: QuadInputs,
    is_cached: bool,
    clips: &ClipSummary,
    transform: &QuadTransformState,
    classifier: &mut QuadTileClassifier,
    frame: &mut QuadFrame,
) -> (r: QuadRenderStrategy)
    requires
        old(classifier).wf(),
        geometry_fits(
            spec_quad_strategy(is_cached, *clips, transform@.scale_offset is Some),
            q.geometry,
        ),
        q.cached is Some ==> is_cached,
        quad_ok(q, transform@),
        old(frame).room(quad_work(q)),
    ensures
        r == spec_quad_strategy(is_cached, *clips, transform@.scale_offset is Some),
        final(classifier).wf(),
        final(frame)@ == with_quad_impl(old(frame)@, q, transform@),
        final(frame).used(*old(frame), quad_work(q)),
{
    let strategy = quad_strategy(is_cached, clips, transform.is_2d_scale_offset());
    prepare_quad_impl(q, transform, classifier, frame);
    strategy
}

/// A quad together with the edges that are on the outside of what it is a part of.
pub struct RepeatedQuad {
    pub quad: QuadInputs,
    pub outer_edges: EdgeMask,
}

/// A quad whose pattern may be smaller than itself, prepared as its repetition
/// strategy asks for.
pub enum RepeatableQuad {
    Single { quad: QuadInputs },
    /// The quad reads the task that is repeated.
    RepeatTask { quad: QuadInputs },
    /// The pattern is drawn to a task, or taken from the cache, and the quad is to read it.
    RepeatPattern { source: PatternSource, cached: Option<RenderTaskId>, quad: QuadInputs },
    Duplicate { quads: Vec<RepeatedQuad> },
}

pub open spec fn repetition_fits(strategy: RepetitionStrategy, quad: RepeatableQuad) -> bool {
    match strategy {
        RepetitionStrategy::Single => quad is Single,
        RepetitionStrategy::RepeatTask => quad is RepeatTask,
        RepetitionStrategy::RepeatPattern => quad is RepeatPattern,
        RepetitionStrategy::Duplicate => quad is Duplicate,
    }
}

/// The geometry of each quad that is drawn is that of the strategy.
pub open spec fn repeatable_fits(strategy: QuadRenderStrategy, r: RepeatableQuad) -> bool {
    match r {
        RepeatableQuad::Single { quad } => geometry_fits(strategy, quad.geometry),
        RepeatableQuad::RepeatTask { quad } => geometry_fits(strategy, quad.geometry),
        RepeatableQuad::RepeatPattern { quad, .. } => geometry_fits(strategy, quad.geometry),
        RepeatableQuad::Duplicate { quads } => forall|i: int|
            0 <= i < quads@.len() ==> geometry_fits(
                strategy,
                (#[trigger] quads@[i]).quad.geometry,
            ),
    }
}

/// The task that the cache has for what may be taken from it.
pub open spec fn from_cache(r: RepeatableQuad) -> Option<RenderTaskId> {
    match r {
        RepeatableQuad::Single { quad } => quad.cached,
        RepeatableQuad::RepeatPattern { cached, .. } => cached,
        _ => None,
    }
}

pub open spec fn prim_reading(prim: QuadPrimitive, task: RenderTaskId) -> QuadPrimitive {
    QuadPrimitive { input_task: task, ..prim }
}

pub open spec fn split_reading(split: SplitGeometry, task: RenderTaskId) -> SplitGeometry {
    SplitGeometry {
        task_prim: prim_reading(split.task_prim, task),
        direct_prim: prim_reading(split.direct_prim, task),
        ..split
    }
}

/// The quad, reading a task.
pub open spec fn quad_reading(q: QuadInputs, task: RenderTaskId) -> QuadInputs {
    QuadInputs {
        pattern: Pattern { texture_input: task, ..q.pattern },
        geometry: match q.geometry {
            QuadGeometry::Direct { prim } => QuadGeometry::Direct {
                prim: prim_reading(prim, task),
            },
            QuadGeometry::Indirect { surface_rect, prim, quad_rect, coverage_rect } =>
                QuadGeometry::Indirect {
                surface_rect,
                prim: prim_reading(prim, task),
                quad_rect,
                coverage_rect,
            },
            QuadGeometry::NinePatch { surface_rect, split, cuts } => QuadGeometry::NinePatch {
                surface_rect,
                split: split_reading(split, task),
                cuts,
            },
            QuadGeometry::Tiled { surface_rect, split, clips } => QuadGeometry::Tiled {
                surface_rect,
                split: split_reading(split, task),
                clips,
            },
        },
        ..q
    }
}

/// A repeated quad is never taken from the cache.
pub open spec fn uncached(q: QuadInputs) -> QuadInputs {
    QuadInputs { cached: None, ..q }
}

pub open spec fn common_edges(a: EdgeMask, b: EdgeMask) -> EdgeMask {
    EdgeMask {
        left: a.left && b.left,
        top: a.top && b.top,
        right: a.right && b.right,
        bottom: a.bottom && b.bottom,
    }
}

/// One of several quads: only edges on the outside are smoothed.
pub open spec fn repeated_of(r: RepeatedQuad) -> QuadInputs {
    QuadInputs {
        aligned_aa_edges: common_edges(r.quad.aligned_aa_edges, r.outer_edges),
        transformed_aa_edges: common_edges(r.quad.transformed_aa_edges, r.outer_edges),
        cached: None,
        ..r.quad
    }
}

/// The frame with several quads, one after the other.
pub open spec fn with_repeated(
    f: QuadFrameView,
    quads: Seq<RepeatedQuad>,
    t: QuadTransformStateView,
) -> QuadFrameView
    decreases quads.len(),
{
    if quads.len() == 0 {
        f
    } else {
        with_quad_impl(with_repeated(f, quads.drop_last(), t), repeated_of(quads.last()), t)
    }
}

/// The frame with a quad whose pattern is drawn to a task first; nothing more where
/// the pattern has no pixels.
pub open spec fn with_sourced_quad(
    f: QuadFrameView,
    source: PatternSource,
    cached: Option<RenderTaskId>,
    quad: QuadInputs,
    t: QuadTransformStateView,
) -> QuadFrameView {
    let (f1, task) = with_pattern_source(f, source, cached);
    match task {
        None => f1,
        Some(id) => with_quad_impl(f1, uncached(quad_reading(quad, id)), t),
    }
}

pub open spec fn with_repeatable(
    f: QuadFrameView,
    r: RepeatableQuad,
    t: QuadTransformStateView,
) -> QuadFrameView {
    match r {
        RepeatableQuad::Single { quad } => with_quad_impl(f, quad, t),
        RepeatableQuad::RepeatTask { quad } => with_quad_impl(f, uncached(quad), t),
        RepeatableQuad::RepeatPattern { source, cached, quad } => with_sourced_quad(
            f,
            source,
            cached,
            quad,
            t,
        ),
        RepeatableQuad::Duplicate { quads } => with_repeated(f, quads@, t),
    }
}

pub open spec fn repeated_work(quads: Seq<RepeatedQuad>) -> int
    decreases quads.len(),
{
    if quads.len() == 0 {
        0
    } else {
        repeated_work(quads.drop_last()) + quad_work(quads.last().quad)
    }
}

pub open spec fn sourced_work(quad: QuadInputs) -> int {
    2 + quad_work(quad)
}

pub open spec fn repeatable_work(r: RepeatableQuad) -> int {
    match r {
        RepeatableQuad::Single { quad } => quad_work(quad),
        RepeatableQuad::RepeatTask { quad } => quad_work(quad),
        RepeatableQuad::RepeatPattern { quad, .. } => sourced_work(quad),
        RepeatableQuad::Duplicate { quads } => repeated_work(quads@),
    }
}

/// What is to be drawn can be drawn, whatever task it reads and with fewer smoothed
/// edges too.
pub open spec fn quad_ok_always(q: QuadInputs, t: QuadTransformStateView) -> bool {
    forall|other: QuadInputs|
        #![trigger quad_ok(other, t)]
        other.clips == q.clips && same_places(other.geometry, q.geometry) ==> quad_ok(other, t)
}

/// The two geometries differ at most in the tasks that are read.
pub open spec fn same_places(a: QuadGeometry, b: QuadGeometry) -> bool {
    match (a, b) {
        (QuadGeometry::Direct { .. }, QuadGeometry::Direct { .. }) => true,
        (
            QuadGeometry::Indirect { surface_rect: s1, quad_rect: q1, .. },
            QuadGeometry::Indirect { surface_rect: s2, quad_rect: q2, .. },
        ) => s1 == s2 && q1 == q2,
        (
            QuadGeometry::NinePatch { cuts: c1, .. },
            QuadGeometry::NinePatch { cuts: c2, .. },
        ) => c1 == c2,
        (
            QuadGeometry::Tiled { surface_rect: s1, clips: c1, .. },
            QuadGeometry::Tiled { surface_rect: s2, clips: c2, .. },
        ) => s1 == s2 && c1 == c2,
        _ => false,
    }
}

pub open spec fn repeatable_ok(r: RepeatableQuad, t: QuadTransformStateView) -> bool {
    match r {
        RepeatableQuad::Single { quad } => quad_ok_always(quad, t),
        RepeatableQuad::RepeatTask { quad } => quad_ok_always(quad, t),
        RepeatableQuad::RepeatPattern { source, quad, .. } => source_ok(source) && quad_ok_always(
            quad,
            t,
        ),
        RepeatableQuad::Duplicate { quads } => forall|i: int|
            0 <= i < quads@.len() ==> quad_ok_always((#[trigger] quads@[i]).quad, t),
    }
}

fn read_task(prim: QuadPrimitive, task: RenderTaskId) -> (r: QuadPrimitive)
    ensures
        r == prim_reading(prim, task),
{
    QuadPrimitive { input_task: task, ..prim }
}

fn split_read_task(split: SplitGeometry, task: RenderTaskId) -> (r: SplitGeometry)
    ensures
        r == split_reading(split, task),
{
    SplitGeometry {
        task_prim: read_task(split.task_prim, task),
        direct_prim: read_task(split.direct_prim, task),
        composite_rect: split.composite_rect,
        coverage_rect: split.coverage_rect,
    }
}

/// The quad, reading a task and not taken from the cache.
fn quad_read_task(q: QuadInputs, task: RenderTaskId) -> (r: QuadInputs)
    ensures
        r == uncached(quad_reading(q, task)),
{
    let geometry = match q.geometry {
        QuadGeometry::Direct { prim } => QuadGeometry::Direct { prim: read_task(prim, task) },
        QuadGeometry::Indirect { surface_rect, prim, quad_rect, coverage_rect } => {
            QuadGeometry::Indirect {
                surface_rect,
                prim: read_task(prim, task),
                quad_rect,
                coverage_rect,
            }
        },
        QuadGeometry::NinePatch { surface_rect, split, cuts } => QuadGeometry::NinePatch {
            surface_rect,
            split: split_read_task(split, task),
            cuts,
        },
        QuadGeometry::Tiled { surface_rect, split, clips } => QuadGeometry::Tiled {
            surface_rect,
            split: split_read_task(split, task),
            clips,
        },
    };
    QuadInputs {
        pattern: Pattern { texture_input: task, ..q.pattern },
        prim_size: q.prim_size,
        aligned_aa_edges: q.aligned_aa_edges,
        transformed_aa_edges: q.transformed_aa_edges,
        prim_instance_index: q.prim_instance_index,
        to_raster: q.to_raster,
        clips: q.clips,
        cached: None,
        geometry,
    }
}

fn edges_in_common(a: EdgeMask, b: EdgeMask) -> (r: EdgeMask)
    ensures
        r == common_edges(a, b),
{
    EdgeMask {
        left: a.left && b.left,
        top: a.top && b.top,
        right: a.right && b.right,
        bottom: a.bottom && b.bottom,
    }
}

/// Draws a quad whose pattern is drawn to a task first.
fn prepare_sourced_quad(
    source: &PatternSource,
    cached: Option<RenderTaskId>,
    quad: QuadInputs,
    transform: &QuadTransformState,
    classifier: &mut QuadTileClassifier,
    frame: &mut QuadFrame,
)
    requires
        old(classifier).wf(),
        source_ok(*source),
        quad_ok_always(quad, transform@),
        old(frame).room(sourced_work(quad)),
    ensures
        final(classifier).wf(),
        final(frame)@ == with_sourced_quad(old(frame)@, *source, cached, quad, transform@),
        final(frame).used(*old(frame), sourced_work(quad)),
{
    if let Some(id) = prepare_pattern_source(source, cached, frame) {
        let reading = quad_read_task(quad, id);
        assert(quad_ok(reading, transform@));
        prepare_quad_impl(reading, transform, classifier, frame);
    }
}

/// Draws quads one after the other.
fn prepare_repeated(
    quads: Vec<RepeatedQuad>,
    transform: &QuadTransformState,
    classifier: &mut QuadTileClassifier,
    frame: &mut QuadFrame,
)
    requires
        old(classifier).wf(),
        forall|i: int|
            0 <= i < quads@.len() ==> quad_ok_always((#[trigger] quads@[i]).quad, transform@),
        old(frame).room(repeated_work(quads@)),
    ensures
        final(classifier).wf(),
        final(frame)@ == with_repeated(old(frame)@, quads@, transform@),
        final(frame).used(*old(frame), repeated_work(quads@)),
    decreases quads@.len(),
{
    let mut rest = quads;
    match rest.pop() {
        None => {},
        Some(last) => {
            assert(rest@ =~= quads@.drop_last());
            assert(quad_ok_always(quads@[quads@.len() - 1].quad, transform@));
            assert forall|i: int| 0 <= i < rest@.len() implies quad_ok_always(
                (#[trigger] rest@[i]).quad,
                transform@,
            ) by {
                assert(rest@[i] == quads@[i]);
            }
            let ghost work = quad_work(last.quad);
            assert(work >= 0);
            prepare_repeated(rest, transform, classifier, frame);
            let q = last.quad;
            let edges = last.outer_edges;
            let quad = QuadInputs {
                pattern: q.pattern,
                prim_size: q.prim_size,
                aligned_aa_edges: edges_in_common(q.aligned_aa_edges, edges),
                transformed_aa_edges: edges_in_common(q.transformed_aa_edges, edges),
                prim_instance_index: q.prim_instance_index,
                to_raster: q.to_raster,
                clips: q.clips,
                cached: None,
                geometry: q.geometry,
            };
            assert(quad_ok(quad, transform@));
            prepare_quad_impl(quad, transform, classifier, frame);
        },
    }
}

/// Draws a quad whose pattern may have to be repeated. One strategy tells how it is
/// repeated, and another, the one that the clips of the whole quad call for, how each quad
/// is drawn. Only a quad that its pattern fills, and a pattern that is drawn to a task to be
/// repeated, are taken from the cache.
pub fn prepare_repeatable_quad(
    measures: &RepetitionMeasures,
    quad: RepeatableQuad,
    is_cached: bool,
    clips: &ClipSummary,
    transform: &QuadTransformState,
    classifier: &mut QuadTileClassifier,
    frame: &mut QuadFrame,
) -> (r: (RepetitionStrategy, QuadRenderStrategy))
    requires
        old(classifier).wf(),
        repetition_fits(spec_repetition(*measures), quad),
        repeatable_fits(
            spec_quad_strategy(is_cached, *clips, transform@.scale_offset is Some),
            quad,
        ),
        from_cache(quad) is Some ==> is_cached,
        repeatable_ok(quad, transform@),
        old(frame).room(repeatable_work(quad)),
    ensures
        r.0 == spec_repetition(*measures),
        r.1 == spec_quad_strategy(is_cached, *clips, transform@.scale_offset is Some),
        final(classifier).wf(),
        final(frame)@ == with_repeatable(old(frame)@, quad, transform@),
        final(frame).used(*old(frame), repeatable_work(quad)),
{
    let repetition = repetition_strategy(measures);
    let strategy = quad_strategy(is_cached, clips, transform.is_2d_scale_offset());
    match quad {
        RepeatableQuad::Single { quad: q } => {
            assert(quad_ok(q, transform@));
            prepare_quad_impl(q, transform, classifier, frame);
        },
        RepeatableQuad::RepeatTask { quad: q } => {
            let single = QuadInputs { cached: None, ..q };
            assert(quad_ok(single, transform@));
            prepare_quad_impl(single, transform, classifier, frame);
        },
        RepeatableQuad::RepeatPattern { source, cached, quad: q } => {
            prepare_sourced_quad(&source, cached, q, transform, classifier, frame);
        },
        RepeatableQuad::Duplicate { quads } => {
            prepare_repeated(quads, transform, classifier, frame);
        },
    }
    (repetition, strategy)
}

/// A part of a border image: its pattern, drawn to a task, and the quad that reads it.
pub struct BorderImageSegment {
    pub source: PatternSource,
    pub part: RepeatedQuad,
}

/// The quad of a part, which is opaque where its pattern is.
pub open spec fn border_part(segment: BorderImageSegment) -> QuadInputs {
    let q = repeated_of(segment.part);
    QuadInputs {
        pattern: Pattern { is_opaque: segment.source.pattern.is_opaque, ..q.pattern },
        ..q
    }
}

/// The frame with the parts of a border image.
pub open spec fn with_border_image(
    f: QuadFrameView,
    segments: Seq<BorderImageSegment>,
    t: QuadTransformStateView,
) -> QuadFrameView
    decreases segments.len(),
{
    if segments.len() == 0 {
        f
    } else {
        with_sourced_quad(
            with_border_image(f, segments.drop_last(), t),
            segments.last().source,
            None,
            border_part(segments.last()),
            t,
        )
    }
}

pub open spec fn border_image_work(segments: Seq<BorderImageSegment>) -> int
    decreases segments.len(),
{
    if segments.len() == 0 {
        0
    } else {
        border_image_work(segments.drop_last()) + sourced_work(segments.last().part.quad)
    }
}

/// Draws the parts of a border image, each by way of a task for its pattern, and with the
/// strategy that the clips of the image call for. A part whose pattern has no pixels is left
/// out.
pub fn prepare_border_image_nine_patch(
    segments: Vec<BorderImageSegment>,
    clips: &ClipSummary,
    transform: &QuadTransformState,
    classifier: &mut QuadTileClassifier,
    frame: &mut QuadFrame,
) -> (r: QuadRenderStrategy)
    requires
        old(classifier).wf(),
        forall|i: int|
            0 <= i < segments@.len() ==> geometry_fits(
                spec_quad_strategy(false, *clips, transform@.scale_offset is Some),
                (#[trigger] segments@[i]).part.quad.geometry,
            ),
        forall|i: int|
            0 <= i < segments@.len() ==> source_ok((#[trigger] segments@[i]).source)
                && quad_ok_always(segments@[i].part.quad, transform@),
        old(frame).room(border_image_work(segments@)),
    ensures
        r == spec_quad_strategy(false, *clips, transform@.scale_offset is Some),
        final(classifier).wf(),
        final(frame)@ == with_border_image(old(frame)@, segments@, transform@),
        final(frame).used(*old(frame), border_image_work(segments@)),
{
    prepare_border_parts(segments, transform, classifier, frame);
    quad_strategy(false, clips, transform.is_2d_scale_offset())
}

/// Draws the parts of a border image one after the other.
fn prepare_border_parts(
    segments: Vec<BorderImageSegment>,
    transform: &QuadTransformState,
    classifier: &mut QuadTileClassifier,
    frame: &mut QuadFrame,
)
    requires
        old(classifier).wf(),
        forall|i: int|
            0 <= i < segments@.len() ==> source_ok((#[trigger] segments@[i]).source)
                && quad_ok_always(segments@[i].part.quad, transform@),
        old(frame).room(border_image_work(segments@)),
    ensures
        final(classifier).wf(),
        final(frame)@ == with_border_image(old(frame)@, segments@, transform@),
        final(frame).used(*old(frame), border_image_work(segments@)),
    decreases segments@.len(),
{
    let mut rest = segments;
    match rest.pop() {
        None => {},
        Some(last) => {
            assert(rest@ =~= segments@.drop_last());
            assert(quad_ok_always(segments@[segments@.len() - 1].part.quad, transform@));
            assert forall|i: int| 0 <= i < rest@.len() implies source_ok(
                (#[trigger] rest@[i]).source,
            ) && quad_ok_always(rest@[i].part.quad, transform@) by {
                assert(rest@[i] == segments@[i]);
            }
            assert(sourced_work(last.part.quad) >= 0);
            prepare_border_parts(rest, transform, classifier, frame);
            let q = last.part.quad;
            let edges = last.part.outer_edges;
            let quad = QuadInputs {
                pattern: Pattern { is_opaque: last.source.pattern.is_opaque, ..q.pattern },
                prim_size: q.prim_size,
                aligned_aa_edges: edges_in_common(q.aligned_aa_edges, edges),
                transformed_aa_edges: edges_in_common(q.transformed_aa_edges, edges),
                prim_instance_index: q.prim_instance_index,
                to_raster: q.to_raster,
                clips: q.clips,
                cached: None,
                geometry: q.geometry,
            };
            prepare_sourced_quad(&last.source, None, quad, transform, classifier, frame);
        },
    }
}

} // verus!
