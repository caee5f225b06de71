//! A render target, and how a task is added to it.

use crate::float_bits::{f32_bits, FloatBits, ONE_BITS};
use crate::grouped::{with_value, with_values, Grouped};
use crate::internal_types::{
    BlurEdgeMode, CacheTextureId, ColorF, CommandBufferIndex, FloatPoint, LineOrientation,
    LineStyle, QuadFlags, RenderTargetKind, RenderTaskId, SpatialNodeIndex, TextureSource,
};
use crate::quad::batch::{quad_texture, QuadInstance};
use crate::render_target::filters::{
    add_svg_filter_node_instances, filter_batches, filter_instance, filter_ok, filter_textures,
    inner_box, inner_box_fits, spec_inner_box, with_filter, FilterBatch, FilterBatchView,
    FilterInputContents,
};
use crate::render_target::{
    add_image_clip_task_to_batch, add_rect_clip_task_to_batch, draw_quad, has_header_room,
    image_clip_draw, insert_all, only_headers, quad_draw_blocks, quad_draw_instances,
    rect_clip_draw, with_image_clip, with_rect_clip, AlphaBatchContainer, BlitJob, BlurInstance,
    ClipMaskInstanceList, ClipMasksView, ClipWork, LineDecorationJob, QuadDraw, ScalingInstance,
    ScissorPattern, BLUR_HORIZONTAL, BLUR_VERTICAL, INVALID_SEGMENT, NUM_PATTERNS, STYLE_MASK,
    STYLE_SOLID, UV_TYPE_NORMALIZED, UV_TYPE_UNNORMALIZED,
};
use crate::render_task::gpu_data::{coord_bits, float_rect, to_float_rect};
use crate::render_task::{
    BlurTask, BorderInstance, FloatRect, PictureTask, PrimTask, RenderTask, RenderTaskAddress,
    RenderTaskKind, ResolveOp, ScalingTask, SubTask,
};
use crate::render_task_graph::RenderTaskGraph;
use crate::renderer::gpu_buffer::{GpuBufferBlockI, GpuBufferBuilder};
use crate::task_dependencies::dependency_ids;
use crate::units::{DeviceIntRect, DeviceIntSize};
use vstd::prelude::*;

verus! {

/// Everything that fills one render target.
pub struct RenderTarget {
    pub target_kind: RenderTargetKind,
    /// The target outlives the frame, so that nothing of it is cleared but what a task
    /// asks for.
    pub cached: bool,
    pub screen_size: DeviceIntSize,
    pub texture_id: CacheTextureId,
    pub alpha_batch_containers: Vec<AlphaBatchContainer>,
    pub vertical_blurs: Grouped<TextureSource, BlurInstance>,
    pub horizontal_blurs: Grouped<TextureSource, BlurInstance>,
    pub scalings: Grouped<TextureSource, ScalingInstance>,
    pub svg_nodes: Vec<FilterBatch>,
    pub blits: Vec<BlitJob>,
    /// The pictures that are drawn to the target.
    pub alpha_tasks: Vec<RenderTaskId>,
    pub resolve_ops: Vec<ResolveOp>,
    /// By pattern, and by texture.
    pub prim_instances: Vec<Grouped<TextureSource, QuadInstance>>,
    pub prim_instances_with_scissor: Grouped<ScissorPattern, QuadInstance>,
    pub clip_masks: ClipMaskInstanceList,
    pub border_segments_complex: Vec<BorderInstance>,
    pub border_segments_solid: Vec<BorderInstance>,
    pub line_decorations: Vec<LineDecorationJob>,
    /// What the batcher of clip masks is given.
    pub clip_work: Vec<ClipWork>,
    /// What must be cleared, also where the whole target is cleared to another color.
    pub clears: Vec<(DeviceIntRect, ColorF)>,
    /// The part of the target that is used, where it is known.
    pub used_rect: Option<DeviceIntRect>,
    /// What the whole target is cleared to.
    pub clear_color: Option<ColorF>,
}

/// A render target as a mathematical value.
#[verifier::ext_equal]
pub struct RenderTargetView {
    pub target_kind: RenderTargetKind,
    pub cached: bool,
    pub screen_size: DeviceIntSize,
    pub texture_id: CacheTextureId,
    pub alpha_batch_containers: Seq<AlphaBatchContainer>,
    pub vertical_blurs: Seq<(TextureSource, Seq<BlurInstance>)>,
    pub horizontal_blurs: Seq<(TextureSource, Seq<BlurInstance>)>,
    pub scalings: Seq<(TextureSource, Seq<ScalingInstance>)>,
    pub svg_nodes: Seq<FilterBatchView>,
    pub blits: Seq<BlitJob>,
    pub alpha_tasks: Seq<RenderTaskId>,
    pub resolve_ops: Seq<(Seq<RenderTaskId>, RenderTaskId)>,
    pub prim_instances: Seq<Seq<(TextureSource, Seq<QuadInstance>)>>,
    pub prim_instances_with_scissor: Seq<(ScissorPattern, Seq<QuadInstance>)>,
    pub clip_masks: ClipMasksView,
    pub border_segments_complex: Seq<BorderInstance>,
    pub border_segments_solid: Seq<BorderInstance>,
    pub line_decorations: Seq<LineDecorationJob>,
    pub clip_work: Seq<ClipWork>,
    pub clears: Seq<(DeviceIntRect, ColorF)>,
    pub used_rect: Option<DeviceIntRect>,
    pub clear_color: Option<ColorF>,
}

pub open spec fn resolve_view(op: ResolveOp) -> (Seq<RenderTaskId>, RenderTaskId) {
    (op.src_task_ids@, op.dest_task_id)
}

impl RenderTarget {
    pub open spec fn view(self) -> RenderTargetView {
        RenderTargetView {
            target_kind: self.target_kind,
            cached: self.cached,
            screen_size: self.screen_size,
            texture_id: self.texture_id,
            alpha_batch_containers: self.alpha_batch_containers@,
            vertical_blurs: self.vertical_blurs@,
            horizontal_blurs: self.horizontal_blurs@,
            scalings: self.scalings@,
            svg_nodes: filter_batches(self.svg_nodes@),
            blits: self.blits@,
            alpha_tasks: self.alpha_tasks@,
            resolve_ops: self.resolve_ops@.map_values(|op: ResolveOp| resolve_view(op)),
            prim_instances: self.prim_instances@.map_values(
                |g: Grouped<TextureSource, QuadInstance>| g@,
            ),
            prim_instances_with_scissor: self.prim_instances_with_scissor@,
            clip_masks: self.clip_masks@,
            border_segments_complex: self.border_segments_complex@,
            border_segments_solid: self.border_segments_solid@,
            line_decorations: self.line_decorations@,
            clip_work: self.clip_work@,
            clears: self.clears@,
            used_rect: self.used_rect,
            clear_color: self.clear_color,
        }
    }

    /// There is a list for each pattern, and every key occurs once in its list.
    pub open spec fn wf(self) -> bool {
        &&& self.prim_instances@.len() == NUM_PATTERNS
        &&& forall|i: int| 0 <= i < NUM_PATTERNS ==> (#[trigger] self.prim_instances@[i]).wf()
        &&& self.prim_instances_with_scissor.wf()
        &&& self.vertical_blurs.wf()
        &&& self.horizontal_blurs.wf()
        &&& self.scalings.wf()
        &&& self.clip_masks.wf()
    }

    /// A target to which nothing is drawn yet, and which is cleared to nothing.
    pub fn new(
        target_kind: RenderTargetKind,
        cached: bool,
        texture_id: CacheTextureId,
        screen_size: DeviceIntSize,
        used_rect: Option<DeviceIntRect>,
    ) -> (r: Self)
        ensures
            r.wf(),
            r@ == (RenderTargetView {
                target_kind,
                cached,
                screen_size,
                texture_id,
                alpha_batch_containers: Seq::empty(),
                vertical_blurs: Seq::empty(),
                horizontal_blurs: Seq::empty(),
                scalings: Seq::empty(),
                svg_nodes: Seq::empty(),
                blits: Seq::empty(),
                alpha_tasks: Seq::empty(),
                resolve_ops: Seq::empty(),
                prim_instances: Seq::new(NUM_PATTERNS as nat, |i: int| Seq::empty()),
                prim_instances_with_scissor: Seq::empty(),
                clip_masks: ClipMasksView {
                    fast: Seq::empty(),
                    slow: Seq::empty(),
                    fast_with_scissor: Seq::empty(),
                    slow_with_scissor: Seq::empty(),
                    image: Seq::empty(),
                    image_with_scissor: Seq::empty(),
                },
                border_segments_complex: Seq::empty(),
                border_segments_solid: Seq::empty(),
                line_decorations: Seq::empty(),
                clip_work: Seq::empty(),
                clears: Seq::empty(),
                used_rect,
                clear_color: Some(ColorF::spec_transparent()),
            }),
    {
        let mut prim_instances: Vec<Grouped<TextureSource, QuadInstance>> = Vec::new();
        let mut i: usize = 0;
        while i < NUM_PATTERNS
            invariant
                i <= NUM_PATTERNS,
                prim_instances@.len() == i,
                forall|j: int|
                    0 <= j < i ==> (#[trigger] prim_instances@[j]).wf() && prim_instances@[j]@
                        == Seq::<(TextureSource, Seq<QuadInstance>)>::empty(),
            decreases NUM_PATTERNS - i,
        {
            prim_instances.push(Grouped::new());
            i = i + 1;
        }
        let r = RenderTarget {
            target_kind,
            cached,
            screen_size,
            texture_id,
            alpha_batch_containers: Vec::new(),
            vertical_blurs: Grouped::new(),
            horizontal_blurs: Grouped::new(),
            scalings: Grouped::new(),
            svg_nodes: Vec::new(),
            blits: Vec::new(),
            alpha_tasks: Vec::new(),
            used_rect,
            resolve_ops: Vec::new(),
            clear_color: Some(ColorF::transparent()),
            prim_instances,
            prim_instances_with_scissor: Grouped::new(),
            clip_masks: ClipMaskInstanceList {
                mask_instances_fast: Vec::new(),
                mask_instances_slow: Vec::new(),
                mask_instances_fast_with_scissor: Grouped::new(),
                mask_instances_slow_with_scissor: Grouped::new(),
                image_mask_instances: Grouped::new(),
                image_mask_instances_with_scissor: Grouped::new(),
            },
            clip_work: Vec::new(),
            border_segments_complex: Vec::new(),
            border_segments_solid: Vec::new(),
            clears: Vec::new(),
            line_decorations: Vec::new(),
        };
        assert(r@.prim_instances =~= Seq::new(NUM_PATTERNS as nat, |i: int| Seq::empty()));
        assert(r@.svg_nodes =~= Seq::empty());
        assert(r@.resolve_ops =~= Seq::empty());
        r
    }

    pub fn texture_id(&self) -> (r: CacheTextureId)
        ensures
            r == self.texture_id,
    {
        self.texture_id
    }

    /// Some batch is drawn with the depth test.
    pub fn needs_depth(&self) -> (r: bool)
        ensures
            r == exists|i: int|
                0 <= i < self.alpha_batch_containers@.len() && (
                #[trigger] self.alpha_batch_containers@[i]).opaque_batches@.len() > 0,
    {
        let mut i: usize = 0;
        while i < self.alpha_batch_containers.len()
            invariant
                i <= self.alpha_batch_containers@.len(),
                forall|j: int|
                    0 <= j < i ==> (
                    #[trigger] self.alpha_batch_containers@[j]).opaque_batches@.len() == 0,
            decreases self.alpha_batch_containers@.len() - i,
        {
            if self.alpha_batch_containers[i].opaque_batches.len() > 0 {
                return true;
            }
            i = i + 1;
        }
        false
    }
}

/// The quad of a task with a single primitive. It replaces what is there, so that it
/// counts as opaque whatever its pattern is.
pub open spec fn prim_draw(info: PrimTask, id: RenderTaskId) -> QuadDraw {
    QuadDraw {
        kind: info.pattern,
        input: info.pattern_input,
        dst: RenderTaskAddress::spec_of(id),
        transform_id: info.transform_id,
        address: info.prim_address_f,
        flags: QuadFlags { is_opaque: true, ..info.quad_flags },
        edges: info.edge_flags,
        segment_index: INVALID_SEGMENT,
        src: info.texture_input,
    }
}

/// The target with a single primitive. A primitive that is not axis-aligned may leave
/// pixels of its task alone, which are cleared.
pub open spec fn with_prim(
    t: RenderTargetView,
    info: PrimTask,
    id: RenderTaskId,
    rect: DeviceIntRect,
    graph: RenderTaskGraph,
    blocks: Seq<GpuBufferBlockI>,
) -> RenderTargetView {
    let cleared = if info.transform_id.axis_aligned {
        t
    } else {
        with_clear(t, rect, ColorF::spec_transparent())
    };
    match quad_texture(graph, info.texture_input) {
        None => cleared,
        Some(texture) => {
            let drawn = quad_draw_instances(prim_draw(info, id), texture, blocks);
            if info.prim_needs_scissor_rect {
                RenderTargetView {
                    prim_instances_with_scissor: with_values(
                        cleared.prim_instances_with_scissor,
                        ScissorPattern { rect, pattern: info.pattern, texture },
                        drawn,
                    ),
                    ..cleared
                }
            } else {
                let number = info.pattern.spec_number() as int;
                RenderTargetView {
                    prim_instances: cleared.prim_instances.update(
                        number,
                        with_values(cleared.prim_instances[number], texture, drawn),
                    ),
                    ..cleared
                }
            }
        },
    }
}

pub open spec fn with_clear(t: RenderTargetView, rect: DeviceIntRect, color: ColorF) -> RenderTargetView {
    RenderTargetView { clears: t.clears.push((rect, color)), ..t }
}

/// The target cleared under an alpha task.
pub open spec fn with_alpha_clear(t: RenderTargetView, rect: DeviceIntRect) -> RenderTargetView {
    if t.target_kind == RenderTargetKind::Alpha {
        with_clear(t, rect, ColorF::spec_transparent())
    } else {
        t
    }
}

pub open spec fn blur_instance(
    info: BlurTask,
    direction: i32,
    id: RenderTaskId,
    src: RenderTaskId,
) -> BlurInstance {
    BlurInstance {
        task_address: RenderTaskAddress::spec_of(id),
        src_task_address: RenderTaskAddress::spec_of(src),
        blur_direction: direction,
        blur_std_deviation: info.blur_std_deviation,
        edge_mode: match info.edge_mode {
            BlurEdgeMode::Duplicate => 0,
            BlurEdgeMode::Mirror => 1,
        },
        blur_region: FloatPoint {
            x: FloatBits(coord_bits(info.blur_region.width)),
            y: FloatBits(coord_bits(info.blur_region.height)),
        },
    }
}

pub open spec fn scaling_instance(
    info: ScalingTask,
    rect: DeviceIntRect,
    source_rect: DeviceIntRect,
    source: TextureSource,
) -> ScalingInstance {
    ScalingInstance {
        target_rect: float_rect(spec_inner_box(rect, info.padding)),
        source_rect: float_rect(source_rect),
        source_rect_type: FloatBits(
            coord_bits(
                if source.spec_uses_normalized_uvs() {
                    UV_TYPE_NORMALIZED
                } else {
                    UV_TYPE_UNNORMALIZED
                },
            ),
        ),
    }
}

pub open spec fn line_style_number(style: LineStyle) -> i32 {
    match style {
        LineStyle::Solid => 0,
        LineStyle::Dotted => 1,
        LineStyle::Dashed => 2,
        LineStyle::Wavy => 3,
    }
}

/// The segment, placed in its task.
pub open spec fn placed_segment(segment: BorderInstance, rect: DeviceIntRect) -> BorderInstance {
    BorderInstance { task_origin: float_rect(rect).min, ..segment }
}

/// The segment has two solid edges.
pub open spec fn is_solid(segment: BorderInstance) -> bool {
    segment.flags & STYLE_MASK == STYLE_SOLID
}

/// The target with the segments of a border.
pub open spec fn with_segments(
    t: RenderTargetView,
    segments: Seq<BorderInstance>,
    rect: DeviceIntRect,
) -> RenderTargetView
    decreases segments.len(),
{
    if segments.len() == 0 {
        t
    } else {
        let before = with_segments(t, segments.drop_last(), rect);
        let placed = placed_segment(segments.last(), rect);
        if is_solid(segments.last()) {
            RenderTargetView {
                border_segments_solid: before.border_segments_solid.push(placed),
                ..before
            }
        } else {
            RenderTargetView {
                border_segments_complex: before.border_segments_complex.push(placed),
                ..before
            }
        }
    }
}

/// The first task that a task depends on.
pub open spec fn first_child(task: RenderTask) -> RenderTaskId {
    RenderTaskId { index: dependency_ids(task.children)[0] }
}

/// The target with what a task draws, without its sub-tasks.
pub open spec fn with_drawing(
    t: RenderTargetView,
    id: RenderTaskId,
    graph: RenderTaskGraph,
    blocks: Seq<GpuBufferBlockI>,
    contents: FilterInputContents,
    clip_clears: bool,
) -> RenderTargetView {
    let task = graph.tasks@[id.index as int];
    let rect = task.location.spec_rect()->0;
    let transparent = ColorF::spec_transparent();
    match task.kind {
        RenderTaskKind::Prim(info) => with_prim(t, info, id, rect, graph, blocks),
        RenderTaskKind::VerticalBlur(info) => {
            let cleared = with_alpha_clear(t, rect);
            let src = first_child(task);
            RenderTargetView {
                vertical_blurs: with_value(
                    cleared.vertical_blurs,
                    graph.tasks@[src.index as int].spec_texture_source()->0,
                    blur_instance(info, BLUR_VERTICAL, id, src),
                ),
                ..cleared
            }
        },
        RenderTaskKind::HorizontalBlur(info) => {
            let cleared = with_alpha_clear(t, rect);
            let src = first_child(task);
            RenderTargetView {
                horizontal_blurs: with_value(
                    cleared.horizontal_blurs,
                    graph.tasks@[src.index as int].spec_texture_source()->0,
                    blur_instance(info, BLUR_HORIZONTAL, id, src),
                ),
                ..cleared
            }
        },
        RenderTaskKind::Picture(picture) => RenderTargetView {
            resolve_ops: match picture.resolve_op {
                Some(op) => t.resolve_ops.push(resolve_view(op)),
                None => t.resolve_ops,
            },
            alpha_tasks: t.alpha_tasks.push(id),
            ..t
        },
        RenderTaskKind::SVGFENode(info) => RenderTargetView {
            svg_nodes: with_filter(
                t.svg_nodes,
                filter_textures(info, task, graph),
                filter_instance(info, task, contents),
            ),
            ..t
        },
        RenderTaskKind::Empty(_) => with_clear(t, rect, ColorF::spec_white()),
        RenderTaskKind::CacheMask(info) => {
            let work = ClipWork::Chain {
                mask: info,
                screen_origin: float_rect(rect).min,
                clip_origin: info.actual_rect.min,
            };
            let worked = RenderTargetView { clip_work: t.clip_work.push(work), ..t };
            if info.clear_to_one || clip_clears {
                with_clear(worked, rect, ColorF::spec_white())
            } else {
                worked
            }
        },
        RenderTaskKind::ClipRegion(info) => {
            let work = ClipWork::Region {
                region: info,
                device_rect: FloatRect {
                    min: FloatPoint { x: FloatBits(0), y: FloatBits(0) },
                    max: FloatPoint {
                        x: FloatBits(coord_bits(rect.spec_width() as i32)),
                        y: FloatBits(coord_bits(rect.spec_height() as i32)),
                    },
                },
                screen_origin: float_rect(rect).min,
            };
            let cleared = if info.clear_to_one {
                with_clear(t, rect, ColorF::spec_white())
            } else {
                t
            };
            RenderTargetView { clip_work: cleared.clip_work.push(work), ..cleared }
        },
        RenderTaskKind::Scaling(info) => {
            let source_task = graph.tasks@[first_child(task).index as int];
            let source = source_task.spec_texture_source()->0;
            RenderTargetView {
                scalings: with_value(
                    t.scalings,
                    source,
                    scaling_instance(info, rect, source_task.location.spec_rect()->0, source),
                ),
                ..t
            }
        },
        RenderTaskKind::Blit(info) => RenderTargetView {
            blits: t.blits.push(
                BlitJob { source: info.source, source_rect: info.source_rect, target_rect: rect },
            ),
            ..t
        },
        RenderTaskKind::LineDecoration(info) => {
            let cleared = with_clear(t, rect, transparent);
            RenderTargetView {
                line_decorations: cleared.line_decorations.push(
                    LineDecorationJob {
                        task_rect: float_rect(rect),
                        local_size: info.local_size,
                        wavy_line_thickness: info.wavy_line_thickness,
                        style: line_style_number(info.style),
                        axis_select: match info.orientation {
                            LineOrientation::Horizontal => FloatBits(0),
                            LineOrientation::Vertical => FloatBits(ONE_BITS),
                        },
                    },
                ),
                ..cleared
            }
        },
        RenderTaskKind::Border(info) => with_segments(
            with_clear(t, rect, transparent),
            info.instances@,
            rect,
        ),
        _ => t,
    }
}

/// The blocks with the header of a task's own quad.
pub open spec fn drawing_blocks(
    id: RenderTaskId,
    graph: RenderTaskGraph,
    blocks: Seq<GpuBufferBlockI>,
) -> Seq<GpuBufferBlockI> {
    match graph.tasks@[id.index as int].kind {
        RenderTaskKind::Prim(info) => quad_draw_blocks(prim_draw(info, id), graph, blocks),
        _ => blocks,
    }
}

/// The masks and the blocks with several sub-tasks.
pub open spec fn with_sub_tasks(
    masks: ClipMasksView,
    blocks: Seq<GpuBufferBlockI>,
    sub_tasks: Seq<SubTask>,
    rect: DeviceIntRect,
    masked: RenderTaskAddress,
    graph: RenderTaskGraph,
) -> (ClipMasksView, Seq<GpuBufferBlockI>)
    decreases sub_tasks.len(),
{
    if sub_tasks.len() == 0 {
        (masks, blocks)
    } else {
        let (m, b) = with_sub_tasks(masks, blocks, sub_tasks.drop_last(), rect, masked, graph);
        match sub_tasks.last() {
            SubTask::RectangleClip(clip) => (
                with_rect_clip(
                    m,
                    clip,
                    rect,
                    quad_draw_instances(rect_clip_draw(clip, masked), TextureSource::Invalid, b),
                ),
                quad_draw_blocks(rect_clip_draw(clip, masked), graph, b),
            ),
            SubTask::ImageClip(clip) => (
                with_image_clip(m, clip, rect, masked, graph, b),
                quad_draw_blocks(image_clip_draw(clip, masked), graph, b),
            ),
        }
    }
}

/// The sub-tasks of a task.
pub open spec fn sub_tasks_of(task: RenderTask, graph: RenderTaskGraph) -> Seq<SubTask> {
    if task.sub_tasks.spec_is_empty() {
        Seq::empty()
    } else {
        graph.sub_tasks@.subrange(task.sub_tasks.start as int, task.sub_tasks.end as int)
    }
}

/// The target and the blocks with a task.
pub open spec fn with_task(
    t: RenderTargetView,
    id: RenderTaskId,
    graph: RenderTaskGraph,
    blocks: Seq<GpuBufferBlockI>,
    contents: FilterInputContents,
    clip_clears: bool,
) -> (RenderTargetView, Seq<GpuBufferBlockI>) {
    let task = graph.tasks@[id.index as int];
    let drawn = with_drawing(t, id, graph, blocks, contents, clip_clears);
    let (masks, after) = with_sub_tasks(
        drawn.clip_masks,
        drawing_blocks(id, graph, blocks),
        sub_tasks_of(task, graph),
        task.location.spec_rect()->0,
        RenderTaskAddress::spec_of(id),
        graph,
    );
    (RenderTargetView { clip_masks: masks, ..drawn }, after)
}

/// The first dependency is there and has a texture.
pub open spec fn reads_first_child(task: RenderTask, graph: RenderTaskGraph) -> bool {
    dependency_ids(task.children).len() > 0 && graph.readable(first_child(task))
}

pub open spec fn drawing_ok(task: RenderTask, graph: RenderTaskGraph) -> bool {
    match task.kind {
        RenderTaskKind::Prim(info) => info.texture_input == RenderTaskId::spec_invalid()
            || graph.readable(info.texture_input),
        RenderTaskKind::VerticalBlur(_) => reads_first_child(task, graph),
        RenderTaskKind::HorizontalBlur(_) => reads_first_child(task, graph),
        RenderTaskKind::SVGFENode(info) => filter_ok(info, task, graph),
        RenderTaskKind::ClipRegion(_) => task.location.spec_rect()->0.sized(),
        RenderTaskKind::Scaling(info) => {
            &&& reads_first_child(task, graph)
            &&& graph.tasks@[first_child(task).index as int].location.spec_rect() is Some
            &&& inner_box_fits(task.location.spec_rect()->0, info.padding)
        },
        RenderTaskKind::Image(_) => false,
        RenderTaskKind::Cached(_) => false,
        RenderTaskKind::TileComposite(_) => false,
        _ => true,
    }
}

pub open spec fn sub_task_ok(sub_task: SubTask, graph: RenderTaskGraph) -> bool {
    sub_task matches SubTask::ImageClip(clip) ==> clip.src_task != RenderTaskId::spec_invalid()
        && graph.readable(clip.src_task)
}

/// The task can be drawn to a target: it has its place there, and everything that it
/// reads has a texture. Images, cached tasks and tiles are drawn elsewhere.
pub open spec fn task_ok(id: RenderTaskId, graph: RenderTaskGraph) -> bool {
    &&& id.index < graph.tasks@.len()
    &&& graph.tasks@[id.index as int].location.spec_rect() is Some
    &&& drawing_ok(graph.tasks@[id.index as int], graph)
    &&& graph.tasks@[id.index as int].sub_tasks.end <= graph.sub_tasks@.len()
    &&& forall|i: int|
        0 <= i < sub_tasks_of(graph.tasks@[id.index as int], graph).len() ==> sub_task_ok(
            #[trigger] sub_tasks_of(graph.tasks@[id.index as int], graph)[i],
            graph,
        )
}

/// How many headers a task writes at most.
pub open spec fn header_count(task: RenderTask) -> int {
    if task.sub_tasks.spec_is_empty() {
        1
    } else {
        1 + (task.sub_tasks.end - task.sub_tasks.start)
    }
}

/// Adds a blur to those that read the same texture.
pub fn add_blur_instances(
    instances: &mut Grouped<TextureSource, BlurInstance>,
    blur_direction: i32,
    info: &BlurTask,
    task_id: RenderTaskId,
    src_task_id: RenderTaskId,
    render_tasks: &RenderTaskGraph,
)
    requires
        render_tasks.readable(src_task_id),
    ensures
        final(instances)@ == with_value(
            old(instances)@,
            render_tasks.tasks@[src_task_id.index as int].spec_texture_source()->0,
            blur_instance(*info, blur_direction, task_id, src_task_id),
        ),
        old(instances).wf() ==> final(instances).wf(),
{
    let source = render_tasks.tasks[src_task_id.index as usize].get_texture_source();
    let instance = BlurInstance {
        task_address: RenderTaskAddress::of(task_id),
        src_task_address: RenderTaskAddress::of(src_task_id),
        blur_direction,
        blur_std_deviation: info.blur_std_deviation,
        edge_mode: match info.edge_mode {
            BlurEdgeMode::Duplicate => 0,
            BlurEdgeMode::Mirror => 1,
        },
        blur_region: FloatPoint {
            x: FloatBits(f32_bits(info.blur_region.width)),
            y: FloatBits(f32_bits(info.blur_region.height)),
        },
    };
    instances.insert(source, instance);
}

/// Adds a scaled copy to those that read the same texture.
pub fn add_scaling_instances(
    task: &ScalingTask,
    instances: &mut Grouped<TextureSource, ScalingInstance>,
    target_rect: DeviceIntRect,
    source_task: &RenderTask,
)
    requires
        inner_box_fits(target_rect, task.padding),
        source_task.spec_texture_source() is Some,
        source_task.location.spec_rect() is Some,
    ensures
        final(instances)@ == with_value(
            old(instances)@,
            source_task.spec_texture_source()->0,
            scaling_instance(
                *task,
                target_rect,
                source_task.location.spec_rect()->0,
                source_task.spec_texture_source()->0,
            ),
        ),
        old(instances).wf() ==> final(instances).wf(),
{
    let source = source_task.get_texture_source();
    let uv_type: i32 = if source.uses_normalized_uvs() {
        UV_TYPE_NORMALIZED
    } else {
        UV_TYPE_UNNORMALIZED
    };
    let instance = ScalingInstance {
        target_rect: to_float_rect(inner_box(target_rect, task.padding)),
        source_rect: to_float_rect(source_task.get_target_rect()),
        source_rect_type: FloatBits(f32_bits(uv_type)),
    };
    instances.insert(source, instance);
}

fn copy_ids(ids: &Vec<RenderTaskId>) -> (r: Vec<RenderTaskId>)
    ensures
        r@ == ids@,
{
    let mut r: Vec<RenderTaskId> = Vec::new();
    let mut i: usize = 0;
    while i < ids.len()
        invariant
            i <= ids@.len(),
            r@ == ids@.take(i as int),
        decreases ids@.len() - i,
    {
        r.push(ids[i]);
        i = i + 1;
        assert(r@ =~= ids@.take(i as int));
    }
    assert(ids@.take(i as int) =~= ids@);
    r
}

impl RenderTarget {
    fn clear(&mut self, rect: DeviceIntRect, color: ColorF)
        requires
            old(self).wf(),
        ensures
            final(self).wf(),
            final(self)@ == with_clear(old(self)@, rect, color),
    {
        self.clears.push((rect, color));
        assert(self@ =~= with_clear(old(self)@, rect, color));
    }

    fn add_prim(
        &mut self,
        info: &PrimTask,
        id: RenderTaskId,
        rect: DeviceIntRect,
        graph: &RenderTaskGraph,
        builder: &mut GpuBufferBuilder,
    )
        requires
            old(self).wf(),
            info.texture_input == RenderTaskId::spec_invalid() || graph.readable(
                info.texture_input,
            ),
            has_header_room(*old(builder), 0),
        ensures
            final(self).wf(),
            final(self)@ == with_prim(
                old(self)@,
                *info,
                id,
                rect,
                *graph,
                old(builder).integers.blocks(),
            ),
            only_headers(*old(builder), *final(builder), 1),
            final(builder).integers.blocks() == quad_draw_blocks(
                prim_draw(*info, id),
                *graph,
                old(builder).integers.blocks(),
            ),
    {
        if !info.transform_id.axis_aligned {
            self.clear(rect, ColorF::transparent());
        }
        let ghost cleared = self@;
        let draw = QuadDraw {
            kind: info.pattern,
            input: info.pattern_input,
            dst: RenderTaskAddress::of(id),
            transform_id: info.transform_id,
            address: info.prim_address_f,
            flags: QuadFlags { is_opaque: true, ..info.quad_flags },
            edges: info.edge_flags,
            segment_index: INVALID_SEGMENT,
            src: info.texture_input,
        };
        if let Some((texture, drawn)) = draw_quad(&draw, graph, builder) {
            if info.prim_needs_scissor_rect {
                insert_all(
                    &mut self.prim_instances_with_scissor,
                    ScissorPattern { rect, pattern: info.pattern, texture },
                    &drawn,
                );
            } else {
                let number: usize = info.pattern.number();
                insert_all(&mut self.prim_instances[number], texture, &drawn);
                assert(self@.prim_instances =~= cleared.prim_instances.update(
                    number as int,
                    with_values(cleared.prim_instances[number as int], texture, drawn@),
                ));
            }
        }
    }

    fn add_segments(&mut self, segments: &Vec<BorderInstance>, rect: DeviceIntRect)
        requires
            old(self).wf(),
        ensures
            final(self).wf(),
            final(self)@ == with_segments(old(self)@, segments@, rect),
    {
        let task_origin = to_float_rect(rect).min;
        let mut i: usize = 0;
        assert(segments@.take(0) =~= Seq::<BorderInstance>::empty());
        while i < segments.len()
            invariant
                i <= segments@.len(),
                self.wf(),
                task_origin == float_rect(rect).min,
                self@ == with_segments(old(self)@, segments@.take(i as int), rect),
            decreases segments@.len() - i,
        {
            let ghost next = segments@.take(i as int + 1);
            assert(next.drop_last() =~= segments@.take(i as int));
            let placed = BorderInstance { task_origin, ..segments[i] };
            if placed.flags & STYLE_MASK == STYLE_SOLID {
                self.border_segments_solid.push(placed);
            } else {
                self.border_segments_complex.push(placed);
            }
            i = i + 1;
            assert(self@ =~= with_segments(old(self)@, segments@.take(i as int), rect));
        }
        assert(segments@.take(i as int) =~= segments@);
    }

    /// Adds what a task draws, without its sub-tasks.
    fn add_drawing(
        &mut self,
        id: RenderTaskId,
        graph: &RenderTaskGraph,
        builder: &mut GpuBufferBuilder,
        contents: &FilterInputContents,
        clip_clears: bool,
    )
        requires
            old(self).wf(),
            task_ok(id, *graph),
            has_header_room(*old(builder), 0),
        ensures
            final(self).wf(),
            final(self)@ == with_drawing(
                old(self)@,
                id,
                *graph,
                old(builder).integers.blocks(),
                *contents,
                clip_clears,
            ),
            only_headers(*old(builder), *final(builder), 1),
            final(builder).integers.blocks() == drawing_blocks(
                id,
                *graph,
                old(builder).integers.blocks(),
            ),
    {
        let task = &graph.tasks[id.index as usize];
        let rect = task.get_target_rect();
        match &task.kind {
            RenderTaskKind::Prim(info) => {
                self.add_prim(info, id, rect, graph, builder);
            },
            RenderTaskKind::VerticalBlur(info) => {
                if self.target_kind == RenderTargetKind::Alpha {
                    self.clear(rect, ColorF::transparent());
                }
                if let Some(index) = task.children.get(0) {
                    add_blur_instances(
                        &mut self.vertical_blurs,
                        BLUR_VERTICAL,
                        info,
                        id,
                        RenderTaskId { index },
                        graph,
                    );
                }
            },
            RenderTaskKind::HorizontalBlur(info) => {
                if self.target_kind == RenderTargetKind::Alpha {
                    self.clear(rect, ColorF::transparent());
                }
                if let Some(index) = task.children.get(0) {
                    add_blur_instances(
                        &mut self.horizontal_blurs,
                        BLUR_HORIZONTAL,
                        info,
                        id,
                        RenderTaskId { index },
                        graph,
                    );
                }
            },
            RenderTaskKind::Picture(picture) => {
                if let Some(op) = &picture.resolve_op {
                    self.resolve_ops.push(
                        ResolveOp {
                            src_task_ids: copy_ids(&op.src_task_ids),
                            dest_task_id: op.dest_task_id,
                        },
                    );
                    assert(self@.resolve_ops =~= old(self)@.resolve_ops.push(resolve_view(*op)));
                }
                self.alpha_tasks.push(id);
            },
            RenderTaskKind::SVGFENode(info) => {
                add_svg_filter_node_instances(&mut self.svg_nodes, graph, info, task, contents);
            },
            RenderTaskKind::Empty(_) => {
                self.clear(rect, ColorF::white());
            },
            RenderTaskKind::CacheMask(info) => {
                self.clip_work.push(
                    ClipWork::Chain {
                        mask: *info,
                        screen_origin: to_float_rect(rect).min,
                        clip_origin: info.actual_rect.min,
                    },
                );
                if info.clear_to_one || clip_clears {
                    self.clear(rect, ColorF::white());
                }
            },
            RenderTaskKind::ClipRegion(info) => {
                if info.clear_to_one {
                    self.clear(rect, ColorF::white());
                }
                self.clip_work.push(
                    ClipWork::Region {
                        region: *info,
                        device_rect: FloatRect {
                            min: FloatPoint { x: FloatBits(0), y: FloatBits(0) },
                            max: FloatPoint {
                                x: FloatBits(f32_bits(rect.width())),
                                y: FloatBits(f32_bits(rect.height())),
                            },
                        },
                        screen_origin: to_float_rect(rect).min,
                    },
                );
            },
            RenderTaskKind::Scaling(info) => {
                if let Some(index) = task.children.get(0) {
                    add_scaling_instances(
                        info,
                        &mut self.scalings,
                        rect,
                        &graph.tasks[index as usize],
                    );
                }
            },
            RenderTaskKind::Blit(info) => {
                self.blits.push(
                    BlitJob {
                        source: info.source,
                        source_rect: info.source_rect,
                        target_rect: rect,
                    },
                );
            },
            RenderTaskKind::LineDecoration(info) => {
                self.clear(rect, ColorF::transparent());
                self.line_decorations.push(
                    LineDecorationJob {
                        task_rect: to_float_rect(rect),
                        local_size: info.local_size,
                        wavy_line_thickness: info.wavy_line_thickness,
                        style: match info.style {
                            LineStyle::Solid => 0,
                            LineStyle::Dotted => 1,
                            LineStyle::Dashed => 2,
                            LineStyle::Wavy => 3,
                        },
                        axis_select: match info.orientation {
                            LineOrientation::Horizontal => FloatBits(0),
                            LineOrientation::Vertical => FloatBits(ONE_BITS),
                        },
                    },
                );
            },
            RenderTaskKind::Border(info) => {
                self.clear(rect, ColorF::transparent());
                self.add_segments(&info.instances, rect);
            },
            _ => {},
        }
    }

    fn add_sub_tasks(
        &mut self,
        id: RenderTaskId,
        graph: &RenderTaskGraph,
        builder: &mut GpuBufferBuilder,
    )
        requires
            old(self).wf(),
            task_ok(id, *graph),
            has_header_room(*old(builder), header_count(graph.tasks@[id.index as int]) - 1),
        ensures
            final(self).wf(),
            ({
                let task = graph.tasks@[id.index as int];
                let r = with_sub_tasks(
                    old(self)@.clip_masks,
                    old(builder).integers.blocks(),
                    sub_tasks_of(task, *graph),
                    task.location.spec_rect()->0,
                    RenderTaskAddress::spec_of(id),
                    *graph,
                );
                &&& final(self)@ == (RenderTargetView { clip_masks: r.0, ..old(self)@ })
                &&& final(builder).integers.blocks() == r.1
                &&& only_headers(*old(builder), *final(builder), header_count(task) - 1)
            }),
    {
        let task = &graph.tasks[id.index as usize];
        let rect = task.get_target_rect();
        let masked = RenderTaskAddress::of(id);
        if task.sub_tasks.is_empty() {
            return ;
        }
        let ghost subs = sub_tasks_of(*task, *graph);
        let ghost masks = self@.clip_masks;
        let ghost blocks = builder.integers.blocks();
        let start: usize = task.sub_tasks.start as usize;
        let count: usize = task.sub_tasks.end as usize - start;
        let total: usize = graph.sub_tasks.len();
        let mut i: usize = 0;
        assert(subs.take(0) =~= Seq::<SubTask>::empty());
        while i < count
            invariant
                i <= count,
                subs.len() == count,
                start + count <= total == graph.sub_tasks@.len(),
                subs == graph.sub_tasks@.subrange(start as int, start + count),
                forall|j: int| 0 <= j < subs.len() ==> sub_task_ok(#[trigger] subs[j], *graph),
                has_header_room(*old(builder), count as int),
                only_headers(*old(builder), *builder, i as int),
                masks == old(self)@.clip_masks,
                blocks == old(builder).integers.blocks(),
                self.wf(),
                self@ == (RenderTargetView {
                    clip_masks: with_sub_tasks(
                        masks,
                        blocks,
                        subs.take(i as int),
                        rect,
                        masked,
                        *graph,
                    ).0,
                    ..old(self)@
                }),
                builder.integers.blocks() == with_sub_tasks(
                    masks,
                    blocks,
                    subs.take(i as int),
                    rect,
                    masked,
                    *graph,
                ).1,
            decreases count - i,
        {
            let ghost next = subs.take(i as int + 1);
            assert(next.drop_last() =~= subs.take(i as int));
            assert(next.last() == subs[i as int]);
            assert(sub_task_ok(subs[i as int], *graph));
            match &graph.sub_tasks[start + i] {
                SubTask::RectangleClip(clip) => {
                    add_rect_clip_task_to_batch(
                        clip,
                        &rect,
                        masked,
                        graph,
                        builder,
                        &mut self.clip_masks,
                    );
                },
                SubTask::ImageClip(clip) => {
                    add_image_clip_task_to_batch(
                        clip,
                        &rect,
                        masked,
                        graph,
                        builder,
                        &mut self.clip_masks,
                    );
                },
            }
            i = i + 1;
            assert(self@ =~= (RenderTargetView {
                clip_masks: with_sub_tasks(
                    masks,
                    blocks,
                    subs.take(i as int),
                    rect,
                    masked,
                    *graph,
                ).0,
                ..old(self)@
            }));
        }
        assert(subs.take(i as int) =~= subs);
    }

    /// Adds a task with its sub-tasks. `contents` tells where the inputs of a filter lie,
    /// and `clip_clears` whether the batcher of clip masks wants its target cleared.
    pub fn add_task(
        &mut self,
        task_id: RenderTaskId,
        gpu_buffer_builder: &mut GpuBufferBuilder,
        render_tasks: &RenderTaskGraph,
        contents: &FilterInputContents,
        clip_clears: bool,
    )
        requires
            old(self).wf(),
            task_ok(task_id, *render_tasks),
            has_header_room(
                *old(gpu_buffer_builder),
                header_count(render_tasks.tasks@[task_id.index as int]),
            ),
        ensures
            final(self).wf(),
            ({
                let r = with_task(
                    old(self)@,
                    task_id,
                    *render_tasks,
                    old(gpu_buffer_builder).integers.blocks(),
                    *contents,
                    clip_clears,
                );
                &&& final(self)@ == r.0
                &&& final(gpu_buffer_builder).integers.blocks() == r.1
            }),
            only_headers(
                *old(gpu_buffer_builder),
                *final(gpu_buffer_builder),
                header_count(render_tasks.tasks@[task_id.index as int]),
            ),
    {
        self.add_drawing(task_id, render_tasks, gpu_buffer_builder, contents, clip_clears);
        self.add_sub_tasks(task_id, render_tasks, gpu_buffer_builder);
    }
}

/// The segments of a border change nothing but the lists of segments, and none is lost.
pub proof fn segments_are_kept(t: RenderTargetView, segments: Seq<BorderInstance>, rect: DeviceIntRect)
    ensures
        ({
            let after = with_segments(t, segments, rect);
            &&& after == (RenderTargetView {
                border_segments_solid: after.border_segments_solid,
                border_segments_complex: after.border_segments_complex,
                ..t
            })
            &&& after.border_segments_solid.len() + after.border_segments_complex.len()
                == t.border_segments_solid.len() + t.border_segments_complex.len() + segments.len()
        }),
    decreases segments.len(),
{
    if segments.len() > 0 {
        segments_are_kept(t, segments.drop_last(), rect);
    }
}

/// A task takes back nothing that was to be cleared, and leaves alone what the whole
/// target is cleared to and which part of it is used.
pub proof fn clears_are_kept(
    t: RenderTargetView,
    id: RenderTaskId,
    graph: RenderTaskGraph,
    blocks: Seq<GpuBufferBlockI>,
    contents: FilterInputContents,
    clip_clears: bool,
)
    ensures
        ({
            let after = with_task(t, id, graph, blocks, contents, clip_clears).0;
            &&& t.clears.is_prefix_of(after.clears)
            &&& after.clears.len() <= t.clears.len() + 1
            &&& after.clear_color == t.clear_color
            &&& after.used_rect == t.used_rect
        }),
{
    let task = graph.tasks@[id.index as int];
    let rect = task.location.spec_rect()->0;
    if let RenderTaskKind::Border(info) = task.kind {
        segments_are_kept(
            with_clear(t, rect, ColorF::spec_transparent()),
            info.instances@,
            rect,
        );
    }
}

/// A picture whose primitives are to be batched.
#[derive(Clone, Copy, Debug, PartialEq, Eq, Structural)]
pub struct PictureBatches {
    pub task_id: RenderTaskId,
    pub task_address: RenderTaskAddress,
    pub cmd_buffer_index: CommandBufferIndex,
    pub raster_spatial_node_index: SpatialNodeIndex,
    pub surface_spatial_node_index: SpatialNodeIndex,
    pub target_rect: DeviceIntRect,
    /// Where the batches are cut off; batches that are not cut off are merged with those
    /// of other pictures.
    pub scissor_rect: Option<DeviceIntRect>,
}

pub open spec fn picture_batches(
    picture: PictureTask,
    id: RenderTaskId,
    rect: DeviceIntRect,
) -> PictureBatches {
    PictureBatches {
        task_id: id,
        task_address: RenderTaskAddress::spec_of(id),
        cmd_buffer_index: picture.cmd_buffer_index,
        raster_spatial_node_index: picture.raster_spatial_node_index,
        surface_spatial_node_index: picture.surface_spatial_node_index,
        target_rect: rect,
        scissor_rect: if picture.can_merge {
            None
        } else {
            Some(rect)
        },
    }
}

/// The target, cleared for a picture. A picture that has the target for itself sets the
/// color that all of it is cleared to; a cached target is cleared in any case.
pub open spec fn with_picture(
    t: RenderTargetView,
    picture: PictureTask,
    rect: DeviceIntRect,
) -> RenderTargetView {
    let colored = if picture.can_use_shared_surface {
        t
    } else {
        RenderTargetView { clear_color: picture.clear_color, ..t }
    };
    match picture.clear_color {
        Some(color) => with_clear(colored, rect, color),
        None => if t.cached {
            with_clear(colored, rect, ColorF::spec_transparent())
        } else {
            colored
        },
    }
}

/// The tasks are pictures with a place.
pub open spec fn are_pictures(ids: Seq<RenderTaskId>, graph: RenderTaskGraph) -> bool {
    forall|i: int|
        0 <= i < ids.len() ==> (#[trigger] ids[i]).index < graph.tasks@.len()
            && graph.tasks@[ids[i].index as int].kind is Picture
            && graph.tasks@[ids[i].index as int].location.spec_rect() is Some
}

pub open spec fn picture_of(graph: RenderTaskGraph, id: RenderTaskId) -> PictureTask {
    graph.tasks@[id.index as int].kind->Picture_0
}

pub open spec fn rect_of(graph: RenderTaskGraph, id: RenderTaskId) -> DeviceIntRect {
    graph.tasks@[id.index as int].location.spec_rect()->0
}

/// The target, cleared for several pictures.
pub open spec fn with_pictures(t: RenderTargetView, ids: Seq<RenderTaskId>, graph: RenderTaskGraph) -> RenderTargetView
    decreases ids.len(),
{
    if ids.len() == 0 {
        t
    } else {
        with_picture(
            with_pictures(t, ids.drop_last(), graph),
            picture_of(graph, ids.last()),
            rect_of(graph, ids.last()),
        )
    }
}

impl RenderTarget {
    fn clear_for_picture(&mut self, picture: &PictureTask, rect: DeviceIntRect)
        requires
            old(self).wf(),
        ensures
            final(self).wf(),
            final(self)@ == with_picture(old(self)@, *picture, rect),
    {
        if !picture.can_use_shared_surface {
            self.clear_color = picture.clear_color;
        }
        if let Some(color) = picture.clear_color {
            self.clear(rect, color);
        } else if self.cached {
            self.clear(rect, ColorF::transparent());
        }
    }

    /// Clears the target for its pictures, and gives what is to be batched for each.
    pub fn build(&mut self, render_tasks: &RenderTaskGraph) -> (r: Vec<PictureBatches>)
        requires
            old(self).wf(),
            are_pictures(old(self).alpha_tasks@, *render_tasks),
        ensures
            final(self).wf(),
            final(self)@ == with_pictures(old(self)@, old(self).alpha_tasks@, *render_tasks),
            r@ == old(self).alpha_tasks@.map_values(
                |id: RenderTaskId|
                    picture_batches(picture_of(*render_tasks, id), id, rect_of(*render_tasks, id)),
            ),
    {
        let mut r: Vec<PictureBatches> = Vec::new();
        let mut i: usize = 0;
        let ghost ids = self.alpha_tasks@;
        assert(ids.take(0) =~= Seq::<RenderTaskId>::empty());
        while i < self.alpha_tasks.len()
            invariant
                i <= ids.len(),
                self.wf(),
                self.alpha_tasks@ == ids,
                ids == old(self).alpha_tasks@,
                are_pictures(ids, *render_tasks),
                self@ == with_pictures(old(self)@, ids.take(i as int), *render_tasks),
                r@.len() == i,
                forall|j: int|
                    0 <= j < i ==> #[trigger] r@[j] == picture_batches(
                        picture_of(*render_tasks, ids[j]),
                        ids[j],
                        rect_of(*render_tasks, ids[j]),
                    ),
            decreases ids.len() - i,
        {
            let id = self.alpha_tasks[i];
            let ghost next = ids.take(i as int + 1);
            assert(next.drop_last() =~= ids.take(i as int));
            assert(next.last() == id);
            assert(ids[i as int] == id);
            let task = &render_tasks.tasks[id.index as usize];
            let rect = task.get_target_rect();
            if let RenderTaskKind::Picture(picture) = &task.kind {
                self.clear_for_picture(picture, rect);
                r.push(
                    PictureBatches {
                        task_id: id,
                        task_address: RenderTaskAddress::of(id),
                        cmd_buffer_index: picture.cmd_buffer_index,
                        raster_spatial_node_index: picture.raster_spatial_node_index,
                        surface_spatial_node_index: picture.surface_spatial_node_index,
                        target_rect: rect,
                        scissor_rect: if picture.can_merge {
                            None
                        } else {
                            Some(rect)
                        },
                    },
                );
            }
            i = i + 1;
        }
        assert(ids.take(i as int) =~= ids);
        r
    }

    /// Takes the batches of the pictures: first those that are cut off, then the merged
    /// ones, where there are any.
    pub fn finish_build(
        &mut self,
        containers: Vec<AlphaBatchContainer>,
        merged_batches: AlphaBatchContainer,
    )
        requires
            old(self).wf(),
        ensures
            final(self).wf(),
            final(self)@ == (RenderTargetView {
                alpha_batch_containers: if merged_batches.spec_is_empty() {
                    old(self)@.alpha_batch_containers + containers@
                } else {
                    (old(self)@.alpha_batch_containers + containers@).push(merged_batches)
                },
                ..old(self)@
            }),
    {
        let mut containers = containers;
        self.alpha_batch_containers.append(&mut containers);
        if !merged_batches.is_empty() {
            self.alpha_batch_containers.push(merged_batches);
        }
    }
}

/// The render targets of a pass.
pub struct RenderTargetList {
    pub targets: Vec<RenderTarget>,
}

impl RenderTargetList {
    pub open spec fn wf(self) -> bool {
        forall|i: int| 0 <= i < self.targets@.len() ==> (#[trigger] self.targets@[i]).wf()
    }

    pub fn new() -> (r: Self)
        ensures
            r.targets@ == Seq::<RenderTarget>::empty(),
    {
        RenderTargetList { targets: Vec::new() }
    }

    /// Clears the targets for their pictures, and gives for each what is to be batched.
    pub fn build(&mut self, render_tasks: &RenderTaskGraph) -> (r: Vec<Vec<PictureBatches>>)
        requires
            old(self).wf(),
            forall|i: int|
                0 <= i < old(self).targets@.len() ==> are_pictures(
                    (#[trigger] old(self).targets@[i]).alpha_tasks@,
                    *render_tasks,
                ),
        ensures
            final(self).wf(),
            final(self).targets@.len() == old(self).targets@.len(),
            r@.len() == old(self).targets@.len(),
            forall|i: int|
                0 <= i < r@.len() ==> (#[trigger] final(self).targets@[i])@ == with_pictures(
                    old(self).targets@[i]@,
                    old(self).targets@[i].alpha_tasks@,
                    *render_tasks,
                ),
            forall|i: int|
                0 <= i < r@.len() ==> (#[trigger] r@[i])@ == old(
                    self,
                ).targets@[i].alpha_tasks@.map_values(
                    |id: RenderTaskId|
                        picture_batches(
                            picture_of(*render_tasks, id),
                            id,
                            rect_of(*render_tasks, id),
                        ),
                ),
    {
        let mut r: Vec<Vec<PictureBatches>> = Vec::new();
        let mut i: usize = 0;
        while i < self.targets.len()
            invariant
                i <= self.targets@.len(),
                self.targets@.len() == old(self).targets@.len(),
                r@.len() == i,
                self.wf(),
                forall|j: int|
                    i <= j < self.targets@.len() ==> #[trigger] self.targets@[j] == old(
                        self,
                    ).targets@[j],
                forall|j: int|
                    0 <= j < old(self).targets@.len() ==> are_pictures(
                        (#[trigger] old(self).targets@[j]).alpha_tasks@,
                        *render_tasks,
                    ),
                forall|j: int|
                    0 <= j < i ==> (#[trigger] self.targets@[j])@ == with_pictures(
                        old(self).targets@[j]@,
                        old(self).targets@[j].alpha_tasks@,
                        *render_tasks,
                    ),
                forall|j: int|
                    0 <= j < i ==> (#[trigger] r@[j])@ == old(
                        self,
                    ).targets@[j].alpha_tasks@.map_values(
                        |id: RenderTaskId|
                            picture_batches(
                                picture_of(*render_tasks, id),
                                id,
                                rect_of(*render_tasks, id),
                            ),
                    ),
            decreases self.targets@.len() - i,
        {
            assert(self.targets@[i as int] == old(self).targets@[i as int]);
            let batches = self.targets[i].build(render_tasks);
            r.push(batches);
            i = i + 1;
        }
        r
    }
}

} // verus!
