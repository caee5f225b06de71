//! Where the drawing of a task ends up in its target.

use crate::grouped::{
    adding_keeps_other_groups, distinct_keys, group_values, with_value, with_values,
};
use crate::internal_types::{
    ColorF, EdgeMask, GpuTransformId, LineStyle, PatternKind, PatternShaderInput, QuadFlags,
    RenderTargetKind, RenderTaskId, TextureSource,
};
use crate::quad::batch::{quad_texture, QuadInstance};
use crate::render_target::filters::{filter_instance, filter_textures, FilterInputContents};
use crate::render_target::tasks::{
    drawing_blocks, first_child, with_drawing, with_segments, RenderTargetView,
};
use crate::render_target::{
    with_rect_clip, BlurInstance, ClipMasksView, MaskInstance, ScissorPattern,
};
use crate::render_task::{
    BlurTask, BorderInstance, PrimTask, RectangleClipSubTask, RenderTask, RenderTaskAddress,
    RenderTaskKind, SVGFEFilterTask,
};
use crate::render_task_graph::RenderTaskGraph;
use crate::renderer::gpu_buffer::{GpuBufferAddress, GpuBufferBlockI};
use crate::svg_filter::FilterGraphOp;
use crate::task_dependencies::dependency_ids;
use crate::units::DeviceIntRect;
use vstd::prelude::*;

verus! {

/// Every channel is zero.
pub open spec fn is_transparent(c: ColorF) -> bool {
    c.r.0 == 0 && c.g.0 == 0 && c.b.0 == 0 && c.a.0 == 0
}

/// Every channel is one.
pub open spec fn is_white(c: ColorF) -> bool {
    c.r.0 == 0x3F80_0000 && c.g.0 == 0x3F80_0000 && c.b.0 == 0x3F80_0000 && c.a.0 == 0x3F80_0000
}

/// What has to be cleared under a task before it is drawn.
pub enum Clearing {
    Nothing,
    Transparent,
    White,
}

/// Blurs clear only what has nothing but alpha, masks where they must start out letting
/// everything through, and primitives that may leave pixels alone. Lines and borders always
/// clear, empty tasks clear to white, and everything else covers its task.
pub open spec fn clearing_of(
    kind: RenderTaskKind,
    target_kind: RenderTargetKind,
    clip_clears: bool,
) -> Clearing {
    match kind {
        RenderTaskKind::VerticalBlur(_) | RenderTaskKind::HorizontalBlur(_) => if target_kind
            is Alpha {
            Clearing::Transparent
        } else {
            Clearing::Nothing
        },
        RenderTaskKind::Prim(info) => if info.transform_id.axis_aligned {
            Clearing::Nothing
        } else {
            Clearing::Transparent
        },
        RenderTaskKind::LineDecoration(_) | RenderTaskKind::Border(_) => Clearing::Transparent,
        RenderTaskKind::Empty(_) => Clearing::White,
        RenderTaskKind::CacheMask(info) => if info.clear_to_one || clip_clears {
            Clearing::White
        } else {
            Clearing::Nothing
        },
        RenderTaskKind::ClipRegion(info) => if info.clear_to_one {
            Clearing::White
        } else {
            Clearing::Nothing
        },
        _ => Clearing::Nothing,
    }
}

/// The list of clears has grown by what a task needs.
pub open spec fn clears_for(
    after: Seq<(DeviceIntRect, ColorF)>,
    before: Seq<(DeviceIntRect, ColorF)>,
    rect: DeviceIntRect,
    clearing: Clearing,
) -> bool {
    match clearing {
        Clearing::Nothing => after == before,
        _ => {
            &&& after.len() == before.len() + 1
            &&& after.drop_last() == before
            &&& after.last().0 == rect
            &&& clearing is Transparent ==> is_transparent(after.last().1)
            &&& clearing is White ==> is_white(after.last().1)
        },
    }
}

/// The address has the bits of the task's place.
pub open spec fn addresses(address: RenderTaskAddress, id: RenderTaskId) -> bool {
    address.0 == if id.index <= i32::MAX {
        id.index as int
    } else {
        id.index - 0x1_0000_0000
    }
}

/// A blur from one task to another.
pub open spec fn blurs(
    b: BlurInstance,
    info: BlurTask,
    vertically: bool,
    id: RenderTaskId,
    src: RenderTaskId,
) -> bool {
    &&& addresses(b.task_address, id)
    &&& addresses(b.src_task_address, src)
    &&& b.blur_direction == if vertically {
        1i32
    } else {
        0i32
    }
    &&& b.blur_std_deviation == info.blur_std_deviation
    &&& b.edge_mode == if info.edge_mode is Mirror {
        1i32
    } else {
        0i32
    }
    &&& b.blur_region.x.0 == crate::render_task::gpu_data::coord_bits(info.blur_region.width)
    &&& b.blur_region.y.0 == crate::render_task::gpu_data::coord_bits(info.blur_region.height)
}

/// The groups have one value more, the last one under a key.
pub open spec fn gained<V>(
    after: Seq<(TextureSource, Seq<V>)>,
    before: Seq<(TextureSource, Seq<V>)>,
    key: TextureSource,
) -> bool {
    &&& group_values(after, key).len() == group_values(before, key).len() + 1
    &&& group_values(after, key).drop_last() == group_values(before, key)
    &&& forall|other: TextureSource|
        other != key ==> #[trigger] group_values(after, other) == group_values(before, other)
}

/// Each task is filed in the list for its kind, and in no other: a blur under the texture
/// that holds the task it reads, with its direction; a picture after the pictures
/// that are there; a copy as it is asked for; a filter with the filters. The pixels
/// of the task are cleared first where its kind needs that.
pub proof fn tasks_are_filed_by_kind(
    t: RenderTargetView,
    id: RenderTaskId,
    graph: RenderTaskGraph,
    blocks: Seq<GpuBufferBlockI>,
    contents: FilterInputContents,
    clip_clears: bool,
)
    requires
        id.index < graph.tasks@.len(),
        distinct_keys(t.vertical_blurs),
        distinct_keys(t.horizontal_blurs),
        distinct_keys(t.scalings),
    ensures
        ({
            let after = with_drawing(t, id, graph, blocks, contents, clip_clears);
            let task = graph.tasks@[id.index as int];
            let rect = task.location.spec_rect()->0;
            let src = first_child(task);
            let texture = graph.tasks@[src.index as int].spec_texture_source()->0;
            let kind = task.kind;
            &&& clears_for(
                after.clears,
                t.clears,
                rect,
                clearing_of(kind, t.target_kind, clip_clears),
            )
            &&& !(kind is VerticalBlur) ==> after.vertical_blurs == t.vertical_blurs
            &&& kind matches RenderTaskKind::VerticalBlur(info) ==> gained(
                after.vertical_blurs,
                t.vertical_blurs,
                texture,
            ) && blurs(group_values(after.vertical_blurs, texture).last(), info, true, id, src)
            &&& !(kind is HorizontalBlur) ==> after.horizontal_blurs == t.horizontal_blurs
            &&& kind matches RenderTaskKind::HorizontalBlur(info) ==> gained(
                after.horizontal_blurs,
                t.horizontal_blurs,
                texture,
            ) && blurs(group_values(after.horizontal_blurs, texture).last(), info, false, id, src)
            &&& !(kind is Scaling) ==> after.scalings == t.scalings
            &&& kind matches RenderTaskKind::Scaling(info) ==> {
                let s = group_values(after.scalings, texture).last();
                &&& gained(after.scalings, t.scalings, texture)
                &&& s.source_rect == crate::render_task::gpu_data::float_rect(
                    graph.tasks@[src.index as int].location.spec_rect()->0,
                )
                &&& s.target_rect == crate::render_task::gpu_data::float_rect(
                    crate::render_target::filters::spec_inner_box(rect, info.padding),
                )
            }
            &&& !(kind is SVGFENode) ==> after.svg_nodes == t.svg_nodes
            &&& !(kind is Picture) ==> after.alpha_tasks == t.alpha_tasks && after.resolve_ops
                == t.resolve_ops
            &&& kind matches RenderTaskKind::Picture(picture) ==> {
                &&& after.alpha_tasks == t.alpha_tasks.push(id)
                &&& picture.resolve_op is None ==> after.resolve_ops == t.resolve_ops
                &&& picture.resolve_op matches Some(op) ==> after.resolve_ops == t.resolve_ops.push(
                    (op.src_task_ids@, op.dest_task_id),
                )
            }
            &&& !(kind is Blit) ==> after.blits == t.blits
            &&& kind matches RenderTaskKind::Blit(info) ==> {
                &&& after.blits.len() == t.blits.len() + 1
                &&& after.blits.drop_last() == t.blits
                &&& after.blits.last().source == info.source
                &&& after.blits.last().source_rect == info.source_rect
                &&& after.blits.last().target_rect == rect
            }
            &&& !(kind is LineDecoration) ==> after.line_decorations == t.line_decorations
            &&& kind matches RenderTaskKind::LineDecoration(info) ==> {
                let line = after.line_decorations.last();
                &&& after.line_decorations.len() == t.line_decorations.len() + 1
                &&& after.line_decorations.drop_last() == t.line_decorations
                &&& line.local_size == info.local_size
                &&& line.wavy_line_thickness == info.wavy_line_thickness
                &&& line.task_rect == crate::render_task::gpu_data::float_rect(rect)
                &&& line.style == match info.style {
                    LineStyle::Solid => 0i32,
                    LineStyle::Dotted => 1i32,
                    LineStyle::Dashed => 2i32,
                    LineStyle::Wavy => 3i32,
                }
                &&& line.axis_select.0 == if info.orientation is Vertical {
                    0x3F80_0000u32
                } else {
                    0u32
                }
            }
            &&& !(kind is CacheMask || kind is ClipRegion) ==> after.clip_work == t.clip_work
            &&& kind is CacheMask || kind is ClipRegion ==> after.clip_work.len()
                == t.clip_work.len() + 1 && after.clip_work.drop_last() == t.clip_work
            &&& !(kind is Border) ==> after.border_segments_solid == t.border_segments_solid
                && after.border_segments_complex == t.border_segments_complex
            &&& !(kind is Prim) ==> after.prim_instances == t.prim_instances
                && after.prim_instances_with_scissor == t.prim_instances_with_scissor
            &&& kind matches RenderTaskKind::Prim(info) ==> {
                &&& quad_texture(graph, info.texture_input) is None ==> after.prim_instances
                    == t.prim_instances && after.prim_instances_with_scissor
                    == t.prim_instances_with_scissor
                &&& info.prim_needs_scissor_rect ==> after.prim_instances == t.prim_instances
                &&& !info.prim_needs_scissor_rect ==> after.prim_instances_with_scissor
                    == t.prim_instances_with_scissor
            }
            &&& after.clip_masks == t.clip_masks
            &&& after.alpha_batch_containers == t.alpha_batch_containers
            &&& after.target_kind == t.target_kind
            &&& after.texture_id == t.texture_id
        }),
{
    let after = with_drawing(t, id, graph, blocks, contents, clip_clears);
    let task = graph.tasks@[id.index as int];
    let rect = task.location.spec_rect()->0;
    let src = first_child(task);
    let texture = graph.tasks@[src.index as int].spec_texture_source()->0;
    match task.kind {
        RenderTaskKind::VerticalBlur(info) => {
            lemma_gained(
                t.vertical_blurs,
                texture,
                crate::render_target::tasks::blur_instance(info, 1, id, src),
            );
        },
        RenderTaskKind::HorizontalBlur(info) => {
            lemma_gained(
                t.horizontal_blurs,
                texture,
                crate::render_target::tasks::blur_instance(info, 0, id, src),
            );
        },
        RenderTaskKind::Scaling(info) => {
            lemma_gained(
                t.scalings,
                texture,
                crate::render_target::tasks::scaling_instance(
                    info,
                    rect,
                    graph.tasks@[src.index as int].location.spec_rect()->0,
                    texture,
                ),
            );
        },
        RenderTaskKind::Border(info) => {
            crate::render_target::tasks::segments_are_kept(
                crate::render_target::tasks::with_clear(t, rect, ColorF::spec_transparent()),
                info.instances@,
                rect,
            );
        },
        _ => {},
    }
    assert(t.clears.push((rect, ColorF::spec_transparent())).drop_last() =~= t.clears);
    assert(t.clears.push((rect, ColorF::spec_white())).drop_last() =~= t.clears);
    if after.blits.len() > t.blits.len() {
        assert(after.blits.drop_last() =~= t.blits);
    }
    if after.line_decorations.len() > t.line_decorations.len() {
        assert(after.line_decorations.drop_last() =~= t.line_decorations);
    }
    if after.clip_work.len() > t.clip_work.len() {
        assert(after.clip_work.drop_last() =~= t.clip_work);
    }
}

proof fn lemma_gained<V>(groups: Seq<(TextureSource, Seq<V>)>, key: TextureSource, value: V)
    requires
        distinct_keys(groups),
    ensures
        gained(with_value(groups, key, value), groups, key),
        group_values(with_value(groups, key, value), key).last() == value,
{
    let after = with_value(groups, key, value);
    adding_keeps_other_groups(groups, key, value, key);
    assert(group_values(after, key).drop_last() =~= group_values(groups, key));
    assert forall|other: TextureSource| other != key implies #[trigger] group_values(after, other)
        == group_values(groups, other) by {
        adding_keeps_other_groups(groups, key, value, other);
    }
}

/// Several values more under a key come after those that are there, in order, and nothing
/// changes under any other key.
pub proof fn values_are_appended<K, V>(
    groups: Seq<(K, Seq<V>)>,
    key: K,
    values: Seq<V>,
    other: K,
)
    requires
        distinct_keys(groups),
    ensures
        distinct_keys(with_values(groups, key, values)),
        group_values(with_values(groups, key, values), key) == group_values(groups, key) + values,
        other != key ==> group_values(with_values(groups, key, values), other) == group_values(
            groups,
            other,
        ),
    decreases values.len(),
{
    if values.len() > 0 {
        let most = with_values(groups, key, values.drop_last());
        values_are_appended(groups, key, values.drop_last(), other);
        adding_keeps_other_groups(most, key, values.last(), other);
    }
    assert(group_values(with_values(groups, key, values), key) =~= group_values(groups, key)
        + values);
}

/// The instances draw a quad to a task. The header of the quad stands at the address
/// that they carry.
pub open spec fn draws_to(
    drawn: Seq<QuadInstance>,
    id: RenderTaskId,
    address: GpuBufferAddress,
    edges: EdgeMask,
    flags: QuadFlags,
    header: int,
) -> bool {
    &&& drawn.len() >= 1
    &&& forall|i: int|
        0 <= i < drawn.len() ==> {
            let instance = #[trigger] drawn[i];
            &&& addresses(instance.dst_task_address, id)
            &&& instance.prim_address_f == if address.0 <= i32::MAX {
                address.0 as int
            } else {
                address.0 - 0x1_0000_0000
            }
            &&& header <= i32::MAX ==> instance.prim_address_i == header
            &&& instance.edge_flags == edges
            &&& instance.quad_flags == flags
        }
}

/// The last block holds the header of a quad: its transform, its depth, which is zero, and
/// what its pattern reads.
pub open spec fn ends_with_header(
    blocks: Seq<GpuBufferBlockI>,
    transform_id: GpuTransformId,
    input: PatternShaderInput,
) -> bool {
    let data = blocks.last().data;
    &&& blocks.len() >= 1
    &&& transform_id.index <= i32::MAX ==> data[0] == transform_id.index
    &&& data[1] == 0
    &&& data[2] == input.0
    &&& data[3] == input.1
}

/// A single primitive is added to the list of its pattern, under the texture that it reads; or
/// where it needs a scissor, under its rectangle with both of these. It replaces what is there,
/// and so counts as opaque. Its header is written at the end of the blocks.
pub proof fn primitives_are_filed(
    t: RenderTargetView,
    id: RenderTaskId,
    graph: RenderTaskGraph,
    blocks: Seq<GpuBufferBlockI>,
    contents: FilterInputContents,
    clip_clears: bool,
    info: PrimTask,
    texture: TextureSource,
) -> (drawn: Seq<QuadInstance>)
    requires
        id.index < graph.tasks@.len(),
        graph.tasks@[id.index as int].kind == RenderTaskKind::Prim(info),
        quad_texture(graph, info.texture_input) == Some(texture),
        t.prim_instances.len() == 16,
        forall|i: int| 0 <= i < 16 ==> distinct_keys(#[trigger] t.prim_instances[i]),
        distinct_keys(t.prim_instances_with_scissor),
        blocks.len() + 2048 <= u32::MAX,
    ensures
        ({
            let after = with_drawing(t, id, graph, blocks, contents, clip_clears);
            let rect = graph.tasks@[id.index as int].location.spec_rect()->0;
            let key = ScissorPattern { rect, pattern: info.pattern, texture };
            let written = drawing_blocks(id, graph, blocks);
            let k = info.pattern.spec_number() as int;
            &&& draws_to(
                drawn,
                id,
                info.prim_address_f,
                info.edge_flags,
                QuadFlags { is_opaque: true, ..info.quad_flags },
                written.len() - 1,
            )
            &&& ends_with_header(written, info.transform_id, info.pattern_input)
            &&& blocks.is_prefix_of(written)
            &&& info.prim_needs_scissor_rect ==> {
                &&& group_values(after.prim_instances_with_scissor, key) == group_values(
                    t.prim_instances_with_scissor,
                    key,
                ) + drawn
                &&& after.prim_instances == t.prim_instances
            }
            &&& !info.prim_needs_scissor_rect ==> {
                &&& after.prim_instances.len() == 16
                &&& group_values(after.prim_instances[k], texture) == group_values(
                    t.prim_instances[k],
                    texture,
                ) + drawn
                &&& forall|i: int|
                    0 <= i < 16 && i != k ==> #[trigger] after.prim_instances[i]
                        == t.prim_instances[i]
                &&& after.prim_instances_with_scissor == t.prim_instances_with_scissor
            }
        }),
{
    let rect = graph.tasks@[id.index as int].location.spec_rect()->0;
    let draw = crate::render_target::tasks::prim_draw(info, id);
    let drawn = crate::render_target::quad_draw_instances(draw, texture, blocks);
    let key = ScissorPattern { rect, pattern: info.pattern, texture };
    let k = info.pattern.spec_number() as int;
    assert(0 <= k < 16);
    assert(distinct_keys(t.prim_instances[k]));
    values_are_appended(t.prim_instances_with_scissor, key, drawn, key);
    values_are_appended(t.prim_instances[k], texture, drawn, texture);
    let written = drawing_blocks(id, graph, blocks);
    let start = crate::renderer::gpu_buffer::with_row_capacity(blocks, 1);
    assert(start.len() <= blocks.len() + 1024);
    assert(blocks.is_prefix_of(written)) by {
        assert(blocks =~= written.subrange(0, blocks.len() as int));
    }
    drawn
}

/// No two patterns share a list.
pub proof fn patterns_have_their_own_lists(a: PatternKind, b: PatternKind)
    requires
        a.spec_number() == b.spec_number(),
    ensures
        a == b,
{
}

/// The segments of a border that are solid, or those that are not, in order and placed in
/// their task.
pub open spec fn placed(
    segments: Seq<BorderInstance>,
    rect: DeviceIntRect,
    solid: bool,
) -> Seq<BorderInstance> {
    segments.filter(|b: BorderInstance| (b.flags & 0x00FF_FF00 == 0x0001_0100) == solid).map_values(
        |b: BorderInstance|
            BorderInstance {
                task_origin: crate::render_task::gpu_data::float_rect(rect).min,
                ..b
            },
    )
}

/// The segments of a border go to one of two lists, in order: those with two solid edges
/// to one, all others to the other. Only their places are changed, to that of the task.
pub proof fn segments_are_sorted_by_style(
    t: RenderTargetView,
    segments: Seq<BorderInstance>,
    rect: DeviceIntRect,
)
    ensures
        ({
            let after = with_segments(t, segments, rect);
            &&& after.border_segments_solid == t.border_segments_solid + placed(
                segments,
                rect,
                true,
            )
            &&& after.border_segments_complex == t.border_segments_complex + placed(
                segments,
                rect,
                false,
            )
        }),
    decreases segments.len(),
{
    reveal(Seq::filter);
    let after = with_segments(t, segments, rect);
    if segments.len() > 0 {
        segments_are_sorted_by_style(t, segments.drop_last(), rect);
    }
    assert(after.border_segments_solid =~= t.border_segments_solid + placed(segments, rect, true));
    assert(after.border_segments_complex =~= t.border_segments_complex + placed(
        segments,
        rect,
        false,
    ));
}

/// The mask is that of a clip: it reads the shape at the clip's address through the clip's
/// transform, in the space of the target or of what is masked.
pub open spec fn masks_with(mask: MaskInstance, clip: RectangleClipSubTask) -> bool {
    &&& mask.clip_transform_id == clip.clip_transform_id
    &&& mask.clip_address == if clip.clip_address.0 <= i32::MAX {
        clip.clip_address.0 as int
    } else {
        clip.clip_address.0 - 0x1_0000_0000
    }
    &&& mask.clip_space == if clip.clip_space is Device {
        0i32
    } else {
        1i32
    }
}

/// The masks of a clip to a rectangle go to the list for its shader, and there, where the
/// clip needs a scissor, under the rectangle of the task. No other list changes.
pub proof fn masks_are_filed(
    masks: ClipMasksView,
    clip: RectangleClipSubTask,
    rect: DeviceIntRect,
    prims: Seq<QuadInstance>,
) -> (added: Seq<MaskInstance>)
    requires
        distinct_keys(masks.fast_with_scissor),
        distinct_keys(masks.slow_with_scissor),
    ensures
        ({
            let after = with_rect_clip(masks, clip, rect, prims);
            let scissor = clip.needs_scissor_rect;
            let fast = clip.rounded_rect_fast_path;
            &&& added.len() == prims.len()
            &&& forall|i: int|
                0 <= i < prims.len() ==> (#[trigger] added[i]).prim == prims[i] && masks_with(
                    added[i],
                    clip,
                )
            &&& after.fast == if fast && !scissor {
                masks.fast + added
            } else {
                masks.fast
            }
            &&& after.slow == if !fast && !scissor {
                masks.slow + added
            } else {
                masks.slow
            }
            &&& group_values(after.fast_with_scissor, rect) == if fast && scissor {
                group_values(masks.fast_with_scissor, rect) + added
            } else {
                group_values(masks.fast_with_scissor, rect)
            }
            &&& group_values(after.slow_with_scissor, rect) == if !fast && scissor {
                group_values(masks.slow_with_scissor, rect) + added
            } else {
                group_values(masks.slow_with_scissor, rect)
            }
            &&& forall|other: DeviceIntRect|
                other != rect ==> #[trigger] group_values(after.fast_with_scissor, other)
                    == group_values(masks.fast_with_scissor, other)
            &&& forall|other: DeviceIntRect|
                other != rect ==> #[trigger] group_values(after.slow_with_scissor, other)
                    == group_values(masks.slow_with_scissor, other)
            &&& after.image == masks.image
            &&& after.image_with_scissor == masks.image_with_scissor
        }),
{
    let after = with_rect_clip(masks, clip, rect, prims);
    let added = crate::render_target::mask_instances(clip, prims);
    values_are_appended(masks.fast_with_scissor, rect, added, rect);
    values_are_appended(masks.slow_with_scissor, rect, added, rect);
    assert forall|other: DeviceIntRect| other != rect implies #[trigger] group_values(
        after.fast_with_scissor,
        other,
    ) == group_values(masks.fast_with_scissor, other) by {
        values_are_appended(masks.fast_with_scissor, rect, added, other);
    }
    assert forall|other: DeviceIntRect| other != rect implies #[trigger] group_values(
        after.slow_with_scissor,
        other,
    ) == group_values(masks.slow_with_scissor, other) by {
        values_are_appended(masks.slow_with_scissor, rect, added, other);
    }
    added
}

/// A filter reads, as its first and second input, the first and second task that its task
/// depends on, and no more of them than the node has inputs. It fills its task up
/// to the inflation of the node.
pub proof fn filters_read_their_dependencies(
    info: SVGFEFilterTask,
    task: RenderTask,
    graph: RenderTaskGraph,
    contents: FilterInputContents,
)
    requires
        info.node.inputs@.len() <= u16::MAX,
    ensures
        ({
            let f = filter_instance(info, task, contents);
            let textures = filter_textures(info, task, graph);
            let n = info.node.inputs@.len();
            let children = dependency_ids(task.children);
            let inner = task.location.spec_rect()->0;
            let edge = info.node.inflate as int;
            &&& f.input_count == n
            &&& n >= 1 ==> {
                &&& addresses(f.input_1_task_address, RenderTaskId { index: children[0] })
                &&& f.input_1_content_scale_and_offset == contents.first
                &&& textures.color0 == graph.tasks@[children[0] as int].spec_texture_source()->0
            }
            &&& n >= 2 ==> {
                &&& addresses(f.input_2_task_address, RenderTaskId { index: children[1] })
                &&& textures.color1 == graph.tasks@[children[1] as int].spec_texture_source()->0
            }
            &&& n < 1 ==> textures.color0 is Invalid && addresses(
                f.input_1_task_address,
                RenderTaskId::spec_invalid(),
            )
            &&& n < 2 ==> textures.color1 is Invalid && addresses(
                f.input_2_task_address,
                RenderTaskId::spec_invalid(),
            )
            &&& textures.color2 is Invalid
            &&& textures.clip_mask is Invalid
            &&& info.op matches FilterGraphOp::SVGFEFlood { color } ==> {
                let c = f.input_2_content_scale_and_offset;
                c.scale_x == color.r && c.scale_y == color.g && c.offset_x == color.b && c.offset_y
                    == color.a
            }
            &&& info.op matches FilterGraphOp::SVGFEOpacity { value }
                ==> f.input_2_content_scale_and_offset.scale_x == value
            &&& info.op matches FilterGraphOp::SVGFEMorphologyDilate { radius_x, radius_y } ==> {
                let c = f.input_2_content_scale_and_offset;
                c.scale_x == radius_x && c.scale_y == radius_y
            }
            &&& info.op matches FilterGraphOp::SVGFEMorphologyErode { radius_x, radius_y } ==> {
                let c = f.input_2_content_scale_and_offset;
                c.scale_x == radius_x && c.scale_y == radius_y
            }
            &&& n >= 2 && !(info.op is SVGFEFlood) && !(info.op is SVGFEOpacity) && !(info.op
                is SVGFEMorphologyDilate) && !(info.op is SVGFEMorphologyErode)
                ==> f.input_2_content_scale_and_offset == contents.second
            &&& i32::MIN <= inner.min.x + edge <= i32::MAX ==> f.target_rect.min.x.0
                == crate::render_task::gpu_data::coord_bits((inner.min.x + edge) as i32)
            &&& i32::MIN <= inner.min.y + edge <= i32::MAX ==> f.target_rect.min.y.0
                == crate::render_task::gpu_data::coord_bits((inner.min.y + edge) as i32)
            &&& i32::MIN <= inner.max.x - edge <= i32::MAX ==> f.target_rect.max.x.0
                == crate::render_task::gpu_data::coord_bits((inner.max.x - edge) as i32)
            &&& i32::MIN <= inner.max.y - edge <= i32::MAX ==> f.target_rect.max.y.0
                == crate::render_task::gpu_data::coord_bits((inner.max.y - edge) as i32)
        }),
{
}

} // verus!
