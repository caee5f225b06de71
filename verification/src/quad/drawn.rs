//! What draws a quad: the tasks and commands that are added for it.

use crate::float_bits::FloatBits;
use crate::internal_types::{EdgeMask, GpuTransformId, QuadFlags, RenderTaskId};
use crate::quad::batch::{BufferView, QuadPrimitive, QuadSegment};
use crate::quad::clips::{
    all_clip_sub_tasks, clips_work, image_sub_tasks, with_clips, ClipForTask, ClipItemKind,
    MaskTile, MaskedArea,
};
use crate::quad::draw::{
    indirect_of, split_of, visible, with_border_image, with_quad_impl, with_repeatable,
    with_repeated, BorderImageSegment, QuadGeometry, QuadInputs, RepeatableQuad, RepeatedQuad,
    SplitGeometry,
};
use crate::quad::prepare::{
    plain_quad_address, with_pattern_source, with_plain_quad, with_quad_task, with_segmented_quad,
    FrameCommandView, PatternSource, QuadCommand, QuadFrameView, QuadTask,
};
use crate::quad::reading::{
    all_clips_are_read_back, buffer_extends, draws_clips, holds_quad, lemma_buffer_extends,
    lemma_clips_kept, lemma_quad_kept, quads_are_read_back,
};
use crate::quad::split::{
    corners_ok, is_corner, lemma_quad_tiles, nine_patch_part, nine_patch_state, part_task,
    quad_tiles, split_finished, tiles_sized, tiles_state, with_part, NinePatchCuts, SplitState,
    TileClip,
};
use crate::quad::tiles::{
    first_drawn, joined, lemma_first_drawn, lemma_run_end, run_end, runs, QuadTileInfo,
    QuadTileKind,
};
use crate::quad::QuadTransformStateView;
use crate::render_task::blur::extends;
use crate::render_task::gpu_data::float_rect;
use crate::render_task::{FloatRect, RenderTaskKind, RenderTaskKindView, RenderTaskLocation};
use crate::render_task_graph::MAX_TASKS;
use crate::renderer::gpu_buffer::GpuBufferAddress;
use crate::units::{DeviceIntRect, DeviceIntSize};
use vstd::prelude::*;

verus! {

/// The transform does nothing.
pub open spec fn is_identity(id: GpuTransformId) -> bool {
    id.index == 0 && id.axis_aligned
}

/// The transform takes the positions of the quad to the target. Those of a quad that is
/// scaled and moved are in device pixels already; of any other quad they are
/// in its own space.
pub open spec fn places_quad(
    id: GpuTransformId,
    q: QuadInputs,
    t: QuadTransformStateView,
) -> bool {
    match t.scale_offset {
        Some(_) => is_identity(id),
        None => id == q.to_raster,
    }
}

/// The edges that are smoothed: those that are asked for, by whether the quad is aligned
/// with the axes of the target.
pub open spec fn smooths_edges(
    edges: EdgeMask,
    q: QuadInputs,
    t: QuadTransformStateView,
) -> bool {
    &&& t.axis_aligned ==> edges == q.aligned_aa_edges
    &&& !t.axis_aligned ==> edges == q.transformed_aa_edges
}

/// The flags of the quad: opaque where its pattern is, confined to the task by the shader
/// where it is scaled and moved, and with separate edges where both its sides are greater
/// than four.
pub open spec fn flags_fit(flags: QuadFlags, q: QuadInputs, t: QuadTransformStateView) -> bool {
    &&& flags.is_opaque == q.pattern.is_opaque
    &&& flags.apply_render_task_clip == (t.scale_offset is Some)
    &&& flags.use_aa_segments == (q.prim_size.x.spec_gt(FloatBits(0x4080_0000))
        && q.prim_size.y.spec_gt(FloatBits(0x4080_0000)))
    &&& !flags.is_mask
}

/// The task at the place `i` draws the pixels of `rect` of a quad, and the quad's clips on
/// top. It depends on the texture that the quad reads, if there is one.
pub open spec fn draws_part(
    f: QuadFrameView,
    i: int,
    q: QuadInputs,
    t: QuadTransformStateView,
    prim: QuadPrimitive,
    rect: DeviceIntRect,
    coverage_rect: FloatRect,
    scissor: bool,
) -> bool {
    let task = f.graph[i];
    let subs = task.sub_tasks;
    &&& 0 <= i < f.graph.len()
    &&& task.location == (RenderTaskLocation::Unallocated {
        size: DeviceIntSize {
            width: (rect.max.x - rect.min.x) as i32,
            height: (rect.max.y - rect.min.y) as i32,
        },
    })
    &&& task.uv_rect_kind is Rect
    &&& task.children == if q.pattern.texture_input == RenderTaskId::spec_invalid() {
        Seq::<u32>::empty()
    } else {
        seq![q.pattern.texture_input.index]
    }
    &&& task.kind matches RenderTaskKindView::Plain(RenderTaskKind::Prim(p)) && {
        &&& p.pattern == q.pattern.kind
        &&& p.pattern_input == q.pattern.shader_input
        &&& p.texture_input == q.pattern.texture_input
        &&& places_quad(p.transform_id, q, t)
        &&& smooths_edges(p.edge_flags, q, t)
        &&& flags_fit(p.quad_flags, q, t)
        &&& p.prim_needs_scissor_rect == scissor
        &&& p.content_origin == float_rect(rect).min
        &&& holds_quad(f.buffer, p.prim_address_f, prim, Seq::empty())
    }
    &&& if q.clips@.len() == 0 {
        subs.start >= subs.end
    } else {
        &&& subs.start <= subs.end <= f.sub_tasks.len()
        &&& draws_clips(
            f.sub_tasks.subrange(subs.start as int, subs.end as int),
            f.buffer,
            q.clips@,
            MaskedArea { task_rect: float_rect(rect), coverage_rect },
        )
    }
}

/// What `before` has is still there in `after`, at the same places.
pub open spec fn frame_extends(after: QuadFrameView, before: QuadFrameView) -> bool {
    &&& extends(after.graph, before.graph)
    &&& buffer_extends(after.buffer, before.buffer)
    &&& before.sub_tasks.len() <= after.sub_tasks.len()
    &&& forall|i: int|
        0 <= i < before.sub_tasks.len() ==> #[trigger] after.sub_tasks[i] == before.sub_tasks[i]
    &&& before.commands.len() <= after.commands.len()
    &&& forall|i: int|
        0 <= i < before.commands.len() ==> #[trigger] after.commands[i] == before.commands[i]
    &&& before.surface_tasks.len() <= after.surface_tasks.len()
    &&& forall|i: int|
        0 <= i < before.surface_tasks.len() ==> #[trigger] after.surface_tasks[i]
            == before.surface_tasks[i]
}

proof fn lemma_frame_extends(a: QuadFrameView, b: QuadFrameView, c: QuadFrameView)
    requires
        frame_extends(b, a),
        frame_extends(c, b),
    ensures
        frame_extends(c, a),
{
    lemma_buffer_extends(a.buffer, b.buffer, c.buffer);
    assert forall|i: int| 0 <= i < a.graph.len() implies #[trigger] c.graph[i] == a.graph[i] by {
        assert(b.graph[i] == a.graph[i]);
    }
    assert forall|i: int| 0 <= i < a.sub_tasks.len() implies #[trigger] c.sub_tasks[i]
        == a.sub_tasks[i] by {
        assert(b.sub_tasks[i] == a.sub_tasks[i]);
    }
    assert forall|i: int| 0 <= i < a.commands.len() implies #[trigger] c.commands[i]
        == a.commands[i] by {
        assert(b.commands[i] == a.commands[i]);
    }
    assert forall|i: int| 0 <= i < a.surface_tasks.len() implies #[trigger] c.surface_tasks[i]
        == a.surface_tasks[i] by {
        assert(b.surface_tasks[i] == a.surface_tasks[i]);
    }
}

proof fn lemma_part_kept(
    before: QuadFrameView,
    after: QuadFrameView,
    i: int,
    q: QuadInputs,
    t: QuadTransformStateView,
    prim: QuadPrimitive,
    rect: DeviceIntRect,
    coverage_rect: FloatRect,
    scissor: bool,
)
    requires
        frame_extends(after, before),
        draws_part(before, i, q, t, prim, rect, coverage_rect, scissor),
    ensures
        draws_part(after, i, q, t, prim, rect, coverage_rect, scissor),
{
    assert(after.graph[i] == before.graph[i]);
    if let RenderTaskKindView::Plain(RenderTaskKind::Prim(p)) = before.graph[i].kind {
        lemma_quad_kept(before.buffer, after.buffer, p.prim_address_f, prim, Seq::empty());
    }
    if q.clips@.len() > 0 {
        let subs = before.graph[i].sub_tasks;
        let of_task = before.sub_tasks.subrange(subs.start as int, subs.end as int);
        assert(after.sub_tasks.subrange(subs.start as int, subs.end as int) =~= of_task);
        lemma_clips_kept(
            of_task,
            before.buffer,
            after.buffer,
            q.clips@,
            MaskedArea { task_rect: float_rect(rect), coverage_rect },
        );
    }
}

proof fn lemma_image_count(clip: ClipForTask, buffer: BufferView, tiles: Seq<MaskTile>)
    ensures
        image_sub_tasks(clip, buffer, tiles).len() == tiles.len(),
    decreases tiles.len(),
{
    if tiles.len() > 0 {
        lemma_image_count(clip, buffer, tiles.drop_last());
    }
}

proof fn lemma_sub_task_count(buffer: BufferView, clips: Seq<ClipForTask>, area: MaskedArea)
    ensures
        all_clip_sub_tasks(buffer, clips, area).len() <= clips_work(clips),
    decreases clips.len(),
{
    if clips.len() > 0 {
        lemma_sub_task_count(buffer, clips.drop_last(), area);
        let before = with_clips(buffer, clips.drop_last(), area);
        if let ClipItemKind::Image { tiles } = clips.last().kind {
            lemma_image_count(clips.last(), before, tiles@);
        }
    }
}

/// The addresses of so many groups of blocks, and as many tasks, can be written down.
pub open spec fn addressable(f: QuadFrameView, n: nat) -> bool {
    &&& f.buffer.blocks.len() + 2048 * n <= u32::MAX
    &&& f.graph.len() + n < MAX_TASKS
    &&& f.sub_tasks.len() + n < u32::MAX
}

/// The task draws a part of the quad, from the quad's data at its address.
spec fn task_fits(
    task: QuadTask,
    q: QuadInputs,
    t: QuadTransformStateView,
    coverage_rect: FloatRect,
    scissor: bool,
) -> bool {
    &&& task.pattern == q.pattern
    &&& places_quad(task.transform_id, q, t)
    &&& smooths_edges(task.aa_flags, q, t)
    &&& flags_fit(task.quad_flags, q, t)
    &&& task.needs_scissor_rect == scissor
    &&& task.coverage_rect == coverage_rect
}

#[verifier::spinoff_prover]
#[verifier::rlimit(60)]
proof fn lemma_task_added(
    f: QuadFrameView,
    task: QuadTask,
    q: QuadInputs,
    t: QuadTransformStateView,
    prim: QuadPrimitive,
    rect: DeviceIntRect,
    coverage_rect: FloatRect,
    scissor: bool,
)
    requires
        task_fits(task, q, t, coverage_rect, scissor),
        holds_quad(f.buffer, task.prim_address, prim, Seq::empty()),
        addressable(f, clips_work(q.clips@) + 1),
        rect.sized(),
    ensures
        ({
            let g = with_quad_task(f, task, rect, q.clips@);
            let id = RenderTaskId { index: f.graph.len() as u32 };
            &&& frame_extends(g, f)
            &&& g.graph.len() == f.graph.len() + 1
            &&& g.commands == f.commands
            &&& g.surface_tasks == f.surface_tasks.push(id)
            &&& g.sub_tasks.len() <= f.sub_tasks.len() + clips_work(q.clips@)
            &&& g.buffer.blocks.len() <= f.buffer.blocks.len() + 2048 * clips_work(q.clips@)
            &&& draws_part(
                g,
                f.graph.len() as int,
                q,
                t,
                prim,
                rect,
                coverage_rect,
                scissor,
            )
        }),
{
    let g = with_quad_task(f, task, rect, q.clips@);
    let i = f.graph.len() as int;
    let area = MaskedArea { task_rect: float_rect(rect), coverage_rect };
    all_clips_are_read_back(f.buffer, q.clips@, area);
    lemma_sub_task_count(f.buffer, q.clips@, area);
    let subs = all_clip_sub_tasks(f.buffer, q.clips@, area);
    let children = if q.pattern.texture_input == RenderTaskId::spec_invalid() {
        Seq::<u32>::empty()
    } else {
        seq![q.pattern.texture_input.index]
    };
    assert(g.graph[i].children =~= children);
    assert(extends(g.graph, f.graph));
    if q.clips@.len() > 0 {
        assert(g.buffer == with_clips(f.buffer, q.clips@, area));
        assert(g.sub_tasks == f.sub_tasks + subs);
        assert(g.graph[i].sub_tasks.start == f.sub_tasks.len());
        assert(g.graph[i].sub_tasks.end == g.sub_tasks.len());
        assert(g.sub_tasks.subrange(f.sub_tasks.len() as int, g.sub_tasks.len() as int) =~= subs);
    } else {
        assert(g.buffer == f.buffer);
        assert(g.sub_tasks == f.sub_tasks);
    }
    assert(buffer_extends(g.buffer, f.buffer));
    assert(frame_extends(g, f));
    lemma_quad_kept(f.buffer, g.buffer, task.prim_address, prim, Seq::empty());
}

/// The command copies parts out of tasks, placed in device pixels.
pub open spec fn copies_parts(command: QuadCommand, q: QuadInputs) -> bool {
    &&& command.pattern is ColorOrTexture
    &&& command.pattern_input.0 == 1
    &&& command.pattern_input.1 == 0
    &&& command.src_task == RenderTaskId::spec_invalid()
    &&& command.prim_instance_index == q.prim_instance_index
    &&& is_identity(command.transform_id)
    &&& command.quad_flags == (QuadFlags {
        is_opaque: false,
        apply_render_task_clip: true,
        use_aa_segments: false,
        is_mask: false,
    })
    &&& command.edge_flags == (EdgeMask { left: false, top: false, right: false, bottom: false })
}

/// The command draws the pattern of a quad in parts, placed in device pixels.
pub open spec fn draws_pattern(command: QuadCommand, q: QuadInputs) -> bool {
    &&& command.pattern == q.pattern.kind
    &&& command.pattern_input == q.pattern.shader_input
    &&& command.src_task == q.pattern.texture_input
    &&& command.prim_instance_index == q.prim_instance_index
    &&& is_identity(command.transform_id)
    &&& command.quad_flags == (QuadFlags {
        is_opaque: q.pattern.is_opaque,
        apply_render_task_clip: true,
        use_aa_segments: false,
        is_mask: false,
    })
    &&& command.edge_flags == (EdgeMask { left: false, top: false, right: false, bottom: false })
}

/// A quad that parts are copied into: it has the color of the pattern, and reads no task
/// but those of its parts.
pub open spec fn is_canvas(prim: QuadPrimitive, q: QuadInputs, rect: FloatRect) -> bool {
    &&& prim.bounds == rect
    &&& prim.clip == rect
    &&& prim.input_task == RenderTaskId::spec_invalid()
    &&& prim.color == q.pattern.base_color
    &&& prim.pattern_scale_offset.scale.x.0 == 0x3F80_0000
    &&& prim.pattern_scale_offset.scale.y.0 == 0x3F80_0000
    &&& prim.pattern_scale_offset.offset.x.0 == 0
    &&& prim.pattern_scale_offset.offset.y.0 == 0
}

/// The commands at the places `k` and `k + 1` name parts and draw a quad of which these
/// are the parts.
pub open spec fn draws_segments(
    f: QuadFrameView,
    k: int,
    prim: QuadPrimitive,
    segments: Seq<QuadSegment>,
) -> bool {
    &&& 0 <= k
    &&& k + 1 < f.commands.len()
    &&& f.commands[k] == (FrameCommandView::SetSegments { segments })
    &&& f.commands[k + 1] matches FrameCommandView::PushCommand { command } && holds_quad(
        f.buffer,
        command.address,
        prim,
        segments,
    )
}

proof fn lemma_segments_added(
    f: QuadFrameView,
    prim: QuadPrimitive,
    segments: Seq<QuadSegment>,
    command: QuadCommand,
)
    requires
        segments.len() <= 100,
        addressable(f, 1),
    ensures
        ({
            let g = with_segmented_quad(f, prim, segments, command);
            let k = f.commands.len() as int;
            &&& frame_extends(g, f)
            &&& g.graph == f.graph
            &&& g.sub_tasks == f.sub_tasks
            &&& g.surface_tasks == f.surface_tasks
            &&& g.commands.len() == k + 2
            &&& draws_segments(g, k, prim, segments)
            &&& g.commands[k + 1] matches FrameCommandView::PushCommand { command: c } && c == (
            QuadCommand { address: c.address, ..command })
            &&& g.buffer.blocks.len() <= f.buffer.blocks.len() + 2048
        }),
{
    quads_are_read_back(f.buffer, prim, segments);
}

/// A quad that is drawn where it belongs is one command of its node. It carries the
/// pattern, the transform that takes the quad to the target, and the address at which
/// the shader reads the quad. No task is added. The surface reads the texture of the
/// quad, if there is one.
pub proof fn direct_quads_are_one_command(
    f: QuadFrameView,
    q: QuadInputs,
    t: QuadTransformStateView,
    prim: QuadPrimitive,
)
    requires
        q.geometry == (QuadGeometry::Direct { prim }),
        addressable(f, 1),
    ensures
        ({
            let g = with_quad_impl(f, q, t);
            &&& frame_extends(g, f)
            &&& g.graph == f.graph
            &&& g.sub_tasks == f.sub_tasks
            &&& g.commands.len() == f.commands.len() + 1
            &&& g.commands.last() matches FrameCommandView::PushPrim { command, spatial_node } && {
                &&& spatial_node == t.prim_node
                &&& command.pattern == q.pattern.kind
                &&& command.pattern_input == q.pattern.shader_input
                &&& command.src_task == q.pattern.texture_input
                &&& command.prim_instance_index == q.prim_instance_index
                &&& places_quad(command.transform_id, q, t)
                &&& smooths_edges(command.edge_flags, q, t)
                &&& flags_fit(command.quad_flags, q, t)
                &&& holds_quad(g.buffer, command.address, prim, Seq::empty())
            }
            &&& g.surface_tasks == if q.pattern.texture_input == RenderTaskId::spec_invalid() {
                f.surface_tasks
            } else {
                f.surface_tasks.push(q.pattern.texture_input)
            }
        }),
{
    quads_are_read_back(f.buffer, prim, Seq::empty());
}

/// A quad that takes a detour is drawn to a task, or taken from the cache, and copied from
/// there to the pixels that it can touch. Only where it is scaled and moved and has no
/// smoothed edge does the task have just the pixels of the quad. A quad that
/// touches no pixel adds no task and no command.
pub proof fn indirect_quads_are_copied(
    f: QuadFrameView,
    q: QuadInputs,
    t: QuadTransformStateView,
    surface_rect: DeviceIntRect,
    prim: QuadPrimitive,
    quad_rect: DeviceIntRect,
    coverage_rect: FloatRect,
)
    requires
        q.geometry == (QuadGeometry::Indirect {
            surface_rect: Some(surface_rect),
            prim,
            quad_rect,
            coverage_rect,
        }),
        surface_rect.sized(),
        quad_rect.sized(),
        addressable(f, clips_work(q.clips@) + 4),
    ensures
        ({
            let g = with_quad_impl(f, q, t);
            let edges = if t.axis_aligned {
                q.aligned_aa_edges
            } else {
                q.transformed_aa_edges
            };
            let smooth = edges.left || edges.top || edges.right || edges.bottom;
            let rect = if t.scale_offset is Some && !smooth {
                quad_rect
            } else {
                surface_rect
            };
            let no_pixels = surface_rect.min.x >= surface_rect.max.x || surface_rect.min.y
                >= surface_rect.max.y || rect.min.x >= rect.max.x || rect.min.y >= rect.max.y;
            let id = match q.cached {
                Some(id) => id,
                None => RenderTaskId { index: f.graph.len() as u32 },
            };
            let k = f.commands.len() as int;
            &&& frame_extends(g, f)
            &&& no_pixels ==> g.graph == f.graph && g.commands == f.commands && g.surface_tasks
                == f.surface_tasks
            &&& !no_pixels ==> {
                &&& g.surface_tasks == f.surface_tasks.push(id)
                &&& q.cached is Some ==> g.graph == f.graph && g.sub_tasks == f.sub_tasks
                &&& q.cached is None ==> g.graph.len() == f.graph.len() + 1 && draws_part(
                    g,
                    f.graph.len() as int,
                    q,
                    t,
                    prim,
                    rect,
                    coverage_rect,
                    t.scale_offset is None,
                )
                &&& g.commands.len() == k + 2
                &&& exists|canvas: QuadPrimitive| #[trigger]
                    is_canvas(canvas, q, float_rect(surface_rect)) && draws_segments(
                        g,
                        k,
                        canvas,
                        seq![QuadSegment { rect: float_rect(surface_rect), task_id: id }],
                    )
                &&& g.commands[k + 1] matches FrameCommandView::PushCommand { command }
                    && copies_parts(command, q)
            }
        }),
{
    let g = with_quad_impl(f, q, t);
    let i = indirect_of(q, t, surface_rect, prim, quad_rect, coverage_rect);
    if let Some(_) = visible(Some(surface_rect)) {
        quads_are_read_back(f.buffer, prim, Seq::empty());
        let f1 = with_plain_quad(f, prim);
        assert(frame_extends(f1, f));
        let rect = crate::quad::prepare::indirect_rect(i);
        let task = crate::quad::prepare::indirect_task(i, plain_quad_address(f));
        if !crate::quad::prepare::rect_size(rect).spec_is_empty() {
            let (f2, id) = crate::quad::prepare::with_indirect_quad(f, i);
            if q.cached is None {
                lemma_task_added(
                    f1,
                    task,
                    q,
                    t,
                    prim,
                    rect,
                    coverage_rect,
                    t.scale_offset is None,
                );
            }
            assert(frame_extends(f2, f1));
            lemma_frame_extends(f, f1, f2);
            let canvas = crate::quad::prepare::composite_quad(
                q.pattern.base_color,
                float_rect(surface_rect),
            );
            let segments = seq![QuadSegment { rect: float_rect(surface_rect), task_id: id->0 }];
            let command = crate::quad::prepare::composite_command(q.prim_instance_index);
            lemma_segments_added(f2, canvas, segments, command);
            lemma_frame_extends(f, f2, g);
            if q.cached is None {
                lemma_part_kept(
                    f2,
                    g,
                    f.graph.len() as int,
                    q,
                    t,
                    prim,
                    rect,
                    coverage_rect,
                    t.scale_offset is None,
                );
            }
            assert(is_canvas(canvas, q, float_rect(surface_rect)));
        }
    }
}

/// The rectangles of the parts that are drawn to tasks, or of the others, in order.
pub open spec fn rects_of(parts: Seq<(DeviceIntRect, bool)>, masked: bool) -> Seq<DeviceIntRect> {
    parts.filter(|part: (DeviceIntRect, bool)| part.1 == masked).map_values(
        |part: (DeviceIntRect, bool)| part.0,
    )
}

proof fn lemma_rects_of(parts: Seq<(DeviceIntRect, bool)>, part: (DeviceIntRect, bool), m: bool)
    ensures
        rects_of(parts.push(part), m) == if part.1 == m {
            rects_of(parts, m).push(part.0)
        } else {
            rects_of(parts, m)
        },
        rects_of(Seq::empty(), m) == Seq::<DeviceIntRect>::empty(),
{
    reveal(Seq::filter);
    assert(parts.push(part).drop_last() =~= parts);
    assert(rects_of(parts.push(part), m) =~= if part.1 == m {
        rects_of(parts, m).push(part.0)
    } else {
        rects_of(parts, m)
    });
    assert(rects_of(Seq::empty(), m) =~= Seq::<DeviceIntRect>::empty());
}

/// The segments are those of parts that are drawn where they belong: they read what the
/// pattern reads.
pub open spec fn direct_segments(
    segments: Seq<QuadSegment>,
    rects: Seq<DeviceIntRect>,
    q: QuadInputs,
) -> bool {
    &&& segments.len() == rects.len()
    &&& forall|i: int|
        0 <= i < rects.len() ==> #[trigger] segments[i] == (QuadSegment {
            rect: float_rect(rects[i]),
            task_id: q.pattern.texture_input,
        })
}

/// The segments are copied from the tasks from `from` on, one each, and these tasks
/// draw the parts of the quad.
pub open spec fn copied_segments(
    f: QuadFrameView,
    from: int,
    segments: Seq<QuadSegment>,
    rects: Seq<DeviceIntRect>,
    q: QuadInputs,
    t: QuadTransformStateView,
    split: SplitGeometry,
    scissor: bool,
) -> bool {
    &&& segments.len() == rects.len()
    &&& f.graph.len() == from + rects.len()
    &&& forall|i: int|
        0 <= i < rects.len() ==> #[trigger] segments[i] == (QuadSegment {
            rect: float_rect(rects[i]),
            task_id: RenderTaskId { index: (from + i) as u32 },
        })
    &&& forall|i: int|
        0 <= i < rects.len() ==> draws_part(
            f,
            from + i,
            q,
            t,
            split.task_prim,
            #[trigger] rects[i],
            split.coverage_rect,
            scissor,
        )
}

/// A quad is drawn in parts: those that are masked are drawn to tasks, which the
/// surface reads, and copied from there; the others are drawn where they belong, by
/// the first commands. There are no commands for no parts.
pub open spec fn draws_in_parts(
    g: QuadFrameView,
    f: QuadFrameView,
    q: QuadInputs,
    t: QuadTransformStateView,
    split: SplitGeometry,
    scissor: bool,
    parts: Seq<(DeviceIntRect, bool)>,
    direct: Seq<QuadSegment>,
    copied: Seq<QuadSegment>,
) -> bool {
    let k = f.commands.len() as int;
    let c = if direct.len() == 0 {
        k
    } else {
        k + 2
    };
    &&& frame_extends(g, f)
    &&& direct_segments(direct, rects_of(parts, false), q)
    &&& copied_segments(
        g,
        f.graph.len() as int,
        copied,
        rects_of(parts, true),
        q,
        t,
        split,
        scissor,
    )
    &&& g.surface_tasks.len() == f.surface_tasks.len() + copied.len()
    &&& forall|i: int|
        0 <= i < copied.len() ==> g.surface_tasks[f.surface_tasks.len() + i] == (
        #[trigger] copied[i]).task_id
    &&& direct.len() > 0 ==> {
        &&& draws_segments(g, k, split.direct_prim, direct)
        &&& g.commands[k + 1] matches FrameCommandView::PushCommand { command } && draws_pattern(
            command,
            q,
        )
    }
    &&& copied.len() > 0 ==> {
        &&& exists|canvas: QuadPrimitive| #[trigger]
            is_canvas(canvas, q, split.composite_rect) && draws_segments(g, c, canvas, copied)
        &&& g.commands[c + 1] matches FrameCommandView::PushCommand { command } && copies_parts(
            command,
            q,
        )
    }
    &&& g.commands.len() == c + if copied.len() == 0 {
        0int
    } else {
        2int
    }
}

spec fn split_so_far(
    f: QuadFrameView,
    s: SplitState,
    q: QuadInputs,
    t: QuadTransformStateView,
    split: SplitGeometry,
    scissor: bool,
    parts: Seq<(DeviceIntRect, bool)>,
) -> bool {
    let w = clips_work(q.clips@) + 1;
    &&& frame_extends(s.frame, f)
    &&& s.frame.commands == f.commands
    &&& direct_segments(s.direct, rects_of(parts, false), q)
    &&& copied_segments(
        s.frame,
        f.graph.len() as int,
        s.indirect,
        rects_of(parts, true),
        q,
        t,
        split,
        scissor,
    )
    &&& s.frame.surface_tasks.len() == f.surface_tasks.len() + s.indirect.len()
    &&& forall|i: int|
        0 <= i < s.indirect.len() ==> s.frame.surface_tasks[f.surface_tasks.len() + i] == (
        #[trigger] s.indirect[i]).task_id
    &&& s.frame.buffer.blocks.len() <= f.buffer.blocks.len() + 2048 * (parts.len() * w)
    &&& s.frame.sub_tasks.len() <= f.sub_tasks.len() + parts.len() * w
    &&& s.frame.graph.len() <= f.graph.len() + parts.len() * w
    &&& s.direct.len() <= parts.len()
    &&& s.indirect.len() <= parts.len()
}

#[verifier::spinoff_prover]
#[verifier::rlimit(60)]
proof fn lemma_part_added(
    f: QuadFrameView,
    s: SplitState,
    q: QuadInputs,
    t: QuadTransformStateView,
    split: SplitGeometry,
    scissor: bool,
    parts: Seq<(DeviceIntRect, bool)>,
    address: GpuBufferAddress,
    rect: DeviceIntRect,
    masked: bool,
)
    requires
        split_so_far(f, s, q, t, split, scissor, parts),
        holds_quad(f.buffer, address, split.task_prim, Seq::empty()),
        addressable(f, (parts.len() + 1) * (clips_work(q.clips@) + 1)),
        masked ==> rect.sized(),
    ensures
        split_so_far(
            f,
            with_part(s, split_of(q, t, split), address, scissor, rect, masked),
            q,
            t,
            split,
            scissor,
            parts.push((rect, masked)),
        ),
{
    let sq = split_of(q, t, split);
    let s2 = with_part(s, sq, address, scissor, rect, masked);
    let w = clips_work(q.clips@) + 1;
    let n = parts.len();
    assert((n + 1) * w == n * w + w) by (nonlinear_arith);
    lemma_rects_of(parts, (rect, masked), true);
    lemma_rects_of(parts, (rect, masked), false);
    let rects = rects_of(parts, true);
    let more = rects_of(parts.push((rect, masked)), true);
    if masked {
        let task = part_task(sq, address, scissor);
        lemma_quad_kept(f.buffer, s.frame.buffer, address, split.task_prim, Seq::empty());
        lemma_task_added(
            s.frame,
            task,
            q,
            t,
            split.task_prim,
            rect,
            split.coverage_rect,
            scissor,
        );
        lemma_frame_extends(f, s.frame, s2.frame);
        let from = f.graph.len() as int;
        assert forall|i: int| 0 <= i < more.len() implies draws_part(
            s2.frame,
            from + i,
            q,
            t,
            split.task_prim,
            #[trigger] more[i],
            split.coverage_rect,
            scissor,
        ) by {
            if i < rects.len() {
                assert(more[i] == rects[i]);
                lemma_part_kept(
                    s.frame,
                    s2.frame,
                    from + i,
                    q,
                    t,
                    split.task_prim,
                    rects[i],
                    split.coverage_rect,
                    scissor,
                );
            }
        }
        assert forall|i: int| 0 <= i < more.len() implies #[trigger] s2.indirect[i] == (QuadSegment {
            rect: float_rect(more[i]),
            task_id: RenderTaskId { index: (from + i) as u32 },
        }) by {
            if i < rects.len() {
                assert(s2.indirect[i] == s.indirect[i]);
                assert(more[i] == rects[i]);
            }
        }
        assert forall|i: int| 0 <= i < s2.indirect.len() implies s2.frame.surface_tasks[
        f.surface_tasks.len() + i] == (#[trigger] s2.indirect[i]).task_id by {
            if i < s.indirect.len() {
                assert(s2.indirect[i] == s.indirect[i]);
            }
        }
    } else {
        assert(more == rects);
    }
}

#[verifier::spinoff_prover]
#[verifier::rlimit(60)]
proof fn lemma_split_finished(
    f: QuadFrameView,
    s: SplitState,
    q: QuadInputs,
    t: QuadTransformStateView,
    split: SplitGeometry,
    scissor: bool,
    parts: Seq<(DeviceIntRect, bool)>,
)
    requires
        split_so_far(f, s, q, t, split, scissor, parts),
        addressable(f, parts.len() * (clips_work(q.clips@) + 1) + 2),
        parts.len() <= 32,
    ensures
        draws_in_parts(
            split_finished(s, split_of(q, t, split)),
            f,
            q,
            t,
            split,
            scissor,
            parts,
            s.direct,
            s.indirect,
        ),
{
    let sq = split_of(q, t, split);
    let g = split_finished(s, sq);
    let canvas = crate::quad::prepare::composite_quad(q.pattern.base_color, split.composite_rect);
    let copy = crate::quad::prepare::composite_command(q.prim_instance_index);
    let draw = crate::quad::prepare::pattern_command(q.pattern, q.prim_instance_index);
    let f1 = if s.direct.len() == 0 {
        s.frame
    } else {
        with_segmented_quad(s.frame, split.direct_prim, s.direct, draw)
    };
    assert(frame_extends(s.frame, s.frame));
    if s.direct.len() > 0 {
        lemma_segments_added(s.frame, split.direct_prim, s.direct, draw);
    }
    assert(frame_extends(f1, s.frame));
    assert(frame_extends(f1, f1));
    if s.indirect.len() > 0 {
        lemma_segments_added(f1, canvas, s.indirect, copy);
    }
    assert(frame_extends(g, f1));
    lemma_frame_extends(f, s.frame, f1);
    lemma_frame_extends(f, f1, g);
    lemma_frame_extends(s.frame, f1, g);
    let from = f.graph.len() as int;
    let rects = rects_of(parts, true);
    assert(g.graph == s.frame.graph);
    assert forall|i: int| 0 <= i < rects.len() implies draws_part(
        g,
        from + i,
        q,
        t,
        split.task_prim,
        #[trigger] rects[i],
        split.coverage_rect,
        scissor,
    ) by {
        lemma_part_kept(
            s.frame,
            g,
            from + i,
            q,
            t,
            split.task_prim,
            rects[i],
            split.coverage_rect,
            scissor,
        );
    }
    let k = f.commands.len() as int;
    if s.direct.len() > 0 {
        assert(g.commands[k] == f1.commands[k]);
        assert(g.commands[k + 1] == f1.commands[k + 1]);
        if let FrameCommandView::PushCommand { command } = f1.commands[k + 1] {
            lemma_quad_kept(f1.buffer, g.buffer, command.address, split.direct_prim, s.direct);
        }
    }
    assert(is_canvas(canvas, q, split.composite_rect));
}

/// The parts of a nine-patch that have pixels, row by row, up to the `k`-th; the corners
/// are masked.
pub open spec fn nine_parts(cuts: NinePatchCuts, k: int) -> Seq<(DeviceIntRect, bool)>
    decreases k,
{
    if k <= 0 {
        Seq::empty()
    } else {
        match nine_patch_part(cuts, k - 1) {
            None => nine_parts(cuts, k - 1),
            Some(rect) => nine_parts(cuts, k - 1).push((rect, is_corner(k - 1))),
        }
    }
}

/// The tiles that have pixels and are drawn.
pub open spec fn tile_parts(tiles: Seq<QuadTileInfo>) -> Seq<(DeviceIntRect, bool)>
    decreases tiles.len(),
{
    if tiles.len() == 0 {
        Seq::empty()
    } else {
        let tile = tiles.last();
        if tile.kind is Clipped || tile.rect.min.x >= tile.rect.max.x || tile.rect.min.y
            >= tile.rect.max.y {
            tile_parts(tiles.drop_last())
        } else {
            tile_parts(tiles.drop_last()).push(
                (tile.rect, tile.kind == (QuadTileKind::Pattern { has_mask: true })),
            )
        }
    }
}

proof fn lemma_work_grows(n: nat, k: nat, w: nat)
    requires
        n <= k,
    ensures
        n * w <= k * w,
{
    assert(n * w <= k * w) by (nonlinear_arith)
        requires
            n <= k,
    ;
}

proof fn lemma_nine_state(
    f: QuadFrameView,
    q: QuadInputs,
    t: QuadTransformStateView,
    split: SplitGeometry,
    cuts: NinePatchCuts,
    address: GpuBufferAddress,
    k: int,
)
    requires
        0 <= k <= 9,
        corners_ok(cuts),
        holds_quad(f.buffer, address, split.task_prim, Seq::empty()),
        addressable(f, 9 * (clips_work(q.clips@) + 1)),
    ensures
        nine_parts(cuts, k).len() <= k,
        split_so_far(
            f,
            nine_patch_state(f, split_of(q, t, split), cuts, address, k),
            q,
            t,
            split,
            false,
            nine_parts(cuts, k),
        ),
    decreases k,
{
    if k == 0 {
        lemma_empty_split(f, q, t, split, false);
    } else {
        lemma_nine_state(f, q, t, split, cuts, address, k - 1);
        let s = nine_patch_state(f, split_of(q, t, split), cuts, address, k - 1);
        let parts = nine_parts(cuts, k - 1);
        if let Some(rect) = nine_patch_part(cuts, k - 1) {
            assert(is_corner(k - 1) ==> rect.sized());
            lemma_work_grows(parts.len() + 1, 9, clips_work(q.clips@) + 1);
            lemma_part_added(
                f,
                s,
                q,
                t,
                split,
                false,
                parts,
                address,
                rect,
                is_corner(k - 1),
            );
        }
    }
}

proof fn lemma_empty_split(
    f: QuadFrameView,
    q: QuadInputs,
    t: QuadTransformStateView,
    split: SplitGeometry,
    scissor: bool,
)
    ensures
        split_so_far(
            f,
            SplitState { frame: f, direct: Seq::empty(), indirect: Seq::empty() },
            q,
            t,
            split,
            scissor,
            Seq::empty(),
        ),
{
    let none = DeviceIntRect {
        min: crate::units::DeviceIntPoint { x: 0, y: 0 },
        max: crate::units::DeviceIntPoint { x: 0, y: 0 },
    };
    lemma_rects_of(Seq::empty(), (none, true), true);
    lemma_rects_of(Seq::empty(), (none, true), false);
    assert(0 * (clips_work(q.clips@) + 1) == 0) by (nonlinear_arith);
}

/// A nine-patch that can touch a pixel is drawn in its parts, the corners by way of tasks.
pub proof fn nine_patches_are_drawn_in_parts(
    f: QuadFrameView,
    q: QuadInputs,
    t: QuadTransformStateView,
    surface_rect: DeviceIntRect,
    split: SplitGeometry,
    cuts: NinePatchCuts,
) -> (segments: (Seq<QuadSegment>, Seq<QuadSegment>))
    requires
        q.geometry == (QuadGeometry::NinePatch { surface_rect: Some(surface_rect), split, cuts }),
        surface_rect.min.x < surface_rect.max.x,
        surface_rect.min.y < surface_rect.max.y,
        corners_ok(cuts),
        addressable(f, 9 * (clips_work(q.clips@) + 1) + 4),
    ensures
        draws_in_parts(
            with_quad_impl(f, q, t),
            f,
            q,
            t,
            split,
            false,
            nine_parts(cuts, 9),
            segments.0,
            segments.1,
        ),
{
    let g = with_quad_impl(f, q, t);
    let f1 = with_plain_quad(f, split.task_prim);
    let address = plain_quad_address(f);
    quads_are_read_back(f.buffer, split.task_prim, Seq::empty());
    assert(frame_extends(f1, f));
    lemma_nine_state(f1, q, t, split, cuts, address, 9);
    let s = nine_patch_state(f1, split_of(q, t, split), cuts, address, 9);
    let parts = nine_parts(cuts, 9);
    lemma_work_grows(parts.len(), 9, clips_work(q.clips@) + 1);
    lemma_split_finished(f1, s, q, t, split, false, parts);
    lemma_frame_extends(f, f1, g);
    (s.direct, s.indirect)
}

/// Runs are at most as many as tiles, and lie in the quad as these do.
proof fn lemma_runs_sized(tiles: Seq<QuadTileInfo>, quad: DeviceIntRect, position: int)
    requires
        tiles_sized(tiles, quad),
        quad.sized(),
        quad.min.x <= quad.max.x,
        quad.min.y <= quad.max.y,
        0 <= position <= tiles.len(),
    ensures
        runs(tiles, position).len() <= tiles.len() - position,
        forall|j: int|
            0 <= j < runs(tiles, position).len() ==> (#[trigger] runs(
                tiles,
                position,
            )[j]).rect.sized(),
    decreases tiles.len() - position,
{
    let i = first_drawn(tiles, position);
    lemma_first_drawn(tiles, position);
    if i < tiles.len() {
        let end = run_end(tiles, i, i + 1);
        lemma_run_end(tiles, i, i + 1);
        lemma_runs_sized(tiles, quad, end);
        let all = runs(tiles, position);
        let rest = runs(tiles, end);
        let first = joined(tiles, i, end);
        assert(all == seq![first] + rest);
        assert(tiles[i].rect.min.x >= quad.min.x);
        assert(tiles[end - 1].rect.max.x >= quad.min.x);
        assert forall|j: int| 0 <= j < all.len() implies (#[trigger] all[j]).rect.sized() by {
            if j > 0 {
                assert(all[j] == rest[j - 1]);
            }
        }
    }
}

proof fn lemma_tiles_state(
    f: QuadFrameView,
    q: QuadInputs,
    t: QuadTransformStateView,
    split: SplitGeometry,
    tiles: Seq<QuadTileInfo>,
    address: GpuBufferAddress,
)
    requires
        tiles.len() <= 32,
        forall|j: int| 0 <= j < tiles.len() ==> (#[trigger] tiles[j]).rect.sized(),
        holds_quad(f.buffer, address, split.task_prim, Seq::empty()),
        addressable(f, 32 * (clips_work(q.clips@) + 1)),
    ensures
        tile_parts(tiles).len() <= tiles.len(),
        split_so_far(
            f,
            tiles_state(f, split_of(q, t, split), address, tiles),
            q,
            t,
            split,
            t.scale_offset is None,
            tile_parts(tiles),
        ),
    decreases tiles.len(),
{
    if tiles.len() == 0 {
        lemma_empty_split(f, q, t, split, t.scale_offset is None);
    } else {
        let most = tiles.drop_last();
        assert forall|j: int| 0 <= j < most.len() implies (#[trigger] most[j]).rect.sized() by {
            assert(most[j] == tiles[j]);
        }
        lemma_tiles_state(f, q, t, split, most, address);
        let s = tiles_state(f, split_of(q, t, split), address, most);
        let parts = tile_parts(most);
        let tile = tiles.last();
        assert(tiles[tiles.len() - 1].rect.sized());
        lemma_work_grows(parts.len() + 1, 32, clips_work(q.clips@) + 1);
        lemma_part_added(
            f,
            s,
            q,
            t,
            split,
            t.scale_offset is None,
            parts,
            address,
            tile.rect,
            tile.kind == (QuadTileKind::Pattern { has_mask: true }),
        );
    }
}

/// A quad that is drawn as tiles is drawn in the runs of its tiles, the masked ones by way
/// of tasks.
pub proof fn tiles_are_drawn_in_parts(
    f: QuadFrameView,
    q: QuadInputs,
    t: QuadTransformStateView,
    surface_rect: DeviceIntRect,
    split: SplitGeometry,
    clips: Vec<TileClip>,
) -> (segments: (Seq<QuadSegment>, Seq<QuadSegment>))
    requires
        q.geometry == (QuadGeometry::Tiled { surface_rect: Some(surface_rect), split, clips }),
        surface_rect.min.x < surface_rect.max.x,
        surface_rect.min.y < surface_rect.max.y,
        surface_rect.sized(),
        addressable(f, 32 * (clips_work(q.clips@) + 1) + 4),
    ensures
        draws_in_parts(
            with_quad_impl(f, q, t),
            f,
            q,
            t,
            split,
            t.scale_offset is None,
            tile_parts(
                runs(quad_tiles(surface_rect, t.scale_offset is None, clips@), 0),
            ),
            segments.0,
            segments.1,
        ),
{
    let g = with_quad_impl(f, q, t);
    let f1 = with_plain_quad(f, split.task_prim);
    let address = plain_quad_address(f);
    quads_are_read_back(f.buffer, split.task_prim, Seq::empty());
    assert(frame_extends(f1, f));
    let tiles = runs(quad_tiles(surface_rect, t.scale_offset is None, clips@), 0);
    lemma_quad_tiles(surface_rect, t.scale_offset is None, clips@);
    lemma_runs_sized(
        quad_tiles(surface_rect, t.scale_offset is None, clips@),
        surface_rect,
        0,
    );
    lemma_tiles_state(f1, q, t, split, tiles, address);
    let s = tiles_state(f1, split_of(q, t, split), address, tiles);
    let parts = tile_parts(tiles);
    lemma_work_grows(parts.len(), 32, clips_work(q.clips@) + 1);
    lemma_split_finished(f1, s, q, t, split, t.scale_offset is None, parts);
    lemma_frame_extends(f, f1, g);
    (s.direct, s.indirect)
}

/// All positions of a quad read a task.
pub open spec fn geometry_reads(geometry: QuadGeometry, task: RenderTaskId) -> bool {
    match geometry {
        QuadGeometry::Direct { prim } => prim.input_task == task,
        QuadGeometry::Indirect { prim, .. } => prim.input_task == task,
        QuadGeometry::NinePatch { split, .. } => split.task_prim.input_task == task
            && split.direct_prim.input_task == task,
        QuadGeometry::Tiled { split, .. } => split.task_prim.input_task == task
            && split.direct_prim.input_task == task,
    }
}

/// A pattern that another quad reads is drawn to a task of just its pixels: in device pixels,
/// without smoothed edges and without clips. The surface reads the task. One that the cache
/// has is taken from there, and one without pixels has no task.
pub proof fn sources_are_drawn_to_tasks(
    f: QuadFrameView,
    source: PatternSource,
    cached: Option<RenderTaskId>,
)
    requires
        source.quad_rect.sized(),
        addressable(f, 2),
    ensures
        ({
            let (g, task) = with_pattern_source(f, source, cached);
            let r = source.quad_rect;
            let no_pixels = r.min.x >= r.max.x || r.min.y >= r.max.y;
            let i = f.graph.len() as int;
            &&& frame_extends(g, f)
            &&& g.commands == f.commands
            &&& no_pixels ==> task is None && g.graph == f.graph
            &&& !no_pixels && cached is Some ==> task == cached && g.graph == f.graph
                && g.surface_tasks == f.surface_tasks.push(cached->0)
            &&& !no_pixels && cached is None ==> {
                &&& task is Some && task->0.index == i
                &&& g.graph.len() == i + 1
                &&& g.surface_tasks == f.surface_tasks.push(task->0)
                &&& g.graph[i].sub_tasks.start >= g.graph[i].sub_tasks.end
                &&& g.graph[i].location == (RenderTaskLocation::Unallocated {
                    size: DeviceIntSize {
                        width: (r.max.x - r.min.x) as i32,
                        height: (r.max.y - r.min.y) as i32,
                    },
                })
                &&& g.graph[i].children == if source.pattern.texture_input
                    == RenderTaskId::spec_invalid() {
                    Seq::<u32>::empty()
                } else {
                    seq![source.pattern.texture_input.index]
                }
                &&& g.graph[i].kind matches RenderTaskKindView::Plain(RenderTaskKind::Prim(p)) && {
                    &&& p.pattern == source.pattern.kind
                    &&& p.pattern_input == source.pattern.shader_input
                    &&& p.texture_input == source.pattern.texture_input
                    &&& is_identity(p.transform_id)
                    &&& p.edge_flags == (EdgeMask {
                        left: false,
                        top: false,
                        right: false,
                        bottom: false,
                    })
                    &&& p.quad_flags.is_opaque == source.pattern.is_opaque
                    &&& !p.prim_needs_scissor_rect
                    &&& p.content_origin == float_rect(r).min
                    &&& holds_quad(g.buffer, p.prim_address_f, source.prim, Seq::empty())
                }
            }
        }),
{
    quads_are_read_back(f.buffer, source.prim, Seq::empty());
    let (g, _) = with_pattern_source(f, source, cached);
    let i = f.graph.len() as int;
    if g.graph.len() > i {
        assert(g.graph[i].children =~= if source.pattern.texture_input
            == RenderTaskId::spec_invalid() {
            Seq::<u32>::empty()
        } else {
            seq![source.pattern.texture_input.index]
        });
    }
}

/// A quad whose pattern was drawn to a task reads that task and nothing else, and is itself not
/// taken from the cache. Apart from that it is the quad that was asked for.
pub proof fn repeated_patterns_are_read(
    f: QuadFrameView,
    source: PatternSource,
    cached: Option<RenderTaskId>,
    quad: QuadInputs,
    t: QuadTransformStateView,
) -> (reader: QuadInputs)
    ensures
        ({
            let (f1, task) = with_pattern_source(f, source, cached);
            let g = with_repeatable(f, RepeatableQuad::RepeatPattern { source, cached, quad }, t);
            &&& task is None ==> g == f1
            &&& task matches Some(id) ==> {
                &&& g == with_quad_impl(f1, reader, t)
                &&& reader.pattern.texture_input == id
                &&& geometry_reads(reader.geometry, id)
                &&& reader.cached is None
                &&& reader.pattern.kind == quad.pattern.kind
                &&& reader.pattern.shader_input == quad.pattern.shader_input
                &&& reader.pattern.is_opaque == quad.pattern.is_opaque
                &&& reader.to_raster == quad.to_raster
                &&& reader.clips == quad.clips
                &&& reader.aligned_aa_edges == quad.aligned_aa_edges
                &&& reader.transformed_aa_edges == quad.transformed_aa_edges
                &&& reader.prim_instance_index == quad.prim_instance_index
            }
        }),
{
    let (_, task) = with_pattern_source(f, source, cached);
    crate::quad::draw::uncached(crate::quad::draw::quad_reading(quad, task->0))
}

/// Quads that repeat a pattern are drawn one after the other, the first one first. Each smooths
/// only edges that lie on the outside, and none of them is taken from the cache.
pub proof fn duplicates_smooth_outer_edges(
    f: QuadFrameView,
    quads: Seq<RepeatedQuad>,
    t: QuadTransformStateView,
) -> (last: QuadInputs)
    requires
        quads.len() > 0,
    ensures
        ({
            let r = quads.last();
            let (e, o) = (last.aligned_aa_edges, r.outer_edges);
            let (u, a) = (last.transformed_aa_edges, r.quad.aligned_aa_edges);
            let b = r.quad.transformed_aa_edges;
            &&& with_repeated(f, quads, t) == with_quad_impl(
                with_repeated(f, quads.drop_last(), t),
                last,
                t,
            )
            &&& with_repeated(f, Seq::empty(), t) == f
            &&& e.left == (a.left && o.left)
            &&& e.top == (a.top && o.top)
            &&& e.right == (a.right && o.right)
            &&& e.bottom == (a.bottom && o.bottom)
            &&& u.left == (b.left && o.left)
            &&& u.top == (b.top && o.top)
            &&& u.right == (b.right && o.right)
            &&& u.bottom == (b.bottom && o.bottom)
            &&& last.cached is None
            &&& last.pattern == r.quad.pattern
            &&& last.geometry == r.quad.geometry
            &&& last.clips == r.quad.clips
            &&& last.to_raster == r.quad.to_raster
            &&& last.prim_size == r.quad.prim_size
            &&& last.prim_instance_index == r.quad.prim_instance_index
        }),
{
    crate::quad::draw::repeated_of(quads.last())
}

/// The parts of a border image are drawn one after the other, each by way of a task for its own
/// pattern, and are opaque where that pattern is.
pub proof fn border_parts_are_opaque_as_their_patterns(
    f: QuadFrameView,
    segments: Seq<BorderImageSegment>,
    t: QuadTransformStateView,
) -> (part: QuadInputs)
    requires
        segments.len() > 0,
    ensures
        ({
            let last = segments.last();
            let before = with_border_image(f, segments.drop_last(), t);
            let (f1, task) = with_pattern_source(before, last.source, None);
            &&& with_border_image(f, Seq::empty(), t) == f
            &&& task is None ==> with_border_image(f, segments, t) == f1
            &&& task matches Some(id) ==> {
                &&& with_border_image(f, segments, t) == with_quad_impl(f1, part, t)
                &&& part.pattern.texture_input == id
                &&& geometry_reads(part.geometry, id)
                &&& part.pattern.is_opaque == last.source.pattern.is_opaque
                &&& part.pattern.kind == last.part.quad.pattern.kind
                &&& part.cached is None
                &&& part.clips == last.part.quad.clips
            }
        }),
{
    let before = with_border_image(f, segments.drop_last(), t);
    let (_, task) = with_pattern_source(before, segments.last().source, None);
    crate::quad::draw::uncached(
        crate::quad::draw::quad_reading(
            crate::quad::draw::border_part(segments.last()),
            task->0,
        ),
    )
}

} // verus!
