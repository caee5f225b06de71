//! What the shaders read of quads and clips, at the addresses that they are given.

use crate::float_bits::ONE_BITS;
use crate::internal_types::RenderTaskId;
use crate::quad::batch::{
    next_address, segment_blocks, segment_patches, with_group, with_quad, BufferView, QuadPrimitive,
    QuadSegment,
};
use crate::quad::clips::{
    all_clip_sub_tasks, clip_blocks, clip_sub_tasks, clip_work, clips_work, image_sub_tasks,
    with_clip, with_clips, with_image_tiles, ClipForTask, ClipItemKind, MaskTile, MaskedArea,
};
use crate::quad::tiles::ClipMode;
use crate::quad::ScaleOffset;
use crate::render_task::{FloatRect, SubTask};
use crate::renderer::gpu_buffer::{
    placed_tasks, with_row_capacity, DeferredBlock, GpuBufferAddress, GpuBufferBlockF,
    GpuBufferDataF,
};
use vstd::prelude::*;

verus! {

/// The block holds the corners of a rectangle: left, top, right, bottom.
pub open spec fn holds_rect(block: GpuBufferBlockF, rect: FloatRect) -> bool {
    &&& block.data[0] == rect.min.x.0
    &&& block.data[1] == rect.min.y.0
    &&& block.data[2] == rect.max.x.0
    &&& block.data[3] == rect.max.y.0
}

/// The block at the place `i` waits for where a task ends up; for no task, it waits for
/// nothing.
pub open spec fn waits_for(buffer: BufferView, i: int, task: RenderTaskId) -> bool {
    task != RenderTaskId::spec_invalid() ==> exists|k: int|
        0 <= k < buffer.patches.len() && #[trigger] buffer.patches[k] == (DeferredBlock {
            task_id: task,
            index: i as usize,
        })
}

/// The blocks from the place `i` on hold a part of a quad: its rectangle, and where the
/// task is that it reads.
pub open spec fn holds_segment(buffer: BufferView, i: int, segment: QuadSegment) -> bool {
    &&& 0 <= i
    &&& i + 2 <= buffer.blocks.len()
    &&& holds_rect(buffer.blocks[i], segment.rect)
    &&& waits_for(buffer, i + 1, segment.task_id)
}

/// The blocks from an address on, which lie in one row, hold a quad and its parts: the
/// bounds, the clip, where the task is that it reads, the placement of the pattern, the
/// color, and then the parts.
pub open spec fn holds_quad(
    buffer: BufferView,
    address: GpuBufferAddress,
    prim: QuadPrimitive,
    segments: Seq<QuadSegment>,
) -> bool {
    let a = address.0 as int;
    &&& a + 5 + 2 * segments.len() <= buffer.blocks.len()
    &&& a % 1024 + 5 + 2 * segments.len() <= 1024
    &&& holds_rect(buffer.blocks[a], prim.bounds)
    &&& holds_rect(buffer.blocks[a + 1], prim.clip)
    &&& waits_for(buffer, a + 2, prim.input_task)
    &&& buffer.blocks[a + 3].data[0] == prim.pattern_scale_offset.scale.x.0
    &&& buffer.blocks[a + 3].data[1] == prim.pattern_scale_offset.scale.y.0
    &&& buffer.blocks[a + 3].data[2] == prim.pattern_scale_offset.offset.x.0
    &&& buffer.blocks[a + 3].data[3] == prim.pattern_scale_offset.offset.y.0
    &&& buffer.blocks[a + 4].data[0] == prim.color.r.0
    &&& buffer.blocks[a + 4].data[1] == prim.color.g.0
    &&& buffer.blocks[a + 4].data[2] == prim.color.b.0
    &&& buffer.blocks[a + 4].data[3] == prim.color.a.0
    &&& forall|k: int|
        0 <= k < segments.len() ==> #[trigger] holds_segment(buffer, a + 5 + 2 * k, segments[k])
}

/// What `before` holds is still there in `after`, at the same places.
pub open spec fn buffer_extends(after: BufferView, before: BufferView) -> bool {
    &&& before.blocks.len() <= after.blocks.len()
    &&& before.patches.len() <= after.patches.len()
    &&& forall|i: int| 0 <= i < before.blocks.len() ==> #[trigger] after.blocks[i] == before.blocks[i]
    &&& forall|i: int|
        0 <= i < before.patches.len() ==> #[trigger] after.patches[i] == before.patches[i]
}

pub proof fn lemma_buffer_extends(a: BufferView, b: BufferView, c: BufferView)
    requires
        buffer_extends(b, a),
        buffer_extends(c, b),
    ensures
        buffer_extends(c, a),
{
    assert forall|i: int| 0 <= i < a.blocks.len() implies #[trigger] c.blocks[i] == a.blocks[i] by {
        assert(b.blocks[i] == a.blocks[i]);
    }
    assert forall|i: int| 0 <= i < a.patches.len() implies #[trigger] c.patches[i]
        == a.patches[i] by {
        assert(b.patches[i] == a.patches[i]);
    }
}

proof fn lemma_waits_kept(before: BufferView, after: BufferView, i: int, task: RenderTaskId)
    requires
        buffer_extends(after, before),
        waits_for(before, i, task),
    ensures
        waits_for(after, i, task),
{
    if task != RenderTaskId::spec_invalid() {
        let k = choose|k: int|
            0 <= k < before.patches.len() && #[trigger] before.patches[k] == (DeferredBlock {
                task_id: task,
                index: i as usize,
            });
        assert(after.patches[k] == before.patches[k]);
    }
}

/// A quad stays where it is while a buffer grows.
pub proof fn lemma_quad_kept(
    before: BufferView,
    after: BufferView,
    address: GpuBufferAddress,
    prim: QuadPrimitive,
    segments: Seq<QuadSegment>,
)
    requires
        buffer_extends(after, before),
        holds_quad(before, address, prim, segments),
    ensures
        holds_quad(after, address, prim, segments),
{
    let a = address.0 as int;
    assert(after.blocks[a] == before.blocks[a]);
    assert(after.blocks[a + 1] == before.blocks[a + 1]);
    assert(after.blocks[a + 3] == before.blocks[a + 3]);
    assert(after.blocks[a + 4] == before.blocks[a + 4]);
    lemma_waits_kept(before, after, a + 2, prim.input_task);
    assert forall|k: int| 0 <= k < segments.len() implies #[trigger] holds_segment(
        after,
        a + 5 + 2 * k,
        segments[k],
    ) by {
        let i = a + 5 + 2 * k;
        assert(holds_segment(before, i, segments[k]));
        assert(after.blocks[i] == before.blocks[i]);
        lemma_waits_kept(before, after, i + 1, segments[k].task_id);
    }
}

proof fn lemma_row_capacity(blocks: Seq<GpuBufferBlockF>, count: int)
    requires
        0 <= count <= 1024,
    ensures
        ({
            let start = with_row_capacity(blocks, count);
            &&& blocks.len() <= start.len() <= blocks.len() + 1024
            &&& start.len() as int % 1024 + count <= 1024
            &&& forall|i: int| 0 <= i < blocks.len() ==> #[trigger] start[i] == blocks[i]
        }),
{
    let start = with_row_capacity(blocks, count);
    let n = blocks.len() as int;
    if n % 1024 + count > 1024 {
        assert(start.len() as int % 1024 == 0) by {
            assert(start.len() == crate::renderer::gpu_buffer::row_end(n));
        }
    }
}

proof fn lemma_segments_written(segments: Seq<QuadSegment>, base: int)
    requires
        0 <= base,
        base + 2 * segments.len() <= u32::MAX,
    ensures
        segment_blocks(segments).len() == 2 * segments.len(),
        forall|k: int|
            #![trigger segments[k]]
            0 <= k < segments.len() ==> {
                &&& holds_rect(segment_blocks(segments)[2 * k], segments[k].rect)
                &&& segments[k].task_id != RenderTaskId::spec_invalid() ==> exists|i: int|
                    0 <= i < segment_patches(segments, base).len() && #[trigger] segment_patches(
                        segments,
                        base,
                    )[i] == (DeferredBlock {
                        task_id: segments[k].task_id,
                        index: (base + 2 * k + 1) as usize,
                    })
            },
    decreases segments.len(),
{
    if segments.len() > 0 {
        let most = segments.drop_last();
        let last = segments.last();
        lemma_segments_written(most, base);
        let blocks = segment_blocks(segments);
        let patches = segment_patches(segments, base);
        let fewer = segment_patches(most, base);
        let n = segments.len() as int;
        assert(blocks == segment_blocks(most) + last.spec_blocks());
        assert forall|k: int|
            #![trigger segments[k]]
            0 <= k < segments.len() implies {
            &&& holds_rect(blocks[2 * k], segments[k].rect)
            &&& segments[k].task_id != RenderTaskId::spec_invalid() ==> exists|i: int|
                0 <= i < patches.len() && #[trigger] patches[i] == (DeferredBlock {
                    task_id: segments[k].task_id,
                    index: (base + 2 * k + 1) as usize,
                })
        } by {
            if k < n - 1 {
                assert(most[k] == segments[k]);
                assert(blocks[2 * k] == segment_blocks(most)[2 * k]);
                if segments[k].task_id != RenderTaskId::spec_invalid() {
                    let i = choose|i: int|
                        0 <= i < fewer.len() && #[trigger] fewer[i] == (DeferredBlock {
                            task_id: segments[k].task_id,
                            index: (base + 2 * k + 1) as usize,
                        });
                    assert(patches[i] == fewer[i]);
                }
            } else {
                assert(blocks[2 * k] == last.spec_blocks()[0]);
                if last.task_id != RenderTaskId::spec_invalid() {
                    assert(last.spec_tasks()[0] == (1int, last.task_id));
                    assert(patches[fewer.len() as int] == (DeferredBlock {
                        task_id: last.task_id,
                        index: (base + 2 * (n - 1) + 1) as usize,
                    }));
                }
            }
        }
    }
}

/// A quad that is written is read back at its address, whole and from one row, with its
/// parts in order. What the buffer held before stays where it is.
#[verifier::rlimit(40)]
pub proof fn quads_are_read_back(
    buffer: BufferView,
    prim: QuadPrimitive,
    segments: Seq<QuadSegment>,
)
    requires
        5 + 2 * segments.len() <= 1024,
        buffer.blocks.len() + 2048 <= u32::MAX,
    ensures
        ({
            let address = next_address(buffer, 5 + 2 * segments.len() as int);
            let after = with_quad(buffer, prim, segments);
            &&& buffer_extends(after, buffer)
            &&& after.blocks.len() <= buffer.blocks.len() + 2048
            &&& address.0 >= buffer.blocks.len()
            &&& holds_quad(after, address, prim, segments)
        }),
{
    let count = 5 + 2 * segments.len() as int;
    let start = with_row_capacity(buffer.blocks, count);
    lemma_row_capacity(buffer.blocks, count);
    let a = start.len() as int;
    lemma_segments_written(segments, a + 5);
    let after = with_quad(buffer, prim, segments);
    assert(next_address(buffer, count).0 == a);
    let blocks = prim.spec_blocks();
    assert(blocks.len() == 5);
    assert forall|i: int| 0 <= i < 5 implies #[trigger] after.blocks[a + i] == blocks[i] by {}
    assert(after.blocks[a + 0] == blocks[0]);
    assert(after.blocks[a + 1] == blocks[1]);
    assert(after.blocks[a + 3] == blocks[3]);
    assert(after.blocks[a + 4] == blocks[4]);
    assert forall|i: int| 0 <= i < buffer.blocks.len() implies #[trigger] after.blocks[i]
        == buffer.blocks[i] by {
        assert(start[i] == buffer.blocks[i]);
    }
    let own = placed_tasks(prim.spec_tasks(), a);
    let parts = segment_patches(segments, a + 5);
    assert(after.patches == buffer.patches + own + parts);
    if prim.input_task != RenderTaskId::spec_invalid() {
        assert(prim.spec_tasks()[0] == (2int, prim.input_task));
        assert(after.patches[buffer.patches.len() as int] == own[0]);
    }
    assert forall|k: int| 0 <= k < segments.len() implies #[trigger] holds_segment(
        after,
        a + 5 + 2 * k,
        segments[k],
    ) by {
        let segment = segments[k];
        assert(after.blocks[a + 5 + 2 * k] == segment_blocks(segments)[2 * k]);
        if segment.task_id != RenderTaskId::spec_invalid() {
            let i = choose|i: int|
                0 <= i < parts.len() && #[trigger] parts[i] == (DeferredBlock {
                    task_id: segment.task_id,
                    index: (a + 5 + 2 * k + 1) as usize,
                });
            assert(after.patches[buffer.patches.len() + own.len() + i] == parts[i]);
        }
    }
}

/// The blocks from an address on hold the shape of a clip: its rectangle, the radii of
/// its corners and its mode, a number that is one where the inside is dropped.
///
/// The shader for simple corners reads one radius for each corner, in the order bottom
/// right, top right, bottom left, top left. The other one reads a width and a
/// height for each corner, in the order top left, top right, bottom left, bottom right.
pub open spec fn holds_shape(
    buffer: BufferView,
    address: GpuBufferAddress,
    kind: ClipItemKind,
    rect: FloatRect,
) -> bool {
    let a = address.0 as int;
    match kind {
        ClipItemKind::RoundedRectangle { radius, mode, fast_path: true } => {
            &&& a + 3 <= buffer.blocks.len()
            &&& a % 1024 + 3 <= 1024
            &&& holds_rect(buffer.blocks[a], rect)
            &&& buffer.blocks[a + 1].data[0] == radius.bottom_right.x.0
            &&& buffer.blocks[a + 1].data[1] == radius.top_right.x.0
            &&& buffer.blocks[a + 1].data[2] == radius.bottom_left.x.0
            &&& buffer.blocks[a + 1].data[3] == radius.top_left.x.0
            &&& holds_mode(buffer.blocks[a + 2], mode)
        },
        ClipItemKind::RoundedRectangle { radius, mode, fast_path: false } => {
            &&& a + 4 <= buffer.blocks.len()
            &&& a % 1024 + 4 <= 1024
            &&& holds_rect(buffer.blocks[a], rect)
            &&& buffer.blocks[a + 1].data[0] == radius.top_left.x.0
            &&& buffer.blocks[a + 1].data[1] == radius.top_left.y.0
            &&& buffer.blocks[a + 1].data[2] == radius.top_right.x.0
            &&& buffer.blocks[a + 1].data[3] == radius.top_right.y.0
            &&& buffer.blocks[a + 2].data[0] == radius.bottom_left.x.0
            &&& buffer.blocks[a + 2].data[1] == radius.bottom_left.y.0
            &&& buffer.blocks[a + 2].data[2] == radius.bottom_right.x.0
            &&& buffer.blocks[a + 2].data[3] == radius.bottom_right.y.0
            &&& holds_mode(buffer.blocks[a + 3], mode)
        },
        ClipItemKind::Rectangle { mode } => {
            &&& a + 3 <= buffer.blocks.len()
            &&& a % 1024 + 3 <= 1024
            &&& holds_rect(buffer.blocks[a], rect)
            &&& forall|i: int| 0 <= i < 4 ==> #[trigger] buffer.blocks[a + 1].data[i] == 0
            &&& holds_mode(buffer.blocks[a + 2], mode)
        },
        ClipItemKind::Image { .. } => true,
    }
}

/// The block holds the mode of a clip: zero, or one where the inside is dropped.
pub open spec fn holds_mode(block: GpuBufferBlockF, mode: ClipMode) -> bool {
    &&& block.data[0] == if mode is ClipOut {
        0x3F80_0000u32
    } else {
        0u32
    }
    &&& block.data[1] == 0
    &&& block.data[2] == 0
    &&& block.data[3] == 0
}

/// The quad is white and reads no texture.
pub open spec fn is_white(prim: QuadPrimitive, rect: FloatRect) -> bool {
    &&& prim.bounds == rect
    &&& prim.clip == rect
    &&& prim.input_task == RenderTaskId::spec_invalid()
    &&& prim.pattern_scale_offset.scale.x.0 == 0x3F80_0000
    &&& prim.pattern_scale_offset.scale.y.0 == 0x3F80_0000
    &&& prim.pattern_scale_offset.offset.x.0 == 0
    &&& prim.pattern_scale_offset.offset.y.0 == 0
    &&& prim.color.r.0 == 0x3F80_0000
    &&& prim.color.g.0 == 0x3F80_0000
    &&& prim.color.b.0 == 0x3F80_0000
    &&& prim.color.a.0 == 0x3F80_0000
}

/// The sub-task draws a rectangular clip over the pixels of a task.
///
/// Where the clip shares the coordinate system of the target, its quad is the
/// task's own pixels. Otherwise its quad is what the clipped quad covers, placed as
/// that one is. The shader confines it to the task where the quad
/// and the target share a coordinate system, and a scissor does so elsewhere.
pub open spec fn draws_clip(
    sub: SubTask,
    buffer: BufferView,
    clip: ClipForTask,
    area: MaskedArea,
) -> bool {
    let in_target = clip.raster_system == clip.clip_system;
    sub matches SubTask::RectangleClip(s) && {
        &&& holds_shape(buffer, s.clip_address, clip.kind, clip.clip_rect)
        &&& exists|prim: QuadPrimitive| #[trigger]
            holds_quad(buffer, s.quad_address, prim, Seq::empty()) && is_white(
                prim,
                if in_target {
                    area.task_rect
                } else {
                    area.coverage_rect
                },
            )
        &&& s.clip_space is Device <==> in_target
        &&& in_target ==> s.quad_transform_id.index == 0 && s.quad_transform_id.axis_aligned
        &&& !in_target ==> s.quad_transform_id == clip.to_raster
        &&& s.clip_transform_id == clip.clip_transform
        &&& s.quad_flags.apply_render_task_clip <==> in_target || clip.prim_system
            == clip.raster_system
        &&& s.needs_scissor_rect == !s.quad_flags.apply_render_task_clip
        &&& !s.quad_flags.is_opaque
        &&& !s.quad_flags.is_mask
        &&& !s.quad_flags.use_aa_segments
        &&& s.rounded_rect_fast_path == !(clip.kind matches ClipItemKind::RoundedRectangle {
            fast_path: false,
            ..
        })
    }
}

/// The sub-task draws a tile of an image over a task: a white quad of the tile's
/// rectangle, with one part that reads the tile.
pub open spec fn draws_tile(
    sub: SubTask,
    buffer: BufferView,
    clip: ClipForTask,
    tile: MaskTile,
) -> bool {
    sub matches SubTask::ImageClip(s) && {
        &&& exists|prim: QuadPrimitive| #[trigger]
            holds_quad(
                buffer,
                s.quad_address,
                prim,
                seq![QuadSegment { rect: tile.rect, task_id: tile.task_id }],
            ) && is_white(prim, tile.rect)
        &&& s.src_task == tile.task_id
        &&& s.quad_transform_id == clip.to_raster
        &&& s.quad_flags.is_mask
        &&& s.quad_flags.apply_render_task_clip == clip.to_raster_is_scale_offset
        &&& s.needs_scissor_rect == !clip.to_raster_is_scale_offset
        &&& !s.quad_flags.is_opaque
        &&& !s.quad_flags.use_aa_segments
    }
}

/// The sub-tasks draw a clip: one for each tile of an image, in order, or else one.
pub open spec fn draws_all_of(
    subs: Seq<SubTask>,
    buffer: BufferView,
    clip: ClipForTask,
    area: MaskedArea,
) -> bool {
    match clip.kind {
        ClipItemKind::Image { tiles } => {
            &&& subs.len() == tiles@.len()
            &&& forall|i: int|
                0 <= i < tiles@.len() ==> draws_tile(#[trigger] subs[i], buffer, clip, tiles@[i])
        },
        _ => subs.len() == 1 && draws_clip(subs[0], buffer, clip, area),
    }
}

proof fn lemma_shape_written(buffer: BufferView, kind: ClipItemKind, rect: FloatRect)
    requires
        !(kind is Image),
        buffer.blocks.len() + 2048 <= u32::MAX,
    ensures
        ({
            let blocks = clip_blocks(kind, rect);
            let after = with_group(buffer, blocks);
            let address = next_address(buffer, blocks.len() as int);
            &&& buffer_extends(after, buffer)
            &&& after.blocks.len() <= buffer.blocks.len() + 2048
            &&& after.patches == buffer.patches
            &&& holds_shape(after, address, kind, rect)
        }),
{
    let blocks = clip_blocks(kind, rect);
    let after = with_group(buffer, blocks);
    let n = blocks.len() as int;
    let start = with_row_capacity(buffer.blocks, n);
    lemma_row_capacity(buffer.blocks, n);
    let a = start.len() as int;
    assert forall|i: int| 0 <= i < n implies #[trigger] after.blocks[a + i] == blocks[i] by {}
    assert(after.blocks[a + 0] == blocks[0]);
    assert(after.blocks[a + 1] == blocks[1]);
    assert(after.blocks[a + 2] == blocks[2]);
    if n == 4 {
        assert(after.blocks[a + 3] == blocks[3]);
    }
    assert forall|i: int| 0 <= i < buffer.blocks.len() implies #[trigger] after.blocks[i]
        == buffer.blocks[i] by {
        assert(start[i] == buffer.blocks[i]);
    }
}

proof fn lemma_shape_kept(
    before: BufferView,
    after: BufferView,
    address: GpuBufferAddress,
    kind: ClipItemKind,
    rect: FloatRect,
)
    requires
        buffer_extends(after, before),
        holds_shape(before, address, kind, rect),
    ensures
        holds_shape(after, address, kind, rect),
{
    let a = address.0 as int;
    if !(kind is Image) {
        assert(after.blocks[a] == before.blocks[a]);
        assert(after.blocks[a + 1] == before.blocks[a + 1]);
        assert(after.blocks[a + 2] == before.blocks[a + 2]);
        if kind matches ClipItemKind::RoundedRectangle { fast_path: false, .. } {
            assert(after.blocks[a + 3] == before.blocks[a + 3]);
        }
    }
}

proof fn lemma_tile_kept(
    sub: SubTask,
    before: BufferView,
    after: BufferView,
    clip: ClipForTask,
    tile: MaskTile,
)
    requires
        buffer_extends(after, before),
        draws_tile(sub, before, clip, tile),
    ensures
        draws_tile(sub, after, clip, tile),
{
    if let SubTask::ImageClip(s) = sub {
        let segments = seq![QuadSegment { rect: tile.rect, task_id: tile.task_id }];
        let prim = choose|prim: QuadPrimitive| #[trigger]
            holds_quad(before, s.quad_address, prim, segments) && is_white(prim, tile.rect);
        lemma_quad_kept(before, after, s.quad_address, prim, segments);
    }
}

proof fn lemma_draws_kept(
    subs: Seq<SubTask>,
    before: BufferView,
    after: BufferView,
    clip: ClipForTask,
    area: MaskedArea,
)
    requires
        buffer_extends(after, before),
        draws_all_of(subs, before, clip, area),
    ensures
        draws_all_of(subs, after, clip, area),
{
    match clip.kind {
        ClipItemKind::Image { tiles } => {
            assert forall|i: int| 0 <= i < tiles@.len() implies draws_tile(
                #[trigger] subs[i],
                after,
                clip,
                tiles@[i],
            ) by {
                assert(draws_tile(subs[i], before, clip, tiles@[i]));
                lemma_tile_kept(subs[i], before, after, clip, tiles@[i]);
            }
        },
        _ => {
            if let SubTask::RectangleClip(s) = subs[0] {
                lemma_shape_kept(before, after, s.clip_address, clip.kind, clip.clip_rect);
                let rect = if clip.raster_system == clip.clip_system {
                    area.task_rect
                } else {
                    area.coverage_rect
                };
                let prim = choose|prim: QuadPrimitive| #[trigger]
                    holds_quad(before, s.quad_address, prim, Seq::empty()) && is_white(prim, rect);
                lemma_quad_kept(before, after, s.quad_address, prim, Seq::empty());
            }
        },
    }
}

proof fn lemma_image_tiles(
    clip: ClipForTask,
    buffer: BufferView,
    tiles: Seq<MaskTile>,
)
    requires
        buffer.blocks.len() + 2048 * (tiles.len() + 1) <= u32::MAX,
    ensures
        ({
            let after = with_image_tiles(buffer, tiles);
            let subs = image_sub_tasks(clip, buffer, tiles);
            &&& buffer_extends(after, buffer)
            &&& after.blocks.len() <= buffer.blocks.len() + 2048 * tiles.len()
            &&& subs.len() == tiles.len()
            &&& forall|i: int|
                0 <= i < tiles.len() ==> draws_tile(#[trigger] subs[i], after, clip, tiles[i])
        }),
    decreases tiles.len(),
{
    if tiles.len() > 0 {
        let most = tiles.drop_last();
        let last = tiles.last();
        let before = with_image_tiles(buffer, most);
        let after = with_image_tiles(buffer, tiles);
        let fewer = image_sub_tasks(clip, buffer, most);
        let subs = image_sub_tasks(clip, buffer, tiles);
        lemma_image_tiles(clip, buffer, most);
        let segments = seq![QuadSegment { rect: last.rect, task_id: last.task_id }];
        let prim = crate::quad::clips::white_quad(last.rect);
        quads_are_read_back(before, prim, segments);
        lemma_buffer_extends(buffer, before, after);
        assert forall|i: int| 0 <= i < tiles.len() implies draws_tile(
            #[trigger] subs[i],
            after,
            clip,
            tiles[i],
        ) by {
            if i < most.len() {
                assert(subs[i] == fewer[i]);
                assert(tiles[i] == most[i]);
                lemma_tile_kept(fewer[i], before, after, clip, most[i]);
            } else {
                assert(tiles[i] == last);
                assert(holds_quad(after, next_address(before, 7), prim, segments));
                assert(is_white(prim, last.rect));
                assert(subs[i] is ImageClip);
                assert(subs[i]->ImageClip_0.quad_address == next_address(before, 7));
            }
        }
    }
}

/// What a clip adds, read back: each of its sub-tasks draws the clip, or a tile of it, over
/// the task, by what the buffer holds at the addresses of the sub-task. The corners of the
/// clip stand where the shader for it looks for them.
pub proof fn clips_are_read_back(buffer: BufferView, clip: ClipForTask, area: MaskedArea)
    requires
        buffer.blocks.len() + 2048 * (clip_work(clip) + 1) <= u32::MAX,
    ensures
        ({
            let after = with_clip(buffer, clip, area);
            &&& buffer_extends(after, buffer)
            &&& after.blocks.len() <= buffer.blocks.len() + 2048 * clip_work(clip)
            &&& draws_all_of(clip_sub_tasks(clip, buffer), after, clip, area)
        }),
{
    let after = with_clip(buffer, clip, area);
    match clip.kind {
        ClipItemKind::Image { tiles } => {
            lemma_image_tiles(clip, buffer, tiles@);
        },
        _ => {
            let blocks = clip_blocks(clip.kind, clip.clip_rect);
            let shaped = with_group(buffer, blocks);
            lemma_shape_written(buffer, clip.kind, clip.clip_rect);
            let prim = crate::quad::clips::clip_quad(clip, area);
            quads_are_read_back(shaped, prim, Seq::empty());
            lemma_buffer_extends(buffer, shaped, after);
            let address = next_address(buffer, blocks.len() as int);
            lemma_shape_kept(shaped, after, address, clip.kind, clip.clip_rect);
            let subs = clip_sub_tasks(clip, buffer);
            assert(holds_quad(after, next_address(shaped, 5), prim, Seq::empty()));
            assert(subs[0] is RectangleClip);
            let s = subs[0]->RectangleClip_0;
            assert(s.quad_address == next_address(shaped, 5));
            assert(s.clip_address == address);
            assert(after.blocks.len() <= buffer.blocks.len() + 2048 * clip_work(clip));
            assert(is_white(prim, prim.bounds));
            assert(draws_clip(subs[0], after, clip, area));
        },
    }
}

/// The sub-tasks draw the clips, in their order.
pub open spec fn draws_clips(
    subs: Seq<SubTask>,
    buffer: BufferView,
    clips: Seq<ClipForTask>,
    area: MaskedArea,
) -> bool
    decreases clips.len(),
{
    if clips.len() == 0 {
        subs.len() == 0
    } else {
        exists|first: Seq<SubTask>, last: Seq<SubTask>|
            #![trigger draws_all_of(last, buffer, clips.last(), area), first + last]
            subs == first + last && draws_clips(first, buffer, clips.drop_last(), area)
                && draws_all_of(last, buffer, clips.last(), area)
    }
}

/// Clips stay drawn while a buffer grows.
pub proof fn lemma_clips_kept(
    subs: Seq<SubTask>,
    before: BufferView,
    after: BufferView,
    clips: Seq<ClipForTask>,
    area: MaskedArea,
)
    requires
        buffer_extends(after, before),
        draws_clips(subs, before, clips, area),
    ensures
        draws_clips(subs, after, clips, area),
    decreases clips.len(),
{
    if clips.len() > 0 {
        let (first, last) = choose|first: Seq<SubTask>, last: Seq<SubTask>|
            #![trigger draws_all_of(last, before, clips.last(), area), first + last]
            subs == first + last && draws_clips(first, before, clips.drop_last(), area)
                && draws_all_of(last, before, clips.last(), area);
        lemma_clips_kept(first, before, after, clips.drop_last(), area);
        lemma_draws_kept(last, before, after, clips.last(), area);
        assert(subs == first + last);
    }
}

/// What all clips of a quad add, read back: the sub-tasks draw the clips in their order,
/// and what was in the buffer stays where it is.
pub proof fn all_clips_are_read_back(
    buffer: BufferView,
    clips: Seq<ClipForTask>,
    area: MaskedArea,
)
    requires
        buffer.blocks.len() + 2048 * (clips_work(clips) + 1) <= u32::MAX,
    ensures
        ({
            let after = with_clips(buffer, clips, area);
            &&& buffer_extends(after, buffer)
            &&& after.blocks.len() <= buffer.blocks.len() + 2048 * clips_work(clips)
            &&& draws_clips(all_clip_sub_tasks(buffer, clips, area), after, clips, area)
        }),
    decreases clips.len(),
{
    if clips.len() > 0 {
        let most = clips.drop_last();
        let before = with_clips(buffer, most, area);
        let after = with_clips(buffer, clips, area);
        let first = all_clip_sub_tasks(buffer, most, area);
        let last = clip_sub_tasks(clips.last(), before);
        all_clips_are_read_back(buffer, most, area);
        clips_are_read_back(before, clips.last(), area);
        lemma_buffer_extends(buffer, before, after);
        lemma_clips_kept(first, before, after, most, area);
        assert(draws_all_of(last, after, clips.last(), area));
        assert(all_clip_sub_tasks(buffer, clips, area) == first + last);
    }
}

} // verus!
