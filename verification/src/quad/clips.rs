//! The clips of a quad that is drawn to a task of its own.
//!
//! Each clip is a quad over the task that leaves only what the clip keeps.

use crate::float_bits::ONE_BITS;
use crate::internal_types::{ClipSpace, ColorF, GpuTransformId, QuadFlags, RenderTaskId};
use crate::quad::batch::{
    buffer_view, lemma_group_length, next_address, quad_block_count, with_group, with_quad,
    write_prim_blocks_impl, BufferView, QuadPrimitive, QuadSegment,
};
use crate::quad::tiles::ClipMode;
use crate::quad::{BorderRadius, ScaleOffset};
use crate::render_task::{
    FloatRect, ImageClipSubTask, RectangleClipSubTask, RenderTaskView, SubTask,
};
use crate::render_task_graph::{RenderTaskGraphBuilder, SubTaskRange};
use crate::renderer::gpu_buffer::{
    GpuBufferAddress, GpuBufferBlockF, GpuBufferBuilderImpl, MAX_VERTEX_TEXTURE_WIDTH,
};
use vstd::prelude::*;

verus! {

/// A tile of an image that clips.
#[derive(Clone, Copy, Debug, PartialEq, Eq, Structural)]
pub struct MaskTile {
    pub rect: FloatRect,
    pub task_id: RenderTaskId,
}

/// The shape of a clip.
pub enum ClipItemKind {
    /// The fast path is for radii that are equal both ways and leave room between
    /// the corners.
    RoundedRectangle { radius: BorderRadius, mode: ClipMode, fast_path: bool },
    Rectangle { mode: ClipMode },
    /// The tiles that are visible.
    Image { tiles: Vec<MaskTile> },
}

/// How the coordinate systems of a clip, of the quad and of the target relate.
#[derive(Clone, Copy, Debug, PartialEq, Eq, Structural)]
pub enum ClipPlacement {
    /// The clip shares the system of the target: its quad is the target itself.
    Device,
    /// The quad of the clip lies in the system of the clipped quad, which is further
    /// out than that of the clip.
    ClipToPrim,
    /// As before, but the system of the clip is further out.
    PrimToClip,
}

pub open spec fn spec_clip_placement(prim: u32, raster: u32, clip: u32) -> ClipPlacement {
    if raster == clip {
        ClipPlacement::Device
    } else if prim < clip {
        ClipPlacement::ClipToPrim
    } else {
        ClipPlacement::PrimToClip
    }
}

/// Where the quad of a clip lies, and so which transforms it needs.
pub fn clip_placement(prim: u32, raster: u32, clip: u32) -> (r: ClipPlacement)
    ensures
        r == spec_clip_placement(prim, raster, clip),
{
    if raster == clip {
        ClipPlacement::Device
    } else if prim < clip {
        ClipPlacement::ClipToPrim
    } else {
        ClipPlacement::PrimToClip
    }
}

/// A clip, with the transforms that its placement needs.
pub struct ClipForTask {
    pub kind: ClipItemKind,
    pub clip_rect: FloatRect,
    /// The coordinate systems of the clipped quad, of the target and of the clip.
    pub prim_system: u32,
    pub raster_system: u32,
    pub clip_system: u32,
    /// For an image: from the clip to the target, and whether that is a scale and an
    /// offset. For a clip in the quad's system: from the quad to the target.
    pub to_raster: GpuTransformId,
    pub to_raster_is_scale_offset: bool,
    /// Between the space of the clip and that of its quad, as it is placed: from the target
    /// to the clip, from the clip to the clipped quad, or from the clipped quad to the clip.
    pub clip_transform: GpuTransformId,
}

impl ClipForTask {
    /// Where the quad of the clip lies, by the three coordinate systems.
    pub open spec fn spec_placement(self) -> ClipPlacement {
        spec_clip_placement(self.prim_system, self.raster_system, self.clip_system)
    }

    pub fn placement(&self) -> (r: ClipPlacement)
        ensures
            r == self.spec_placement(),
    {
        clip_placement(self.prim_system, self.raster_system, self.clip_system)
    }
}

/// The rectangles of the task that is clipped.
#[derive(Clone, Copy, Debug, PartialEq, Eq, Structural)]
pub struct MaskedArea {
    /// The pixels of the task.
    pub task_rect: FloatRect,
    /// What the quad covers in its own space, and a little more for smoothed edges.
    pub coverage_rect: FloatRect,
}

/// The bits of the number that tells the two modes apart.
pub open spec fn mode_bits(mode: ClipMode) -> u32 {
    match mode {
        ClipMode::Clip => 0,
        ClipMode::ClipOut => ONE_BITS,
    }
}

pub open spec fn rect_data(rect: FloatRect) -> [u32; 4] {
    [rect.min.x.0, rect.min.y.0, rect.max.x.0, rect.max.y.0]
}

/// The blocks of a rectangular clip: its rectangle, its radii and its mode. On the
/// fast path one number stands for each radius.
pub open spec fn clip_blocks(kind: ClipItemKind, rect: FloatRect) -> Seq<GpuBufferBlockF> {
    match kind {
        ClipItemKind::RoundedRectangle { radius, mode, fast_path } => if fast_path {
            seq![
                GpuBufferBlockF { data: rect_data(rect) },
                GpuBufferBlockF {
                    data: [
                        radius.bottom_right.x.0,
                        radius.top_right.x.0,
                        radius.bottom_left.x.0,
                        radius.top_left.x.0,
                    ],
                },
                GpuBufferBlockF { data: [mode_bits(mode), 0, 0, 0] },
            ]
        } else {
            seq![
                GpuBufferBlockF { data: rect_data(rect) },
                GpuBufferBlockF {
                    data: [
                        radius.top_left.x.0,
                        radius.top_left.y.0,
                        radius.top_right.x.0,
                        radius.top_right.y.0,
                    ],
                },
                GpuBufferBlockF {
                    data: [
                        radius.bottom_left.x.0,
                        radius.bottom_left.y.0,
                        radius.bottom_right.x.0,
                        radius.bottom_right.y.0,
                    ],
                },
                GpuBufferBlockF { data: [mode_bits(mode), 0, 0, 0] },
            ]
        },
        ClipItemKind::Rectangle { mode } => seq![
            GpuBufferBlockF { data: rect_data(rect) },
            GpuBufferBlockF { data: [0, 0, 0, 0] },
            GpuBufferBlockF { data: [mode_bits(mode), 0, 0, 0] },
        ],
        ClipItemKind::Image { .. } => Seq::empty(),
    }
}

/// The clip is drawn by the shader for simple corners.
pub open spec fn on_fast_path(kind: ClipItemKind) -> bool {
    match kind {
        ClipItemKind::RoundedRectangle { fast_path, .. } => fast_path,
        _ => true,
    }
}

/// A white quad that reads no texture.
pub open spec fn white_quad(rect: FloatRect) -> QuadPrimitive {
    QuadPrimitive {
        bounds: rect,
        clip: rect,
        input_task: RenderTaskId::spec_invalid(),
        pattern_scale_offset: ScaleOffset::spec_identity(),
        color: ColorF::spec_white(),
    }
}

/// The quad of a clip covers the target, or the quad that is clipped.
pub open spec fn clip_quad(clip: ClipForTask, area: MaskedArea) -> QuadPrimitive {
    if clip.spec_placement() is Device {
        white_quad(area.task_rect)
    } else {
        white_quad(area.coverage_rect)
    }
}

/// The clip of the task can be applied by the shader: the quad of the clip and the target
/// share a coordinate system.
pub open spec fn clip_is_aligned(clip: ClipForTask) -> bool {
    clip.spec_placement() is Device || clip.prim_system == clip.raster_system
}

pub open spec fn clip_flags(aligned: bool, is_mask: bool) -> QuadFlags {
    QuadFlags {
        is_opaque: false,
        apply_render_task_clip: aligned,
        use_aa_segments: false,
        is_mask,
    }
}

/// The sub-task of a rectangular clip whose blocks are written next.
pub open spec fn rectangle_sub_task(clip: ClipForTask, buffer: BufferView) -> SubTask {
    let blocks = clip_blocks(clip.kind, clip.clip_rect);
    SubTask::RectangleClip(
        RectangleClipSubTask {
            quad_address: next_address(with_group(buffer, blocks), quad_block_count(0)),
            clip_address: next_address(buffer, blocks.len() as int),
            clip_space: if clip.spec_placement() is Device {
                ClipSpace::Device
            } else {
                ClipSpace::Primitive
            },
            quad_transform_id: if clip.spec_placement() is Device {
                GpuTransformId::spec_identity()
            } else {
                clip.to_raster
            },
            clip_transform_id: clip.clip_transform,
            quad_flags: clip_flags(clip_is_aligned(clip), false),
            needs_scissor_rect: !clip_is_aligned(clip),
            rounded_rect_fast_path: on_fast_path(clip.kind),
        },
    )
}

/// The part of the mask's quad that a tile fills.
pub open spec fn tile_segment(tile: MaskTile) -> Seq<QuadSegment> {
    seq![QuadSegment { rect: tile.rect, task_id: tile.task_id }]
}

/// The buffer with the quads of the tiles of an image clip.
pub open spec fn with_image_tiles(buffer: BufferView, tiles: Seq<MaskTile>) -> BufferView
    decreases tiles.len(),
{
    if tiles.len() == 0 {
        buffer
    } else {
        with_quad(
            with_image_tiles(buffer, tiles.drop_last()),
            white_quad(tiles.last().rect),
            tile_segment(tiles.last()),
        )
    }
}

/// The sub-tasks of the tiles of an image clip.
pub open spec fn image_sub_tasks(
    clip: ClipForTask,
    buffer: BufferView,
    tiles: Seq<MaskTile>,
) -> Seq<SubTask>
    decreases tiles.len(),
{
    if tiles.len() == 0 {
        Seq::empty()
    } else {
        image_sub_tasks(clip, buffer, tiles.drop_last()).push(
            SubTask::ImageClip(
                ImageClipSubTask {
                    quad_address: next_address(
                        with_image_tiles(buffer, tiles.drop_last()),
                        quad_block_count(1),
                    ),
                    quad_transform_id: clip.to_raster,
                    src_task: tiles.last().task_id,
                    quad_flags: clip_flags(clip.to_raster_is_scale_offset, true),
                    needs_scissor_rect: !clip.to_raster_is_scale_offset,
                },
            ),
        )
    }
}

/// The buffer with what a clip writes.
pub open spec fn with_clip(buffer: BufferView, clip: ClipForTask, area: MaskedArea) -> BufferView {
    match clip.kind {
        ClipItemKind::Image { tiles } => with_image_tiles(buffer, tiles@),
        _ => with_quad(
            with_group(buffer, clip_blocks(clip.kind, clip.clip_rect)),
            clip_quad(clip, area),
            Seq::empty(),
        ),
    }
}

/// The sub-tasks of a clip.
pub open spec fn clip_sub_tasks(clip: ClipForTask, buffer: BufferView) -> Seq<SubTask> {
    match clip.kind {
        ClipItemKind::Image { tiles } => image_sub_tasks(clip, buffer, tiles@),
        _ => seq![rectangle_sub_task(clip, buffer)],
    }
}

/// The buffer with what all clips write.
pub open spec fn with_clips(
    buffer: BufferView,
    clips: Seq<ClipForTask>,
    area: MaskedArea,
) -> BufferView
    decreases clips.len(),
{
    if clips.len() == 0 {
        buffer
    } else {
        with_clip(with_clips(buffer, clips.drop_last(), area), clips.last(), area)
    }
}

/// The sub-tasks of all clips, in their order.
pub open spec fn all_clip_sub_tasks(
    buffer: BufferView,
    clips: Seq<ClipForTask>,
    area: MaskedArea,
) -> Seq<SubTask>
    decreases clips.len(),
{
    if clips.len() == 0 {
        Seq::empty()
    } else {
        all_clip_sub_tasks(buffer, clips.drop_last(), area) + clip_sub_tasks(
            clips.last(),
            with_clips(buffer, clips.drop_last(), area),
        )
    }
}

/// The number of quads that a clip draws.
pub open spec fn clip_work(clip: ClipForTask) -> nat {
    match clip.kind {
        ClipItemKind::Image { tiles } => tiles@.len(),
        _ => 2,
    }
}

pub open spec fn clips_work(clips: Seq<ClipForTask>) -> nat
    decreases clips.len(),
{
    if clips.len() == 0 {
        0
    } else {
        clips_work(clips.drop_last()) + clip_work(clips.last())
    }
}

/// The buffer has room for `n` more groups.
pub open spec fn has_room(builder: GpuBufferBuilderImpl<GpuBufferBlockF>, n: int) -> bool {
    builder.wf() && builder.blocks().len() + (n + 1) * 2 * MAX_VERTEX_TEXTURE_WIDTH <= usize::MAX
}

fn mode_number(mode: ClipMode) -> (r: u32)
    ensures
        r == mode_bits(mode),
{
    match mode {
        ClipMode::Clip => 0,
        ClipMode::ClipOut => ONE_BITS,
    }
}

fn block_of(rect: &FloatRect) -> (r: GpuBufferBlockF)
    ensures
        r == (GpuBufferBlockF { data: rect_data(*rect) }),
{
    GpuBufferBlockF { data: [rect.min.x.0, rect.min.y.0, rect.max.x.0, rect.max.y.0] }
}

fn white_quad_of(rect: FloatRect) -> (r: QuadPrimitive)
    ensures
        r == white_quad(rect),
{
    QuadPrimitive {
        bounds: rect,
        clip: rect,
        input_task: RenderTaskId::invalid(),
        pattern_scale_offset: ScaleOffset::identity(),
        color: ColorF::white(),
    }
}

/// Writes the blocks of a rectangular clip.
fn write_clip_blocks(
    builder: &mut GpuBufferBuilderImpl<GpuBufferBlockF>,
    kind: &ClipItemKind,
    rect: &FloatRect,
) -> (r: GpuBufferAddress)
    requires
        has_room(*old(builder), 0),
        !(*kind is Image),
    ensures
        final(builder).wf(),
        final(builder).epoch_bits() == old(builder).epoch_bits(),
        buffer_view(*final(builder)) == with_group(
            buffer_view(*old(builder)),
            clip_blocks(*kind, *rect),
        ),
        r == next_address(buffer_view(*old(builder)), clip_blocks(*kind, *rect).len() as int),
        final(builder).blocks().len() <= old(builder).blocks().len() + 2 * MAX_VERTEX_TEXTURE_WIDTH,
{
    let ghost before = buffer_view(*builder);
    match kind {
        ClipItemKind::RoundedRectangle { radius, mode, fast_path } => {
            if *fast_path {
                proof {
                    lemma_group_length(before, 3);
                }
                let mut writer = builder.write_blocks(3);
                let ghost start = writer.blocks();
                writer.push_one(block_of(rect));
                writer.push_one(
                    GpuBufferBlockF {
                        data: [
                            radius.bottom_right.x.0,
                            radius.top_right.x.0,
                            radius.bottom_left.x.0,
                            radius.top_left.x.0,
                        ],
                    },
                );
                writer.push_one(GpuBufferBlockF { data: [mode_number(*mode), 0, 0, 0] });
                assert(writer.blocks() =~= start + clip_blocks(*kind, *rect));
                writer.finish()
            } else {
                proof {
                    lemma_group_length(before, 4);
                }
                let mut writer = builder.write_blocks(4);
                let ghost start = writer.blocks();
                writer.push_one(block_of(rect));
                writer.push_one(
                    GpuBufferBlockF {
                        data: [
                            radius.top_left.x.0,
                            radius.top_left.y.0,
                            radius.top_right.x.0,
                            radius.top_right.y.0,
                        ],
                    },
                );
                writer.push_one(
                    GpuBufferBlockF {
                        data: [
                            radius.bottom_left.x.0,
                            radius.bottom_left.y.0,
                            radius.bottom_right.x.0,
                            radius.bottom_right.y.0,
                        ],
                    },
                );
                writer.push_one(GpuBufferBlockF { data: [mode_number(*mode), 0, 0, 0] });
                assert(writer.blocks() =~= start + clip_blocks(*kind, *rect));
                writer.finish()
            }
        },
        ClipItemKind::Rectangle { mode } => {
            proof {
                lemma_group_length(before, 3);
            }
            let mut writer = builder.write_blocks(3);
            let ghost start = writer.blocks();
            writer.push_one(block_of(rect));
            writer.push_one(GpuBufferBlockF { data: [0, 0, 0, 0] });
            writer.push_one(GpuBufferBlockF { data: [mode_number(*mode), 0, 0, 0] });
            assert(writer.blocks() =~= start + clip_blocks(*kind, *rect));
            writer.finish()
        },
        ClipItemKind::Image { .. } => GpuBufferAddress::invalid(),
    }
}

/// Adds what a clip draws on top of a task.
pub fn prepare_clip_task(
    clip: &ClipForTask,
    area: &MaskedArea,
    gpu_buffer: &mut GpuBufferBuilderImpl<GpuBufferBlockF>,
    rg_builder: &mut RenderTaskGraphBuilder,
    sub_tasks: &mut SubTaskRange,
)
    requires
        has_room(*old(gpu_buffer), clip_work(*clip) as int),
        old(sub_tasks).end == old(rg_builder).sub_tasks@.len(),
        old(rg_builder).sub_tasks@.len() + clip_work(*clip) < u32::MAX,
    ensures
        final(gpu_buffer).wf(),
        final(gpu_buffer).epoch_bits() == old(gpu_buffer).epoch_bits(),
        final(gpu_buffer).blocks().len() <= old(gpu_buffer).blocks().len() + clip_work(*clip) * 2
            * MAX_VERTEX_TEXTURE_WIDTH,
        buffer_view(*final(gpu_buffer)) == with_clip(buffer_view(*old(gpu_buffer)), *clip, *area),
        final(rg_builder).tasks == old(rg_builder).tasks,
        final(rg_builder).sub_tasks@ == old(rg_builder).sub_tasks@ + clip_sub_tasks(
            *clip,
            buffer_view(*old(gpu_buffer)),
        ),
        final(sub_tasks).start == old(sub_tasks).start,
        final(sub_tasks).end == final(rg_builder).sub_tasks@.len(),
        final(rg_builder).sub_tasks@.len() <= old(rg_builder).sub_tasks@.len() + clip_work(*clip),
{
    let ghost before = buffer_view(*gpu_buffer);
    let ghost subs = rg_builder.sub_tasks@;
    match &clip.kind {
        ClipItemKind::Image { tiles } => {
            let is_scale_offset: bool = clip.to_raster_is_scale_offset;
            let mut quad_flags = QuadFlags::empty();
            quad_flags.is_mask = true;
            if is_scale_offset {
                quad_flags.apply_render_task_clip = true;
            }
            let mut i: usize = 0;
            while i < tiles.len()
                invariant
                    i <= tiles@.len(),
                    clip.kind matches ClipItemKind::Image { tiles: t } && t == *tiles,
                    clip_work(*clip) == tiles@.len(),
                    is_scale_offset == clip.to_raster_is_scale_offset,
                    quad_flags == clip_flags(is_scale_offset, true),
                    before == buffer_view(*old(gpu_buffer)),
                    subs == old(rg_builder).sub_tasks@,
                    gpu_buffer.wf(),
                    gpu_buffer.epoch_bits() == old(gpu_buffer).epoch_bits(),
                    old(gpu_buffer).blocks().len() + (tiles@.len() + 1) * 2
                        * MAX_VERTEX_TEXTURE_WIDTH <= usize::MAX,
                    gpu_buffer.blocks().len() <= old(gpu_buffer).blocks().len() + i * 2
                        * MAX_VERTEX_TEXTURE_WIDTH,
                    buffer_view(*gpu_buffer) == with_image_tiles(before, tiles@.take(i as int)),
                    rg_builder.tasks == old(rg_builder).tasks,
                    rg_builder.sub_tasks@ == subs + image_sub_tasks(
                        *clip,
                        before,
                        tiles@.take(i as int),
                    ),
                    rg_builder.sub_tasks@.len() == subs.len() + i,
                    subs.len() + tiles@.len() < u32::MAX,
                    sub_tasks.start == old(sub_tasks).start,
                    sub_tasks.end == rg_builder.sub_tasks@.len(),
                decreases tiles@.len() - i,
            {
                let tile = tiles[i];
                let mut segments: Vec<QuadSegment> = Vec::new();
                segments.push(QuadSegment { rect: tile.rect, task_id: tile.task_id });
                proof {
                    assert(segments@ =~= tile_segment(tile));
                    assert(tiles@.take(i + 1).drop_last() =~= tiles@.take(i as int));
                }
                let address = write_prim_blocks_impl(
                    gpu_buffer,
                    &white_quad_of(tile.rect),
                    &segments,
                );
                rg_builder.push_sub_task(
                    sub_tasks,
                    SubTask::ImageClip(
                        ImageClipSubTask {
                            quad_address: address,
                            quad_transform_id: clip.to_raster,
                            src_task: tile.task_id,
                            quad_flags,
                            needs_scissor_rect: !is_scale_offset,
                        },
                    ),
                );
                assert(rg_builder.sub_tasks@ =~= subs + image_sub_tasks(
                    *clip,
                    before,
                    tiles@.take(i + 1),
                ));
                i = i + 1;
            }
            assert(tiles@.take(i as int) =~= tiles@);
        },
        _ => {
            let clip_address = write_clip_blocks(gpu_buffer, &clip.kind, &clip.clip_rect);
            let fast_path: bool = match clip.kind {
                ClipItemKind::RoundedRectangle { fast_path, .. } => fast_path,
                _ => true,
            };
            let segments: Vec<QuadSegment> = Vec::new();
            let (clip_space, quad, quad_transform_id, aligned) = match clip.placement() {
                ClipPlacement::Device => (
                    ClipSpace::Device,
                    white_quad_of(area.task_rect),
                    GpuTransformId::identity(),
                    true,
                ),
                _ => (
                    ClipSpace::Primitive,
                    white_quad_of(area.coverage_rect),
                    clip.to_raster,
                    clip.prim_system == clip.raster_system,
                ),
            };
            let quad_address = write_prim_blocks_impl(gpu_buffer, &quad, &segments);
            let mut quad_flags = QuadFlags::empty();
            if aligned {
                quad_flags.apply_render_task_clip = true;
            }
            assert(segments@ =~= Seq::<QuadSegment>::empty());
            rg_builder.push_sub_task(
                sub_tasks,
                SubTask::RectangleClip(
                    RectangleClipSubTask {
                        quad_address,
                        clip_address,
                        clip_space,
                        quad_transform_id,
                        clip_transform_id: clip.clip_transform,
                        quad_flags,
                        needs_scissor_rect: !aligned,
                        rounded_rect_fast_path: fast_path,
                    },
                ),
            );
            assert(rg_builder.sub_tasks@ =~= subs + clip_sub_tasks(*clip, before));
        },
    }
}

/// Adds what the clips of a quad draw on top of its task.
pub fn prepare_clip_range(
    clips: &Vec<ClipForTask>,
    masked_prim_task_id: RenderTaskId,
    area: &MaskedArea,
    rg_builder: &mut RenderTaskGraphBuilder,
    gpu_buffer: &mut GpuBufferBuilderImpl<GpuBufferBlockF>,
)
    requires
        has_room(*old(gpu_buffer), clips_work(clips@) as int),
        old(rg_builder).sub_tasks@.len() + clips_work(clips@) < u32::MAX,
        masked_prim_task_id.index < old(rg_builder)@.len(),
        old(rg_builder)@[masked_prim_task_id.index as int].sub_tasks.spec_is_empty(),
    ensures
        final(gpu_buffer).wf(),
        final(gpu_buffer).epoch_bits() == old(gpu_buffer).epoch_bits(),
        final(gpu_buffer).blocks().len() <= old(gpu_buffer).blocks().len() + clips_work(clips@) * 2
            * MAX_VERTEX_TEXTURE_WIDTH,
        buffer_view(*final(gpu_buffer)) == with_clips(
            buffer_view(*old(gpu_buffer)),
            clips@,
            *area,
        ),
        final(rg_builder).sub_tasks@ == old(rg_builder).sub_tasks@ + all_clip_sub_tasks(
            buffer_view(*old(gpu_buffer)),
            clips@,
            *area,
        ),
        final(rg_builder).sub_tasks@.len() <= old(rg_builder).sub_tasks@.len() + clips_work(clips@),
        final(rg_builder)@ == old(rg_builder)@.update(
            masked_prim_task_id.index as int,
            RenderTaskView {
                sub_tasks: SubTaskRange {
                    start: old(rg_builder).sub_tasks@.len() as u32,
                    end: final(rg_builder).sub_tasks@.len() as u32,
                },
                ..old(rg_builder)@[masked_prim_task_id.index as int]
            },
        ),
{
    let ghost before = buffer_view(*gpu_buffer);
    let ghost subs = rg_builder.sub_tasks@;
    let mut sub_tasks = rg_builder.begin_sub_tasks();
    let mut i: usize = 0;
    assert(clips@.take(0) =~= Seq::<ClipForTask>::empty());
    assert(subs =~= subs + all_clip_sub_tasks(before, clips@.take(0), *area));
    while i < clips.len()
        invariant
            i <= clips@.len(),
            before == buffer_view(*old(gpu_buffer)),
            subs == old(rg_builder).sub_tasks@,
            gpu_buffer.wf(),
            gpu_buffer.epoch_bits() == old(gpu_buffer).epoch_bits(),
            old(gpu_buffer).blocks().len() + (clips_work(clips@) + 1) * 2
                * MAX_VERTEX_TEXTURE_WIDTH <= usize::MAX,
            gpu_buffer.blocks().len() <= old(gpu_buffer).blocks().len() + clips_work(
                clips@.take(i as int),
            ) * 2 * MAX_VERTEX_TEXTURE_WIDTH,
            buffer_view(*gpu_buffer) == with_clips(before, clips@.take(i as int), *area),
            rg_builder.tasks == old(rg_builder).tasks,
            rg_builder.sub_tasks@ == subs + all_clip_sub_tasks(
                before,
                clips@.take(i as int),
                *area,
            ),
            rg_builder.sub_tasks@.len() <= subs.len() + clips_work(clips@.take(i as int)),
            subs.len() + clips_work(clips@) < u32::MAX,
            sub_tasks.start == subs.len(),
            sub_tasks.end == rg_builder.sub_tasks@.len(),
        decreases clips@.len() - i,
    {
        proof {
            assert(clips@.take(i + 1).drop_last() =~= clips@.take(i as int));
            lemma_clips_work(clips@, i + 1);
        }
        prepare_clip_task(&clips[i], area, gpu_buffer, rg_builder, &mut sub_tasks);
        assert(rg_builder.sub_tasks@ =~= subs + all_clip_sub_tasks(
            before,
            clips@.take(i + 1),
            *area,
        ));
        i = i + 1;
    }
    assert(clips@.take(i as int) =~= clips@);
    rg_builder.set_sub_tasks(masked_prim_task_id, sub_tasks);
}

proof fn lemma_clips_work(clips: Seq<ClipForTask>, n: int)
    requires
        0 <= n <= clips.len(),
    ensures
        clips_work(clips.take(n)) <= clips_work(clips),
    decreases clips.len() - n,
{
    if n < clips.len() {
        lemma_clips_work(clips, n + 1);
        assert(clips.take(n + 1).drop_last() =~= clips.take(n));
    } else {
        assert(clips.take(n) =~= clips);
    }
}

} // verus!
