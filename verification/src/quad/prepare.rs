//! The commands and tasks that draw a quad.
//!
//! The positions come in worked out: rectangles in device pixels are whole, and
//! the data of each quad is what the shaders read.

use crate::internal_types::{
    ColorF, EdgeMask, GpuTransformId, PatternKind, PatternShaderInput, QuadFlags, RenderTaskId,
    SpatialNodeIndex, MAX_RENDER_TASK_SIZE,
};
use crate::quad::batch::{
    buffer_view, next_address, quad_block_count, with_quad, write_prim_blocks_impl, BufferView,
    QuadPrimitive, QuadSegment,
};
use crate::quad::clips::{
    all_clip_sub_tasks, clips_work, has_room, prepare_clip_range, with_clips, ClipForTask,
    MaskedArea,
};
use crate::quad::{QuadCacheKey, ScaleOffset};
use crate::render_task::gpu_data::{float_rect, to_float_rect};
use crate::render_task::{
    fresh_task, FloatRect, PrimTask, RenderTask, RenderTaskKind, RenderTaskLocation, RenderTaskView,
    SubTask,
};
use crate::render_task_graph::{
    with_dependency, RenderTaskGraphBuilder, SubTaskRange, UvRectKind, MAX_TASKS,
};
use crate::renderer::gpu_buffer::{
    GpuBufferAddress, GpuBufferBlockF, GpuBufferBuilderImpl, MAX_VERTEX_TEXTURE_WIDTH,
};
use crate::units::{DeviceIntPoint, DeviceIntRect, DeviceIntSize};
use vstd::prelude::*;

verus! {

/// The texture of a quad is read, by its place in the part.
pub const TEXTURED_SHADER_MODE_TEXTURE: i32 = 1;

pub const TEXTURED_SHADER_MAP_TO_SEGMENT: i32 = 0;

/// What a quad is filled with.
#[derive(Clone, Copy, Debug, PartialEq, Eq, Structural)]
pub struct Pattern {
    pub kind: PatternKind,
    pub shader_input: PatternShaderInput,
    pub texture_input: RenderTaskId,
    /// The color, its channels multiplied by its alpha.
    pub base_color: ColorF,
    pub is_opaque: bool,
}

/// A draw command for a quad.
#[derive(Clone, Copy, Debug, PartialEq, Eq, Structural)]
pub struct QuadCommand {
    pub pattern: PatternKind,
    pub pattern_input: PatternShaderInput,
    pub src_task: RenderTaskId,
    pub prim_instance_index: u32,
    pub address: GpuBufferAddress,
    pub transform_id: GpuTransformId,
    pub quad_flags: QuadFlags,
    pub edge_flags: EdgeMask,
}

/// What goes to the command buffers of the targets.
pub enum FrameCommand {
    /// A command that belongs to a node.
    PushPrim { command: QuadCommand, spatial_node: SpatialNodeIndex },
    /// The parts of the quads of the commands that follow.
    SetSegments { segments: Vec<QuadSegment> },
    PushCommand { command: QuadCommand },
}

/// A frame command as a mathematical value.
#[verifier::ext_equal]
pub enum FrameCommandView {
    PushPrim { command: QuadCommand, spatial_node: SpatialNodeIndex },
    SetSegments { segments: Seq<QuadSegment> },
    PushCommand { command: QuadCommand },
}

impl FrameCommand {
    pub open spec fn view(self) -> FrameCommandView {
        match self {
            FrameCommand::PushPrim { command, spatial_node } => FrameCommandView::PushPrim {
                command,
                spatial_node,
            },
            FrameCommand::SetSegments { segments } => FrameCommandView::SetSegments {
                segments: segments@,
            },
            FrameCommand::PushCommand { command } => FrameCommandView::PushCommand { command },
        }
    }
}

/// The frame that quads are drawn into.
pub struct QuadFrame {
    pub gpu_buffer: GpuBufferBuilderImpl<GpuBufferBlockF>,
    pub rg_builder: RenderTaskGraphBuilder,
    pub commands: Vec<FrameCommand>,
    /// The tasks that the current surface reads.
    pub surface_tasks: Vec<RenderTaskId>,
}

/// The frame as a mathematical value.
#[verifier::ext_equal]
pub struct QuadFrameView {
    pub buffer: BufferView,
    pub graph: Seq<RenderTaskView>,
    pub sub_tasks: Seq<SubTask>,
    pub commands: Seq<FrameCommandView>,
    pub surface_tasks: Seq<RenderTaskId>,
}

impl QuadFrame {
    pub open spec fn view(self) -> QuadFrameView {
        QuadFrameView {
            buffer: buffer_view(self.gpu_buffer),
            graph: self.rg_builder@,
            sub_tasks: self.rg_builder.sub_tasks@,
            commands: self.commands@.map_values(|c: FrameCommand| c@),
            surface_tasks: self.surface_tasks@,
        }
    }

    /// The frame has room for so many groups of blocks and as many tasks.
    pub open spec fn room(self, n: int) -> bool {
        &&& has_room(self.gpu_buffer, n)
        &&& self.rg_builder@.len() + n < MAX_TASKS
        &&& self.rg_builder.sub_tasks@.len() + n < u32::MAX
    }

    /// What has been used up since `other`.
    pub open spec fn used(self, other: Self, n: int) -> bool {
        &&& self.gpu_buffer.wf()
        &&& self.gpu_buffer.epoch_bits() == other.gpu_buffer.epoch_bits()
        &&& self.gpu_buffer.blocks().len() <= other.gpu_buffer.blocks().len() + n * 2
            * MAX_VERTEX_TEXTURE_WIDTH
        &&& self.rg_builder@.len() <= other.rg_builder@.len() + n
        &&& self.rg_builder.sub_tasks@.len() <= other.rg_builder.sub_tasks@.len() + n
    }

    pub(crate) fn push_command(&mut self, command: FrameCommand)
        ensures
            final(self)@ == (QuadFrameView {
                commands: old(self)@.commands.push(command@),
                ..old(self)@
            }),
            final(self).gpu_buffer == old(self).gpu_buffer,
            final(self).rg_builder == old(self).rg_builder,
    {
        self.commands.push(command);
        assert(self@.commands =~= old(self)@.commands.push(command@));
    }

    pub(crate) fn push_surface_task(&mut self, id: RenderTaskId)
        ensures
            final(self)@ == (QuadFrameView {
                surface_tasks: old(self)@.surface_tasks.push(id),
                ..old(self)@
            }),
            final(self).gpu_buffer == old(self).gpu_buffer,
            final(self).rg_builder == old(self).rg_builder,
    {
        self.surface_tasks.push(id);
    }
}

/// How a task for a quad is drawn.
#[derive(Clone, Copy, Debug, PartialEq, Eq, Structural)]
pub struct QuadTask {
    pub pattern: Pattern,
    pub prim_address: GpuBufferAddress,
    pub transform_id: GpuTransformId,
    pub aa_flags: EdgeMask,
    pub quad_flags: QuadFlags,
    pub needs_scissor_rect: bool,
    /// What the quad covers in its own space, and a little more.
    pub coverage_rect: FloatRect,
}

pub open spec fn rect_size(rect: DeviceIntRect) -> DeviceIntSize {
    DeviceIntSize { width: rect.spec_width() as i32, height: rect.spec_height() as i32 }
}

pub open spec fn prim_task_kind(t: QuadTask, rect: DeviceIntRect) -> RenderTaskKind {
    RenderTaskKind::Prim(
        PrimTask {
            pattern: t.pattern.kind,
            pattern_input: t.pattern.shader_input,
            content_origin: float_rect(rect).min,
            prim_address_f: t.prim_address,
            transform_id: t.transform_id,
            edge_flags: t.aa_flags,
            quad_flags: t.quad_flags,
            prim_needs_scissor_rect: t.needs_scissor_rect,
            texture_input: t.pattern.texture_input,
        },
    )
}

/// The frame with a task that draws the pixels of `rect` of a quad, clipped. It
/// depends on the texture that the quad reads, and the surface reads it.
pub open spec fn with_quad_task(
    f: QuadFrameView,
    t: QuadTask,
    rect: DeviceIntRect,
    clips: Seq<ClipForTask>,
) -> QuadFrameView {
    let id = RenderTaskId { index: f.graph.len() as u32 };
    let pushed = f.graph.push(
        fresh_task(
            RenderTaskLocation::Unallocated { size: rect_size(rect) },
            prim_task_kind(t, rect)@,
            UvRectKind::Rect,
        ),
    );
    let linked = if t.pattern.texture_input == RenderTaskId::spec_invalid() {
        pushed
    } else {
        with_dependency(pushed, id, t.pattern.texture_input)
    };
    let area = MaskedArea { task_rect: float_rect(rect), coverage_rect: t.coverage_rect };
    let sub_tasks = f.sub_tasks + all_clip_sub_tasks(f.buffer, clips, area);
    if clips.len() == 0 {
        QuadFrameView { graph: linked, surface_tasks: f.surface_tasks.push(id), ..f }
    } else {
        QuadFrameView {
            buffer: with_clips(f.buffer, clips, area),
            graph: linked.update(
                id.index as int,
                RenderTaskView {
                    sub_tasks: SubTaskRange {
                        start: f.sub_tasks.len() as u32,
                        end: sub_tasks.len() as u32,
                    },
                    ..linked[id.index as int]
                },
            ),
            sub_tasks,
            surface_tasks: f.surface_tasks.push(id),
            ..f
        }
    }
}

/// A rectangle that can be a task.
pub open spec fn task_sized(rect: DeviceIntRect) -> bool {
    &&& rect.sized()
    &&& !rect.spec_is_empty()
    &&& rect.spec_width() <= MAX_RENDER_TASK_SIZE
    &&& rect.spec_height() <= MAX_RENDER_TASK_SIZE
}

/// Adds a task that draws the pixels of `rect` of a quad, with its clips on top.
pub fn add_render_task_with_mask(
    t: &QuadTask,
    rect: DeviceIntRect,
    clips: &Vec<ClipForTask>,
    frame: &mut QuadFrame,
) -> (r: RenderTaskId)
    requires
        task_sized(rect),
        old(frame).room((clips_work(clips@) + 1) as int),
    ensures
        r.index == old(frame)@.graph.len(),
        final(frame)@ == with_quad_task(old(frame)@, *t, rect, clips@),
        final(frame).used(*old(frame), (clips_work(clips@) + 1) as int),
{
    let origin = to_float_rect(rect).min;
    let kind = RenderTaskKind::new_prim(
        t.pattern.kind,
        t.pattern.shader_input,
        origin,
        t.prim_address,
        t.transform_id,
        t.aa_flags,
        t.quad_flags,
        t.needs_scissor_rect,
        t.pattern.texture_input,
    );
    let id = frame.rg_builder.add_task(RenderTask::new_dynamic(rect.size(), kind));
    if t.pattern.texture_input != RenderTaskId::invalid() {
        frame.rg_builder.add_dependency(id, t.pattern.texture_input);
    }
    if clips.len() > 0 {
        let area = MaskedArea { task_rect: to_float_rect(rect), coverage_rect: t.coverage_rect };
        prepare_clip_range(clips, id, &area, &mut frame.rg_builder, &mut frame.gpu_buffer);
    }
    frame.push_surface_task(id);
    id
}

/// The frame with a quad that is drawn from parts.
pub open spec fn with_segmented_quad(
    f: QuadFrameView,
    prim: QuadPrimitive,
    segments: Seq<QuadSegment>,
    command: QuadCommand,
) -> QuadFrameView {
    let address = next_address(f.buffer, quad_block_count(segments.len()));
    QuadFrameView {
        buffer: with_quad(f.buffer, prim, segments),
        commands: f.commands.push(FrameCommandView::SetSegments { segments }).push(
            FrameCommandView::PushCommand { command: QuadCommand { address, ..command } },
        ),
        ..f
    }
}

/// The command for the parts of a quad that are drawn where they belong.
pub open spec fn pattern_command(pattern: Pattern, prim_instance_index: u32) -> QuadCommand {
    QuadCommand {
        pattern: pattern.kind,
        pattern_input: pattern.shader_input,
        src_task: pattern.texture_input,
        prim_instance_index,
        address: GpuBufferAddress::spec_invalid(),
        transform_id: GpuTransformId::spec_identity(),
        quad_flags: QuadFlags {
            is_opaque: pattern.is_opaque,
            apply_render_task_clip: true,
            use_aa_segments: false,
            is_mask: false,
        },
        edge_flags: EdgeMask::spec_empty(),
    }
}

/// The command for the parts of a quad that are copied from tasks.
pub open spec fn composite_command(prim_instance_index: u32) -> QuadCommand {
    QuadCommand {
        pattern: PatternKind::ColorOrTexture,
        pattern_input: PatternShaderInput(
            TEXTURED_SHADER_MODE_TEXTURE,
            TEXTURED_SHADER_MAP_TO_SEGMENT,
        ),
        src_task: RenderTaskId::spec_invalid(),
        prim_instance_index,
        address: GpuBufferAddress::spec_invalid(),
        transform_id: GpuTransformId::spec_identity(),
        quad_flags: QuadFlags {
            is_opaque: false,
            apply_render_task_clip: true,
            use_aa_segments: false,
            is_mask: false,
        },
        edge_flags: EdgeMask::spec_empty(),
    }
}

/// The quad that parts are copied into.
pub open spec fn composite_quad(base_color: ColorF, rect: FloatRect) -> QuadPrimitive {
    QuadPrimitive {
        bounds: rect,
        clip: rect,
        input_task: RenderTaskId::spec_invalid(),
        pattern_scale_offset: ScaleOffset::spec_identity(),
        color: base_color,
    }
}

fn add_segmented_quad(
    prim: &QuadPrimitive,
    segments: Vec<QuadSegment>,
    command: QuadCommand,
    frame: &mut QuadFrame,
)
    requires
        segments@.len() <= 100,
        old(frame).room(1),
    ensures
        final(frame)@ == with_segmented_quad(old(frame)@, *prim, segments@, command),
        final(frame).used(*old(frame), 1),
{
    let address = write_prim_blocks_impl(&mut frame.gpu_buffer, prim, &segments);
    frame.push_command(FrameCommand::SetSegments { segments });
    frame.push_command(
        FrameCommand::PushCommand { command: QuadCommand { address, ..command } },
    );
}

/// Adds the parts of a quad that are drawn where they belong.
pub fn add_pattern_prim(
    pattern: &Pattern,
    prim_instance_index: u32,
    prim: &QuadPrimitive,
    segments: Vec<QuadSegment>,
    frame: &mut QuadFrame,
)
    requires
        segments@.len() <= 100,
        old(frame).room(1),
    ensures
        final(frame)@ == with_segmented_quad(
            old(frame)@,
            *prim,
            segments@,
            pattern_command(*pattern, prim_instance_index),
        ),
        final(frame).used(*old(frame), 1),
{
    let mut quad_flags = QuadFlags::empty();
    quad_flags.apply_render_task_clip = true;
    if pattern.is_opaque {
        quad_flags.is_opaque = true;
    }
    add_segmented_quad(
        prim,
        segments,
        QuadCommand {
            pattern: pattern.kind,
            pattern_input: pattern.shader_input,
            src_task: pattern.texture_input,
            prim_instance_index,
            address: GpuBufferAddress::invalid(),
            transform_id: GpuTransformId::identity(),
            quad_flags,
            edge_flags: EdgeMask::empty(),
        },
        frame,
    );
}

/// Adds the parts of a quad that are copied from tasks.
pub fn add_composite_prim(
    base_color: ColorF,
    prim_instance_index: u32,
    rect: FloatRect,
    segments: Vec<QuadSegment>,
    frame: &mut QuadFrame,
)
    requires
        1 <= segments@.len() <= 100,
        old(frame).room(1),
    ensures
        final(frame)@ == with_segmented_quad(
            old(frame)@,
            composite_quad(base_color, rect),
            segments@,
            composite_command(prim_instance_index),
        ),
        final(frame).used(*old(frame), 1),
{
    let mut quad_flags = QuadFlags::empty();
    quad_flags.apply_render_task_clip = true;
    let prim = QuadPrimitive {
        bounds: rect,
        clip: rect,
        input_task: RenderTaskId::invalid(),
        pattern_scale_offset: ScaleOffset::identity(),
        color: base_color,
    };
    add_segmented_quad(
        &prim,
        segments,
        QuadCommand {
            pattern: PatternKind::ColorOrTexture,
            pattern_input: PatternShaderInput(
                TEXTURED_SHADER_MODE_TEXTURE,
                TEXTURED_SHADER_MAP_TO_SEGMENT,
            ),
            src_task: RenderTaskId::invalid(),
            prim_instance_index,
            address: GpuBufferAddress::invalid(),
            transform_id: GpuTransformId::identity(),
            quad_flags,
            edge_flags: EdgeMask::empty(),
        },
        frame,
    );
}

/// The frame with a quad and nothing else, whose address is given.
pub open spec fn with_plain_quad(f: QuadFrameView, prim: QuadPrimitive) -> QuadFrameView {
    QuadFrameView { buffer: with_quad(f.buffer, prim, Seq::empty()), ..f }
}

pub open spec fn plain_quad_address(f: QuadFrameView) -> GpuBufferAddress {
    next_address(f.buffer, quad_block_count(0))
}

pub(crate) fn add_plain_quad(prim: &QuadPrimitive, frame: &mut QuadFrame) -> (r: GpuBufferAddress)
    requires
        old(frame).room(1),
    ensures
        final(frame)@ == with_plain_quad(old(frame)@, *prim),
        r == plain_quad_address(old(frame)@),
        final(frame).used(*old(frame), 1),
{
    let segments: Vec<QuadSegment> = Vec::new();
    assert(segments@ =~= Seq::<QuadSegment>::empty());
    write_prim_blocks_impl(&mut frame.gpu_buffer, prim, &segments)
}

/// A quad that is drawn to a task as a whole.
pub struct IndirectQuad {
    pub pattern: Pattern,
    pub prim: QuadPrimitive,
    /// The pixels of the surface that the quad can touch.
    pub surface_rect: DeviceIntRect,
    /// The pixels of the quad, where it is scaled and moved and has no smoothed edge.
    pub quad_rect: DeviceIntRect,
    pub is_scale_offset: bool,
    pub transform_id: GpuTransformId,
    pub quad_flags: QuadFlags,
    pub aa_flags: EdgeMask,
    pub clips: Vec<ClipForTask>,
    pub coverage_rect: FloatRect,
    /// The task that the cache has for the quad.
    pub cached: Option<RenderTaskId>,
}

/// The pixels that the task of a quad has: without smoothed edges a quad that is
/// scaled and moved fills its task.
pub open spec fn indirect_rect(q: IndirectQuad) -> DeviceIntRect {
    if q.is_scale_offset && q.aa_flags == EdgeMask::spec_empty() {
        q.quad_rect
    } else {
        q.surface_rect
    }
}

pub open spec fn opaque_if(flags: QuadFlags, is_opaque: bool) -> QuadFlags {
    QuadFlags { is_opaque: flags.is_opaque || is_opaque, ..flags }
}

/// The task of a quad whose data is written next.
pub open spec fn indirect_task(q: IndirectQuad, address: GpuBufferAddress) -> QuadTask {
    QuadTask {
        pattern: q.pattern,
        prim_address: address,
        transform_id: q.transform_id,
        aa_flags: q.aa_flags,
        quad_flags: opaque_if(q.quad_flags, q.pattern.is_opaque),
        needs_scissor_rect: !q.is_scale_offset,
        coverage_rect: q.coverage_rect,
    }
}

/// The frame after a quad is drawn to a task, and the task: none for a quad without
/// pixels, and that of the cache where the cache has one.
pub open spec fn with_indirect_quad(
    f: QuadFrameView,
    q: IndirectQuad,
) -> (QuadFrameView, Option<RenderTaskId>) {
    let f1 = with_plain_quad(f, q.prim);
    let t = indirect_task(q, plain_quad_address(f));
    if rect_size(indirect_rect(q)).spec_is_empty() {
        (f1, None)
    } else {
        match q.cached {
            Some(id) => (
                QuadFrameView { surface_tasks: f1.surface_tasks.push(id), ..f1 },
                Some(id),
            ),
            None => (
                with_quad_task(f1, t, indirect_rect(q), q.clips@),
                Some(RenderTaskId { index: f1.graph.len() as u32 }),
            ),
        }
    }
}

/// The task of the quad can be made.
pub open spec fn indirect_ok(q: IndirectQuad) -> bool {
    let rect = indirect_rect(q);
    &&& rect.sized()
    &&& (!rect_size(rect).spec_is_empty() ==> task_sized(rect))
}

/// Draws a quad to a task of its own.
pub fn prepare_indirect_pattern(q: &IndirectQuad, frame: &mut QuadFrame) -> (r: Option<
    RenderTaskId,
>)
    requires
        indirect_ok(*q),
        old(frame).room((clips_work(q.clips@) + 2) as int),
    ensures
        (final(frame)@, r) == with_indirect_quad(old(frame)@, *q),
        final(frame).used(*old(frame), (clips_work(q.clips@) + 2) as int),
{
    let address = add_plain_quad(&q.prim, frame);
    let rect = if q.is_scale_offset && q.aa_flags == EdgeMask::empty() {
        q.quad_rect
    } else {
        q.surface_rect
    };
    if rect.size().is_empty() {
        return None;
    }
    let mut quad_flags = q.quad_flags;
    if q.pattern.is_opaque {
        quad_flags.is_opaque = true;
    }
    match q.cached {
        Some(id) => {
            frame.push_surface_task(id);
            Some(id)
        },
        None => {
            let t = QuadTask {
                pattern: q.pattern,
                prim_address: address,
                transform_id: q.transform_id,
                aa_flags: q.aa_flags,
                quad_flags,
                needs_scissor_rect: !q.is_scale_offset,
                coverage_rect: q.coverage_rect,
            };
            Some(add_render_task_with_mask(&t, rect, &q.clips, frame))
        },
    }
}

/// What the cache of render tasks is asked for on behalf of a quad.
#[derive(Clone, Copy, Debug, PartialEq, Eq)]
pub struct QuadTaskRequest {
    pub origin: DeviceIntPoint,
    pub size: DeviceIntSize,
    pub key: QuadCacheKey,
    /// Every pixel of the task is opaque: the pattern is, and nothing clips it.
    pub is_opaque: bool,
}

/// What the cache is asked for; nothing for a quad without pixels.
pub open spec fn spec_cache_request(q: IndirectQuad, key: QuadCacheKey) -> Option<QuadTaskRequest> {
    let rect = indirect_rect(q);
    if rect_size(rect).spec_is_empty() {
        None
    } else {
        Some(
            QuadTaskRequest {
                origin: rect.min,
                size: rect_size(rect),
                key,
                is_opaque: q.pattern.is_opaque && q.clips@.len() == 0,
            },
        )
    }
}

/// What the cache is asked for on behalf of a quad that has a key. Its answer goes with the
/// quad.
pub fn cache_request(q: &IndirectQuad, key: QuadCacheKey) -> (r: Option<QuadTaskRequest>)
    requires
        indirect_ok(*q),
    ensures
        r == spec_cache_request(*q, key),
{
    let rect = if q.is_scale_offset && q.aa_flags == EdgeMask::empty() {
        q.quad_rect
    } else {
        q.surface_rect
    };
    let size = rect.size();
    if size.is_empty() {
        return None;
    }
    Some(
        QuadTaskRequest {
            origin: rect.min,
            size,
            key,
            is_opaque: q.pattern.is_opaque && q.clips.len() == 0,
        },
    )
}

/// A pattern that is drawn to a task for another quad to read: scaled and moved, with
/// nothing that clips it and no smoothed edge.
#[derive(Clone, Copy, Debug, PartialEq, Eq, Structural)]
pub struct PatternSource {
    pub pattern: Pattern,
    pub prim: QuadPrimitive,
    /// The pixels of the pattern.
    pub quad_rect: DeviceIntRect,
    /// What the pattern covers in its own space.
    pub coverage_rect: FloatRect,
}

/// The task of a pattern whose data is written next.
pub open spec fn source_task(s: PatternSource, address: GpuBufferAddress) -> QuadTask {
    QuadTask {
        pattern: s.pattern,
        prim_address: address,
        transform_id: GpuTransformId::spec_identity(),
        aa_flags: EdgeMask::spec_empty(),
        quad_flags: opaque_if(QuadFlags::spec_empty(), s.pattern.is_opaque),
        needs_scissor_rect: false,
        coverage_rect: s.coverage_rect,
    }
}

/// The frame after a pattern is drawn to a task, and the task: none for a pattern without
/// pixels, and that of the cache where the cache has one.
pub open spec fn with_pattern_source(
    f: QuadFrameView,
    s: PatternSource,
    cached: Option<RenderTaskId>,
) -> (QuadFrameView, Option<RenderTaskId>) {
    let f1 = with_plain_quad(f, s.prim);
    if rect_size(s.quad_rect).spec_is_empty() {
        (f1, None)
    } else {
        match cached {
            Some(id) => (
                QuadFrameView { surface_tasks: f1.surface_tasks.push(id), ..f1 },
                Some(id),
            ),
            None => (
                with_quad_task(
                    f1,
                    source_task(s, plain_quad_address(f)),
                    s.quad_rect,
                    Seq::empty(),
                ),
                Some(RenderTaskId { index: f1.graph.len() as u32 }),
            ),
        }
    }
}

/// The task of the pattern can be made.
pub open spec fn source_ok(s: PatternSource) -> bool {
    &&& s.quad_rect.sized()
    &&& (!rect_size(s.quad_rect).spec_is_empty() ==> task_sized(s.quad_rect))
}

impl PatternSource {
    /// The pattern as a quad, with what the cache has for it.
    pub fn quad(&self, cached: Option<RenderTaskId>) -> (r: IndirectQuad)
        ensures
            r.pattern == self.pattern,
            r.prim == self.prim,
            r.surface_rect == self.quad_rect,
            r.quad_rect == self.quad_rect,
            r.is_scale_offset,
            r.transform_id == GpuTransformId::spec_identity(),
            r.quad_flags == QuadFlags::spec_empty(),
            r.aa_flags == EdgeMask::spec_empty(),
            r.clips@ == Seq::<ClipForTask>::empty(),
            r.coverage_rect == self.coverage_rect,
            r.cached == cached,
    {
        IndirectQuad {
            pattern: self.pattern,
            prim: self.prim,
            surface_rect: self.quad_rect,
            quad_rect: self.quad_rect,
            is_scale_offset: true,
            transform_id: GpuTransformId::identity(),
            quad_flags: QuadFlags::empty(),
            aa_flags: EdgeMask::empty(),
            clips: Vec::new(),
            coverage_rect: self.coverage_rect,
            cached,
        }
    }
}

/// Draws a pattern to a task, for another quad to read.
pub fn prepare_pattern_source(
    s: &PatternSource,
    cached: Option<RenderTaskId>,
    frame: &mut QuadFrame,
) -> (r: Option<RenderTaskId>)
    requires
        source_ok(*s),
        old(frame).room(2),
    ensures
        (final(frame)@, r) == with_pattern_source(old(frame)@, *s, cached),
        final(frame).used(*old(frame), 2),
{
    let quad = s.quad(cached);
    assert(clips_work(quad.clips@) == 0);
    prepare_indirect_pattern(&quad, frame)
}

} // verus!
