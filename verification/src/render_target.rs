//! The work that fills one render target, collected task by task.

use crate::float_bits::FloatBits;
use crate::grouped::{with_values, GroupKey, Grouped};
use crate::internal_types::{
    ClipSpace, EdgeMask, FloatPoint, GpuTransformId, PatternKind, PatternShaderInput, QuadFlags,
    RenderTaskId, TextureSource,
};
use crate::quad::batch::{
    add_to_batch, quad_instances, quad_texture, BatchKey, QuadHeader, QuadInstance, PART_ALL,
};
use crate::quad::prepare::{TEXTURED_SHADER_MAP_TO_SEGMENT, TEXTURED_SHADER_MODE_TEXTURE};
use crate::render_task::{
    spec_signed, CacheMaskTask, ClipRegionTask, FloatRect, ImageClipSubTask, RectangleClipSubTask,
    RenderTaskAddress,
};
use crate::render_task_graph::RenderTaskGraph;
use crate::renderer::gpu_buffer::{
    with_row_capacity, GpuBufferAddress, GpuBufferBlockI, GpuBufferBuilder, GpuBufferDataI,
};
use crate::units::DeviceIntRect;
use vstd::prelude::*;

pub mod filed;
pub mod filters;
pub mod tasks;

verus! {

/// The number of kinds of pattern.
pub const NUM_PATTERNS: usize = 16;

/// The bits of a border segment's flags that hold its two styles.
pub const STYLE_MASK: i32 = 0x00FF_FF00;

/// Both styles are solid.
pub const STYLE_SOLID: i32 = 0x0001_0100;

/// The segment that stands for no segment.
pub const INVALID_SEGMENT: u8 = 0xFF;

impl PatternKind {
    pub open spec fn spec_number(self) -> usize {
        match self {
            PatternKind::ColorOrTexture => 0,
            PatternKind::TextureExternal => 1,
            PatternKind::TextureExternalBT709 => 2,
            PatternKind::TextureRect => 3,
            PatternKind::Repeat => 4,
            PatternKind::Gradient => 5,
            PatternKind::BoxShadow => 6,
            PatternKind::BoxShadowSuperellipse => 7,
            PatternKind::Yuv => 8,
            PatternKind::YuvTextureExternal => 9,
            PatternKind::YuvTextureExternalBT709 => 10,
            PatternKind::YuvTextureRect => 11,
            PatternKind::Backdrop => 12,
            PatternKind::Blend => 13,
            PatternKind::MixBlend => 14,
            PatternKind::Mask => 15,
        }
    }

    /// The place of the pattern in a list with one entry for each.
    pub fn number(self) -> (r: usize)
        ensures
            r == self.spec_number(),
            r < NUM_PATTERNS,
    {
        match self {
            PatternKind::ColorOrTexture => 0,
            PatternKind::TextureExternal => 1,
            PatternKind::TextureExternalBT709 => 2,
            PatternKind::TextureRect => 3,
            PatternKind::Repeat => 4,
            PatternKind::Gradient => 5,
            PatternKind::BoxShadow => 6,
            PatternKind::BoxShadowSuperellipse => 7,
            PatternKind::Yuv => 8,
            PatternKind::YuvTextureExternal => 9,
            PatternKind::YuvTextureExternalBT709 => 10,
            PatternKind::YuvTextureRect => 11,
            PatternKind::Backdrop => 12,
            PatternKind::Blend => 13,
            PatternKind::MixBlend => 14,
            PatternKind::Mask => 15,
        }
    }
}

/// Quads that are cut off at a rectangle.
#[derive(Clone, Copy, Debug, PartialEq, Eq, Structural)]
pub struct ScissorPattern {
    pub rect: DeviceIntRect,
    pub pattern: PatternKind,
    pub texture: TextureSource,
}

impl GroupKey for ScissorPattern {
    fn same(&self, other: &Self) -> (r: bool) {
        *self == *other
    }
}

/// Image masks that are cut off at a rectangle.
#[derive(Clone, Copy, Debug, PartialEq, Eq, Structural)]
pub struct ScissorTexture {
    pub rect: DeviceIntRect,
    pub texture: TextureSource,
}

impl GroupKey for ScissorTexture {
    fn same(&self, other: &Self) -> (r: bool) {
        *self == *other
    }
}

/// One direction of a separable blur.
#[derive(Clone, Copy, Debug, PartialEq, Eq, Structural)]
pub struct BlurInstance {
    pub task_address: RenderTaskAddress,
    pub src_task_address: RenderTaskAddress,
    pub blur_direction: i32,
    pub blur_std_deviation: FloatBits,
    pub edge_mode: i32,
    pub blur_region: FloatPoint,
}

pub const BLUR_HORIZONTAL: i32 = 0;

pub const BLUR_VERTICAL: i32 = 1;

pub const UV_TYPE_NORMALIZED: i32 = 0;

pub const UV_TYPE_UNNORMALIZED: i32 = 1;

/// A scaled copy of a part of a texture.
#[derive(Clone, Copy, Debug, PartialEq, Eq, Structural)]
pub struct ScalingInstance {
    pub target_rect: FloatRect,
    pub source_rect: FloatRect,
    pub source_rect_type: FloatBits,
}

/// A copy from one task to another.
#[derive(Clone, Copy, Debug, PartialEq, Eq, Structural)]
pub struct BlitJob {
    pub source: RenderTaskId,
    /// The part of the source that is copied.
    pub source_rect: DeviceIntRect,
    pub target_rect: DeviceIntRect,
}

/// A line that is drawn to its own task.
#[derive(Clone, Copy, Debug, PartialEq, Eq, Structural)]
pub struct LineDecorationJob {
    pub task_rect: FloatRect,
    pub local_size: FloatPoint,
    pub wavy_line_thickness: FloatBits,
    pub style: i32,
    pub axis_select: FloatBits,
}

/// A quad that multiplies a task by a clip.
#[derive(Clone, Copy, Debug, PartialEq, Eq, Structural)]
pub struct MaskInstance {
    pub prim: QuadInstance,
    pub clip_transform_id: GpuTransformId,
    pub clip_address: i32,
    pub clip_space: i32,
}

/// What is handed to the batcher of clip masks.
#[derive(Clone, Copy, Debug, PartialEq, Eq, Structural)]
pub enum ClipWork {
    /// The clips of a chain.
    Chain { mask: CacheMaskTask, screen_origin: FloatPoint, clip_origin: FloatPoint },
    /// One rounded rectangle.
    Region { region: ClipRegionTask, device_rect: FloatRect, screen_origin: FloatPoint },
}

/// Instances of one kind, drawn at once.
pub struct PrimitiveBatch {
    pub key: BatchKey,
    pub instances: Vec<QuadInstance>,
}

/// The batches of a picture, or of several pictures that are drawn together.
pub struct AlphaBatchContainer {
    pub alpha_batches: Vec<PrimitiveBatch>,
    pub opaque_batches: Vec<PrimitiveBatch>,
    pub task_scissor_rect: Option<DeviceIntRect>,
    pub task_rect: DeviceIntRect,
}

impl AlphaBatchContainer {
    pub open spec fn spec_is_empty(self) -> bool {
        self.alpha_batches@.len() == 0 && self.opaque_batches@.len() == 0
    }

    pub fn is_empty(&self) -> (r: bool)
        ensures
            r == self.spec_is_empty(),
    {
        self.alpha_batches.len() == 0 && self.opaque_batches.len() == 0
    }
}

/// The clip masks of a target, by how they are drawn.
pub struct ClipMaskInstanceList {
    pub mask_instances_fast: Vec<MaskInstance>,
    pub mask_instances_slow: Vec<MaskInstance>,
    pub mask_instances_fast_with_scissor: Grouped<DeviceIntRect, MaskInstance>,
    pub mask_instances_slow_with_scissor: Grouped<DeviceIntRect, MaskInstance>,
    pub image_mask_instances: Grouped<TextureSource, QuadInstance>,
    pub image_mask_instances_with_scissor: Grouped<ScissorTexture, QuadInstance>,
}

/// The clip masks as a mathematical value.
#[verifier::ext_equal]
pub struct ClipMasksView {
    pub fast: Seq<MaskInstance>,
    pub slow: Seq<MaskInstance>,
    pub fast_with_scissor: Seq<(DeviceIntRect, Seq<MaskInstance>)>,
    pub slow_with_scissor: Seq<(DeviceIntRect, Seq<MaskInstance>)>,
    pub image: Seq<(TextureSource, Seq<QuadInstance>)>,
    pub image_with_scissor: Seq<(ScissorTexture, Seq<QuadInstance>)>,
}

impl ClipMaskInstanceList {
    pub open spec fn view(self) -> ClipMasksView {
        ClipMasksView {
            fast: self.mask_instances_fast@,
            slow: self.mask_instances_slow@,
            fast_with_scissor: self.mask_instances_fast_with_scissor@,
            slow_with_scissor: self.mask_instances_slow_with_scissor@,
            image: self.image_mask_instances@,
            image_with_scissor: self.image_mask_instances_with_scissor@,
        }
    }

    pub open spec fn wf(self) -> bool {
        &&& self.mask_instances_fast_with_scissor.wf()
        &&& self.mask_instances_slow_with_scissor.wf()
        &&& self.image_mask_instances.wf()
        &&& self.image_mask_instances_with_scissor.wf()
    }
}

/// A quad that is drawn to a task, before it is given its header.
#[derive(Clone, Copy, Debug, PartialEq, Eq, Structural)]
pub struct QuadDraw {
    pub kind: PatternKind,
    pub input: PatternShaderInput,
    pub dst: RenderTaskAddress,
    pub transform_id: GpuTransformId,
    pub address: GpuBufferAddress,
    pub flags: QuadFlags,
    pub edges: EdgeMask,
    pub segment_index: u8,
    pub src: RenderTaskId,
}

/// The blocks with the header of a quad, where it is drawn.
pub open spec fn quad_draw_blocks(
    draw: QuadDraw,
    graph: RenderTaskGraph,
    blocks: Seq<GpuBufferBlockI>,
) -> Seq<GpuBufferBlockI> {
    if quad_texture(graph, draw.src) is Some {
        let header = QuadHeader { transform_id: draw.transform_id, z_id: 0, pattern_input: draw.input };
        with_row_capacity(blocks, 1) + header.spec_blocks()
    } else {
        blocks
    }
}

/// The instances of a quad, without their keys.
pub open spec fn quad_draw_instances(
    draw: QuadDraw,
    texture: TextureSource,
    blocks: Seq<GpuBufferBlockI>,
) -> Seq<QuadInstance> {
    quad_instances(
        draw.kind,
        texture,
        QuadInstance {
            dst_task_address: draw.dst,
            prim_address_i: spec_signed(
                with_row_capacity(blocks, 1).len() as usize as u32,
            ) as i32,
            prim_address_f: spec_signed(draw.address.0) as i32,
            edge_flags: draw.edges,
            quad_flags: draw.flags,
            part_index: PART_ALL,
            segment_index: draw.segment_index,
        },
    ).map_values(|i: (BatchKey, QuadInstance)| i.1)
}

/// The buffer can take the headers of `n` more quads, each with the rest of a row.
pub open spec fn has_header_room(builder: GpuBufferBuilder, n: int) -> bool {
    &&& builder.integers.wf()
    &&& builder.integers.blocks().len() + 2048 * (n + 1) <= usize::MAX
}

/// At most `n` headers were added to the buffer, and nothing else was changed.
pub open spec fn only_headers(before: GpuBufferBuilder, after: GpuBufferBuilder, n: int) -> bool {
    &&& after.integers.wf()
    &&& after.integers.blocks().len() <= before.integers.blocks().len() + 2048 * n
    &&& after.integers.patches() == before.integers.patches()
    &&& after.integers.epoch_bits() == before.integers.epoch_bits()
    &&& after.floats == before.floats
}

/// Writes the header of a quad and gives its instances with the texture they read.
pub(crate) fn draw_quad(
    draw: &QuadDraw,
    graph: &RenderTaskGraph,
    builder: &mut GpuBufferBuilder,
) -> (r: Option<(TextureSource, Vec<QuadInstance>)>)
    requires
        draw.src == RenderTaskId::spec_invalid() || graph.readable(draw.src),
        has_header_room(*old(builder), 0),
    ensures
        only_headers(*old(builder), *final(builder), 1),
        final(builder).integers.blocks() == quad_draw_blocks(
            *draw,
            *graph,
            old(builder).integers.blocks(),
        ),
        match quad_texture(*graph, draw.src) {
            None => r is None,
            Some(texture) => r matches Some(drawn) && drawn.0 == texture && drawn.1@
                == quad_draw_instances(*draw, texture, old(builder).integers.blocks()),
        },
{
    let keyed = add_to_batch(
        draw.kind,
        draw.input,
        draw.dst,
        draw.transform_id,
        draw.address,
        draw.flags,
        draw.edges,
        draw.segment_index,
        draw.src,
        0,
        graph,
        builder,
    );
    let ghost blocks = old(builder).integers.blocks();
    if keyed.len() == 0 {
        proof {
            if quad_texture(*graph, draw.src) is Some {
                crate::quad::batch::quad_parts_are_distinct(
                    draw.kind,
                    quad_texture(*graph, draw.src)->0,
                    QuadInstance {
                        dst_task_address: draw.dst,
                        prim_address_i: spec_signed(
                            with_row_capacity(blocks, 1).len() as usize as u32,
                        ) as i32,
                        prim_address_f: spec_signed(draw.address.0) as i32,
                        edge_flags: draw.edges,
                        quad_flags: draw.flags,
                        part_index: PART_ALL,
                        segment_index: draw.segment_index,
                    },
                );
            }
        }
        return None;
    }
    let texture = keyed[0].0.texture;
    let mut instances: Vec<QuadInstance> = Vec::new();
    let mut i: usize = 0;
    while i < keyed.len()
        invariant
            i <= keyed@.len(),
            instances@ == keyed@.take(i as int).map_values(|k: (BatchKey, QuadInstance)| k.1),
        decreases keyed@.len() - i,
    {
        instances.push(keyed[i].1);
        i = i + 1;
        assert(instances@ =~= keyed@.take(i as int).map_values(|k: (BatchKey, QuadInstance)| k.1));
    }
    assert(keyed@.take(i as int) =~= keyed@);
    assert(instances@ =~= quad_draw_instances(*draw, texture, blocks));
    Some((texture, instances))
}

/// Adds several values under one key.
pub(crate) fn insert_all<K: GroupKey + Copy, V: Copy>(
    groups: &mut Grouped<K, V>,
    key: K,
    values: &Vec<V>,
)
    ensures
        final(groups)@ == with_values(old(groups)@, key, values@),
        old(groups).wf() ==> final(groups).wf(),
{
    let mut i: usize = 0;
    assert(values@.take(0) =~= Seq::<V>::empty());
    while i < values.len()
        invariant
            i <= values@.len(),
            groups@ == with_values(old(groups)@, key, values@.take(i as int)),
            old(groups).wf() ==> groups.wf(),
        decreases values@.len() - i,
    {
        let ghost next = values@.take(i as int + 1);
        assert(next.drop_last() =~= values@.take(i as int));
        groups.insert(key, values[i]);
        i = i + 1;
    }
    assert(values@.take(i as int) =~= values@);
}

/// The quad of a clip to a rectangle.
pub open spec fn rect_clip_draw(task: RectangleClipSubTask, masked: RenderTaskAddress) -> QuadDraw {
    QuadDraw {
        kind: PatternKind::Mask,
        input: PatternShaderInput(0, 0),
        dst: masked,
        transform_id: task.quad_transform_id,
        address: task.quad_address,
        flags: task.quad_flags,
        edges: EdgeMask::spec_empty(),
        segment_index: INVALID_SEGMENT,
        src: RenderTaskId::spec_invalid(),
    }
}

pub open spec fn mask_instance(task: RectangleClipSubTask, prim: QuadInstance) -> MaskInstance {
    MaskInstance {
        prim,
        clip_transform_id: task.clip_transform_id,
        clip_address: spec_signed(task.clip_address.0) as i32,
        clip_space: match task.clip_space {
            ClipSpace::Device => 0,
            ClipSpace::Primitive => 1,
        },
    }
}

pub open spec fn mask_instances(task: RectangleClipSubTask, prims: Seq<QuadInstance>) -> Seq<
    MaskInstance,
> {
    prims.map_values(|prim: QuadInstance| mask_instance(task, prim))
}

/// The masks with a clip to a rectangle.
pub open spec fn with_rect_clip(
    masks: ClipMasksView,
    task: RectangleClipSubTask,
    target_rect: DeviceIntRect,
    prims: Seq<QuadInstance>,
) -> ClipMasksView {
    let added = mask_instances(task, prims);
    if task.needs_scissor_rect {
        if task.rounded_rect_fast_path {
            ClipMasksView {
                fast_with_scissor: with_values(masks.fast_with_scissor, target_rect, added),
                ..masks
            }
        } else {
            ClipMasksView {
                slow_with_scissor: with_values(masks.slow_with_scissor, target_rect, added),
                ..masks
            }
        }
    } else if task.rounded_rect_fast_path {
        ClipMasksView { fast: masks.fast + added, ..masks }
    } else {
        ClipMasksView { slow: masks.slow + added, ..masks }
    }
}

fn to_mask_instances(task: &RectangleClipSubTask, prims: &Vec<QuadInstance>) -> (r: Vec<
    MaskInstance,
>)
    ensures
        r@ == mask_instances(*task, prims@),
{
    let mut r: Vec<MaskInstance> = Vec::new();
    let mut i: usize = 0;
    while i < prims.len()
        invariant
            i <= prims@.len(),
            r@ == mask_instances(*task, prims@.take(i as int)),
        decreases prims@.len() - i,
    {
        r.push(
            MaskInstance {
                prim: prims[i],
                clip_transform_id: task.clip_transform_id,
                clip_address: task.clip_address.as_int(),
                clip_space: match task.clip_space {
                    ClipSpace::Device => 0,
                    ClipSpace::Primitive => 1,
                },
            },
        );
        i = i + 1;
        assert(r@ =~= mask_instances(*task, prims@.take(i as int)));
    }
    assert(prims@.take(i as int) =~= prims@);
    r
}

fn append_masks(list: &mut Vec<MaskInstance>, added: &Vec<MaskInstance>)
    ensures
        final(list)@ == old(list)@ + added@,
{
    let mut i: usize = 0;
    while i < added.len()
        invariant
            i <= added@.len(),
            list@ == old(list)@ + added@.take(i as int),
        decreases added@.len() - i,
    {
        list.push(added[i]);
        i = i + 1;
        assert(list@ =~= old(list)@ + added@.take(i as int));
    }
    assert(added@.take(i as int) =~= added@);
}

/// Multiplies a task by a rectangle.
pub fn add_rect_clip_task_to_batch(
    task: &RectangleClipSubTask,
    target_rect: &DeviceIntRect,
    masked_task_address: RenderTaskAddress,
    render_tasks: &RenderTaskGraph,
    gpu_buffers: &mut GpuBufferBuilder,
    results: &mut ClipMaskInstanceList,
)
    requires
        has_header_room(*old(gpu_buffers), 0),
        old(results).wf(),
    ensures
        only_headers(*old(gpu_buffers), *final(gpu_buffers), 1),
        final(gpu_buffers).integers.blocks() == quad_draw_blocks(
            rect_clip_draw(*task, masked_task_address),
            *render_tasks,
            old(gpu_buffers).integers.blocks(),
        ),
        final(results).wf(),
        final(results)@ == with_rect_clip(
            old(results)@,
            *task,
            *target_rect,
            quad_draw_instances(
                rect_clip_draw(*task, masked_task_address),
                TextureSource::Invalid,
                old(gpu_buffers).integers.blocks(),
            ),
        ),
{
    let draw = QuadDraw {
        kind: PatternKind::Mask,
        input: PatternShaderInput(0, 0),
        dst: masked_task_address,
        transform_id: task.quad_transform_id,
        address: task.quad_address,
        flags: task.quad_flags,
        edges: EdgeMask::empty(),
        segment_index: INVALID_SEGMENT,
        src: RenderTaskId::invalid(),
    };
    if let Some((_, prims)) = draw_quad(&draw, render_tasks, gpu_buffers) {
        let added = to_mask_instances(task, &prims);
        if task.needs_scissor_rect {
            if task.rounded_rect_fast_path {
                insert_all(&mut results.mask_instances_fast_with_scissor, *target_rect, &added);
            } else {
                insert_all(&mut results.mask_instances_slow_with_scissor, *target_rect, &added);
            }
        } else if task.rounded_rect_fast_path {
            append_masks(&mut results.mask_instances_fast, &added);
        } else {
            append_masks(&mut results.mask_instances_slow, &added);
        }
    }
}

/// The quad of a clip to an image. It reads the image as its first segment.
pub open spec fn image_clip_draw(task: ImageClipSubTask, masked: RenderTaskAddress) -> QuadDraw {
    QuadDraw {
        kind: PatternKind::ColorOrTexture,
        input: PatternShaderInput(
            TEXTURED_SHADER_MODE_TEXTURE,
            TEXTURED_SHADER_MAP_TO_SEGMENT,
        ),
        dst: masked,
        transform_id: task.quad_transform_id,
        address: task.quad_address,
        flags: task.quad_flags,
        edges: EdgeMask::spec_empty(),
        segment_index: 0,
        src: task.src_task,
    }
}

/// The masks with a clip to an image; the same masks where the image has no texture.
pub open spec fn with_image_clip(
    masks: ClipMasksView,
    task: ImageClipSubTask,
    target_rect: DeviceIntRect,
    masked: RenderTaskAddress,
    graph: RenderTaskGraph,
    blocks: Seq<GpuBufferBlockI>,
) -> ClipMasksView {
    match quad_texture(graph, task.src_task) {
        None => masks,
        Some(texture) => {
            let prims = quad_draw_instances(image_clip_draw(task, masked), texture, blocks);
            if task.needs_scissor_rect {
                ClipMasksView {
                    image_with_scissor: with_values(
                        masks.image_with_scissor,
                        ScissorTexture { rect: target_rect, texture },
                        prims,
                    ),
                    ..masks
                }
            } else {
                ClipMasksView { image: with_values(masks.image, texture, prims), ..masks }
            }
        },
    }
}

/// Multiplies a task by the alpha channel of an image.
pub fn add_image_clip_task_to_batch(
    task: &ImageClipSubTask,
    target_rect: &DeviceIntRect,
    masked_task_address: RenderTaskAddress,
    render_tasks: &RenderTaskGraph,
    gpu_buffers: &mut GpuBufferBuilder,
    results: &mut ClipMaskInstanceList,
)
    requires
        task.src_task != RenderTaskId::spec_invalid(),
        render_tasks.readable(task.src_task),
        has_header_room(*old(gpu_buffers), 0),
        old(results).wf(),
    ensures
        only_headers(*old(gpu_buffers), *final(gpu_buffers), 1),
        final(gpu_buffers).integers.blocks() == quad_draw_blocks(
            image_clip_draw(*task, masked_task_address),
            *render_tasks,
            old(gpu_buffers).integers.blocks(),
        ),
        final(results).wf(),
        final(results)@ == with_image_clip(
            old(results)@,
            *task,
            *target_rect,
            masked_task_address,
            *render_tasks,
            old(gpu_buffers).integers.blocks(),
        ),
{
    let draw = QuadDraw {
        kind: PatternKind::ColorOrTexture,
        input: PatternShaderInput(
            TEXTURED_SHADER_MODE_TEXTURE,
            TEXTURED_SHADER_MAP_TO_SEGMENT,
        ),
        dst: masked_task_address,
        transform_id: task.quad_transform_id,
        address: task.quad_address,
        flags: task.quad_flags,
        edges: EdgeMask::empty(),
        segment_index: 0,
        src: task.src_task,
    };
    if let Some((texture, prims)) = draw_quad(&draw, render_tasks, gpu_buffers) {
        if task.needs_scissor_rect {
            insert_all(
                &mut results.image_mask_instances_with_scissor,
                ScissorTexture { rect: *target_rect, texture },
                &prims,
            );
        } else {
            insert_all(&mut results.image_mask_instances, texture, &prims);
        }
    }
}

} // verus!
