//! The data and the draw instances of a quad.

use crate::internal_types::{
    EdgeMask, GpuTransformId, PatternKind, PatternShaderInput, QuadFlags, RenderTaskId,
    TextureSource,
};
use crate::internal_types::ColorF;
use crate::quad::ScaleOffset;
use crate::render_task::{spec_signed, FloatRect, RenderTaskAddress};
use crate::render_task_graph::RenderTaskGraph;
use crate::renderer::gpu_buffer::{
    placed_tasks, with_row_capacity, DeferredBlock, GpuBufferAddress, GpuBufferBlockF,
    GpuBufferBlockI, GpuBufferBuilder, GpuBufferBuilderImpl, GpuBufferDataF, GpuBufferDataI,
    GpuBufferWriter, Texel, MAX_VERTEX_TEXTURE_WIDTH,
};
use vstd::prelude::*;

verus! {

/// What the shaders read of a quad.
#[derive(Clone, Copy, Debug, PartialEq, Eq, Structural)]
pub struct QuadPrimitive {
    pub bounds: FloatRect,
    pub clip: FloatRect,
    pub input_task: RenderTaskId,
    pub pattern_scale_offset: ScaleOffset,
    /// The color, its channels multiplied by its alpha.
    pub color: ColorF,
}

/// A part of a quad, with the task that it reads.
#[derive(Clone, Copy, Debug, PartialEq, Eq, Structural)]
pub struct QuadSegment {
    pub rect: FloatRect,
    pub task_id: RenderTaskId,
}

/// What the shaders read of a quad as integers.
#[derive(Clone, Copy, Debug, PartialEq, Eq, Structural)]
pub struct QuadHeader {
    pub transform_id: GpuTransformId,
    pub z_id: i32,
    pub pattern_input: PatternShaderInput,
}

pub open spec fn rect_block(rect: FloatRect) -> GpuBufferBlockF {
    GpuBufferBlockF { data: [rect.min.x.0, rect.min.y.0, rect.max.x.0, rect.max.y.0] }
}

fn block_of_rect(rect: &FloatRect) -> (r: GpuBufferBlockF)
    ensures
        r == rect_block(*rect),
{
    GpuBufferBlockF { data: [rect.min.x.0, rect.min.y.0, rect.max.x.0, rect.max.y.0] }
}

/// The task, at a place, unless there is none.
pub open spec fn task_at(place: int, task: RenderTaskId) -> Seq<(int, RenderTaskId)> {
    if task == RenderTaskId::spec_invalid() {
        Seq::empty()
    } else {
        seq![(place, task)]
    }
}

impl GpuBufferDataF for QuadPrimitive {
    open spec fn spec_blocks(&self) -> Seq<GpuBufferBlockF> {
        seq![
            rect_block(self.bounds),
            rect_block(self.clip),
            GpuBufferBlockF::spec_empty(),
            GpuBufferBlockF {
                data: [
                    self.pattern_scale_offset.scale.x.0,
                    self.pattern_scale_offset.scale.y.0,
                    self.pattern_scale_offset.offset.x.0,
                    self.pattern_scale_offset.offset.y.0,
                ],
            },
            GpuBufferBlockF {
                data: [self.color.r.0, self.color.g.0, self.color.b.0, self.color.a.0],
            },
        ]
    }

    open spec fn spec_tasks(&self) -> Seq<(int, RenderTaskId)> {
        task_at(2, self.input_task)
    }

    open spec fn spec_num_blocks() -> usize {
        5
    }

    fn num_blocks() -> (r: usize) {
        5
    }

    fn write<'l>(&self, writer: &mut GpuBufferWriter<'l, GpuBufferBlockF>) {
        let ghost before = writer.blocks();
        let ghost patches = writer.patches();
        writer.push_one(block_of_rect(&self.bounds));
        writer.push_one(block_of_rect(&self.clip));
        writer.push_render_task(self.input_task);
        writer.push_one(
            GpuBufferBlockF {
                data: [
                    self.pattern_scale_offset.scale.x.0,
                    self.pattern_scale_offset.scale.y.0,
                    self.pattern_scale_offset.offset.x.0,
                    self.pattern_scale_offset.offset.y.0,
                ],
            },
        );
        writer.push_one(
            GpuBufferBlockF {
                data: [self.color.r.0, self.color.g.0, self.color.b.0, self.color.a.0],
            },
        );
        assert(writer.blocks() =~= before + self.spec_blocks());
        assert(writer.patches() =~= patches + placed_tasks(
            self.spec_tasks(),
            before.len() as int,
        ));
    }
}

impl GpuBufferDataF for QuadSegment {
    open spec fn spec_blocks(&self) -> Seq<GpuBufferBlockF> {
        seq![rect_block(self.rect), GpuBufferBlockF::spec_empty()]
    }

    open spec fn spec_tasks(&self) -> Seq<(int, RenderTaskId)> {
        task_at(1, self.task_id)
    }

    open spec fn spec_num_blocks() -> usize {
        2
    }

    fn num_blocks() -> (r: usize) {
        2
    }

    fn write<'l>(&self, writer: &mut GpuBufferWriter<'l, GpuBufferBlockF>) {
        let ghost before = writer.blocks();
        let ghost patches = writer.patches();
        writer.push_one(block_of_rect(&self.rect));
        writer.push_render_task(self.task_id);
        assert(writer.blocks() =~= before + self.spec_blocks());
        assert(writer.patches() =~= patches + placed_tasks(
            self.spec_tasks(),
            before.len() as int,
        ));
    }
}

impl GpuBufferDataI for QuadHeader {
    open spec fn spec_blocks(&self) -> Seq<GpuBufferBlockI> {
        seq![
            GpuBufferBlockI {
                data: [
                    spec_signed(self.transform_id.index) as i32,
                    self.z_id,
                    self.pattern_input.0,
                    self.pattern_input.1,
                ],
            },
        ]
    }

    open spec fn spec_tasks(&self) -> Seq<(int, RenderTaskId)> {
        Seq::empty()
    }

    open spec fn spec_num_blocks() -> usize {
        1
    }

    fn num_blocks() -> (r: usize) {
        1
    }

    fn write<'l>(&self, writer: &mut GpuBufferWriter<'l, GpuBufferBlockI>) {
        let ghost before = writer.blocks();
        let ghost patches = writer.patches();
        writer.push_one(
            GpuBufferBlockI {
                data: [
                    GpuBufferAddress(self.transform_id.index).as_int(),
                    self.z_id,
                    self.pattern_input.0,
                    self.pattern_input.1,
                ],
            },
        );
        assert(writer.blocks() =~= before + self.spec_blocks());
        assert(writer.patches() =~= patches + placed_tasks(
            self.spec_tasks(),
            before.len() as int,
        ));
    }
}

/// The blocks of the parts of a quad.
pub open spec fn segment_blocks(segments: Seq<QuadSegment>) -> Seq<GpuBufferBlockF>
    decreases segments.len(),
{
    if segments.len() == 0 {
        Seq::empty()
    } else {
        segment_blocks(segments.drop_last()) + segments.last().spec_blocks()
    }
}

/// The patches of the parts of a quad, the first of which starts at `base`.
pub open spec fn segment_patches(segments: Seq<QuadSegment>, base: int) -> Seq<DeferredBlock>
    decreases segments.len(),
{
    if segments.len() == 0 {
        Seq::empty()
    } else {
        segment_patches(segments.drop_last(), base) + placed_tasks(
            segments.last().spec_tasks(),
            base + 2 * (segments.len() - 1),
        )
    }
}

/// Each part of a quad takes two blocks.
pub proof fn lemma_segment_blocks(segments: Seq<QuadSegment>)
    ensures
        segment_blocks(segments).len() == 2 * segments.len(),
    decreases segments.len(),
{
    if segments.len() > 0 {
        lemma_segment_blocks(segments.drop_last());
    }
}

fn push_segments<'l>(
    writer: &mut GpuBufferWriter<'l, GpuBufferBlockF>,
    segments: &Vec<QuadSegment>,
)
    requires
        old(writer).wf(),
        old(writer).blocks().len() + 2 * segments@.len() <= old(writer).start() + old(
            writer,
        ).limit(),
    ensures
        final(writer).wf(),
        final(writer).same_group(*old(writer)),
        *final(final(writer).buffer) == *final(old(writer).buffer),
        *final(final(writer).deferred) == *final(old(writer).deferred),
        final(writer).blocks() == old(writer).blocks() + segment_blocks(segments@),
        final(writer).patches() == old(writer).patches() + segment_patches(
            segments@,
            old(writer).blocks().len() as int,
        ),
{
    let ghost before = writer.blocks();
    let ghost patches = writer.patches();
    let mut i: usize = 0;
    assert(segments@.take(0) =~= Seq::<QuadSegment>::empty());
    assert(writer.blocks() =~= before + segment_blocks(segments@.take(0)));
    assert(writer.patches() =~= patches + segment_patches(
        segments@.take(0),
        before.len() as int,
    ));
    while i < segments.len()
        invariant
            i <= segments@.len(),
            writer.wf(),
            writer.same_group(*old(writer)),
            *final(writer.buffer) == *final(old(writer).buffer),
            *final(writer.deferred) == *final(old(writer).deferred),
            before == old(writer).blocks(),
            patches == old(writer).patches(),
            before.len() + 2 * segments@.len() <= writer.start() + writer.limit(),
            writer.blocks() == before + segment_blocks(segments@.take(i as int)),
            writer.patches() == patches + segment_patches(
                segments@.take(i as int),
                before.len() as int,
            ),
        decreases segments@.len() - i,
    {
        proof {
            lemma_segment_blocks(segments@.take(i as int));
        }
        let segment = segments[i];
        writer.push(&segment);
        proof {
            assert(segments@.take(i + 1).drop_last() =~= segments@.take(i as int));
            assert(writer.blocks() =~= before + segment_blocks(segments@.take(i + 1)));
            assert(writer.patches() =~= patches + segment_patches(
                segments@.take(i + 1),
                before.len() as int,
            ));
        }
        i = i + 1;
    }
    assert(segments@.take(i as int) =~= segments@);
}

/// The blocks of a buffer and the patches that it waits for.
#[verifier::ext_equal]
pub struct BufferView {
    pub blocks: Seq<GpuBufferBlockF>,
    pub patches: Seq<DeferredBlock>,
}

pub open spec fn buffer_view(builder: GpuBufferBuilderImpl<GpuBufferBlockF>) -> BufferView {
    BufferView { blocks: builder.blocks(), patches: builder.patches() }
}

/// The address of a group of `count` blocks that is written next.
pub open spec fn next_address(buffer: BufferView, count: int) -> GpuBufferAddress {
    GpuBufferAddress(with_row_capacity(buffer.blocks, count).len() as usize as u32)
}

/// The buffer with a group of blocks, none of which waits for a task.
pub open spec fn with_group(buffer: BufferView, blocks: Seq<GpuBufferBlockF>) -> BufferView {
    BufferView { blocks: with_row_capacity(buffer.blocks, blocks.len() as int) + blocks, ..buffer }
}

/// The number of blocks of a quad with so many parts.
pub open spec fn quad_block_count(segments: nat) -> int {
    (5 + 2 * segments) as int
}

/// The buffer with a quad and its parts.
pub open spec fn with_quad(
    buffer: BufferView,
    prim: QuadPrimitive,
    segments: Seq<QuadSegment>,
) -> BufferView {
    let start = with_row_capacity(buffer.blocks, quad_block_count(segments.len()));
    BufferView {
        blocks: start + prim.spec_blocks() + segment_blocks(segments),
        patches: buffer.patches + placed_tasks(prim.spec_tasks(), start.len() as int)
            + segment_patches(segments, (start.len() + 5) as int),
    }
}

/// A group of at most a row makes a buffer longer by at most two rows.
pub proof fn lemma_group_length(buffer: BufferView, count: int)
    requires
        0 <= count <= MAX_VERTEX_TEXTURE_WIDTH,
    ensures
        buffer.blocks.len() <= with_row_capacity(buffer.blocks, count).len() <= buffer.blocks.len()
            + MAX_VERTEX_TEXTURE_WIDTH,
{
}

/// Writes the blocks of a quad and of its parts as one group.
pub fn write_prim_blocks_impl(
    builder: &mut GpuBufferBuilderImpl<GpuBufferBlockF>,
    prim: &QuadPrimitive,
    segments: &Vec<QuadSegment>,
) -> (r: GpuBufferAddress)
    requires
        old(builder).wf(),
        5 + 2 * segments@.len() <= MAX_VERTEX_TEXTURE_WIDTH,
        old(builder).blocks().len() + 2 * MAX_VERTEX_TEXTURE_WIDTH <= usize::MAX,
    ensures
        final(builder).wf(),
        final(builder).epoch_bits() == old(builder).epoch_bits(),
        buffer_view(*final(builder)) == with_quad(buffer_view(*old(builder)), *prim, segments@),
        r == next_address(buffer_view(*old(builder)), quad_block_count(segments@.len())),
        final(builder).blocks().len() <= old(builder).blocks().len() + 2 * MAX_VERTEX_TEXTURE_WIDTH,
{
    proof {
        lemma_segment_blocks(segments@);
        lemma_group_length(buffer_view(*builder), quad_block_count(segments@.len()));
    }
    let mut writer = builder.write_blocks(5 + segments.len() * 2);
    writer.push(prim);
    push_segments(&mut writer, segments);
    writer.finish()
}

/// Writes the blocks of a quad that is placed in device space. The color is premultiplied.
pub fn write_device_prim_blocks(
    builder: &mut GpuBufferBuilderImpl<GpuBufferBlockF>,
    prim_rect: FloatRect,
    clip_rect: FloatRect,
    color: ColorF,
    texture_input: RenderTaskId,
    segments: &Vec<QuadSegment>,
    pattern_scale_offset: ScaleOffset,
) -> (r: GpuBufferAddress)
    requires
        old(builder).wf(),
        5 + 2 * segments@.len() <= MAX_VERTEX_TEXTURE_WIDTH,
        old(builder).blocks().len() + 2 * MAX_VERTEX_TEXTURE_WIDTH <= usize::MAX,
    ensures
        final(builder).wf(),
        final(builder).epoch_bits() == old(builder).epoch_bits(),
        buffer_view(*final(builder)) == with_quad(
            buffer_view(*old(builder)),
            QuadPrimitive {
                bounds: prim_rect,
                clip: clip_rect,
                input_task: texture_input,
                pattern_scale_offset,
                color,
            },
            segments@,
        ),
        r == next_address(buffer_view(*old(builder)), quad_block_count(segments@.len())),
{
    let prim = QuadPrimitive {
        bounds: prim_rect,
        clip: clip_rect,
        input_task: texture_input,
        pattern_scale_offset,
        color,
    };
    write_prim_blocks_impl(builder, &prim, segments)
}

/// Writes the blocks of a quad that is placed in layout space, where its pattern is too.
/// The color is premultiplied.
pub fn write_layout_prim_blocks(
    builder: &mut GpuBufferBuilderImpl<GpuBufferBlockF>,
    prim_rect: FloatRect,
    clip_rect: FloatRect,
    color: ColorF,
    texture_input: RenderTaskId,
    segments: &Vec<QuadSegment>,
) -> (r: GpuBufferAddress)
    requires
        old(builder).wf(),
        5 + 2 * segments@.len() <= MAX_VERTEX_TEXTURE_WIDTH,
        old(builder).blocks().len() + 2 * MAX_VERTEX_TEXTURE_WIDTH <= usize::MAX,
    ensures
        final(builder).wf(),
        final(builder).epoch_bits() == old(builder).epoch_bits(),
        buffer_view(*final(builder)) == with_quad(
            buffer_view(*old(builder)),
            QuadPrimitive {
                bounds: prim_rect,
                clip: clip_rect,
                input_task: texture_input,
                pattern_scale_offset: ScaleOffset::spec_identity(),
                color,
            },
            segments@,
        ),
        r == next_address(buffer_view(*old(builder)), quad_block_count(segments@.len())),
{
    write_device_prim_blocks(
        builder,
        prim_rect,
        clip_rect,
        color,
        texture_input,
        segments,
        ScaleOffset::identity(),
    )
}

/// How a batch is blended with what is there.
#[derive(Clone, Copy, Debug, PartialEq, Eq, Structural)]
pub enum BlendMode {
    NoBlend,
    PremultipliedAlpha,
}

/// What the instances of a batch have in common.
#[derive(Clone, Copy, Debug, PartialEq, Eq, Structural)]
pub struct BatchKey {
    pub blend_mode: BlendMode,
    pub kind: PatternKind,
    pub texture: TextureSource,
}

/// The part of a quad that an instance draws.
#[derive(Clone, Copy, Debug, PartialEq, Eq, Structural)]
pub struct QuadInstance {
    pub dst_task_address: RenderTaskAddress,
    pub prim_address_i: i32,
    pub prim_address_f: i32,
    pub edge_flags: EdgeMask,
    pub quad_flags: QuadFlags,
    pub part_index: u8,
    pub segment_index: u8,
}

pub const PART_CENTER: u8 = 0;

pub const PART_LEFT: u8 = 1;

pub const PART_TOP: u8 = 2;

pub const PART_RIGHT: u8 = 3;

pub const PART_BOTTOM: u8 = 4;

pub const PART_ALL: u8 = 5;

/// A part that is drawn where `wanted`, always blended.
pub open spec fn edge_part(wanted: bool, part: u8) -> Seq<(bool, u8)> {
    if wanted {
        seq![(true, part)]
    } else {
        Seq::empty()
    }
}

/// The parts in which a quad is drawn, each with whether it is smoothed. Without
/// smoothed edges it is drawn at once; with separate edges, first those and then the
/// middle, which need not be blended; and otherwise at once, smoothed.
pub open spec fn quad_parts(edges: EdgeMask, flags: QuadFlags) -> Seq<(bool, u8)> {
    if edges == EdgeMask::spec_empty() {
        seq![(false, PART_ALL)]
    } else if flags.use_aa_segments {
        edge_part(edges.left, PART_LEFT) + edge_part(edges.top, PART_TOP) + edge_part(
            edges.right,
            PART_RIGHT,
        ) + edge_part(edges.bottom, PART_BOTTOM) + seq![(false, PART_CENTER)]
    } else {
        seq![(true, PART_ALL)]
    }
}

/// The key of a part: smoothed parts are always blended, the others unless the quad
/// is opaque.
pub open spec fn part_key(
    smoothed: bool,
    flags: QuadFlags,
    kind: PatternKind,
    texture: TextureSource,
) -> BatchKey {
    BatchKey {
        blend_mode: if !smoothed && flags.is_opaque {
            BlendMode::NoBlend
        } else {
            BlendMode::PremultipliedAlpha
        },
        kind,
        texture,
    }
}

/// The instances of a quad with their keys, in the order in which they are drawn.
pub open spec fn quad_instances(
    kind: PatternKind,
    texture: TextureSource,
    instance: QuadInstance,
) -> Seq<(BatchKey, QuadInstance)> {
    quad_parts(instance.edge_flags, instance.quad_flags).map_values(
        |part: (bool, u8)|
            (
                part_key(part.0, instance.quad_flags, kind, texture),
                QuadInstance { part_index: part.1, ..instance },
            ),
    )
}

/// The texture that a quad reads; nothing where its task has no texture.
pub open spec fn quad_texture(render_tasks: RenderTaskGraph, src: RenderTaskId) -> Option<
    TextureSource,
> {
    if src == RenderTaskId::spec_invalid() {
        Some(TextureSource::Invalid)
    } else {
        render_tasks.spec_resolve_texture(src)
    }
}

/// Writes the header of a quad and gives its instances. A quad whose task has no
/// texture is not drawn at all.
pub fn add_to_batch(
    kind: PatternKind,
    pattern_input: PatternShaderInput,
    dst_task_address: RenderTaskAddress,
    transform_id: GpuTransformId,
    prim_address_f: GpuBufferAddress,
    quad_flags: QuadFlags,
    edge_flags: EdgeMask,
    segment_index: u8,
    src_task_id: RenderTaskId,
    z_id: i32,
    render_tasks: &RenderTaskGraph,
    gpu_buffer_builder: &mut GpuBufferBuilder,
) -> (r: Vec<(BatchKey, QuadInstance)>)
    requires
        src_task_id == RenderTaskId::spec_invalid() || render_tasks.readable(src_task_id),
        old(gpu_buffer_builder).integers.wf(),
        old(gpu_buffer_builder).integers.blocks().len() + 2 * MAX_VERTEX_TEXTURE_WIDTH
            <= usize::MAX,
    ensures
        final(gpu_buffer_builder).floats == old(gpu_buffer_builder).floats,
        match quad_texture(*render_tasks, src_task_id) {
            None => r@ == Seq::<(BatchKey, QuadInstance)>::empty() && *final(gpu_buffer_builder)
                == *old(gpu_buffer_builder),
            Some(texture) => {
                let header = QuadHeader { transform_id, z_id, pattern_input };
                let start = with_row_capacity(old(gpu_buffer_builder).integers.blocks(), 1);
                &&& final(gpu_buffer_builder).integers.wf()
                &&& final(gpu_buffer_builder).integers.blocks() == start + header.spec_blocks()
                &&& final(gpu_buffer_builder).integers.patches() == old(
                    gpu_buffer_builder,
                ).integers.patches()
                &&& final(gpu_buffer_builder).integers.epoch_bits() == old(
                    gpu_buffer_builder,
                ).integers.epoch_bits()
                &&& r@ == quad_instances(
                    kind,
                    texture,
                    (QuadInstance {
                        dst_task_address,
                        prim_address_i: spec_signed(start.len() as usize as u32) as i32,
                        prim_address_f: spec_signed(prim_address_f.0) as i32,
                        edge_flags,
                        quad_flags,
                        part_index: PART_ALL,
                        segment_index,
                    }),
                )
            },
        },
{
    let mut out: Vec<(BatchKey, QuadInstance)> = Vec::new();
    let texture = if src_task_id == RenderTaskId::invalid() {
        TextureSource::Invalid
    } else {
        match render_tasks.resolve_texture(src_task_id) {
            Some(texture) => texture,
            None => {
                return out;
            },
        }
    };
    let ghost patches = gpu_buffer_builder.integers.patches();
    let header = QuadHeader { transform_id, z_id, pattern_input };
    let prim_address_i = gpu_buffer_builder.integers.push(&header);
    assert(gpu_buffer_builder.integers.patches() =~= patches);
    let blend_mode = if quad_flags.is_opaque {
        BlendMode::NoBlend
    } else {
        BlendMode::PremultipliedAlpha
    };
    let prim_key = BatchKey { blend_mode, kind, texture };
    let aa_key = BatchKey { blend_mode: BlendMode::PremultipliedAlpha, kind, texture };
    let instance = QuadInstance {
        dst_task_address,
        prim_address_i: prim_address_i.as_int(),
        prim_address_f: prim_address_f.as_int(),
        edge_flags,
        quad_flags,
        part_index: PART_ALL,
        segment_index,
    };
    if edge_flags == EdgeMask::empty() {
        out.push((prim_key, instance));
    } else if quad_flags.use_aa_segments {
        if edge_flags.left {
            out.push((aa_key, QuadInstance { part_index: PART_LEFT, ..instance }));
        }
        if edge_flags.top {
            out.push((aa_key, QuadInstance { part_index: PART_TOP, ..instance }));
        }
        if edge_flags.right {
            out.push((aa_key, QuadInstance { part_index: PART_RIGHT, ..instance }));
        }
        if edge_flags.bottom {
            out.push((aa_key, QuadInstance { part_index: PART_BOTTOM, ..instance }));
        }
        out.push((prim_key, QuadInstance { part_index: PART_CENTER, ..instance }));
    } else {
        out.push((aa_key, instance));
    }
    assert(out@ =~= quad_instances(kind, texture, instance));
    out
}

/// A quad is drawn at least once, its parts are all different, and what is smoothed
/// is blended.
pub proof fn quad_parts_are_distinct(
    kind: PatternKind,
    texture: TextureSource,
    instance: QuadInstance,
)
    ensures
        quad_instances(kind, texture, instance).len() >= 1,
        forall|i: int, j: int|
            0 <= i < j < quad_instances(kind, texture, instance).len() ==> (
            #[trigger] quad_instances(kind, texture, instance)[i]).1.part_index != (
            #[trigger] quad_instances(kind, texture, instance)[j]).1.part_index,
        forall|i: int|
            0 <= i < quad_instances(kind, texture, instance).len() && (#[trigger] quad_instances(
                kind,
                texture,
                instance,
            )[i]).0.blend_mode == BlendMode::NoBlend ==> instance.quad_flags.is_opaque,
{
}

/// A quad covers itself with what is drawn: at once, or its middle and each smoothed edge on
/// its own, the edges first. Each part is the quad but for its number, reads the quad's
/// texture with the quad's pattern, and is blended unless the quad is opaque and
/// the part has no smoothed edge.
pub proof fn parts_cover_the_quad(
    kind: PatternKind,
    texture: TextureSource,
    instance: QuadInstance,
)
    ensures
        ({
            let r = quad_instances(kind, texture, instance);
            let e = instance.edge_flags;
            let smooth = e.left || e.top || e.right || e.bottom;
            let apart = smooth && instance.quad_flags.use_aa_segments;
            let last = r.last();
            &&& forall|i: int|
                0 <= i < r.len() ==> {
                    &&& (#[trigger] r[i]).1 == (QuadInstance {
                        part_index: r[i].1.part_index,
                        ..instance
                    })
                    &&& r[i].0.kind == kind
                    &&& r[i].0.texture == texture
                }
            &&& !apart ==> r.len() == 1 && last.1.part_index == 5
            &&& apart ==> last.1.part_index == 0
            &&& last.0.blend_mode is NoBlend <==> instance.quad_flags.is_opaque && (apart
                || !smooth)
            &&& forall|i: int|
                0 <= i < r.len() - 1 ==> apart && (#[trigger] r[i]).0.blend_mode
                    is PremultipliedAlpha
            &&& apart ==> has_part(r, 1) == e.left
            &&& apart ==> has_part(r, 2) == e.top
            &&& apart ==> has_part(r, 3) == e.right
            &&& apart ==> has_part(r, 4) == e.bottom
        }),
{
    let r = quad_instances(kind, texture, instance);
    let e = instance.edge_flags;
    let parts = quad_parts(e, instance.quad_flags);
    if instance.quad_flags.use_aa_segments && e != EdgeMask::spec_empty() {
        let l = edge_part(e.left, PART_LEFT);
        let t = edge_part(e.top, PART_TOP);
        let h = edge_part(e.right, PART_RIGHT);
        let b = edge_part(e.bottom, PART_BOTTOM);
        let a = l.len() as int;
        let c = a + t.len();
        let d = c + h.len();
        assert(e.left ==> r[0].1.part_index == 1 && parts[0] == (true, PART_LEFT));
        assert(e.top ==> r[a].1.part_index == 2 && parts[a] == (true, PART_TOP));
        assert(e.right ==> r[c].1.part_index == 3 && parts[c] == (true, PART_RIGHT));
        assert(e.bottom ==> r[d].1.part_index == 4 && parts[d] == (true, PART_BOTTOM));
    }
}

/// One of the instances draws a part.
pub open spec fn has_part(r: Seq<(BatchKey, QuadInstance)>, part: u8) -> bool {
    exists|i: int| 0 <= i < r.len() && (#[trigger] r[i]).1.part_index == part
}

} // verus!
