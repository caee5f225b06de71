//! What the shaders read of a task.

use crate::float_bits::{f32_bits, f32_bits_wide, spec_f32_bits, FloatBits, ONE_BITS};
use crate::internal_types::{ColorF, FloatPoint, RenderTaskId, SpatialNodeIndex};
use crate::render_task::{
    fresh_task, CacheMaskTask, ClipNodeRange, FloatRect, RenderTask, RenderTaskData, RenderTaskKind,
    RenderTaskLocation,
};
use crate::render_task_graph::{RenderTaskGraphBuilder, UvRectKind, MAX_TASKS};
use crate::renderer::gpu_buffer::{
    with_row_capacity, GpuBufferAddress, GpuBufferBlockF, GpuBufferBuilder, GpuBufferWriter,
    MAX_VERTEX_TEXTURE_WIDTH,
};
use crate::svg_filter::{ConvolveMatrix, FilterGraphOp};
use crate::units::{DeviceIntRect, DeviceIntSize};
use vstd::prelude::*;

verus! {

/// The four numbers that depend on the kind of the task: the scale from the
/// picture's space to device pixels and the origin of the content, or zeros.
pub open spec fn spec_kind_data(kind: RenderTaskKind) -> [u32; 4] {
    match kind {
        RenderTaskKind::Picture(task) => [
            task.device_pixel_scale.0,
            task.content_origin.x.0,
            task.content_origin.y.0,
            0,
        ],
        RenderTaskKind::Prim(task) => [
            ONE_BITS,
            task.content_origin.x.0,
            task.content_origin.y.0,
            0,
        ],
        RenderTaskKind::Empty(task) => [
            task.device_pixel_scale.0,
            task.content_origin.x.0,
            task.content_origin.y.0,
            0,
        ],
        RenderTaskKind::CacheMask(task) => [
            task.device_pixel_scale.0,
            task.actual_rect.min.x.0,
            task.actual_rect.min.y.0,
            0,
        ],
        RenderTaskKind::ClipRegion(task) => [task.device_pixel_scale.0, 0, 0, 0],
        _ => [0, 0, 0, 0],
    }
}

/// The bits of a whole coordinate.
pub open spec fn coord_bits(n: i32) -> u32 {
    spec_f32_bits(n as int) as u32
}

/// A rectangle of whole pixels as floating-point corners.
pub open spec fn float_rect(rect: DeviceIntRect) -> FloatRect {
    FloatRect {
        min: FloatPoint {
            x: FloatBits(coord_bits(rect.min.x)),
            y: FloatBits(coord_bits(rect.min.y)),
        },
        max: FloatPoint {
            x: FloatBits(coord_bits(rect.max.x)),
            y: FloatBits(coord_bits(rect.max.y)),
        },
    }
}

pub fn to_float_rect(rect: DeviceIntRect) -> (r: FloatRect)
    ensures
        r == float_rect(rect),
{
    FloatRect {
        min: FloatPoint {
            x: FloatBits(f32_bits(rect.min.x)),
            y: FloatBits(f32_bits(rect.min.y)),
        },
        max: FloatPoint {
            x: FloatBits(f32_bits(rect.max.x)),
            y: FloatBits(f32_bits(rect.max.y)),
        },
    }
}

/// The blocks that a convolution's shader reads: the target and the order of the
/// kernel, the unit lengths with the reciprocal divisor and the bias, and the
/// first 21 coefficients, the last of them beside the alpha rule.
pub open spec fn convolve_blocks(m: ConvolveMatrix) -> Seq<GpuBufferBlockF> {
    seq![
        GpuBufferBlockF {
            data: [
                spec_f32_bits(-m.target_x) as u32,
                spec_f32_bits(-m.target_y) as u32,
                spec_f32_bits(m.order_x as int) as u32,
                spec_f32_bits(m.order_y as int) as u32,
            ],
        },
        GpuBufferBlockF {
            data: [
                m.kernel_unit_length_x.0,
                m.kernel_unit_length_y.0,
                m.inverse_divisor.0,
                m.bias.0,
            ],
        },
        GpuBufferBlockF { data: [m.kernel[0].0, m.kernel[1].0, m.kernel[2].0, m.kernel[3].0] },
        GpuBufferBlockF { data: [m.kernel[4].0, m.kernel[5].0, m.kernel[6].0, m.kernel[7].0] },
        GpuBufferBlockF { data: [m.kernel[8].0, m.kernel[9].0, m.kernel[10].0, m.kernel[11].0] },
        GpuBufferBlockF { data: [m.kernel[12].0, m.kernel[13].0, m.kernel[14].0, m.kernel[15].0] },
        GpuBufferBlockF { data: [m.kernel[16].0, m.kernel[17].0, m.kernel[18].0, m.kernel[19].0] },
        GpuBufferBlockF {
            data: [m.kernel[20].0, 0, 0, spec_f32_bits(m.preserve_alpha as int) as u32],
        },
    ]
}

pub open spec fn color_block(color: ColorF) -> GpuBufferBlockF {
    GpuBufferBlockF { data: [color.r.0, color.g.0, color.b.0, color.a.0] }
}

/// The blocks that an operation's shader reads, where it reads any.
pub open spec fn op_blocks(op: FilterGraphOp) -> Option<Seq<GpuBufferBlockF>> {
    match op {
        FilterGraphOp::SVGFEColorMatrix { values } => Some(
            Seq::new(
                5,
                |i: int|
                    GpuBufferBlockF {
                        data: [
                            values[i * 4].0,
                            values[i * 4 + 1].0,
                            values[i * 4 + 2].0,
                            values[i * 4 + 3].0,
                        ],
                    },
            ),
        ),
        FilterGraphOp::SVGFECompositeArithmetic { k1, k2, k3, k4 } => Some(
            seq![GpuBufferBlockF { data: [k1.0, k2.0, k3.0, k4.0] }],
        ),
        FilterGraphOp::SVGFEConvolveMatrixEdgeModeDuplicate { matrix } => Some(
            convolve_blocks(matrix),
        ),
        FilterGraphOp::SVGFEConvolveMatrixEdgeModeNone { matrix } => Some(convolve_blocks(matrix)),
        FilterGraphOp::SVGFEConvolveMatrixEdgeModeWrap { matrix } => Some(convolve_blocks(matrix)),
        FilterGraphOp::SVGFEDisplacementMap { scale, x_channel_selector, y_channel_selector } =>
            Some(
            seq![
                GpuBufferBlockF {
                    data: [
                        spec_f32_bits(x_channel_selector as int) as u32,
                        spec_f32_bits(y_channel_selector as int) as u32,
                        scale.0,
                        0,
                    ],
                },
            ],
        ),
        FilterGraphOp::SVGFEDropShadow { color, .. } => Some(seq![color_block(color)]),
        FilterGraphOp::SVGFEFlood { color } => Some(seq![color_block(color)]),
        FilterGraphOp::SVGFEMorphologyDilate { radius_x, radius_y } => Some(
            seq![GpuBufferBlockF { data: [radius_x.0, radius_y.0, 0, 0] }],
        ),
        FilterGraphOp::SVGFEMorphologyErode { radius_x, radius_y } => Some(
            seq![GpuBufferBlockF { data: [radius_x.0, radius_y.0, 0, 0] }],
        ),
        _ => None,
    }
}

/// The target of a convolution can be negated.
pub open spec fn op_negatable(op: FilterGraphOp) -> bool {
    match op {
        FilterGraphOp::SVGFEConvolveMatrixEdgeModeDuplicate { matrix } => matrix_negatable(matrix),
        FilterGraphOp::SVGFEConvolveMatrixEdgeModeNone { matrix } => matrix_negatable(matrix),
        FilterGraphOp::SVGFEConvolveMatrixEdgeModeWrap { matrix } => matrix_negatable(matrix),
        _ => true,
    }
}

pub open spec fn matrix_negatable(m: ConvolveMatrix) -> bool {
    m.target_x > i32::MIN && m.target_y > i32::MIN
}

fn convolve_block_list(m: &ConvolveMatrix) -> (r: Vec<GpuBufferBlockF>)
    requires
        matrix_negatable(*m),
    ensures
        r@ == convolve_blocks(*m),
{
    let mut blocks: Vec<GpuBufferBlockF> = Vec::new();
    blocks.push(
        GpuBufferBlockF {
            data: [
                f32_bits(-m.target_x),
                f32_bits(-m.target_y),
                f32_bits(m.order_x),
                f32_bits(m.order_y),
            ],
        },
    );
    blocks.push(
        GpuBufferBlockF {
            data: [
                m.kernel_unit_length_x.0,
                m.kernel_unit_length_y.0,
                m.inverse_divisor.0,
                m.bias.0,
            ],
        },
    );
    blocks.push(
        GpuBufferBlockF { data: [m.kernel[0].0, m.kernel[1].0, m.kernel[2].0, m.kernel[3].0] },
    );
    blocks.push(
        GpuBufferBlockF { data: [m.kernel[4].0, m.kernel[5].0, m.kernel[6].0, m.kernel[7].0] },
    );
    blocks.push(
        GpuBufferBlockF { data: [m.kernel[8].0, m.kernel[9].0, m.kernel[10].0, m.kernel[11].0] },
    );
    blocks.push(
        GpuBufferBlockF { data: [m.kernel[12].0, m.kernel[13].0, m.kernel[14].0, m.kernel[15].0] },
    );
    blocks.push(
        GpuBufferBlockF { data: [m.kernel[16].0, m.kernel[17].0, m.kernel[18].0, m.kernel[19].0] },
    );
    blocks.push(
        GpuBufferBlockF { data: [m.kernel[20].0, 0, 0, f32_bits(m.preserve_alpha)] },
    );
    blocks
}

fn one_block(a: u32, b: u32, c: u32, d: u32) -> (r: Vec<GpuBufferBlockF>)
    ensures
        r@ == seq![GpuBufferBlockF { data: [a, b, c, d] }],
{
    let mut blocks: Vec<GpuBufferBlockF> = Vec::new();
    blocks.push(GpuBufferBlockF { data: [a, b, c, d] });
    blocks
}

fn op_block_list(op: &FilterGraphOp) -> (r: Option<Vec<GpuBufferBlockF>>)
    requires
        op_negatable(*op),
    ensures
        match r {
            Some(blocks) => op_blocks(*op) == Some(blocks@) && 1 <= blocks@.len() <= 8,
            None => op_blocks(*op) is None,
        },
{
    match op {
        FilterGraphOp::SVGFEColorMatrix { values } => {
            let mut blocks: Vec<GpuBufferBlockF> = Vec::new();
            let mut i: usize = 0;
            while i < 5
                invariant
                    i <= 5,
                    blocks@.len() == i,
                    forall|k: int|
                        0 <= k < i ==> #[trigger] blocks@[k] == (GpuBufferBlockF {
                            data: [
                                values[k * 4].0,
                                values[k * 4 + 1].0,
                                values[k * 4 + 2].0,
                                values[k * 4 + 3].0,
                            ],
                        }),
                decreases 5 - i,
            {
                blocks.push(
                    GpuBufferBlockF {
                        data: [
                            values[i * 4].0,
                            values[i * 4 + 1].0,
                            values[i * 4 + 2].0,
                            values[i * 4 + 3].0,
                        ],
                    },
                );
                i = i + 1;
            }
            assert(op_blocks(*op)->0 =~= blocks@);
            Some(blocks)
        },
        FilterGraphOp::SVGFECompositeArithmetic { k1, k2, k3, k4 } => Some(
            one_block(k1.0, k2.0, k3.0, k4.0),
        ),
        FilterGraphOp::SVGFEConvolveMatrixEdgeModeDuplicate { matrix } => Some(
            convolve_block_list(matrix),
        ),
        FilterGraphOp::SVGFEConvolveMatrixEdgeModeNone { matrix } => Some(
            convolve_block_list(matrix),
        ),
        FilterGraphOp::SVGFEConvolveMatrixEdgeModeWrap { matrix } => Some(
            convolve_block_list(matrix),
        ),
        FilterGraphOp::SVGFEDisplacementMap { scale, x_channel_selector, y_channel_selector } =>
            Some(
            one_block(
                f32_bits_wide(*x_channel_selector as i64),
                f32_bits_wide(*y_channel_selector as i64),
                scale.0,
                0,
            ),
        ),
        FilterGraphOp::SVGFEDropShadow { color, .. } => Some(
            one_block(color.r.0, color.g.0, color.b.0, color.a.0),
        ),
        FilterGraphOp::SVGFEFlood { color } => Some(
            one_block(color.r.0, color.g.0, color.b.0, color.a.0),
        ),
        FilterGraphOp::SVGFEMorphologyDilate { radius_x, radius_y } => Some(
            one_block(radius_x.0, radius_y.0, 0, 0),
        ),
        FilterGraphOp::SVGFEMorphologyErode { radius_x, radius_y } => Some(
            one_block(radius_x.0, radius_y.0, 0, 0),
        ),
        _ => None,
    }
}

fn push_all<'l>(writer: &mut GpuBufferWriter<'l, GpuBufferBlockF>, blocks: &Vec<GpuBufferBlockF>)
    requires
        old(writer).wf(),
        old(writer).blocks().len() + blocks@.len() <= old(writer).start() + old(writer).limit(),
    ensures
        final(writer).wf(),
        final(writer).same_group(*old(writer)),
        *final(final(writer).buffer) == *final(old(writer).buffer),
        *final(final(writer).deferred) == *final(old(writer).deferred),
        final(writer).blocks() == old(writer).blocks() + blocks@,
        final(writer).patches() == old(writer).patches(),
{
    let ghost before = writer.blocks();
    let mut i: usize = 0;
    while i < blocks.len()
        invariant
            i <= blocks@.len(),
            writer.wf(),
            writer.same_group(*old(writer)),
            *final(writer.buffer) == *final(old(writer).buffer),
            *final(writer.deferred) == *final(old(writer).deferred),
            before == old(writer).blocks(),
            before.len() + blocks@.len() <= writer.start() + writer.limit(),
            writer.blocks() == before + blocks@.take(i as int),
            writer.patches() == old(writer).patches(),
        decreases blocks@.len() - i,
    {
        writer.push_one(blocks[i]);
        i = i + 1;
    }
    assert(blocks@.take(i as int) =~= blocks@);
}

/// What a task is once its blocks are written at `address`.
pub open spec fn with_extra_data(kind: RenderTaskKind, address: GpuBufferAddress) -> RenderTaskKind {
    match kind {
        RenderTaskKind::SVGFENode(task) => RenderTaskKind::SVGFENode(
            crate::render_task::SVGFEFilterTask { extra_gpu_data: Some(address), ..task },
        ),
        _ => kind,
    }
}

/// The blocks of a task: those of a filter's operation.
pub open spec fn task_blocks(kind: RenderTaskKind) -> Option<Seq<GpuBufferBlockF>> {
    match kind {
        RenderTaskKind::SVGFENode(task) => op_blocks(task.op),
        _ => None,
    }
}

impl RenderTaskKind {
    /// A task that draws the clips of a range into a mask.
    pub fn new_mask(
        outer_rect: DeviceIntRect,
        clip_node_range: ClipNodeRange,
        root_spatial_node_index: SpatialNodeIndex,
        rg_builder: &mut RenderTaskGraphBuilder,
        device_pixel_scale: FloatBits,
        gpu_supports_fast_clears: bool,
    ) -> (r: RenderTaskId)
        requires
            outer_rect.sized(),
            !outer_rect.spec_is_empty(),
            outer_rect.spec_width() <= crate::internal_types::MAX_RENDER_TASK_SIZE,
            outer_rect.spec_height() <= crate::internal_types::MAX_RENDER_TASK_SIZE,
            old(rg_builder)@.len() < MAX_TASKS,
        ensures
            r.index == old(rg_builder)@.len(),
            final(rg_builder)@ == old(rg_builder)@.push(
                fresh_task(
                    RenderTaskLocation::Unallocated {
                        size: DeviceIntSize {
                            width: outer_rect.spec_width() as i32,
                            height: outer_rect.spec_height() as i32,
                        },
                    },
                    RenderTaskKind::CacheMask(
                        CacheMaskTask {
                            actual_rect: float_rect(outer_rect),
                            clip_node_range,
                            root_spatial_node_index,
                            device_pixel_scale,
                            clear_to_one: gpu_supports_fast_clears,
                        },
                    )@,
                    UvRectKind::Rect,
                ),
            ),
            final(rg_builder).sub_tasks == old(rg_builder).sub_tasks,
    {
        let size = outer_rect.size();
        let kind = RenderTaskKind::CacheMask(
            CacheMaskTask {
                actual_rect: to_float_rect(outer_rect),
                clip_node_range,
                root_spatial_node_index,
                device_pixel_scale,
                clear_to_one: gpu_supports_fast_clears,
            },
        );
        rg_builder.add_task(RenderTask::new_dynamic(size, kind))
    }

    /// The eight numbers that the shaders read of a task: its target rectangle,
    /// and four that depend on its kind.
    pub fn write_task_data(&self, target_rect: DeviceIntRect) -> (r: RenderTaskData)
        ensures
            r.data@ == seq![
                coord_bits(target_rect.min.x),
                coord_bits(target_rect.min.y),
                coord_bits(target_rect.max.x),
                coord_bits(target_rect.max.y),
            ] + spec_kind_data(*self)@,
    {
        let data: [u32; 4] = match self {
            RenderTaskKind::Picture(task) => [
                task.device_pixel_scale.0,
                task.content_origin.x.0,
                task.content_origin.y.0,
                0,
            ],
            RenderTaskKind::Prim(task) => [
                ONE_BITS,
                task.content_origin.x.0,
                task.content_origin.y.0,
                0,
            ],
            RenderTaskKind::Empty(task) => [
                task.device_pixel_scale.0,
                task.content_origin.x.0,
                task.content_origin.y.0,
                0,
            ],
            RenderTaskKind::CacheMask(task) => [
                task.device_pixel_scale.0,
                task.actual_rect.min.x.0,
                task.actual_rect.min.y.0,
                0,
            ],
            RenderTaskKind::ClipRegion(task) => [task.device_pixel_scale.0, 0, 0, 0],
            _ => [0, 0, 0, 0],
        };
        assert(data@ =~= spec_kind_data(*self)@);
        RenderTaskData {
            data: [
                f32_bits(target_rect.min.x),
                f32_bits(target_rect.min.y),
                f32_bits(target_rect.max.x),
                f32_bits(target_rect.max.y),
                data[0],
                data[1],
                data[2],
                data[3],
            ],
        }
    }

    /// Writes the blocks of a filter's operation, where it has any, and notes
    /// their address in the task.
    pub fn write_gpu_blocks(&mut self, gpu_buffer: &mut GpuBufferBuilder)
        requires
            old(gpu_buffer).floats.wf(),
            old(gpu_buffer).floats.blocks().len() + 2 * MAX_VERTEX_TEXTURE_WIDTH <= usize::MAX,
            *old(self) matches RenderTaskKind::SVGFENode(task) ==> op_negatable(task.op) && !(
            task.op is SVGFEComponentTransfer),
        ensures
            final(gpu_buffer).integers == old(gpu_buffer).integers,
            match task_blocks(*old(self)) {
                Some(blocks) => {
                    let start = with_row_capacity(
                        old(gpu_buffer).floats.blocks(),
                        blocks.len() as int,
                    );
                    &&& final(gpu_buffer).floats.wf()
                    &&& final(gpu_buffer).floats.blocks() == start + blocks
                    &&& final(gpu_buffer).floats.patches() == old(gpu_buffer).floats.patches()
                    &&& final(gpu_buffer).floats.epoch_bits() == old(
                        gpu_buffer,
                    ).floats.epoch_bits()
                    &&& *final(self) == with_extra_data(
                        *old(self),
                        GpuBufferAddress(start.len() as usize as u32),
                    )
                },
                None => *final(gpu_buffer) == *old(gpu_buffer) && *final(self) == *old(self),
            },
    {
        match self {
            RenderTaskKind::SVGFENode(task) => {
                match op_block_list(&task.op) {
                    Some(blocks) => {
                        let mut writer = gpu_buffer.floats.write_blocks(blocks.len());
                        push_all(&mut writer, &blocks);
                        let address = writer.finish();
                        task.extra_gpu_data = Some(address);
                    },
                    None => {},
                }
            },
            _ => {},
        }
    }
}

/// The `k`-th number of a group of blocks.
pub open spec fn number_at(blocks: Seq<GpuBufferBlockF>, k: int) -> u32 {
    blocks[k / 4].data[k % 4]
}

/// A kernel is read back from the numbers of a convolution: first where its target lies, both
/// times negated, then its order, its unit lengths, the reciprocal of its divisor, its bias,
/// and the coefficients one after the other. The rule for alpha is the last number.
pub open spec fn holds_kernel(blocks: Seq<GpuBufferBlockF>, m: ConvolveMatrix) -> bool {
    &&& blocks.len() == 8
    &&& number_at(blocks, 0) == coord_bits((0 - m.target_x) as i32)
    &&& number_at(blocks, 1) == coord_bits((0 - m.target_y) as i32)
    &&& number_at(blocks, 2) == coord_bits(m.order_x)
    &&& number_at(blocks, 3) == coord_bits(m.order_y)
    &&& number_at(blocks, 4) == m.kernel_unit_length_x.0
    &&& number_at(blocks, 5) == m.kernel_unit_length_y.0
    &&& number_at(blocks, 6) == m.inverse_divisor.0
    &&& number_at(blocks, 7) == m.bias.0
    &&& forall|k: int| 0 <= k < 21 ==> #[trigger] number_at(blocks, 8 + k) == m.kernel[k].0
    &&& number_at(blocks, 31) == coord_bits(m.preserve_alpha)
}

/// What the shader of a filter reads are the parameters of its operation, in their order.
/// Operations without such parameters have no blocks.
pub proof fn filter_parameters_are_read_back(op: FilterGraphOp)
    requires
        op_negatable(op),
    ensures
        ({
            let blocks = op_blocks(op)->0;
            match op {
                FilterGraphOp::SVGFEColorMatrix { values } => {
                    &&& op_blocks(op) is Some
                    &&& blocks.len() == 5
                    &&& forall|k: int|
                        0 <= k < 20 ==> #[trigger] number_at(blocks, k) == values[k].0
                },
                FilterGraphOp::SVGFECompositeArithmetic { k1, k2, k3, k4 } => {
                    &&& op_blocks(op) is Some
                    &&& blocks.len() == 1
                    &&& number_at(blocks, 0) == k1.0
                    &&& number_at(blocks, 1) == k2.0
                    &&& number_at(blocks, 2) == k3.0
                    &&& number_at(blocks, 3) == k4.0
                },
                FilterGraphOp::SVGFEConvolveMatrixEdgeModeDuplicate { matrix }
                | FilterGraphOp::SVGFEConvolveMatrixEdgeModeNone { matrix }
                | FilterGraphOp::SVGFEConvolveMatrixEdgeModeWrap { matrix } => op_blocks(op)
                    is Some && holds_kernel(blocks, matrix),
                FilterGraphOp::SVGFEDisplacementMap {
                    scale,
                    x_channel_selector,
                    y_channel_selector,
                } => {
                    &&& op_blocks(op) is Some
                    &&& blocks.len() == 1
                    &&& number_at(blocks, 0) == spec_f32_bits(x_channel_selector as int) as u32
                    &&& number_at(blocks, 1) == spec_f32_bits(y_channel_selector as int) as u32
                    &&& number_at(blocks, 2) == scale.0
                },
                FilterGraphOp::SVGFEDropShadow { color, .. }
                | FilterGraphOp::SVGFEFlood { color } => {
                    &&& op_blocks(op) is Some
                    &&& blocks.len() == 1
                    &&& number_at(blocks, 0) == color.r.0
                    &&& number_at(blocks, 1) == color.g.0
                    &&& number_at(blocks, 2) == color.b.0
                    &&& number_at(blocks, 3) == color.a.0
                },
                FilterGraphOp::SVGFEMorphologyDilate { radius_x, radius_y }
                | FilterGraphOp::SVGFEMorphologyErode { radius_x, radius_y } => {
                    &&& op_blocks(op) is Some
                    &&& blocks.len() == 1
                    &&& number_at(blocks, 0) == radius_x.0
                    &&& number_at(blocks, 1) == radius_y.0
                },
                _ => op_blocks(op) is None,
            }
        }),
{
    let blocks = op_blocks(op)->0;
    match op {
        FilterGraphOp::SVGFEColorMatrix { values } => {
            assert forall|k: int| 0 <= k < 20 implies #[trigger] number_at(blocks, k)
                == values[k].0 by {
                assert(k == k / 4 * 4 + k % 4);
            }
        },
        FilterGraphOp::SVGFEConvolveMatrixEdgeModeDuplicate { matrix }
        | FilterGraphOp::SVGFEConvolveMatrixEdgeModeNone { matrix }
        | FilterGraphOp::SVGFEConvolveMatrixEdgeModeWrap { matrix } => {
            assert forall|k: int| 0 <= k < 21 implies #[trigger] number_at(blocks, 8 + k)
                == matrix.kernel[k].0 by {
                assert((8 + k) / 4 == 2 + k / 4);
                assert((8 + k) % 4 == k % 4);
                assert(k == k / 4 * 4 + k % 4);
            }
        },
        _ => {},
    }
}

/// Tasks that hold content tell the shaders its scale and its origin. A single primitive is
/// in device pixels already, so that its scale is one, and a mask starts at the corner of
/// what it covers.
pub proof fn tasks_tell_their_origin(kind: RenderTaskKind)
    ensures
        ({
            let d = spec_kind_data(kind);
            &&& d[3] == 0
            &&& kind matches RenderTaskKind::Picture(task) ==> d[0] == task.device_pixel_scale.0
                && d[1] == task.content_origin.x.0 && d[2] == task.content_origin.y.0
            &&& kind matches RenderTaskKind::Prim(task) ==> d[0] == 0x3F80_0000 && d[1]
                == task.content_origin.x.0 && d[2] == task.content_origin.y.0
            &&& kind matches RenderTaskKind::Empty(task) ==> d[0] == task.device_pixel_scale.0
                && d[1] == task.content_origin.x.0 && d[2] == task.content_origin.y.0
            &&& kind matches RenderTaskKind::CacheMask(task) ==> d[0] == task.device_pixel_scale.0
                && d[1] == task.actual_rect.min.x.0 && d[2] == task.actual_rect.min.y.0
            &&& kind matches RenderTaskKind::ClipRegion(task) ==> d[0]
                == task.device_pixel_scale.0 && d[1] == 0 && d[2] == 0
            &&& !(kind is Picture || kind is Prim || kind is Empty || kind is CacheMask || kind
                is ClipRegion) ==> d[0] == 0 && d[1] == 0 && d[2] == 0
        }),
{
}

} // verus!
