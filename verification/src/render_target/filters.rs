//! The instances that draw the nodes of a filter graph.

use crate::float_bits::FloatBits;
use crate::internal_types::{RenderTaskId, TextureSource};
use crate::render_task::gpu_data::{float_rect, to_float_rect};
use crate::render_task::{
    spec_signed, DeviceIntSideOffsets, FloatRect, RenderTask, RenderTaskAddress, SVGFEFilterTask,
};
use crate::render_task_graph::RenderTaskGraph;
use crate::renderer::gpu_buffer::GpuBufferAddress;
use crate::svg_filter::FilterGraphOp;
use crate::task_dependencies::dependency_ids;
use crate::units::{DeviceIntPoint, DeviceIntRect};
use vstd::prelude::*;

verus! {

/// The textures that the instances of a batch read.
#[derive(Clone, Copy, Debug, PartialEq, Eq, Structural)]
pub struct BatchTextures {
    pub color0: TextureSource,
    pub color1: TextureSource,
    pub color2: TextureSource,
    pub clip_mask: TextureSource,
}

/// Two textures can share a slot.
pub open spec fn can_share(a: TextureSource, b: TextureSource) -> bool {
    a == TextureSource::Invalid || b == TextureSource::Invalid || a == b
}

/// What a slot is bound to that two textures share.
pub open spec fn shared(a: TextureSource, b: TextureSource) -> TextureSource {
    if b == TextureSource::Invalid {
        a
    } else {
        b
    }
}

fn sharing(a: TextureSource, b: TextureSource) -> (r: Option<TextureSource>)
    ensures
        r == (if can_share(a, b) {
            Some(shared(a, b))
        } else {
            None
        }),
{
    if b == TextureSource::Invalid {
        Some(a)
    } else if a == TextureSource::Invalid || a == b {
        Some(b)
    } else {
        None
    }
}

impl BatchTextures {
    pub open spec fn spec_empty() -> Self {
        BatchTextures {
            color0: TextureSource::Invalid,
            color1: TextureSource::Invalid,
            color2: TextureSource::Invalid,
            clip_mask: TextureSource::Invalid,
        }
    }

    /// Nothing is read.
    #[verifier::when_used_as_spec(spec_empty)]
    pub fn empty() -> (r: Self)
        ensures
            r == Self::spec_empty(),
    {
        BatchTextures {
            color0: TextureSource::Invalid,
            color1: TextureSource::Invalid,
            color2: TextureSource::Invalid,
            clip_mask: TextureSource::Invalid,
        }
    }

    pub open spec fn compatible(self, other: Self) -> bool {
        &&& can_share(self.color0, other.color0)
        &&& can_share(self.color1, other.color1)
        &&& can_share(self.color2, other.color2)
        &&& can_share(self.clip_mask, other.clip_mask)
    }

    pub open spec fn combined(self, other: Self) -> Self {
        BatchTextures {
            color0: shared(self.color0, other.color0),
            color1: shared(self.color1, other.color1),
            color2: shared(self.color2, other.color2),
            clip_mask: shared(self.clip_mask, other.clip_mask),
        }
    }

    /// The textures with which both can be drawn, where there are such.
    pub fn combine_textures(&self, other: BatchTextures) -> (r: Option<BatchTextures>)
        ensures
            r == (if self.compatible(other) {
                Some(self.combined(other))
            } else {
                None
            }),
    {
        match (
            sharing(self.color0, other.color0),
            sharing(self.color1, other.color1),
            sharing(self.color2, other.color2),
            sharing(self.clip_mask, other.clip_mask),
        ) {
            (Some(color0), Some(color1), Some(color2), Some(clip_mask)) => Some(
                BatchTextures { color0, color1, color2, clip_mask },
            ),
            _ => None,
        }
    }
}

/// A slot that is read is bound to what it is to be read from.
pub open spec fn binds(bound: TextureSource, wanted: TextureSource) -> bool {
    wanted != TextureSource::Invalid ==> bound == wanted
}

/// The textures serve a draw call that wants the others.
pub open spec fn serves(bound: BatchTextures, wanted: BatchTextures) -> bool {
    &&& binds(bound.color0, wanted.color0)
    &&& binds(bound.color1, wanted.color1)
    &&& binds(bound.color2, wanted.color2)
    &&& binds(bound.clip_mask, wanted.clip_mask)
}

/// Combined textures serve both, and everything that either of them served.
pub proof fn combined_textures_serve_both(a: BatchTextures, b: BatchTextures, wanted: BatchTextures)
    requires
        a.compatible(b),
    ensures
        serves(a.combined(b), a),
        serves(a.combined(b), b),
        serves(a, wanted) || serves(b, wanted) ==> serves(a.combined(b), wanted),
{
}

/// The factors and offsets from the pixels of a node to those of an input, or other
/// four numbers that a node's shader reads in their place.
#[derive(Clone, Copy, Debug, PartialEq, Eq, Structural)]
pub struct ScaleAndOffset {
    pub scale_x: FloatBits,
    pub scale_y: FloatBits,
    pub offset_x: FloatBits,
    pub offset_y: FloatBits,
}

impl ScaleAndOffset {
    pub open spec fn spec_zero() -> Self {
        ScaleAndOffset {
            scale_x: FloatBits(0),
            scale_y: FloatBits(0),
            offset_x: FloatBits(0),
            offset_y: FloatBits(0),
        }
    }

    #[verifier::when_used_as_spec(spec_zero)]
    pub fn zero() -> (r: Self)
        ensures
            r == Self::spec_zero(),
    {
        ScaleAndOffset {
            scale_x: FloatBits(0),
            scale_y: FloatBits(0),
            offset_x: FloatBits(0),
            offset_y: FloatBits(0),
        }
    }
}

/// One node of a filter graph, as its shader reads it.
#[derive(Clone, Copy, Debug, PartialEq, Eq, Structural)]
pub struct SVGFEFilterInstance {
    pub target_rect: FloatRect,
    pub input_1_content_scale_and_offset: ScaleAndOffset,
    pub input_2_content_scale_and_offset: ScaleAndOffset,
    pub input_1_task_address: RenderTaskAddress,
    pub input_2_task_address: RenderTaskAddress,
    pub kind: u16,
    pub input_count: u16,
    pub extra_data_address: i32,
}

/// The number of an operation's shader mode, and whether the mode for linear colors is
/// the next one. An operation that does not change colors has no mode of its own for
/// linear colors.
pub open spec fn op_mode(op: FilterGraphOp) -> (u16, bool) {
    match op {
        FilterGraphOp::SVGFEIdentity => (0, false),
        FilterGraphOp::SVGFESourceGraphic => (0, false),
        FilterGraphOp::SVGFESourceAlpha => (4, false),
        FilterGraphOp::SVGFEOpacity { .. } => (2, false),
        FilterGraphOp::SVGFEToAlpha => (4, false),
        FilterGraphOp::SVGFEBlendColor => (6, true),
        FilterGraphOp::SVGFEBlendColorBurn => (8, true),
        FilterGraphOp::SVGFEBlendColorDodge => (10, true),
        FilterGraphOp::SVGFEBlendDarken => (12, true),
        FilterGraphOp::SVGFEBlendDifference => (14, true),
        FilterGraphOp::SVGFEBlendExclusion => (16, true),
        FilterGraphOp::SVGFEBlendHardLight => (18, true),
        FilterGraphOp::SVGFEBlendHue => (20, true),
        FilterGraphOp::SVGFEBlendLighten => (22, true),
        FilterGraphOp::SVGFEBlendLuminosity => (24, true),
        FilterGraphOp::SVGFEBlendMultiply => (26, true),
        FilterGraphOp::SVGFEBlendNormal => (28, true),
        FilterGraphOp::SVGFEBlendOverlay => (30, true),
        FilterGraphOp::SVGFEBlendSaturation => (32, true),
        FilterGraphOp::SVGFEBlendScreen => (34, true),
        FilterGraphOp::SVGFEBlendSoftLight => (36, true),
        FilterGraphOp::SVGFEColorMatrix { .. } => (38, true),
        FilterGraphOp::SVGFEComponentTransferInterned { .. } => (40, true),
        FilterGraphOp::SVGFECompositeArithmetic { .. } => (42, true),
        FilterGraphOp::SVGFECompositeATop => (44, true),
        FilterGraphOp::SVGFECompositeIn => (46, true),
        FilterGraphOp::SVGFECompositeLighter => (48, true),
        FilterGraphOp::SVGFECompositeOut => (50, true),
        FilterGraphOp::SVGFECompositeOver => (52, true),
        FilterGraphOp::SVGFECompositeXOR => (54, true),
        FilterGraphOp::SVGFEConvolveMatrixEdgeModeDuplicate { .. } => (56, true),
        FilterGraphOp::SVGFEConvolveMatrixEdgeModeNone { .. } => (58, true),
        FilterGraphOp::SVGFEConvolveMatrixEdgeModeWrap { .. } => (60, true),
        FilterGraphOp::SVGFEDiffuseLightingDistant { .. } => (62, true),
        FilterGraphOp::SVGFEDiffuseLightingPoint { .. } => (64, true),
        FilterGraphOp::SVGFEDiffuseLightingSpot { .. } => (66, true),
        FilterGraphOp::SVGFEDisplacementMap { .. } => (68, true),
        FilterGraphOp::SVGFEDropShadow { .. } => (70, true),
        FilterGraphOp::SVGFEFlood { .. } => (72, false),
        FilterGraphOp::SVGFEGaussianBlur { .. } => (74, true),
        FilterGraphOp::SVGFEImage { .. } => (76, false),
        FilterGraphOp::SVGFEMorphologyDilate { .. } => (80, true),
        FilterGraphOp::SVGFEMorphologyErode { .. } => (82, true),
        FilterGraphOp::SVGFESpecularLightingDistant { .. } => (86, true),
        FilterGraphOp::SVGFESpecularLightingPoint { .. } => (88, true),
        FilterGraphOp::SVGFESpecularLightingSpot { .. } => (90, true),
        FilterGraphOp::SVGFETile => (92, false),
        FilterGraphOp::SVGFETurbulenceWithFractalNoiseWithNoStitching { .. } => (94, true),
        FilterGraphOp::SVGFETurbulenceWithFractalNoiseWithStitching { .. } => (96, true),
        FilterGraphOp::SVGFETurbulenceWithTurbulenceNoiseWithNoStitching { .. } => (98, true),
        FilterGraphOp::SVGFETurbulenceWithTurbulenceNoiseWithStitching { .. } => (100, true),
        FilterGraphOp::SVGFEComponentTransfer => (0, false),
    }
}

pub open spec fn spec_filter_kind(op: FilterGraphOp, linear: bool) -> u16 {
    let (number, has_linear) = op_mode(op);
    if linear && has_linear {
        (number + 1) as u16
    } else {
        number
    }
}

/// The shader mode of an operation.
pub fn filter_kind(op: &FilterGraphOp, linear: bool) -> (r: u16)
    requires
        !(op is SVGFEComponentTransfer),
    ensures
        r == spec_filter_kind(*op, linear),
{
    let (number, has_linear): (u16, bool) = match op {
        FilterGraphOp::SVGFEIdentity => (0, false),
        FilterGraphOp::SVGFESourceGraphic => (0, false),
        FilterGraphOp::SVGFESourceAlpha => (4, false),
        FilterGraphOp::SVGFEOpacity { .. } => (2, false),
        FilterGraphOp::SVGFEToAlpha => (4, false),
        FilterGraphOp::SVGFEBlendColor => (6, true),
        FilterGraphOp::SVGFEBlendColorBurn => (8, true),
        FilterGraphOp::SVGFEBlendColorDodge => (10, true),
        FilterGraphOp::SVGFEBlendDarken => (12, true),
        FilterGraphOp::SVGFEBlendDifference => (14, true),
        FilterGraphOp::SVGFEBlendExclusion => (16, true),
        FilterGraphOp::SVGFEBlendHardLight => (18, true),
        FilterGraphOp::SVGFEBlendHue => (20, true),
        FilterGraphOp::SVGFEBlendLighten => (22, true),
        FilterGraphOp::SVGFEBlendLuminosity => (24, true),
        FilterGraphOp::SVGFEBlendMultiply => (26, true),
        FilterGraphOp::SVGFEBlendNormal => (28, true),
        FilterGraphOp::SVGFEBlendOverlay => (30, true),
        FilterGraphOp::SVGFEBlendSaturation => (32, true),
        FilterGraphOp::SVGFEBlendScreen => (34, true),
        FilterGraphOp::SVGFEBlendSoftLight => (36, true),
        FilterGraphOp::SVGFEColorMatrix { .. } => (38, true),
        FilterGraphOp::SVGFEComponentTransferInterned { .. } => (40, true),
        FilterGraphOp::SVGFECompositeArithmetic { .. } => (42, true),
        FilterGraphOp::SVGFECompositeATop => (44, true),
        FilterGraphOp::SVGFECompositeIn => (46, true),
        FilterGraphOp::SVGFECompositeLighter => (48, true),
        FilterGraphOp::SVGFECompositeOut => (50, true),
        FilterGraphOp::SVGFECompositeOver => (52, true),
        FilterGraphOp::SVGFECompositeXOR => (54, true),
        FilterGraphOp::SVGFEConvolveMatrixEdgeModeDuplicate { .. } => (56, true),
        FilterGraphOp::SVGFEConvolveMatrixEdgeModeNone { .. } => (58, true),
        FilterGraphOp::SVGFEConvolveMatrixEdgeModeWrap { .. } => (60, true),
        FilterGraphOp::SVGFEDiffuseLightingDistant { .. } => (62, true),
        FilterGraphOp::SVGFEDiffuseLightingPoint { .. } => (64, true),
        FilterGraphOp::SVGFEDiffuseLightingSpot { .. } => (66, true),
        FilterGraphOp::SVGFEDisplacementMap { .. } => (68, true),
        FilterGraphOp::SVGFEDropShadow { .. } => (70, true),
        FilterGraphOp::SVGFEFlood { .. } => (72, false),
        FilterGraphOp::SVGFEGaussianBlur { .. } => (74, true),
        FilterGraphOp::SVGFEImage { .. } => (76, false),
        FilterGraphOp::SVGFEMorphologyDilate { .. } => (80, true),
        FilterGraphOp::SVGFEMorphologyErode { .. } => (82, true),
        FilterGraphOp::SVGFESpecularLightingDistant { .. } => (86, true),
        FilterGraphOp::SVGFESpecularLightingPoint { .. } => (88, true),
        FilterGraphOp::SVGFESpecularLightingSpot { .. } => (90, true),
        FilterGraphOp::SVGFETile => (92, false),
        FilterGraphOp::SVGFETurbulenceWithFractalNoiseWithNoStitching { .. } => (94, true),
        FilterGraphOp::SVGFETurbulenceWithFractalNoiseWithStitching { .. } => (96, true),
        FilterGraphOp::SVGFETurbulenceWithTurbulenceNoiseWithNoStitching { .. } => (98, true),
        FilterGraphOp::SVGFETurbulenceWithTurbulenceNoiseWithStitching { .. } => (100, true),
        FilterGraphOp::SVGFEComponentTransfer => (0, false),
    };
    if linear && has_linear {
        number + 1
    } else {
        number
    }
}

/// Operations whose modes are the same are the same operation, up to parameters; the
/// source graphic is drawn as the identity, and the source's alpha as any alpha.
pub proof fn filter_kinds_tell_operations_apart(a: FilterGraphOp, b: FilterGraphOp, l: bool, m: bool)
    requires
        !(a is SVGFEComponentTransfer),
        !(b is SVGFEComponentTransfer),
        spec_filter_kind(a, l) == spec_filter_kind(b, m),
    ensures
        op_mode(a) == op_mode(b),
        op_mode(a).1 ==> l == m,
{
}

/// The rectangle without what lies between it and its sides.
pub open spec fn spec_inner_box(rect: DeviceIntRect, o: DeviceIntSideOffsets) -> DeviceIntRect {
    DeviceIntRect {
        min: DeviceIntPoint {
            x: (rect.min.x + o.left) as i32,
            y: (rect.min.y + o.top) as i32,
        },
        max: DeviceIntPoint {
            x: (rect.max.x - o.right) as i32,
            y: (rect.max.y - o.bottom) as i32,
        },
    }
}

pub open spec fn inner_box_fits(rect: DeviceIntRect, o: DeviceIntSideOffsets) -> bool {
    &&& i32::MIN <= rect.min.x + o.left <= i32::MAX
    &&& i32::MIN <= rect.min.y + o.top <= i32::MAX
    &&& i32::MIN <= rect.max.x - o.right <= i32::MAX
    &&& i32::MIN <= rect.max.y - o.bottom <= i32::MAX
}

pub fn inner_box(rect: DeviceIntRect, o: DeviceIntSideOffsets) -> (r: DeviceIntRect)
    requires
        inner_box_fits(rect, o),
    ensures
        r == spec_inner_box(rect, o),
{
    DeviceIntRect {
        min: DeviceIntPoint { x: rect.min.x + o.left, y: rect.min.y + o.top },
        max: DeviceIntPoint { x: rect.max.x - o.right, y: rect.max.y - o.bottom },
    }
}

/// The same border on all sides.
pub open spec fn even_offsets(n: i16) -> DeviceIntSideOffsets {
    DeviceIntSideOffsets { top: n as i32, right: n as i32, bottom: n as i32, left: n as i32 }
}

/// The task that an input reads; no task where the node has fewer inputs.
pub open spec fn input_task(node_inputs: int, children: Seq<u32>, index: int) -> RenderTaskId {
    if index < node_inputs {
        RenderTaskId { index: children[index] }
    } else {
        RenderTaskId::spec_invalid()
    }
}

pub open spec fn input_texture(graph: RenderTaskGraph, id: RenderTaskId, used: bool) -> TextureSource {
    if used {
        graph.tasks@[id.index as int].spec_texture_source()->0
    } else {
        TextureSource::Invalid
    }
}

/// What the shader reads for the second input. Operations with one input or none have
/// their parameters there.
pub open spec fn second_content(op: FilterGraphOp, resolved: ScaleAndOffset) -> ScaleAndOffset {
    match op {
        FilterGraphOp::SVGFEOpacity { value } => ScaleAndOffset {
            scale_x: value,
            ..ScaleAndOffset::spec_zero()
        },
        FilterGraphOp::SVGFEMorphologyDilate { radius_x, radius_y } => ScaleAndOffset {
            scale_x: radius_x,
            scale_y: radius_y,
            ..ScaleAndOffset::spec_zero()
        },
        FilterGraphOp::SVGFEMorphologyErode { radius_x, radius_y } => ScaleAndOffset {
            scale_x: radius_x,
            scale_y: radius_y,
            ..ScaleAndOffset::spec_zero()
        },
        FilterGraphOp::SVGFEFlood { color } => ScaleAndOffset {
            scale_x: color.r,
            scale_y: color.g,
            offset_x: color.b,
            offset_y: color.a,
        },
        _ => resolved,
    }
}

/// Where the pixels of a node lie in those of its inputs, for as many inputs as the
/// node has.
#[derive(Clone, Copy, Debug, PartialEq, Eq, Structural)]
pub struct FilterInputContents {
    pub first: ScaleAndOffset,
    pub second: ScaleAndOffset,
}

pub open spec fn filter_instance(
    info: SVGFEFilterTask,
    target: RenderTask,
    contents: FilterInputContents,
) -> SVGFEFilterInstance {
    let inputs = info.node.inputs@.len() as int;
    let children = dependency_ids(target.children);
    let resolved_2 = if inputs > 1 {
        contents.second
    } else {
        ScaleAndOffset::spec_zero()
    };
    SVGFEFilterInstance {
        target_rect: float_rect(
            spec_inner_box(target.location.spec_rect()->0, even_offsets(info.node.inflate)),
        ),
        input_1_content_scale_and_offset: if inputs > 0 {
            contents.first
        } else {
            ScaleAndOffset::spec_zero()
        },
        input_2_content_scale_and_offset: second_content(info.op, resolved_2),
        input_1_task_address: RenderTaskAddress::spec_of(input_task(inputs, children, 0)),
        input_2_task_address: RenderTaskAddress::spec_of(input_task(inputs, children, 1)),
        kind: spec_filter_kind(info.op, info.node.linear),
        input_count: inputs as usize as u16,
        extra_data_address: match info.extra_gpu_data {
            Some(address) => spec_signed(address.0) as i32,
            None => spec_signed(GpuBufferAddress::spec_invalid().0) as i32,
        },
    }
}

pub open spec fn filter_textures(
    info: SVGFEFilterTask,
    target: RenderTask,
    graph: RenderTaskGraph,
) -> BatchTextures {
    let inputs = info.node.inputs@.len() as int;
    let children = dependency_ids(target.children);
    BatchTextures {
        color0: input_texture(graph, input_task(inputs, children, 0), inputs > 0),
        color1: input_texture(graph, input_task(inputs, children, 1), inputs > 1),
        color2: TextureSource::Invalid,
        clip_mask: TextureSource::Invalid,
    }
}

pub type FilterBatchView = (BatchTextures, Seq<SVGFEFilterInstance>);

/// The place of the first batch that the textures can be combined with, or the number
/// of batches where there is none.
pub open spec fn batch_place(batches: Seq<FilterBatchView>, textures: BatchTextures) -> int
    decreases batches.len(),
{
    if batches.len() == 0 {
        0
    } else {
        let place = batch_place(batches.drop_last(), textures);
        if place < batches.len() - 1 || batches.last().0.compatible(textures) {
            place
        } else {
            batches.len() as int
        }
    }
}

/// The batches with one more instance.
pub open spec fn with_filter(
    batches: Seq<FilterBatchView>,
    textures: BatchTextures,
    instance: SVGFEFilterInstance,
) -> Seq<FilterBatchView> {
    let place = batch_place(batches, textures);
    if place < batches.len() {
        batches.update(
            place,
            (batches[place].0.combined(textures), batches[place].1.push(instance)),
        )
    } else {
        batches.push((textures, seq![instance]))
    }
}

/// The batch of an instance is the first whose textures allow it.
pub proof fn lemma_batch_place(batches: Seq<FilterBatchView>, textures: BatchTextures)
    ensures
        0 <= batch_place(batches, textures) <= batches.len(),
        batch_place(batches, textures) < batches.len() ==> batches[batch_place(
            batches,
            textures,
        )].0.compatible(textures),
        forall|i: int|
            0 <= i < batch_place(batches, textures) ==> !(#[trigger] batches[i]).0.compatible(
                textures,
            ),
    decreases batches.len(),
{
    if batches.len() > 0 {
        let before = batches.drop_last();
        lemma_batch_place(before, textures);
        let place = batch_place(before, textures);
        assert forall|i: int| 0 <= i < batch_place(batches, textures) implies !(
        #[trigger] batches[i]).0.compatible(textures) by {
            if i < batches.len() - 1 {
                assert(batches[i] == before[i]);
            }
        }
        if place < batches.len() - 1 {
            assert(batches[place] == before[place]);
        }
    }
}

/// An instance ends up in a batch whose textures serve it, and no batch loses what it
/// served or drew before.
pub proof fn filter_batches_serve_their_instances(
    batches: Seq<FilterBatchView>,
    textures: BatchTextures,
    instance: SVGFEFilterInstance,
)
    ensures
        ({
            let after = with_filter(batches, textures, instance);
            let place = batch_place(batches, textures);
            &&& 0 <= place < after.len()
            &&& serves(after[place].0, textures)
            &&& after[place].1.last() == instance
            &&& after.len() >= batches.len()
            &&& forall|i: int|
                0 <= i < batches.len() ==> serves((#[trigger] after[i]).0, batches[i].0)
                    && batches[i].1.is_prefix_of(after[i].1)
        }),
{
    lemma_batch_place(batches, textures);
}

pub type FilterBatch = (BatchTextures, Vec<SVGFEFilterInstance>);

pub open spec fn filter_batches(batches: Seq<FilterBatch>) -> Seq<FilterBatchView> {
    batches.map_values(|b: FilterBatch| (b.0, b.1@))
}

/// The node can be drawn: its operation has a shader, its border fits, and the inputs
/// that are read have textures.
pub open spec fn filter_ok(info: SVGFEFilterTask, target: RenderTask, graph: RenderTaskGraph) -> bool {
    let inputs = info.node.inputs@.len();
    let children = dependency_ids(target.children);
    &&& !(info.op is SVGFEComponentTransfer)
    &&& target.location.spec_rect() is Some
    &&& inner_box_fits(target.location.spec_rect()->0, even_offsets(info.node.inflate))
    &&& inputs > 0 ==> children.len() > 0 && graph.readable(RenderTaskId { index: children[0] })
    &&& inputs > 1 ==> children.len() > 1 && graph.readable(RenderTaskId { index: children[1] })
}

/// The address, texture and content of one input.
fn resolve_input(
    used: bool,
    child: Option<u32>,
    content: ScaleAndOffset,
    graph: &RenderTaskGraph,
) -> (r: (RenderTaskAddress, TextureSource, ScaleAndOffset))
    requires
        used ==> child is Some && graph.readable(RenderTaskId { index: child->0 }),
    ensures
        r.0 == RenderTaskAddress::spec_of(
            if used {
                RenderTaskId { index: child->0 }
            } else {
                RenderTaskId::spec_invalid()
            },
        ),
        r.1 == (if used {
            graph.tasks@[child->0 as int].spec_texture_source()->0
        } else {
            TextureSource::Invalid
        }),
        r.2 == (if used {
            content
        } else {
            ScaleAndOffset::spec_zero()
        }),
{
    match (used, child) {
        (true, Some(index)) => (
            RenderTaskAddress::of(RenderTaskId { index }),
            graph.tasks[index as usize].get_texture_source(),
            content,
        ),
        _ => (
            RenderTaskAddress::of(RenderTaskId::invalid()),
            TextureSource::Invalid,
            ScaleAndOffset::zero(),
        ),
    }
}

fn place_filter(
    instances: &mut Vec<FilterBatch>,
    textures: BatchTextures,
    instance: SVGFEFilterInstance,
)
    ensures
        filter_batches(final(instances)@) == with_filter(
            filter_batches(old(instances)@),
            textures,
            instance,
        ),
{
    let ghost batches = filter_batches(instances@);
    proof {
        lemma_batch_place(batches, textures);
    }
    let mut i: usize = 0;
    while i < instances.len()
        invariant
            i <= instances@.len(),
            *instances == *old(instances),
            batches == filter_batches(instances@),
            i <= batch_place(batches, textures),
            0 <= batch_place(batches, textures) <= batches.len(),
            batch_place(batches, textures) < batches.len() ==> batches[batch_place(
                batches,
                textures,
            )].0.compatible(textures),
            forall|j: int|
                0 <= j < batch_place(batches, textures) ==> !(#[trigger] batches[j]).0.compatible(
                    textures,
                ),
        decreases instances@.len() - i,
    {
        assert(batches[i as int].0 == instances@[i as int].0);
        if let Some(combined) = instances[i].0.combine_textures(textures) {
            instances[i].0 = combined;
            instances[i].1.push(instance);
            assert(filter_batches(instances@) =~= with_filter(batches, textures, instance));
            return ;
        }
        i = i + 1;
    }
    let mut list: Vec<SVGFEFilterInstance> = Vec::new();
    list.push(instance);
    assert(list@ =~= seq![instance]);
    instances.push((textures, list));
    assert(filter_batches(instances@) =~= with_filter(batches, textures, instance));
}

/// Adds the instance of a filter node to the first batch whose textures allow it, or
/// else to a new one.
pub fn add_svg_filter_node_instances(
    instances: &mut Vec<FilterBatch>,
    render_tasks: &RenderTaskGraph,
    task_info: &SVGFEFilterTask,
    target_task: &RenderTask,
    contents: &FilterInputContents,
)
    requires
        filter_ok(*task_info, *target_task, *render_tasks),
    ensures
        filter_batches(final(instances)@) == with_filter(
            filter_batches(old(instances)@),
            filter_textures(*task_info, *target_task, *render_tasks),
            filter_instance(*task_info, *target_task, *contents),
        ),
{
    let node = &task_info.node;
    let inflate: i32 = node.inflate as i32;
    let target_rect = to_float_rect(
        inner_box(
            target_task.get_target_rect(),
            DeviceIntSideOffsets { top: inflate, right: inflate, bottom: inflate, left: inflate },
        ),
    );
    let input_count: usize = node.inputs.len();
    let (input_1_task_address, color0, content_1) = resolve_input(
        input_count > 0,
        target_task.children.get(0),
        contents.first,
        render_tasks,
    );
    let (input_2_task_address, color1, content_2) = resolve_input(
        input_count > 1,
        target_task.children.get(1),
        contents.second,
        render_tasks,
    );
    let second = match &task_info.op {
        FilterGraphOp::SVGFEOpacity { value } => ScaleAndOffset {
            scale_x: *value,
            ..ScaleAndOffset::zero()
        },
        FilterGraphOp::SVGFEMorphologyDilate { radius_x, radius_y }
        | FilterGraphOp::SVGFEMorphologyErode { radius_x, radius_y } => ScaleAndOffset {
            scale_x: *radius_x,
            scale_y: *radius_y,
            ..ScaleAndOffset::zero()
        },
        FilterGraphOp::SVGFEFlood { color } => ScaleAndOffset {
            scale_x: color.r,
            scale_y: color.g,
            offset_x: color.b,
            offset_y: color.a,
        },
        _ => content_2,
    };
    let extra = match task_info.extra_gpu_data {
        Some(address) => address,
        None => GpuBufferAddress::invalid(),
    };
    let instance = SVGFEFilterInstance {
        target_rect,
        input_1_content_scale_and_offset: content_1,
        input_2_content_scale_and_offset: second,
        input_1_task_address,
        input_2_task_address,
        kind: filter_kind(&task_info.op, node.linear),
        input_count: #[verifier::truncate] (input_count as u16),
        extra_data_address: extra.as_int(),
    };
    let textures = BatchTextures { color0, color1, ..BatchTextures::empty() };
    place_filter(instances, textures, instance);
}

} // verus!
