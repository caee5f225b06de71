//! What each node of a filter graph draws, and at which resolution.
//!
//! The lengths of the nodes are whole device pixels. A node draws no more than
//! the part of its subregion in which it can produce pixels, and where that part
//! does not fit on a surface it is drawn smaller, by a power of two.

use crate::float_bits::FloatBits;
use crate::internal_types::{MAX_SURFACE_SIZE, SVGFE_GRAPH_MAX};
use crate::svg_filter::{
    FilterGraphNode, FilterGraphNodeView, FilterGraphOp, FilterGraphPictureReference,
    FilterOpGraphPictureBufferId,
};
use crate::units::{DeviceIntSize, LayoutRect, MAX_LAYOUT_COORD};
use vstd::prelude::*;

verus! {

/// A node in device space.
pub struct DeviceFilterNode {
    pub node: FilterGraphNode,
    pub op: FilterGraphOp,
    /// How far a blur reads beyond its subregion, in whole pixels.
    pub blur_padding_x: i64,
    pub blur_padding_y: i64,
}

/// The rectangles that a graph is drawn for.
#[derive(Clone, Copy, Debug, PartialEq, Eq, Structural)]
pub struct FilterRegions {
    /// What there is of the source picture.
    pub source: LayoutRect,
    /// What is wanted of the output.
    pub target: LayoutRect,
    /// The whole primitive.
    pub prim: LayoutRect,
}

/// What a node draws.
pub struct NodePlan {
    pub op: FilterGraphOp,
    /// The node with the place of each input, its subregion and its border.
    pub node: FilterGraphNode,
    /// The number of device pixels to a drawn pixel, a power of two.
    pub render_scale: i64,
    /// The drawn pixels, the border included.
    pub task_rect: LayoutRect,
    pub task_size: DeviceIntSize,
    /// The whole primitive in drawn pixels.
    pub unclipped: LayoutRect,
}

/// A plan as a mathematical value.
#[verifier::ext_equal]
pub struct NodePlanView {
    pub op: FilterGraphOp,
    pub node: FilterGraphNodeView,
    pub render_scale: i64,
    pub task_rect: LayoutRect,
    pub task_size: DeviceIntSize,
    pub unclipped: LayoutRect,
}

impl NodePlan {
    pub open spec fn view(self) -> NodePlanView {
        NodePlanView {
            op: self.op,
            node: self.node@,
            render_scale: self.render_scale,
            task_rect: self.task_rect,
            task_size: self.task_size,
            unclipped: self.unclipped,
        }
    }
}

/// `x / p` rounded to the nearest integer, a tie going up.
pub open spec fn rounded(x: int, p: int) -> int {
    (x + p / 2) / p
}

/// The rectangle `p` times smaller, in whole pixels.
pub open spec fn scaled_rect(r: LayoutRect, p: int) -> LayoutRect {
    LayoutRect {
        x0: rounded(r.x0 as int, p) as i64,
        y0: rounded(r.y0 as int, p) as i64,
        x1: rounded(r.x1 as int, p) as i64,
        y1: rounded(r.y1 as int, p) as i64,
    }
}

/// The rectangle with each side at a multiple of `p`.
pub open spec fn snapped_rect(r: LayoutRect, p: int) -> LayoutRect {
    LayoutRect {
        x0: (rounded(r.x0 as int, p) * p) as i64,
        y0: (rounded(r.y0 as int, p) * p) as i64,
        x1: (rounded(r.x1 as int, p) * p) as i64,
        y1: (rounded(r.y1 as int, p) * p) as i64,
    }
}

pub open spec fn inflated(r: LayoutRect, x: int, y: int) -> LayoutRect {
    r.spec_moved(-x, -y, x, y)
}

/// The rectangle, `p` times smaller and with its border, fits on a surface.
pub open spec fn fits_surface(r: LayoutRect, p: int, inflate: int) -> bool {
    &&& rounded(r.x1 as int, p) - rounded(r.x0 as int, p) + 2 * inflate <= MAX_SURFACE_SIZE
    &&& rounded(r.y1 as int, p) - rounded(r.y0 as int, p) + 2 * inflate <= MAX_SURFACE_SIZE
}

/// The scale from which on every rectangle fits.
pub const COARSEST_SCALE: i64 = 0x4000_0000;

/// The least power of two, from `p` on, at which the rectangle fits on a surface.
pub open spec fn render_scale(r: LayoutRect, inflate: int, p: int) -> int
    decreases 2 * COARSEST_SCALE - p,
{
    if p <= 0 || p >= COARSEST_SCALE || fits_surface(r, p, inflate) {
        p
    } else {
        render_scale(r, inflate, 2 * p)
    }
}

/// What an input covers: the subregion of the node that it names.
pub open spec fn input_region(
    input: FilterGraphPictureReference,
    regions: Seq<LayoutRect>,
) -> LayoutRect {
    match input.buffer_id {
        FilterOpGraphPictureBufferId::NoBuffer => LayoutRect::spec_zero(),
        FilterOpGraphPictureBufferId::BufferId(id) => if (id as int) < regions.len() {
            regions[id as int]
        } else {
            LayoutRect::spec_zero()
        },
    }
}

/// The part of a node that an input contributes to.
pub open spec fn input_target(
    input: FilterGraphPictureReference,
    regions: Seq<LayoutRect>,
) -> LayoutRect {
    input_region(input, regions).spec_moved(
        input.target_padding.x0 as int,
        input.target_padding.y0 as int,
        input.target_padding.x1 as int,
        input.target_padding.y1 as int,
    )
}

/// The smallest rectangle around what all inputs contribute to.
pub open spec fn inputs_target(
    inputs: Seq<FilterGraphPictureReference>,
    regions: Seq<LayoutRect>,
) -> LayoutRect
    decreases inputs.len(),
{
    if inputs.len() == 0 {
        LayoutRect::spec_zero()
    } else {
        inputs_target(inputs.drop_last(), regions).spec_union(input_target(inputs.last(), regions))
    }
}

/// The smallest rectangle around all inputs.
pub open spec fn inputs_region(
    inputs: Seq<FilterGraphPictureReference>,
    regions: Seq<LayoutRect>,
) -> LayoutRect
    decreases inputs.len(),
{
    if inputs.len() == 0 {
        LayoutRect::spec_zero()
    } else {
        inputs_region(inputs.drop_last(), regions).spec_union(input_region(inputs.last(), regions))
    }
}

/// An input with its place: the offset is applied, and no padding is left.
pub open spec fn placed_input(
    input: FilterGraphPictureReference,
    regions: Seq<LayoutRect>,
) -> FilterGraphPictureReference {
    FilterGraphPictureReference {
        buffer_id: input.buffer_id,
        subregion: input_region(input, regions).spec_moved(
            input.offset_x as int,
            input.offset_y as int,
            input.offset_x as int,
            input.offset_y as int,
        ),
        offset_x: 0,
        offset_y: 0,
        shift_x: FloatBits(0),
        shift_y: FloatBits(0),
        inflate: input.inflate,
        target_padding: LayoutRect::spec_zero(),
    }
}

pub open spec fn placed_inputs(
    inputs: Seq<FilterGraphPictureReference>,
    regions: Seq<LayoutRect>,
) -> Seq<FilterGraphPictureReference> {
    Seq::new(inputs.len(), |i: int| placed_input(inputs[i], regions))
}

/// The number of inputs that the rule for an operation's extent looks at.
pub open spec fn inputs_needed(op: FilterGraphOp) -> int {
    match op {
        FilterGraphOp::SVGFECompositeArithmetic { k1, k2, k3, k4 } => if k4.spec_is_positive() {
            0
        } else if k1.spec_is_positive() && k2.spec_equals(FloatBits(0)) && k3.spec_equals(
            FloatBits(0),
        ) {
            2
        } else if k2.spec_is_positive() && k3.spec_equals(FloatBits(0)) {
            1
        } else if k2.spec_equals(FloatBits(0)) && k3.spec_is_positive() {
            2
        } else {
            0
        },
        FilterGraphOp::SVGFECompositeATop => 2,
        FilterGraphOp::SVGFECompositeIn => 2,
        FilterGraphOp::SVGFECompositeOut => 1,
        _ => 0,
    }
}

/// Where an operation can produce pixels, given `used`, the part of the node's
/// subregion `full` that its inputs contribute to.
pub open spec fn op_region(
    op: FilterGraphOp,
    used: LayoutRect,
    full: LayoutRect,
    inputs: Seq<FilterGraphPictureReference>,
    source: LayoutRect,
) -> LayoutRect {
    match op {
        FilterGraphOp::SVGFEColorMatrix { values } => if values[19].spec_is_positive() {
            full
        } else {
            used
        },
        FilterGraphOp::SVGFEComponentTransferInterned { creates_pixels, .. } => if creates_pixels {
            full
        } else {
            used
        },
        FilterGraphOp::SVGFECompositeArithmetic { k1, k2, k3, k4 } => if k4.spec_is_positive() {
            full
        } else if k1.spec_is_positive() && k2.spec_equals(FloatBits(0)) && k3.spec_equals(
            FloatBits(0),
        ) {
            full.spec_common(inputs[0].subregion).spec_common(inputs[1].subregion)
        } else if k2.spec_is_positive() && k3.spec_equals(FloatBits(0)) {
            full.spec_common(inputs[0].subregion)
        } else if k2.spec_equals(FloatBits(0)) && k3.spec_is_positive() {
            full.spec_common(inputs[1].subregion)
        } else {
            used
        },
        FilterGraphOp::SVGFECompositeATop => full.spec_common(inputs[1].subregion),
        FilterGraphOp::SVGFECompositeIn => used.spec_common(inputs[0].subregion).spec_common(
            inputs[1].subregion,
        ),
        FilterGraphOp::SVGFECompositeOut => full.spec_common(inputs[0].subregion),
        FilterGraphOp::SVGFEFlood { color } => if color.a.spec_is_positive() {
            full
        } else {
            used
        },
        FilterGraphOp::SVGFEImage { .. } => full,
        FilterGraphOp::SVGFEOpacity { value } => if value.spec_gt(FloatBits(0))
            || value.not_a_number() {
            used
        } else {
            LayoutRect::spec_zero()
        },
        FilterGraphOp::SVGFESourceAlpha => source.spec_common(full),
        FilterGraphOp::SVGFESourceGraphic => source.spec_common(full),
        FilterGraphOp::SVGFETile => if used.spec_is_empty() {
            used
        } else {
            full
        },
        FilterGraphOp::SVGFETurbulenceWithFractalNoiseWithNoStitching { .. } => full,
        FilterGraphOp::SVGFETurbulenceWithFractalNoiseWithStitching { .. } => full,
        FilterGraphOp::SVGFETurbulenceWithTurbulenceNoiseWithNoStitching { .. } => full,
        FilterGraphOp::SVGFETurbulenceWithTurbulenceNoiseWithStitching { .. } => full,
        _ => used,
    }
}

/// The operation blurs its input.
pub open spec fn is_blur(op: FilterGraphOp) -> bool {
    op is SVGFEGaussianBlur || op is SVGFEDropShadow
}

/// What a node draws of its subregion. The output draws what is wanted of it.
pub open spec fn node_region(
    n: DeviceFilterNode,
    regions: Seq<LayoutRect>,
    is_output: bool,
    to: FilterRegions,
) -> LayoutRect {
    if is_output {
        to.target
    } else {
        op_region(
            n.op,
            inputs_target(n.node.inputs@, regions).spec_common(n.node.subregion),
            n.node.subregion,
            placed_inputs(n.node.inputs@, regions),
            to.source,
        )
    }
}

/// The size of a drawn rectangle, at least one pixel each way.
pub open spec fn drawn_size(r: LayoutRect) -> DeviceIntSize {
    if r.x1 - r.x0 < 1 || r.y1 - r.y0 < 1 {
        DeviceIntSize { width: 1, height: 1 }
    } else {
        DeviceIntSize { width: (r.x1 - r.x0) as i32, height: (r.y1 - r.y0) as i32 }
    }
}

/// The plan of a node that is kept.
pub open spec fn node_plan(
    n: DeviceFilterNode,
    regions: Seq<LayoutRect>,
    is_output: bool,
    to: FilterRegions,
) -> NodePlanView {
    let used = node_region(n, regions, is_output, to);
    let inflate: i16 = if is_output {
        0
    } else {
        n.node.inflate
    };
    let read = if is_blur(n.op) {
        inflated(used, n.blur_padding_x as int, n.blur_padding_y as int)
    } else {
        used
    };
    let p = render_scale(
        read.spec_union(inputs_region(n.node.inputs@, regions)),
        inflate as int,
        1,
    );
    let subregion = snapped_rect(used, p);
    let task_rect = inflated(scaled_rect(subregion, p), inflate as int, inflate as int);
    NodePlanView {
        op: n.op,
        node: FilterGraphNodeView {
            kept_by_optimizer: true,
            linear: n.node.linear,
            inflate,
            inputs: placed_inputs(n.node.inputs@, regions),
            subregion,
        },
        render_scale: p as i64,
        task_rect,
        task_size: drawn_size(task_rect),
        unclipped: inflated(scaled_rect(to.prim, p), inflate as int, inflate as int),
    }
}

/// The subregions of the first `count` nodes; that of a dropped node is zero.
pub open spec fn regions_before(
    nodes: Seq<DeviceFilterNode>,
    to: FilterRegions,
    count: int,
) -> Seq<LayoutRect>
    decreases count,
{
    if count <= 0 {
        Seq::empty()
    } else {
        let before = regions_before(nodes, to, count - 1);
        let n = nodes[count - 1];
        before.push(
            if n.node.kept_by_optimizer {
                node_plan(n, before, count == nodes.len(), to).node.subregion
            } else {
                LayoutRect::spec_zero()
            },
        )
    }
}

/// The lengths of an input lie in range.
pub open spec fn input_in_range(input: FilterGraphPictureReference) -> bool {
    &&& -MAX_LAYOUT_COORD <= input.offset_x <= MAX_LAYOUT_COORD
    &&& -MAX_LAYOUT_COORD <= input.offset_y <= MAX_LAYOUT_COORD
    &&& input.target_padding.within(MAX_LAYOUT_COORD as int)
}

/// A rectangle without pixels is not long either.
pub open spec fn short_if_empty(r: LayoutRect) -> bool {
    r.spec_is_empty() ==> r.x1 - r.x0 <= MAX_SURFACE_SIZE && r.y1 - r.y0 <= MAX_SURFACE_SIZE
}

/// The lengths of a node lie in range, its border leaves room on a surface, and
/// it has the inputs that its operation needs.
pub open spec fn node_in_range(n: DeviceFilterNode) -> bool {
    &&& n.node.subregion.within(MAX_LAYOUT_COORD as int)
    &&& short_if_empty(n.node.subregion)
    &&& 0 <= n.node.inflate <= 2047
    &&& 0 <= n.blur_padding_x <= MAX_LAYOUT_COORD
    &&& 0 <= n.blur_padding_y <= MAX_LAYOUT_COORD
    &&& n.node.inputs@.len() >= inputs_needed(n.op)
    &&& forall|i: int| 0 <= i < n.node.inputs@.len() ==> input_in_range(#[trigger] n.node.inputs@[i])
}

pub open spec fn regions_in_range(to: FilterRegions) -> bool {
    &&& to.source.within(MAX_LAYOUT_COORD as int)
    &&& to.target.within(MAX_LAYOUT_COORD as int)
    &&& to.prim.within(MAX_LAYOUT_COORD as int)
}

/// The bound that the drawn subregions keep.
pub open spec fn all_within(regions: Seq<LayoutRect>) -> bool {
    forall|i: int| 0 <= i < regions.len() ==> (#[trigger] regions[i]).within(0x2000_0001)
}

/// At the coarsest scale every rectangle in range fits on a surface.
proof fn lemma_coarsest_fits(r: LayoutRect, inflate: int)
    requires
        r.within(0x2000_0001),
        0 <= inflate <= 2047,
    ensures
        fits_surface(r, COARSEST_SCALE as int, inflate),
{
}

proof fn lemma_rounded(x: int, p: int)
    requires
        p >= 1,
    ensures
        x - p <= rounded(x, p) * p <= x + p,
        p == 1 ==> rounded(x, p) == x,
{
    let q = (x + p / 2) / p;
    assert(q * p <= x + p / 2 && x + p / 2 < q * p + p) by (nonlinear_arith)
        requires
            p >= 1,
            q == (x + p / 2) / p,
    ;
    assert(0 <= p / 2 <= p);
}

/// A rounded multiple is itself.
proof fn lemma_rounded_multiple(q: int, p: int)
    requires
        p >= 1,
    ensures
        rounded(q * p, p) == q,
{
    assert((q * p + p / 2) / p == q) by (nonlinear_arith)
        requires
            p >= 1,
    ;
}

proof fn lemma_rounded_ordered(x: int, y: int, p: int)
    requires
        p >= 1,
        x <= y,
    ensures
        rounded(x, p) <= rounded(y, p),
{
    vstd::arithmetic::div_mod::lemma_div_is_ordered(x + p / 2, y + p / 2, p);
}

fn round_to(x: i64, p: i64) -> (r: i64)
    requires
        -0x1_0000_0000 <= x <= 0x1_0000_0000,
        1 <= p <= 0x1_0000_0000,
    ensures
        r == rounded(x as int, p as int),
        -0x2_0000_0000 <= r <= 0x2_0000_0000,
        x - p <= r * p <= x + p,
{
    proof {
        lemma_rounded(x as int, p as int);
    }
    let y: i64 = x + p / 2;
    let ghost q = rounded(x as int, p as int);
    assert(-0x2_0000_0000 <= q <= 0x2_0000_0000) by (nonlinear_arith)
        requires
            x - p <= q * p <= x + p,
            1 <= p <= 0x1_0000_0000,
            -0x1_0000_0000 <= x <= 0x1_0000_0000,
    ;
    if y >= 0 {
        y / p
    } else {
        let m: i64 = -y;
        assert((m + p - 1) / (p as int) == -(y as int / p as int)) by (nonlinear_arith)
            requires
                p >= 1,
                m == -y,
        ;
        -((m + p - 1) / p)
    }
}

fn scale_rect(r: &LayoutRect, p: i64) -> (s: LayoutRect)
    requires
        r.within(0x1_0000_0000),
        1 <= p <= 0x1_0000_0000,
    ensures
        s == scaled_rect(*r, p as int),
        s.within(0x2_0000_0000),
        s.x0 == rounded(r.x0 as int, p as int),
        s.y0 == rounded(r.y0 as int, p as int),
        s.x1 == rounded(r.x1 as int, p as int),
        s.y1 == rounded(r.y1 as int, p as int),
{
    LayoutRect {
        x0: round_to(r.x0, p),
        y0: round_to(r.y0, p),
        x1: round_to(r.x1, p),
        y1: round_to(r.y1, p),
    }
}

/// A snapped coordinate is at most about twice as far out.
proof fn lemma_snapped(x: int, p: int)
    requires
        p >= 1,
        -MAX_LAYOUT_COORD <= x <= MAX_LAYOUT_COORD,
    ensures
        -0x2000_0001 <= rounded(x, p) * p <= 0x2000_0001,
{
    let q = (x + p / 2) / p;
    assert(q * p <= x + p / 2 && x + p / 2 < q * p + p) by (nonlinear_arith)
        requires
            p >= 1,
            q == (x + p / 2) / p,
    ;
    assert(q >= 1 ==> p <= q * p) by (nonlinear_arith)
        requires
            p >= 1,
    ;
    assert(q <= -1 ==> q * p <= -p) by (nonlinear_arith)
        requires
            p >= 1,
    ;
    assert(q == 0 ==> q * p == 0) by (nonlinear_arith);
}

fn snap_rect(r: &LayoutRect, p: i64) -> (s: LayoutRect)
    requires
        r.within(MAX_LAYOUT_COORD as int),
        1 <= p <= COARSEST_SCALE,
    ensures
        s == snapped_rect(*r, p as int),
        s.within(0x2000_0001),
{
    proof {
        lemma_snapped(r.x0 as int, p as int);
        lemma_snapped(r.y0 as int, p as int);
        lemma_snapped(r.x1 as int, p as int);
        lemma_snapped(r.y1 as int, p as int);
    }
    LayoutRect {
        x0: round_to(r.x0, p) * p,
        y0: round_to(r.y0, p) * p,
        x1: round_to(r.x1, p) * p,
        y1: round_to(r.y1, p) * p,
    }
}

fn find_render_scale(r: &LayoutRect, inflate: i64) -> (p: i64)
    requires
        r.within(0x2000_0001),
        0 <= inflate <= 2047,
    ensures
        p == render_scale(*r, inflate as int, 1),
        1 <= p <= COARSEST_SCALE,
        fits_surface(*r, p as int, inflate as int),
{
    let mut p: i64 = 1;
    let mut k: u64 = 0;
    proof {
        reveal_with_fuel(crate::float_bits::power_of_two, 31);
    }
    loop
        invariant_except_break
            1 <= p <= COARSEST_SCALE,
            k <= 30,
            p == crate::float_bits::power_of_two(k as nat),
            crate::float_bits::power_of_two(30) == COARSEST_SCALE,
            render_scale(*r, inflate as int, 1) == render_scale(*r, inflate as int, p as int),
            r.within(0x2000_0001),
            0 <= inflate <= 2047,
        ensures
            p == render_scale(*r, inflate as int, 1),
            1 <= p <= COARSEST_SCALE,
            fits_surface(*r, p as int, inflate as int),
        decreases 2 * COARSEST_SCALE - p,
    {
        let s = scale_rect(r, p);
        if s.x1 - s.x0 + 2 * inflate <= MAX_SURFACE_SIZE && s.y1 - s.y0 + 2 * inflate
            <= MAX_SURFACE_SIZE {
            break;
        }
        proof {
            lemma_coarsest_fits(*r, inflate as int);
            crate::float_bits::lemma_power_monotonic((k + 1) as nat, 30);
        }
        p = 2 * p;
        k = k + 1;
    }
    p
}

fn region_of(input: &FilterGraphPictureReference, regions: &Vec<LayoutRect>) -> (r: LayoutRect)
    requires
        all_within(regions@),
    ensures
        r == input_region(*input, regions@),
        r.within(0x2000_0001),
{
    match input.buffer_id {
        FilterOpGraphPictureBufferId::NoBuffer => LayoutRect::zero(),
        FilterOpGraphPictureBufferId::BufferId(id) => {
            if (id as usize) < regions.len() {
                regions[id as usize]
            } else {
                LayoutRect::zero()
            }
        },
    }
}

/// What the inputs of a node come to.
struct InputSummary {
    /// The smallest rectangle around what they contribute to.
    target: LayoutRect,
    /// The smallest rectangle around them.
    region: LayoutRect,
    /// The inputs with their places.
    placed: Vec<FilterGraphPictureReference>,
}

fn summarize_inputs(
    inputs: &Vec<FilterGraphPictureReference>,
    regions: &Vec<LayoutRect>,
) -> (r: InputSummary)
    requires
        all_within(regions@),
        forall|i: int| 0 <= i < inputs@.len() ==> input_in_range(#[trigger] inputs@[i]),
    ensures
        r.target == inputs_target(inputs@, regions@),
        r.target.within(0x4000_0000),
        r.region == inputs_region(inputs@, regions@),
        r.region.within(0x2000_0001),
        r.placed@ == placed_inputs(inputs@, regions@),
{
    let mut target = LayoutRect::zero();
    let mut region = LayoutRect::zero();
    let mut placed: Vec<FilterGraphPictureReference> = Vec::new();
    let mut i: usize = 0;
    while i < inputs.len()
        invariant
            i <= inputs@.len(),
            all_within(regions@),
            forall|k: int| 0 <= k < inputs@.len() ==> input_in_range(#[trigger] inputs@[k]),
            target == inputs_target(inputs@.take(i as int), regions@),
            target.within(0x4000_0000),
            region == inputs_region(inputs@.take(i as int), regions@),
            region.within(0x2000_0001),
            placed@ == placed_inputs(inputs@.take(i as int), regions@),
        decreases inputs@.len() - i,
    {
        let input = inputs[i];
        assert(input_in_range(inputs@[i as int]));
        let covered = region_of(&input, regions);
        target = target.union(
            &covered.moved(
                input.target_padding.x0,
                input.target_padding.y0,
                input.target_padding.x1,
                input.target_padding.y1,
            ),
        );
        region = region.union(&covered);
        placed.push(
            FilterGraphPictureReference {
                buffer_id: input.buffer_id,
                subregion: covered.moved(
                    input.offset_x,
                    input.offset_y,
                    input.offset_x,
                    input.offset_y,
                ),
                offset_x: 0,
                offset_y: 0,
                shift_x: FloatBits(0),
                shift_y: FloatBits(0),
                inflate: input.inflate,
                target_padding: LayoutRect::zero(),
            },
        );
        assert(inputs@.take(i + 1).drop_last() =~= inputs@.take(i as int));
        i = i + 1;
        assert(placed@ =~= placed_inputs(inputs@.take(i as int), regions@));
    }
    assert(inputs@.take(i as int) =~= inputs@);
    InputSummary { target, region, placed }
}

fn region_of_op(
    op: &FilterGraphOp,
    used: LayoutRect,
    full: LayoutRect,
    inputs: &Vec<FilterGraphPictureReference>,
    source: LayoutRect,
) -> (r: LayoutRect)
    requires
        inputs@.len() >= inputs_needed(*op),
        used.within(MAX_LAYOUT_COORD as int),
        full.within(MAX_LAYOUT_COORD as int),
        source.within(MAX_LAYOUT_COORD as int),
        short_if_empty(used),
        short_if_empty(full),
    ensures
        r == op_region(*op, used, full, inputs@, source),
        r.within(MAX_LAYOUT_COORD as int),
        short_if_empty(r),
{
    match op {
        FilterGraphOp::SVGFEColorMatrix { values } => {
            if values[19].is_positive() {
                full
            } else {
                used
            }
        },
        FilterGraphOp::SVGFEComponentTransferInterned { creates_pixels, .. } => {
            if *creates_pixels {
                full
            } else {
                used
            }
        },
        FilterGraphOp::SVGFECompositeArithmetic { k1, k2, k3, k4 } => {
            if k4.is_positive() {
                full
            } else if k1.is_positive() && k2.equals(FloatBits(0)) && k3.equals(FloatBits(0)) {
                full.common(&inputs[0].subregion).common(&inputs[1].subregion)
            } else if k2.is_positive() && k3.equals(FloatBits(0)) {
                full.common(&inputs[0].subregion)
            } else if k2.equals(FloatBits(0)) && k3.is_positive() {
                full.common(&inputs[1].subregion)
            } else {
                used
            }
        },
        FilterGraphOp::SVGFECompositeATop => full.common(&inputs[1].subregion),
        FilterGraphOp::SVGFECompositeIn => {
            used.common(&inputs[0].subregion).common(&inputs[1].subregion)
        },
        FilterGraphOp::SVGFECompositeOut => full.common(&inputs[0].subregion),
        FilterGraphOp::SVGFEFlood { color } => {
            if color.a.is_positive() {
                full
            } else {
                used
            }
        },
        FilterGraphOp::SVGFEImage { .. } => full,
        FilterGraphOp::SVGFEOpacity { value } => {
            if value.is_positive() || value.is_nan() {
                used
            } else {
                LayoutRect::zero()
            }
        },
        FilterGraphOp::SVGFESourceAlpha => source.common(&full),
        FilterGraphOp::SVGFESourceGraphic => source.common(&full),
        FilterGraphOp::SVGFETile => {
            if used.is_empty() {
                used
            } else {
                full
            }
        },
        FilterGraphOp::SVGFETurbulenceWithFractalNoiseWithNoStitching { .. } => full,
        FilterGraphOp::SVGFETurbulenceWithFractalNoiseWithStitching { .. } => full,
        FilterGraphOp::SVGFETurbulenceWithTurbulenceNoiseWithNoStitching { .. } => full,
        FilterGraphOp::SVGFETurbulenceWithTurbulenceNoiseWithStitching { .. } => full,
        _ => used,
    }
}

/// A kept node draws what its operation can produce, at a size that fits on a surface.
pub fn plan_node(
    n: &DeviceFilterNode,
    regions: &Vec<LayoutRect>,
    is_output: bool,
    to: &FilterRegions,
) -> (r: NodePlan)
    requires
        node_in_range(*n),
        regions_in_range(*to),
        all_within(regions@),
    ensures
        r@ == node_plan(*n, regions@, is_output, *to),
        r.node.subregion.within(0x2000_0001),
        !r.task_size.spec_is_empty(),
        crate::render_task::sane_size(r.task_size),
{
    let inputs = summarize_inputs(&n.node.inputs, regions);
    let full = n.node.subregion;
    let used = if is_output {
        to.target
    } else {
        region_of_op(
            &n.op,
            inputs.target.common(&full),
            full,
            &inputs.placed,
            to.source,
        )
    };
    let inflate: i16 = if is_output {
        0
    } else {
        n.node.inflate
    };
    let border: i64 = inflate as i64;
    let read = match n.op {
        FilterGraphOp::SVGFEGaussianBlur { .. } | FilterGraphOp::SVGFEDropShadow { .. } => {
            used.moved(-n.blur_padding_x, -n.blur_padding_y, n.blur_padding_x, n.blur_padding_y)
        },
        _ => used,
    };
    let covered = read.union(&inputs.region);
    let p: i64 = find_render_scale(&covered, border);
    let subregion = snap_rect(&used, p);
    let scaled = scale_rect(&subregion, p);
    let task_rect = scaled.moved(-border, -border, border, border);
    proof {
        lemma_drawn_size_fits(used, covered, p as int, border as int);
    }
    let task_size = if task_rect.x1 - task_rect.x0 < 1 || task_rect.y1 - task_rect.y0 < 1 {
        DeviceIntSize::new(1, 1)
    } else {
        DeviceIntSize::new(
            (task_rect.x1 - task_rect.x0) as i32,
            (task_rect.y1 - task_rect.y0) as i32,
        )
    };
    let unclipped = scale_rect(&to.prim, p).moved(-border, -border, border, border);
    NodePlan {
        op: n.op,
        node: FilterGraphNode {
            kept_by_optimizer: true,
            linear: n.node.linear,
            inflate,
            inputs: inputs.placed,
            subregion,
        },
        render_scale: p,
        task_rect,
        task_size,
        unclipped,
    }
}

/// What is drawn lies inside of what was made to fit.
proof fn lemma_drawn_size_fits(used: LayoutRect, covered: LayoutRect, p: int, inflate: int)
    requires
        1 <= p <= COARSEST_SCALE,
        used.within(MAX_LAYOUT_COORD as int),
        covered.within(0x2000_0001),
        fits_surface(covered, p, inflate),
        !used.spec_is_empty() ==> covered.x0 <= used.x0 && covered.y0 <= used.y0 && used.x1
            <= covered.x1 && used.y1 <= covered.y1,
        inflate > 0 ==> short_if_empty(used),
        0 <= inflate <= 2047,
    ensures
        ({
            let s = scaled_rect(snapped_rect(used, p), p);
            &&& s.x0 == rounded(used.x0 as int, p)
            &&& s.x1 == rounded(used.x1 as int, p)
            &&& s.y0 == rounded(used.y0 as int, p)
            &&& s.y1 == rounded(used.y1 as int, p)
            &&& (!used.spec_is_empty() || inflate > 0 ==> {
                &&& s.x1 - s.x0 + 2 * inflate <= 2 * MAX_SURFACE_SIZE
                &&& s.y1 - s.y0 + 2 * inflate <= 2 * MAX_SURFACE_SIZE
            })
            &&& (used.spec_is_empty() ==> s.x1 <= s.x0 || s.y1 <= s.y0)
        }),
{
    lemma_snapped(used.x0 as int, p);
    lemma_snapped(used.y0 as int, p);
    lemma_snapped(used.x1 as int, p);
    lemma_snapped(used.y1 as int, p);
    lemma_rounded_multiple(rounded(used.x0 as int, p), p);
    lemma_rounded_multiple(rounded(used.y0 as int, p), p);
    lemma_rounded_multiple(rounded(used.x1 as int, p), p);
    lemma_rounded_multiple(rounded(used.y1 as int, p), p);
    lemma_rounded_small(used.x0 as int, p);
    lemma_rounded_small(used.y0 as int, p);
    lemma_rounded_small(used.x1 as int, p);
    lemma_rounded_small(used.y1 as int, p);
    if !used.spec_is_empty() {
        lemma_rounded_ordered(covered.x0 as int, used.x0 as int, p);
        lemma_rounded_ordered(covered.y0 as int, used.y0 as int, p);
        lemma_rounded_ordered(used.x1 as int, covered.x1 as int, p);
        lemma_rounded_ordered(used.y1 as int, covered.y1 as int, p);
    } else {
        lemma_rounded_difference(used.x0 as int, used.x1 as int, p);
        lemma_rounded_difference(used.y0 as int, used.y1 as int, p);
    }
}

proof fn lemma_rounded_difference(x: int, y: int, p: int)
    requires
        p >= 1,
    ensures
        y <= x ==> rounded(y, p) <= rounded(x, p),
        x <= y ==> rounded(y, p) - rounded(x, p) <= y - x + 1,
{
    if y <= x {
        lemma_rounded_ordered(y, x, p);
    } else {
        let a = (x + p / 2) / p;
        let b = (y + p / 2) / p;
        assert(b - a <= y - x + 1) by (nonlinear_arith)
            requires
                p >= 1,
                x < y,
                a == (x + p / 2) / p,
                b == (y + p / 2) / p,
        ;
    }
}

proof fn lemma_rounded_small(x: int, p: int)
    requires
        p >= 1,
        -MAX_LAYOUT_COORD <= x <= MAX_LAYOUT_COORD,
    ensures
        -0x4000_0000 <= rounded(x, p) <= 0x4000_0000,
{
    lemma_snapped(x, p);
    let q = rounded(x, p);
    assert(-0x4000_0000 <= q <= 0x4000_0000) by (nonlinear_arith)
        requires
            -0x2000_0001 <= q * p <= 0x2000_0001,
            p >= 1,
    ;
}

/// The plans of the nodes that are kept. The last node is the output.
pub fn plan_svg_filter_graph(
    nodes: &Vec<DeviceFilterNode>,
    to: &FilterRegions,
) -> (r: Vec<Option<NodePlan>>)
    requires
        nodes@.len() <= SVGFE_GRAPH_MAX,
        regions_in_range(*to),
        forall|i: int| 0 <= i < nodes@.len() ==> node_in_range(#[trigger] nodes@[i]),
    ensures
        r@.len() == nodes@.len(),
        forall|i: int|
            #![trigger r@[i]]
            0 <= i < r@.len() ==> match r@[i] {
                Some(plan) => {
                    &&& nodes@[i].node.kept_by_optimizer
                    &&& plan@ == node_plan(
                        nodes@[i],
                        regions_before(nodes@, *to, i),
                        i == nodes@.len() - 1,
                        *to,
                    )
                    &&& !plan.task_size.spec_is_empty()
                    &&& crate::render_task::sane_size(plan.task_size)
                },
                None => !nodes@[i].node.kept_by_optimizer,
            },
{
    let mut plans: Vec<Option<NodePlan>> = Vec::new();
    let mut regions: Vec<LayoutRect> = Vec::new();
    let mut i: usize = 0;
    while i < nodes.len()
        invariant
            i <= nodes@.len(),
            regions_in_range(*to),
            forall|k: int| 0 <= k < nodes@.len() ==> node_in_range(#[trigger] nodes@[k]),
            regions@ == regions_before(nodes@, *to, i as int),
            all_within(regions@),
            plans@.len() == i,
            forall|k: int|
                #![trigger plans@[k]]
                0 <= k < i ==> match plans@[k] {
                    Some(plan) => {
                        &&& nodes@[k].node.kept_by_optimizer
                        &&& plan@ == node_plan(
                            nodes@[k],
                            regions_before(nodes@, *to, k),
                            k == nodes@.len() - 1,
                            *to,
                        )
                        &&& !plan.task_size.spec_is_empty()
                        &&& crate::render_task::sane_size(plan.task_size)
                    },
                    None => !nodes@[k].node.kept_by_optimizer,
                },
        decreases nodes@.len() - i,
    {
        let n = &nodes[i];
        assert(node_in_range(nodes@[i as int]));
        if n.node.kept_by_optimizer {
            let plan = plan_node(n, &regions, i == nodes.len() - 1, to);
            let subregion = plan.node.subregion;
            assert(plan@.node.subregion == subregion);
            plans.push(Some(plan));
            regions.push(subregion);
        } else {
            plans.push(None);
            regions.push(LayoutRect::zero());
        }
        i = i + 1;
    }
    plans
}

/// What is drawn fits on a surface, and at every finer power of two it would not.
pub proof fn render_scale_is_the_least(r: LayoutRect, inflate: int, finer: nat)
    requires
        r.within(0x2000_0001),
        0 <= inflate <= 2047,
    ensures
        fits_surface(r, render_scale(r, inflate, 1), inflate),
        crate::float_bits::power_of_two(finer) < render_scale(r, inflate, 1) ==> !fits_surface(
            r,
            crate::float_bits::power_of_two(finer) as int,
            inflate,
        ),
{
    lemma_coarsest_fits(r, inflate);
    reveal_with_fuel(crate::float_bits::power_of_two, 31);
    lemma_least(r, inflate, 0, finer);
}

proof fn lemma_least(r: LayoutRect, inflate: int, k: nat, finer: nat)
    requires
        r.within(0x2000_0001),
        0 <= inflate <= 2047,
        k <= finer,
        k <= 30,
        crate::float_bits::power_of_two(30) == COARSEST_SCALE,
        fits_surface(r, COARSEST_SCALE as int, inflate),
    ensures
        ({
            let p = crate::float_bits::power_of_two(k) as int;
            let q = crate::float_bits::power_of_two(finer) as int;
            &&& fits_surface(r, render_scale(r, inflate, p), inflate)
            &&& q < render_scale(r, inflate, p) ==> !fits_surface(r, q, inflate)
        }),
    decreases 30 - k,
{
    let p = crate::float_bits::power_of_two(k) as int;
    crate::float_bits::lemma_power_monotonic(0, k);
    crate::float_bits::lemma_power_monotonic(k, 30);
    crate::float_bits::lemma_power_monotonic(k, finer);
    if !(p >= COARSEST_SCALE || fits_surface(r, p, inflate)) {
        if k == 30 {
        } else if finer == k {
            lemma_least(r, inflate, k + 1, k + 1);
        } else {
            lemma_least(r, inflate, k + 1, finer);
        }
    }
}

/// The pixel `(x, y)` lies in the rectangle.
pub open spec fn covers(r: LayoutRect, x: int, y: int) -> bool {
    r.x0 <= x < r.x1 && r.y0 <= y < r.y1
}

/// Where a node draws, pixel by pixel. What keeps only pixels that both inputs have draws only
/// there; what keeps pixels of one input draws only where that one lies; what is the
/// source picture draws only where that is; and what has no pixels of its own draws
/// only where its inputs contribute. Nothing is drawn outside of the subregion. What
/// makes pixels out of nothing draws all of the subregion, and what is transparent nothing.
pub proof fn operations_draw_where_pixels_can_be(
    op: FilterGraphOp,
    used: LayoutRect,
    full: LayoutRect,
    inputs: Seq<FilterGraphPictureReference>,
    source: LayoutRect,
    x: int,
    y: int,
)
    requires
        covers(used, x, y) ==> covers(full, x, y),
        !full.spec_is_empty(),
    ensures
        ({
            let drawn = covers(op_region(op, used, full, inputs, source), x, y);
            let first = covers(inputs[0].subregion, x, y);
            let second = covers(inputs[1].subregion, x, y);
            let in_full = covers(full, x, y);
            let in_used = covers(used, x, y);
            &&& drawn ==> in_full
            &&& op is SVGFECompositeIn ==> drawn == (in_used && first && second)
            &&& op is SVGFECompositeATop ==> drawn == (in_full && second)
            &&& op is SVGFECompositeOut ==> drawn == (in_full && first)
            &&& op is SVGFESourceGraphic || op is SVGFESourceAlpha ==> drawn == (in_full && covers(
                source,
                x,
                y,
            ))
            &&& op is SVGFEImage || op is SVGFETurbulenceWithFractalNoiseWithNoStitching || op
                is SVGFETurbulenceWithFractalNoiseWithStitching || op
                is SVGFETurbulenceWithTurbulenceNoiseWithNoStitching || op
                is SVGFETurbulenceWithTurbulenceNoiseWithStitching ==> drawn == in_full
            &&& op matches FilterGraphOp::SVGFEFlood { color } ==> drawn == if color.a.spec_gt(
                FloatBits(0),
            ) {
                in_full
            } else {
                in_used
            }
            &&& op matches FilterGraphOp::SVGFEOpacity { value } ==> drawn == (in_used && !(
            value.spec_le(FloatBits(0))))
            &&& op matches FilterGraphOp::SVGFEColorMatrix { values } ==> drawn == if values[19].spec_gt(
                FloatBits(0),
            ) {
                in_full
            } else {
                in_used
            }
            &&& op matches FilterGraphOp::SVGFEComponentTransferInterned { creates_pixels, .. }
                ==> drawn == if creates_pixels {
                in_full
            } else {
                in_used
            }
            &&& op is SVGFETile ==> drawn == (in_full && !used.spec_is_empty())
            &&& op is SVGFEGaussianBlur || op is SVGFEDropShadow || op is SVGFEIdentity || op
                is SVGFECompositeOver || op is SVGFECompositeXOR || op is SVGFECompositeLighter
                || op is SVGFEBlendNormal || op is SVGFEBlendMultiply || op is SVGFEToAlpha || op
                is SVGFEMorphologyDilate || op is SVGFEMorphologyErode || op
                is SVGFEDisplacementMap ==> drawn == in_used
            &&& op matches FilterGraphOp::SVGFECompositeArithmetic { k1, k2, k3, k4 } ==> {
                let zero = FloatBits(0);
                &&& k4.spec_gt(zero) ==> drawn == in_full
                &&& !k4.spec_gt(zero) && k1.spec_gt(zero) && k2.spec_equals(zero)
                    && k3.spec_equals(zero) ==> drawn == (in_full && first && second)
                &&& !k4.spec_gt(zero) && k2.spec_gt(zero) && k3.spec_equals(zero) ==> drawn == (
                in_full && first)
                &&& !k4.spec_gt(zero) && k2.spec_equals(zero) && k3.spec_gt(zero) ==> drawn == (
                in_full && second)
            }
        }),
{
}

/// Every input contributes to what a node can draw: a pixel of an input, moved by its padding,
/// lies in what all inputs contribute to.
pub proof fn every_input_contributes(
    inputs: Seq<FilterGraphPictureReference>,
    regions: Seq<LayoutRect>,
    i: int,
    x: int,
    y: int,
)
    requires
        0 <= i < inputs.len(),
        covers(input_target(inputs[i], regions), x, y),
    ensures
        covers(inputs_target(inputs, regions), x, y),
    decreases inputs.len(),
{
    let most = inputs.drop_last();
    if i < most.len() {
        assert(most[i] == inputs[i]);
        every_input_contributes(most, regions, i, x, y);
    }
}

/// The inputs of a plan are those of the node, in order, each placed where the node that it
/// names has drawn, moved by its offset, with no padding left.
pub proof fn planned_inputs_are_placed(
    n: DeviceFilterNode,
    regions: Seq<LayoutRect>,
    is_output: bool,
    to: FilterRegions,
    i: int,
    id: u16,
)
    requires
        0 <= i < n.node.inputs@.len(),
        n.node.inputs@[i].buffer_id == FilterOpGraphPictureBufferId::BufferId(id),
        id < regions.len(),
        input_in_range(n.node.inputs@[i]),
        regions[id as int].within(0x2000_0001),
    ensures
        ({
            let p = node_plan(n, regions, is_output, to);
            let input = n.node.inputs@[i];
            let placed = p.node.inputs[i];
            &&& p.op == n.op
            &&& p.node.inputs.len() == n.node.inputs@.len()
            &&& placed.buffer_id == input.buffer_id
            &&& placed.subregion.x0 == regions[id as int].x0 + input.offset_x
            &&& placed.subregion.y0 == regions[id as int].y0 + input.offset_y
            &&& placed.subregion.x1 == regions[id as int].x1 + input.offset_x
            &&& placed.subregion.y1 == regions[id as int].y1 + input.offset_y
            &&& placed.offset_x == 0
            &&& placed.offset_y == 0
            &&& placed.inflate == input.inflate
            &&& placed.target_padding == (LayoutRect { x0: 0, y0: 0, x1: 0, y1: 0 })
            &&& p.node.linear == n.node.linear
            &&& is_output ==> p.node.inflate == 0
            &&& !is_output ==> p.node.inflate == n.node.inflate
        }),
{
}

} // verus!
