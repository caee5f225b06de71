//! The render tasks of a filter graph.

use crate::float_bits::FloatBits;
use crate::internal_types::{BlurEdgeMode, RenderTargetKind, RenderTaskId, SVGFE_GRAPH_MAX};
use crate::render_task::blur::{
    blur_extends_graph, blurred, children_before, depends_backwards, extends, lemma_new_task,
    lemma_source_size, lemma_with_dependency, scaled_source, source_scale, BlurChain,
    BlurTaskCache,
};
use crate::render_task::svg_plan::{NodePlan, NodePlanView, COARSEST_SCALE};
use crate::render_task::{
    fresh_task, BlurTask, sane_size, RenderTask, RenderTaskKind, RenderTaskKindView, RenderTaskLocation,
    RenderTaskView, SVGFEFilterTask, SVGFEFilterTaskView,
};
use crate::render_task_graph::{with_dependency, RenderTaskGraphBuilder, UvRectKind, MAX_TASKS};
use crate::renderer::gpu_buffer::GpuBufferAddress;
use crate::svg_filter::{
    FilterGraphNode, FilterGraphNodeView, FilterGraphOp, FilterGraphPictureReference,
    FilterOpGraphPictureBufferId,
};
use crate::units::{DeviceIntSize, LayoutRect};
use vstd::prelude::*;

verus! {

/// What the drawing of a planned node needs beside the plan.
#[derive(Clone, Copy, Debug, PartialEq, Eq, Structural)]
pub struct NodeDrawing {
    /// How the output of the node is addressed.
    pub uv_rect_kind: UvRectKind,
    /// The deviations of a blur in drawn pixels.
    pub sigma_x: FloatBits,
    pub sigma_y: FloatBits,
    /// The size of a blur's source, and the part of the picture that it covers.
    pub blur_size: DeviceIntSize,
    pub blur_subregion: LayoutRect,
    /// The table that a component transfer reads.
    pub filter_data_address: GpuBufferAddress,
}

pub open spec fn at_least_one(n: int) -> int {
    if n < 1 {
        1
    } else {
        n
    }
}

/// The size of the source of a blur that reads `padded`, a rectangle of drawn pixels.
pub open spec fn blur_source_size(
    padded: LayoutRect,
    sigma_x: FloatBits,
    sigma_y: FloatBits,
) -> (int, int) {
    let size = DeviceIntSize {
        width: at_least_one(padded.x1 - padded.x0) as i32,
        height: at_least_one(padded.y1 - padded.y0) as i32,
    };
    let scale = source_scale(size, sigma_x, sigma_y, 1);
    (scaled_source(size, scale).0 * scale, scaled_source(size, scale).1 * scale)
}

/// The part of the picture that the source of a blur covers, at `p` device pixels to a
/// drawn one. The source may be larger than what is read, and is centered around it.
pub open spec fn blur_source_region(
    padded: LayoutRect,
    sigma_x: FloatBits,
    sigma_y: FloatBits,
    p: int,
) -> LayoutRect {
    let size = blur_source_size(padded, sigma_x, sigma_y);
    let x = padded.x0 + (at_least_one(padded.x1 - padded.x0) - size.0) / 2;
    let y = padded.y0 + (at_least_one(padded.y1 - padded.y0) - size.1) / 2;
    LayoutRect {
        x0: (x * p) as i64,
        y0: (y * p) as i64,
        x1: ((x + size.0) * p) as i64,
        y1: ((y + size.1) * p) as i64,
    }
}

/// What a blur reads can be addressed.
pub open spec fn blur_in_range(padded: LayoutRect, p: int) -> bool {
    &&& padded.within(0x1_0000_0000)
    &&& padded.x1 - padded.x0 <= 0x100_0000
    &&& padded.y1 - padded.y0 <= 0x100_0000
    &&& 1 <= p <= COARSEST_SCALE
}

/// The source of a blur has a pixel for each pixel that the blur reads, and at most one
/// pixel more on one side than on the other.
pub proof fn blur_source_covers_what_is_read(
    padded: LayoutRect,
    sigma_x: FloatBits,
    sigma_y: FloatBits,
    p: int,
)
    requires
        blur_in_range(padded, p),
    ensures
        ({
            let r = blur_source_region(padded, sigma_x, sigma_y, p);
            let size = blur_source_size(padded, sigma_x, sigma_y);
            &&& size.0 >= 1 && size.1 >= 1
            &&& r.x1 - r.x0 == size.0 * p
            &&& r.y1 - r.y0 == size.1 * p
            &&& r.x0 <= padded.x0 * p
            &&& r.y0 <= padded.y0 * p
            &&& padded.x1 * p <= r.x1
            &&& padded.y1 * p <= r.y1
            &&& padded.x0 < padded.x1 ==> {
                let left = padded.x0 * p - r.x0;
                let right = r.x1 - padded.x1 * p;
                left == right || left == right + p
            }
            &&& padded.y0 < padded.y1 ==> {
                let above = padded.y0 * p - r.y0;
                let below = r.y1 - padded.y1 * p;
                above == below || above == below + p
            }
        }),
{
    let w = at_least_one(padded.x1 - padded.x0);
    let h = at_least_one(padded.y1 - padded.y0);
    let size = blur_source_size(padded, sigma_x, sigma_y);
    lemma_source_size(
        DeviceIntSize { width: w as i32, height: h as i32 },
        sigma_x,
        sigma_y,
    );
    lemma_side(padded.x0 as int, padded.x1 as int, size.0, p);
    lemma_side(padded.y0 as int, padded.y1 as int, size.1, p);
}

/// One side of a blur's source.
proof fn lemma_side(from: int, to: int, size: int, p: int)
    requires
        -0x1_0000_0000 <= from <= 0x1_0000_0000,
        -0x1_0000_0000 <= to <= 0x1_0000_0000,
        at_least_one(to - from) <= size <= 0x200_0000,
        1 <= p <= COARSEST_SCALE,
    ensures
        ({
            let x = from + (at_least_one(to - from) - size) / 2;
            &&& i64::MIN <= x * p <= from * p
            &&& to * p <= (x + size) * p <= i64::MAX
            &&& (x + size) * p - x * p == size * p
            &&& from < to ==> {
                let left = from * p - x * p;
                let right = (x + size) * p - to * p;
                left == right || left == right + p
            }
        }),
{
    let n = at_least_one(to - from);
    let x = from + (n - size) / 2;
    let q = (x + size) * p;
    assert(x * p <= from * p && to * p <= q && q - x * p == size * p) by (nonlinear_arith)
        requires
            q == (x + size) * p,
            x <= from,
            to <= x + size,
            p >= 1,
    ;
    assert(-0x4000_0000_0000_0000 - 0x200_0000 * 0x4000_0000 <= x * p) by (nonlinear_arith)
        requires
            -0x1_0000_0000 - 0x200_0000 <= x,
            1 <= p <= 0x4000_0000,
    ;
    assert(q <= 0x4000_0000_0000_0000 + 0x400_0000 * 0x4000_0000) by (nonlinear_arith)
        requires
            q == (x + size) * p,
            x + size <= 0x1_0000_0000 + 0x400_0000,
            1 <= p <= 0x4000_0000,
    ;
    if from < to {
        let left = from - x;
        let right = x + size - to;
        assert(left == right || left == right + 1);
        assert(from * p - x * p == left * p) by (nonlinear_arith)
            requires
                left == from - x,
        ;
        assert(q - to * p == right * p) by (nonlinear_arith)
            requires
                q == (x + size) * p,
                right == x + size - to,
        ;
        assert((right + 1) * p == right * p + p) by (nonlinear_arith);
    }
}

/// Half of a number that is not positive, rounded down.
fn half_below(n: i64) -> (r: i64)
    requires
        -0x1_0000_0000 <= n <= 0,
    ensures
        r == (n as int) / 2,
{
    -((1 - n) / 2)
}

/// The size of a blur's source, and the part of the picture that it covers. The blur
/// reads `padded`, in drawn pixels.
pub fn blur_source(
    padded: &LayoutRect,
    sigma_x: FloatBits,
    sigma_y: FloatBits,
    render_scale: i64,
) -> (r: (DeviceIntSize, LayoutRect))
    requires
        blur_in_range(*padded, render_scale as int),
    ensures
        (r.0.width as int, r.0.height as int) == blur_source_size(*padded, sigma_x, sigma_y),
        r.1 == blur_source_region(*padded, sigma_x, sigma_y, render_scale as int),
{
    let p: i64 = render_scale;
    let mut w: i64 = padded.x1 - padded.x0;
    let mut h: i64 = padded.y1 - padded.y0;
    if w < 1 {
        w = 1;
    }
    if h < 1 {
        h = 1;
    }
    let size = BlurTask::adjusted_blur_source_size(
        DeviceIntSize::new(w as i32, h as i32),
        sigma_x,
        sigma_y,
    );
    proof {
        lemma_source_size(
            DeviceIntSize { width: w as i32, height: h as i32 },
            sigma_x,
            sigma_y,
        );
        lemma_side(padded.x0 as int, padded.x1 as int, size.width as int, p as int);
        lemma_side(padded.y0 as int, padded.y1 as int, size.height as int, p as int);
    }
    let x: i64 = padded.x0 + half_below(w - size.width as i64);
    let y: i64 = padded.y0 + half_below(h - size.height as i64);
    let region = LayoutRect {
        x0: x * p,
        y0: y * p,
        x1: (x + size.width as i64) * p,
        y1: (y + size.height as i64) * p,
    };
    (size, region)
}

/// The graph on the way: the tasks, the task of each node so far, the task that
/// holds the output, and whether some task reads the source picture.
#[verifier::ext_equal]
pub struct FilterGraphState {
    pub graph: Seq<RenderTaskView>,
    pub by_buffer: Seq<RenderTaskId>,
    pub output: RenderTaskId,
    pub reads_source: bool,
}

/// The task that holds an input: that of the node, or the source picture for an
/// input that names no node.
pub open spec fn input_task(
    input: FilterGraphPictureReference,
    by_buffer: Seq<RenderTaskId>,
    original: RenderTaskId,
) -> RenderTaskId {
    match input.buffer_id {
        FilterOpGraphPictureBufferId::NoBuffer => original,
        FilterOpGraphPictureBufferId::BufferId(id) => if (id as int) < by_buffer.len() {
            by_buffer[id as int]
        } else {
            RenderTaskId::spec_invalid()
        },
    }
}

/// A reference to the part of a picture without further placement.
pub open spec fn plain_reference(
    buffer_id: FilterOpGraphPictureBufferId,
    subregion: LayoutRect,
    shift_x: FloatBits,
    shift_y: FloatBits,
) -> FilterGraphPictureReference {
    FilterGraphPictureReference {
        buffer_id,
        subregion,
        offset_x: 0,
        offset_y: 0,
        shift_x,
        shift_y,
        inflate: 0,
        target_padding: LayoutRect::spec_zero(),
    }
}

/// A task that draws a node.
pub open spec fn node_task(
    size: DeviceIntSize,
    node: FilterGraphNodeView,
    op: FilterGraphOp,
    content_origin: (i64, i64),
    extra_gpu_data: Option<GpuBufferAddress>,
    uv_rect_kind: UvRectKind,
) -> RenderTaskView {
    fresh_task(
        RenderTaskLocation::Unallocated { size },
        RenderTaskKindView::SVGFENode(
            SVGFEFilterTaskView { node, op, content_origin, extra_gpu_data },
        ),
        uv_rect_kind,
    )
}

pub open spec fn origin_of(r: LayoutRect) -> (i64, i64) {
    (r.x0, r.y0)
}

/// The graph with a copy of a blur's input, padded with transparent pixels, and
/// with the blur of that copy.
pub open spec fn with_node_blur(
    graph: Seq<RenderTaskView>,
    input: FilterGraphPictureReference,
    source: RenderTaskId,
    content_origin: (i64, i64),
    d: NodeDrawing,
) -> BlurChain {
    let id = RenderTaskId { index: graph.len() as u32 };
    let copy = node_task(
        d.blur_size,
        FilterGraphNodeView {
            kept_by_optimizer: true,
            linear: false,
            inflate: 0,
            inputs: seq![input],
            subregion: d.blur_subregion,
        },
        FilterGraphOp::SVGFEIdentity,
        content_origin,
        None,
        UvRectKind::Rect,
    );
    blurred(
        BlurChain {
            graph: with_dependency(graph.push(copy), id, source),
            cache: Map::empty(),
            source: id,
            size: d.blur_size,
            sigma_x: d.sigma_x,
            sigma_y: d.sigma_y,
            level: 1,
        },
        RenderTargetKind::Color,
        d.blur_size,
        BlurEdgeMode::Duplicate,
    )
}

/// The graph in which a task depends on each of its inputs that has a task.
pub open spec fn with_inputs(
    graph: Seq<RenderTaskView>,
    task: RenderTaskId,
    inputs: Seq<FilterGraphPictureReference>,
    by_buffer: Seq<RenderTaskId>,
    original: RenderTaskId,
) -> Seq<RenderTaskView>
    decreases inputs.len(),
{
    if inputs.len() == 0 {
        graph
    } else {
        let g = with_inputs(graph, task, inputs.drop_last(), by_buffer, original);
        let input = input_task(inputs.last(), by_buffer, original);
        if input == RenderTaskId::spec_invalid() {
            g
        } else {
            with_dependency(g, task, input)
        }
    }
}

/// One of the inputs is the source picture.
pub open spec fn has_source_input(
    inputs: Seq<FilterGraphPictureReference>,
    by_buffer: Seq<RenderTaskId>,
    original: RenderTaskId,
) -> bool {
    exists|i: int|
        0 <= i < inputs.len() && input_task(#[trigger] inputs[i], by_buffer, original) == original
}

/// What drawing a node makes of the graph, with the task that holds its output
/// and whether the source picture was read.
#[verifier::opaque]
pub open spec fn drawn_node(
    graph: Seq<RenderTaskView>,
    by_buffer: Seq<RenderTaskId>,
    original: RenderTaskId,
    source_subregion: LayoutRect,
    p: NodePlanView,
    d: NodeDrawing,
) -> (Seq<RenderTaskView>, RenderTaskId, bool) {
    let origin = origin_of(p.task_rect);
    match p.op {
        FilterGraphOp::SVGFEGaussianBlur { .. } => {
            let input = p.node.inputs[0];
            let source = input_task(input, by_buffer, original);
            let b = with_node_blur(graph, input, source, (0i64, 0i64), d);
            let id = RenderTaskId { index: b.graph.len() as u32 };
            let task = node_task(
                p.task_size,
                FilterGraphNodeView {
                    inputs: seq![
                        plain_reference(
                            input.buffer_id,
                            d.blur_subregion,
                            FloatBits(0),
                            FloatBits(0),
                        ),
                    ],
                    ..p.node
                },
                FilterGraphOp::SVGFEIdentity,
                origin,
                None,
                d.uv_rect_kind,
            );
            (with_dependency(b.graph.push(task), id, b.source), id, false)
        },
        FilterGraphOp::SVGFEDropShadow { color, dx, dy, .. } => {
            let input = p.node.inputs[0];
            let source = input_task(input, by_buffer, original);
            let b = with_node_blur(graph, input, source, origin, d);
            let id = RenderTaskId { index: b.graph.len() as u32 };
            let task = node_task(
                p.task_size,
                FilterGraphNodeView {
                    inputs: seq![
                        input,
                        plain_reference(input.buffer_id, d.blur_subregion, dx, dy),
                    ],
                    ..p.node
                },
                FilterGraphOp::SVGFEDropShadow {
                    color,
                    dx: FloatBits(0),
                    dy: FloatBits(0),
                    std_deviation_x: FloatBits(0),
                    std_deviation_y: FloatBits(0),
                },
                origin,
                None,
                d.uv_rect_kind,
            );
            (
                with_dependency(with_dependency(b.graph.push(task), id, source), id, b.source),
                id,
                false,
            )
        },
        FilterGraphOp::SVGFESourceAlpha | FilterGraphOp::SVGFESourceGraphic => {
            let id = RenderTaskId { index: graph.len() as u32 };
            let task = node_task(
                p.task_size,
                FilterGraphNodeView {
                    inputs: seq![
                        plain_reference(
                            FilterOpGraphPictureBufferId::NoBuffer,
                            source_subregion,
                            FloatBits(0),
                            FloatBits(0),
                        ),
                    ],
                    subregion: source_subregion,
                    ..p.node
                },
                p.op,
                origin_of(source_subregion),
                None,
                d.uv_rect_kind,
            );
            (with_dependency(graph.push(task), id, original), id, true)
        },
        _ => {
            let id = RenderTaskId { index: graph.len() as u32 };
            let extra = if p.op is SVGFEComponentTransferInterned {
                Some(d.filter_data_address)
            } else {
                None
            };
            let task = node_task(p.task_size, p.node, p.op, origin, extra, d.uv_rect_kind);
            (
                with_inputs(graph.push(task), id, p.node.inputs, by_buffer, original),
                id,
                has_source_input(p.node.inputs, by_buffer, original),
            )
        },
    }
}

/// The graph once a node, or the place of a dropped one, is dealt with.
pub open spec fn next_state(
    s: FilterGraphState,
    original: RenderTaskId,
    source_subregion: LayoutRect,
    plan: Option<NodePlanView>,
    d: NodeDrawing,
) -> FilterGraphState {
    match plan {
        None => FilterGraphState { by_buffer: s.by_buffer.push(RenderTaskId::spec_invalid()), ..s },
        Some(p) => {
            let drawn = drawn_node(s.graph, s.by_buffer, original, source_subregion, p, d);
            FilterGraphState {
                graph: drawn.0,
                by_buffer: s.by_buffer.push(drawn.1),
                output: drawn.1,
                reads_source: s.reads_source || drawn.2,
            }
        },
    }
}

/// The graph after the first `count` nodes.
pub open spec fn state_after(
    graph: Seq<RenderTaskView>,
    original: RenderTaskId,
    source_subregion: LayoutRect,
    plans: Seq<Option<NodePlanView>>,
    drawings: Seq<NodeDrawing>,
    count: int,
) -> FilterGraphState
    decreases count,
{
    if count <= 0 {
        FilterGraphState { graph, by_buffer: Seq::empty(), output: original, reads_source: false }
    } else {
        next_state(
            state_after(graph, original, source_subregion, plans, drawings, count - 1),
            original,
            source_subregion,
            plans[count - 1],
            drawings[count - 1],
        )
    }
}

/// The finished graph. Where nothing read the source picture, the output is made
/// to depend on it all the same, so that it is not left without a use.
pub open spec fn finished(s: FilterGraphState, original: RenderTaskId) -> Seq<RenderTaskView> {
    if !s.reads_source && s.output != original {
        with_dependency(s.graph, s.output, original)
    } else {
        s.graph
    }
}

/// A plan that can be drawn: its size is one of a task, and a blur has one input,
/// which has a task, and a source of a size that can be drawn.
pub open spec fn drawable(
    plan: Option<NodePlanView>,
    d: NodeDrawing,
    by_buffer: Seq<RenderTaskId>,
    original: RenderTaskId,
) -> bool {
    plan matches Some(p) ==> {
        &&& !p.task_size.spec_is_empty()
        &&& sane_size(p.task_size)
        &&& !(p.op is SVGFEComponentTransfer)
        &&& (p.op is SVGFEGaussianBlur || p.op is SVGFEDropShadow ==> {
            &&& p.node.inputs.len() == 1
            &&& input_task(p.node.inputs[0], by_buffer, original) != RenderTaskId::spec_invalid()
            &&& !d.blur_size.spec_is_empty()
            &&& sane_size(d.blur_size)
        })
    }
}

/// All tasks named so far are tasks of the graph.
pub open spec fn state_ok(s: FilterGraphState) -> bool {
    &&& s.output.index < s.graph.len()
    &&& forall|i: int|
        0 <= i < s.by_buffer.len() ==> (#[trigger] s.by_buffer[i]) == RenderTaskId::spec_invalid()
            || s.by_buffer[i].index < s.graph.len()
}

/// Some task from `from` on depends on `id`.
pub open spec fn is_read(graph: Seq<RenderTaskView>, from: nat, id: RenderTaskId) -> bool {
    exists|i: int, k: int|
        from <= i < graph.len() && 0 <= k < graph[i].children.len() && #[trigger] graph[i].children[k]
            == id.index
}

proof fn lemma_node_blur(
    graph: Seq<RenderTaskView>,
    input: FilterGraphPictureReference,
    source: RenderTaskId,
    content_origin: (i64, i64),
    d: NodeDrawing,
    from: nat,
)
    requires
        graph.len() + 100 <= MAX_TASKS,
        source.index < graph.len(),
        depends_backwards(graph, from),
    ensures
        ({
            let b = with_node_blur(graph, input, source, content_origin, d);
            &&& extends(b.graph, graph)
            &&& b.source.index < b.graph.len()
            &&& b.graph.len() <= graph.len() + 35
            &&& depends_backwards(b.graph, from)
        }),
{
    let id = RenderTaskId { index: graph.len() as u32 };
    let copy = node_task(
        d.blur_size,
        FilterGraphNodeView {
            kept_by_optimizer: true,
            linear: false,
            inflate: 0,
            inputs: seq![input],
            subregion: d.blur_subregion,
        },
        FilterGraphOp::SVGFEIdentity,
        content_origin,
        None,
        UvRectKind::Rect,
    );
    lemma_new_task(graph, copy, source, from);
    let start = BlurChain {
        graph: with_dependency(graph.push(copy), id, source),
        cache: Map::empty(),
        source: id,
        size: d.blur_size,
        sigma_x: d.sigma_x,
        sigma_y: d.sigma_y,
        level: 1,
    };
    blur_extends_graph(
        start,
        RenderTargetKind::Color,
        d.blur_size,
        BlurEdgeMode::Duplicate,
        from,
    );
}

proof fn lemma_with_inputs(
    graph: Seq<RenderTaskView>,
    task: RenderTaskId,
    inputs: Seq<FilterGraphPictureReference>,
    by_buffer: Seq<RenderTaskId>,
    original: RenderTaskId,
    from: nat,
)
    requires
        task.index == graph.len() - 1,
        from <= task.index,
        original.index < task.index,
        original != RenderTaskId::spec_invalid(),
        forall|i: int|
            0 <= i < by_buffer.len() ==> (#[trigger] by_buffer[i]) == RenderTaskId::spec_invalid()
                || by_buffer[i].index < task.index,
        depends_backwards(graph, from),
    ensures
        ({
            let g = with_inputs(graph, task, inputs, by_buffer, original);
            &&& g.len() == graph.len()
            &&& extends(g, graph.drop_last())
            &&& depends_backwards(g, from)
            &&& has_source_input(inputs, by_buffer, original) ==> exists|k: int|
                0 <= k < g[task.index as int].children.len()
                    && #[trigger] g[task.index as int].children[k] == original.index
        }),
    decreases inputs.len(),
{
    if inputs.len() > 0 {
        let before = with_inputs(graph, task, inputs.drop_last(), by_buffer, original);
        lemma_with_inputs(graph, task, inputs.drop_last(), by_buffer, original, from);
        let input = input_task(inputs.last(), by_buffer, original);
        let t = task.index as int;
        let g = with_inputs(graph, task, inputs, by_buffer, original);
        if input != RenderTaskId::spec_invalid() {
            lemma_with_dependency(before, task, input, from);
            assert(before.drop_last() =~= graph.drop_last());
            assert(g[t].children == before[t].children.push(input.index));
        }
        if has_source_input(inputs, by_buffer, original) {
            if input == original {
                assert(g[t].children[g[t].children.len() - 1] == original.index);
            } else {
                assert(has_source_input(inputs.drop_last(), by_buffer, original)) by {
                    let i = choose|i: int|
                        0 <= i < inputs.len() && input_task(
                            #[trigger] inputs[i],
                            by_buffer,
                            original,
                        ) == original;
                    assert(inputs.drop_last()[i] == inputs[i]);
                }
                let k = choose|k: int|
                    0 <= k < before[t].children.len() && #[trigger] before[t].children[k]
                        == original.index;
                assert(g[t].children[k] == original.index);
            }
        }
    }
}

proof fn lemma_push_fresh(graph: Seq<RenderTaskView>, task: RenderTaskView, from: nat)
    requires
        task.children.len() == 0,
        depends_backwards(graph, from),
    ensures
        depends_backwards(graph.push(task), from),
{
    let g = graph.push(task);
    assert forall|i: int| from <= i < g.len() implies children_before(#[trigger] g[i], i) by {
        if i < graph.len() {
            assert(g[i] == graph[i]);
        }
    }
}

/// The tasks of a node come after those that are there, and depend on earlier ones.
pub proof fn lemma_drawn_node(
    s: FilterGraphState,
    original: RenderTaskId,
    source_subregion: LayoutRect,
    p: NodePlanView,
    d: NodeDrawing,
    from: nat,
)
    requires
        state_ok(s),
        s.graph.len() + 200 <= MAX_TASKS,
        from <= s.graph.len(),
        original.index < from,
        depends_backwards(s.graph, from),
        drawable(Some(p), d, s.by_buffer, original),
    ensures
        ({
            let n = drawn_node(s.graph, s.by_buffer, original, source_subregion, p, d);
            &&& extends(n.0, s.graph)
            &&& from <= n.1.index < n.0.len()
            &&& n.0.len() <= s.graph.len() + 36
            &&& depends_backwards(n.0, from)
            &&& n.2 ==> is_read(n.0, from, original)
        }),
{
    reveal(drawn_node);
    let n = drawn_node(s.graph, s.by_buffer, original, source_subregion, p, d);
    let origin = origin_of(p.task_rect);
    let id = n.1;
    match p.op {
        FilterGraphOp::SVGFEGaussianBlur { .. } => {
            let input = p.node.inputs[0];
            let source = input_task(input, s.by_buffer, original);
            let b = with_node_blur(s.graph, input, source, (0i64, 0i64), d);
            lemma_node_blur(s.graph, input, source, (0i64, 0i64), d, from);
            let task = node_task(
                p.task_size,
                FilterGraphNodeView {
                    inputs: seq![
                        plain_reference(
                            input.buffer_id,
                            d.blur_subregion,
                            FloatBits(0),
                            FloatBits(0),
                        ),
                    ],
                    ..p.node
                },
                FilterGraphOp::SVGFEIdentity,
                origin,
                None,
                d.uv_rect_kind,
            );
            lemma_new_task(b.graph, task, b.source, from);
        },
        FilterGraphOp::SVGFEDropShadow { color, dx, dy, .. } => {
            let input = p.node.inputs[0];
            let source = input_task(input, s.by_buffer, original);
            let b = with_node_blur(s.graph, input, source, origin, d);
            lemma_node_blur(s.graph, input, source, origin, d, from);
            let task = node_task(
                p.task_size,
                FilterGraphNodeView {
                    inputs: seq![
                        input,
                        plain_reference(input.buffer_id, d.blur_subregion, dx, dy),
                    ],
                    ..p.node
                },
                FilterGraphOp::SVGFEDropShadow {
                    color,
                    dx: FloatBits(0),
                    dy: FloatBits(0),
                    std_deviation_x: FloatBits(0),
                    std_deviation_y: FloatBits(0),
                },
                origin,
                None,
                d.uv_rect_kind,
            );
            lemma_new_task(b.graph, task, source, from);
            let g1 = with_dependency(b.graph.push(task), id, source);
            lemma_with_dependency(g1, id, b.source, from);
            assert(g1.drop_last() =~= b.graph);
        },
        FilterGraphOp::SVGFESourceAlpha | FilterGraphOp::SVGFESourceGraphic => {
            let task = node_task(
                p.task_size,
                FilterGraphNodeView {
                    inputs: seq![
                        plain_reference(
                            FilterOpGraphPictureBufferId::NoBuffer,
                            source_subregion,
                            FloatBits(0),
                            FloatBits(0),
                        ),
                    ],
                    subregion: source_subregion,
                    ..p.node
                },
                p.op,
                origin_of(source_subregion),
                None,
                d.uv_rect_kind,
            );
            lemma_new_task(s.graph, task, original, from);
            assert(n.0[id.index as int].children[0] == original.index);
        },
        _ => {
            let extra = if p.op is SVGFEComponentTransferInterned {
                Some(d.filter_data_address)
            } else {
                None
            };
            let task = node_task(p.task_size, p.node, p.op, origin, extra, d.uv_rect_kind);
            lemma_push_fresh(s.graph, task, from);
            lemma_with_inputs(
                s.graph.push(task),
                id,
                p.node.inputs,
                s.by_buffer,
                original,
                from,
            );
            assert(s.graph.push(task).drop_last() =~= s.graph);
        },
    }
}

/// A task that is read stays read when tasks are added.
proof fn lemma_still_read(
    before: Seq<RenderTaskView>,
    after: Seq<RenderTaskView>,
    from: nat,
    id: RenderTaskId,
)
    requires
        extends(after, before),
        is_read(before, from, id),
    ensures
        is_read(after, from, id),
{
    let (i, k) = choose|i: int, k: int|
        from <= i < before.len() && 0 <= k < before[i].children.len()
            && #[trigger] before[i].children[k] == id.index;
    assert(after[i] == before[i]);
    assert(after[i].children[k] == id.index);
}

proof fn lemma_next_state(
    s: FilterGraphState,
    original: RenderTaskId,
    source_subregion: LayoutRect,
    plan: Option<NodePlanView>,
    d: NodeDrawing,
    from: nat,
)
    requires
        state_ok(s),
        s.graph.len() + 200 <= MAX_TASKS,
        from <= s.graph.len(),
        original.index < from,
        s.output == original || from <= s.output.index,
        depends_backwards(s.graph, from),
        s.reads_source ==> is_read(s.graph, from, original),
        drawable(plan, d, s.by_buffer, original),
    ensures
        ({
            let t = next_state(s, original, source_subregion, plan, d);
            &&& state_ok(t)
            &&& extends(t.graph, s.graph)
            &&& t.graph.len() <= s.graph.len() + 36
            &&& t.output == original || from <= t.output.index
            &&& plan is Some ==> t.by_buffer.last() != RenderTaskId::spec_invalid()
            &&& depends_backwards(t.graph, from)
            &&& t.reads_source ==> is_read(t.graph, from, original)
        }),
{
    if plan is Some {
        lemma_drawn_node(s, original, source_subregion, plan->0, d, from);
        let n = drawn_node(s.graph, s.by_buffer, original, source_subregion, plan->0, d);
        if s.reads_source {
            lemma_still_read(s.graph, n.0, from, original);
        }
    }
}

/// A node that is kept, or no node.
pub open spec fn names_kept_node(
    input: FilterGraphPictureReference,
    plans: Seq<Option<NodePlanView>>,
    before: int,
) -> bool {
    match input.buffer_id {
        FilterOpGraphPictureBufferId::NoBuffer => true,
        FilterOpGraphPictureBufferId::BufferId(id) => id < before && plans[id as int] is Some,
    }
}

/// Every plan can be drawn: its size is one of a task, and a blur has one input,
/// an earlier node that is kept or no node, and a source of a size that can be drawn.
pub open spec fn all_drawable(
    plans: Seq<Option<NodePlanView>>,
    drawings: Seq<NodeDrawing>,
) -> bool {
    forall|i: int|
        #![trigger plans[i]]
        0 <= i < plans.len() ==> (plans[i] matches Some(p) ==> {
            &&& !p.task_size.spec_is_empty()
            &&& sane_size(p.task_size)
            &&& !(p.op is SVGFEComponentTransfer)
            &&& (p.op is SVGFEGaussianBlur || p.op is SVGFEDropShadow ==> {
                &&& p.node.inputs.len() == 1
                &&& names_kept_node(p.node.inputs[0], plans, i)
                &&& !drawings[i].blur_size.spec_is_empty()
                &&& sane_size(drawings[i].blur_size)
            })
        })
}

/// The graph on the way stays well-formed, and each next node can be drawn.
pub proof fn lemma_state_after(
    graph: Seq<RenderTaskView>,
    original: RenderTaskId,
    source_subregion: LayoutRect,
    plans: Seq<Option<NodePlanView>>,
    drawings: Seq<NodeDrawing>,
    count: int,
)
    requires
        0 <= count <= plans.len() <= SVGFE_GRAPH_MAX,
        graph.len() + 0x1_0000 <= MAX_TASKS,
        original.index < graph.len(),
        all_drawable(plans, drawings),
    ensures
        ({
            let s = state_after(graph, original, source_subregion, plans, drawings, count);
            &&& state_ok(s)
            &&& s.by_buffer.len() == count
            &&& forall|j: int|
                #![trigger s.by_buffer[j]]
                0 <= j < count && plans[j] is Some ==> s.by_buffer[j]
                    != RenderTaskId::spec_invalid()
            &&& count < plans.len() ==> drawable(
                plans[count],
                drawings[count],
                s.by_buffer,
                original,
            )
            &&& extends(s.graph, graph)
            &&& s.graph.len() <= graph.len() + 36 * count
            &&& s.output == original || graph.len() <= s.output.index
            &&& depends_backwards(s.graph, graph.len())
            &&& s.reads_source ==> is_read(s.graph, graph.len(), original)
        }),
    decreases count,
{
    if count > 0 {
        lemma_state_after(graph, original, source_subregion, plans, drawings, count - 1);
        let s = state_after(graph, original, source_subregion, plans, drawings, count - 1);
        lemma_next_state(
            s,
            original,
            source_subregion,
            plans[count - 1],
            drawings[count - 1],
            graph.len(),
        );
    }
    if count < plans.len() && plans[count] is Some {
        let p = plans[count]->0;
        let s = state_after(graph, original, source_subregion, plans, drawings, count);
        if p.op is SVGFEGaussianBlur || p.op is SVGFEDropShadow {
            assert(names_kept_node(p.node.inputs[0], plans, count));
            if let FilterOpGraphPictureBufferId::BufferId(id) = p.node.inputs[0].buffer_id {
                assert(s.by_buffer[id as int] != RenderTaskId::spec_invalid());
            }
        }
    }
}

/// The tasks of a filter graph are added after those that are there, which stay
/// as they were. Each new task depends only on earlier tasks. The output is a task of the
/// graph before a dependency on the source picture is added to it. Unless the output is
/// the source picture itself, some new task depends on the source picture.
pub proof fn filter_graph_is_linked(
    graph: Seq<RenderTaskView>,
    original: RenderTaskId,
    source_subregion: LayoutRect,
    plans: Seq<Option<NodePlanView>>,
    drawings: Seq<NodeDrawing>,
)
    requires
        plans.len() <= SVGFE_GRAPH_MAX,
        graph.len() + 0x1_0000 <= MAX_TASKS,
        original.index < graph.len(),
        all_drawable(plans, drawings),
    ensures
        ({
            let s = state_after(
                graph,
                original,
                source_subregion,
                plans,
                drawings,
                plans.len() as int,
            );
            let g = finished(s, original);
            &&& extends(g, graph)
            &&& depends_backwards(g, graph.len())
            &&& s.output.index < s.graph.len()
            &&& s.output == original || graph.len() <= s.output.index < g.len()
            &&& s.output != original ==> is_read(g, graph.len(), original)
        }),
{
    lemma_state_after(
        graph,
        original,
        source_subregion,
        plans,
        drawings,
        plans.len() as int,
    );
    let s = state_after(graph, original, source_subregion, plans, drawings, plans.len() as int);
    if !s.reads_source && s.output != original {
        let g = finished(s, original);
        let t = s.output.index as int;
        let last = s.graph[t].children.len() as int;
        assert(g[t].children[last] == original.index);
        assert forall|i: int| graph.len() <= i < g.len() implies children_before(
            #[trigger] g[i],
            i,
        ) by {
            assert(children_before(s.graph[i], i));
            if i == t {
                assert forall|k: int| 0 <= k < g[i].children.len() implies #[trigger] g[i].children[
                k] < i by {
                    if k < last {
                        assert(s.graph[i].children[k] < i);
                    }
                }
            }
        }
    }
}

fn task_of_input(
    input: &FilterGraphPictureReference,
    by_buffer: &Vec<RenderTaskId>,
    original: RenderTaskId,
) -> (r: RenderTaskId)
    ensures
        r == input_task(*input, by_buffer@, original),
{
    match input.buffer_id {
        FilterOpGraphPictureBufferId::NoBuffer => original,
        FilterOpGraphPictureBufferId::BufferId(id) => {
            if (id as usize) < by_buffer.len() {
                by_buffer[id as usize]
            } else {
                RenderTaskId::invalid()
            }
        },
    }
}

fn reference_to(
    buffer_id: FilterOpGraphPictureBufferId,
    subregion: LayoutRect,
    shift_x: FloatBits,
    shift_y: FloatBits,
) -> (r: FilterGraphPictureReference)
    ensures
        r == plain_reference(buffer_id, subregion, shift_x, shift_y),
{
    FilterGraphPictureReference {
        buffer_id,
        subregion,
        offset_x: 0,
        offset_y: 0,
        shift_x,
        shift_y,
        inflate: 0,
        target_padding: LayoutRect::zero(),
    }
}

fn copied(inputs: &Vec<FilterGraphPictureReference>) -> (r: Vec<FilterGraphPictureReference>)
    ensures
        r@ == inputs@,
{
    let mut list: Vec<FilterGraphPictureReference> = Vec::new();
    let mut i: usize = 0;
    while i < inputs.len()
        invariant
            i <= inputs@.len(),
            list@ == inputs@.take(i as int),
        decreases inputs@.len() - i,
    {
        list.push(inputs[i]);
        i = i + 1;
        assert(list@ =~= inputs@.take(i as int));
    }
    assert(inputs@.take(i as int) =~= inputs@);
    list
}

fn new_node_task(
    size: DeviceIntSize,
    node: FilterGraphNode,
    op: FilterGraphOp,
    content_origin: (i64, i64),
    extra_gpu_data: Option<GpuBufferAddress>,
    uv_rect_kind: UvRectKind,
) -> (r: RenderTask)
    requires
        !size.spec_is_empty(),
        sane_size(size),
    ensures
        r@ == node_task(size, node@, op, content_origin, extra_gpu_data, uv_rect_kind),
{
    RenderTask::new_dynamic(
        size,
        RenderTaskKind::SVGFENode(SVGFEFilterTask { node, op, content_origin, extra_gpu_data }),
    ).with_uv_rect_kind(uv_rect_kind)
}

/// Adds a padded copy of a blur's input and the blur of the copy.
fn add_node_blur(
    rg_builder: &mut RenderTaskGraphBuilder,
    input: FilterGraphPictureReference,
    source: RenderTaskId,
    content_origin: (i64, i64),
    d: &NodeDrawing,
) -> (r: RenderTaskId)
    requires
        old(rg_builder)@.len() + 100 <= MAX_TASKS,
        source.index < old(rg_builder)@.len(),
        !d.blur_size.spec_is_empty(),
        sane_size(d.blur_size),
    ensures
        ({
            let b = with_node_blur(old(rg_builder)@, input, source, content_origin, *d);
            &&& final(rg_builder)@ == b.graph
            &&& r == b.source
        }),
        final(rg_builder).sub_tasks == old(rg_builder).sub_tasks,
{
    let mut inputs: Vec<FilterGraphPictureReference> = Vec::new();
    inputs.push(input);
    assert(inputs@ =~= seq![input]);
    let copy = rg_builder.add_task(
        new_node_task(
            d.blur_size,
            FilterGraphNode {
                kept_by_optimizer: true,
                linear: false,
                inflate: 0,
                inputs,
                subregion: d.blur_subregion,
            },
            FilterGraphOp::SVGFEIdentity,
            content_origin,
            None,
            UvRectKind::Rect,
        ),
    );
    rg_builder.add_dependency(copy, source);
    let mut cache = BlurTaskCache::new();
    RenderTask::new_blur(
        d.sigma_x,
        d.sigma_y,
        copy,
        rg_builder,
        RenderTargetKind::Color,
        &mut cache,
        d.blur_size,
        BlurEdgeMode::Duplicate,
    )
}

/// Makes a task depend on those of its inputs that have a task, and tells whether
/// one of them is the source picture.
fn add_inputs(
    rg_builder: &mut RenderTaskGraphBuilder,
    task: RenderTaskId,
    inputs: &Vec<FilterGraphPictureReference>,
    by_buffer: &Vec<RenderTaskId>,
    original: RenderTaskId,
) -> (r: bool)
    requires
        task.index < old(rg_builder)@.len(),
    ensures
        final(rg_builder)@ == with_inputs(
            old(rg_builder)@,
            task,
            inputs@,
            by_buffer@,
            original,
        ),
        r == has_source_input(inputs@, by_buffer@, original),
        final(rg_builder).sub_tasks == old(rg_builder).sub_tasks,
{
    let mut reads_source: bool = false;
    let mut i: usize = 0;
    while i < inputs.len()
        invariant
            i <= inputs@.len(),
            task.index < rg_builder@.len(),
            rg_builder@ == with_inputs(
                old(rg_builder)@,
                task,
                inputs@.take(i as int),
                by_buffer@,
                original,
            ),
            reads_source == has_source_input(inputs@.take(i as int), by_buffer@, original),
            rg_builder.sub_tasks == old(rg_builder).sub_tasks,
        decreases inputs@.len() - i,
    {
        let input = task_of_input(&inputs[i], by_buffer, original);
        let ghost before = inputs@.take(i as int);
        let ghost after = inputs@.take(i + 1);
        proof {
            assert(after.drop_last() =~= before);
            assert(after.last() == inputs@[i as int]);
            if has_source_input(before, by_buffer@, original) {
                let k = choose|k: int|
                    0 <= k < before.len() && input_task(
                        #[trigger] before[k],
                        by_buffer@,
                        original,
                    ) == original;
                assert(after[k] == before[k]);
                assert(has_source_input(after, by_buffer@, original));
            }
            if has_source_input(after, by_buffer@, original) && input != original {
                let k = choose|k: int|
                    0 <= k < after.len() && input_task(#[trigger] after[k], by_buffer@, original)
                        == original;
                assert(before[k] == after[k]);
            }
        }
        if input == original {
            reads_source = true;
            assert(input_task(after[i as int], by_buffer@, original) == original);
        }
        if input != RenderTaskId::invalid() {
            rg_builder.add_dependency(task, input);
        }
        i = i + 1;
    }
    assert(inputs@.take(i as int) =~= inputs@);
    reads_source
}

/// Adds the tasks of one node.
fn draw_node(
    rg_builder: &mut RenderTaskGraphBuilder,
    by_buffer: &Vec<RenderTaskId>,
    original: RenderTaskId,
    source_subregion: LayoutRect,
    p: &NodePlan,
    d: &NodeDrawing,
) -> (r: (RenderTaskId, bool))
    requires
        old(rg_builder)@.len() + 200 <= MAX_TASKS,
        original.index < old(rg_builder)@.len(),
        forall|i: int|
            0 <= i < by_buffer@.len() ==> (#[trigger] by_buffer@[i]) == RenderTaskId::spec_invalid()
                || by_buffer@[i].index < old(rg_builder)@.len(),
        drawable(Some(p@), *d, by_buffer@, original),
    ensures
        (final(rg_builder)@, r.0, r.1) == drawn_node(
            old(rg_builder)@,
            by_buffer@,
            original,
            source_subregion,
            p@,
            *d,
        ),
        final(rg_builder).sub_tasks == old(rg_builder).sub_tasks,
{
    proof {
        reveal(drawn_node);
    }
    let origin: (i64, i64) = (p.task_rect.x0, p.task_rect.y0);
    let mut inputs: Vec<FilterGraphPictureReference> = Vec::new();
    match p.op {
        FilterGraphOp::SVGFEGaussianBlur { .. } => {
            let input = p.node.inputs[0];
            let source = task_of_input(&input, by_buffer, original);
            proof {
                lemma_node_blur(
                    rg_builder@,
                    input,
                    source,
                    (0i64, 0i64),
                    *d,
                    rg_builder@.len(),
                );
            }
            let blur = add_node_blur(rg_builder, input, source, (0, 0), d);
            inputs.push(
                reference_to(input.buffer_id, d.blur_subregion, FloatBits(0), FloatBits(0)),
            );
            assert(inputs@ =~= seq![
                plain_reference(
                    input.buffer_id,
                    d.blur_subregion,
                    FloatBits(0),
                    FloatBits(0),
                ),
            ]);
            let id = rg_builder.add_task(
                new_node_task(
                    p.task_size,
                    FilterGraphNode {
                        kept_by_optimizer: p.node.kept_by_optimizer,
                        linear: p.node.linear,
                        inflate: p.node.inflate,
                        inputs,
                        subregion: p.node.subregion,
                    },
                    FilterGraphOp::SVGFEIdentity,
                    origin,
                    None,
                    d.uv_rect_kind,
                ),
            );
            rg_builder.add_dependency(id, blur);
            (id, false)
        },
        FilterGraphOp::SVGFEDropShadow { color, dx, dy, .. } => {
            let input = p.node.inputs[0];
            let source = task_of_input(&input, by_buffer, original);
            proof {
                lemma_node_blur(rg_builder@, input, source, origin, *d, rg_builder@.len());
            }
            let blur = add_node_blur(rg_builder, input, source, origin, d);
            inputs.push(input);
            inputs.push(reference_to(input.buffer_id, d.blur_subregion, dx, dy));
            assert(inputs@ =~= seq![
                input,
                plain_reference(input.buffer_id, d.blur_subregion, dx, dy),
            ]);
            let id = rg_builder.add_task(
                new_node_task(
                    p.task_size,
                    FilterGraphNode {
                        kept_by_optimizer: p.node.kept_by_optimizer,
                        linear: p.node.linear,
                        inflate: p.node.inflate,
                        inputs,
                        subregion: p.node.subregion,
                    },
                    FilterGraphOp::SVGFEDropShadow {
                        color,
                        dx: FloatBits(0),
                        dy: FloatBits(0),
                        std_deviation_x: FloatBits(0),
                        std_deviation_y: FloatBits(0),
                    },
                    origin,
                    None,
                    d.uv_rect_kind,
                ),
            );
            rg_builder.add_dependency(id, source);
            rg_builder.add_dependency(id, blur);
            (id, false)
        },
        FilterGraphOp::SVGFESourceAlpha | FilterGraphOp::SVGFESourceGraphic => {
            inputs.push(
                reference_to(
                    FilterOpGraphPictureBufferId::NoBuffer,
                    source_subregion,
                    FloatBits(0),
                    FloatBits(0),
                ),
            );
            assert(inputs@ =~= seq![
                plain_reference(
                    FilterOpGraphPictureBufferId::NoBuffer,
                    source_subregion,
                    FloatBits(0),
                    FloatBits(0),
                ),
            ]);
            let id = rg_builder.add_task(
                new_node_task(
                    p.task_size,
                    FilterGraphNode {
                        kept_by_optimizer: p.node.kept_by_optimizer,
                        linear: p.node.linear,
                        inflate: p.node.inflate,
                        inputs,
                        subregion: source_subregion,
                    },
                    p.op,
                    (source_subregion.x0, source_subregion.y0),
                    None,
                    d.uv_rect_kind,
                ),
            );
            rg_builder.add_dependency(id, original);
            (id, true)
        },
        _ => {
            let extra = match p.op {
                FilterGraphOp::SVGFEComponentTransferInterned { .. } => Some(d.filter_data_address),
                _ => None,
            };
            let id = rg_builder.add_task(
                new_node_task(
                    p.task_size,
                    FilterGraphNode {
                        kept_by_optimizer: p.node.kept_by_optimizer,
                        linear: p.node.linear,
                        inflate: p.node.inflate,
                        inputs: copied(&p.node.inputs),
                        subregion: p.node.subregion,
                    },
                    p.op,
                    origin,
                    extra,
                    d.uv_rect_kind,
                ),
            );
            let reads_source: bool = add_inputs(
                rg_builder,
                id,
                &p.node.inputs,
                by_buffer,
                original,
            );
            (id, reads_source)
        },
    }
}

/// The plans as mathematical values.
pub open spec fn plan_views(plans: Seq<Option<NodePlan>>) -> Seq<Option<NodePlanView>> {
    plans.map_values(
        |plan: Option<NodePlan>|
            match plan {
                Some(p) => Some(p@),
                None => None,
            },
    )
}

impl RenderTask {
    /// Adds the tasks of a planned filter graph, and gives the one that holds the
    /// output: the source picture where no node is kept.
    pub fn new_svg_filter_graph(
        plans: &Vec<Option<NodePlan>>,
        drawings: &Vec<NodeDrawing>,
        rg_builder: &mut RenderTaskGraphBuilder,
        original: RenderTaskId,
        source_subregion: LayoutRect,
    ) -> (r: RenderTaskId)
        requires
            plans@.len() <= SVGFE_GRAPH_MAX,
            drawings@.len() == plans@.len(),
            old(rg_builder)@.len() + 0x1_0000 <= MAX_TASKS,
            original.index < old(rg_builder)@.len(),
            all_drawable(plan_views(plans@), drawings@),
        ensures
            ({
                let s = state_after(
                    old(rg_builder)@,
                    original,
                    source_subregion,
                    plan_views(plans@),
                    drawings@,
                    plans@.len() as int,
                );
                &&& final(rg_builder)@ == finished(s, original)
                &&& r == s.output
            }),
            final(rg_builder).sub_tasks == old(rg_builder).sub_tasks,
    {
        let mut by_buffer: Vec<RenderTaskId> = Vec::new();
        let mut output = original;
        let mut reads_source: bool = false;
        let mut i: usize = 0;
        let ghost views = plan_views(plans@);
        let ghost start = rg_builder@;
        while i < plans.len()
            invariant
                i <= plans@.len(),
                start == old(rg_builder)@,
                views == plan_views(plans@),
                plans@.len() <= SVGFE_GRAPH_MAX,
                drawings@.len() == plans@.len(),
                start.len() + 0x1_0000 <= MAX_TASKS,
                original.index < start.len(),
                all_drawable(views, drawings@),
                rg_builder.sub_tasks == old(rg_builder).sub_tasks,
                ({
                    let s = state_after(
                        start,
                        original,
                        source_subregion,
                        views,
                        drawings@,
                        i as int,
                    );
                    &&& s.graph == rg_builder@
                    &&& s.by_buffer == by_buffer@
                    &&& s.output == output
                    &&& s.reads_source == reads_source
                }),
            decreases plans@.len() - i,
        {
            proof {
                lemma_state_after(
                    start,
                    original,
                    source_subregion,
                    views,
                    drawings@,
                    i as int,
                );
            }
            match &plans[i] {
                None => {
                    by_buffer.push(RenderTaskId::invalid());
                },
                Some(p) => {
                    let drawn = draw_node(
                        rg_builder,
                        &by_buffer,
                        original,
                        source_subregion,
                        p,
                        &drawings[i],
                    );
                    by_buffer.push(drawn.0);
                    output = drawn.0;
                    reads_source = reads_source || drawn.1;
                },
            }
            i = i + 1;
        }
        proof {
            lemma_state_after(start, original, source_subregion, views, drawings@, i as int);
        }
        if !reads_source && output != original {
            rg_builder.add_dependency(output, original);
        }
        output
    }
}

} // verus!
