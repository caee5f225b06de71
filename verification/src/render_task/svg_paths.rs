//! What the tasks of a filter graph read.

use crate::float_bits::FloatBits;
use crate::internal_types::{BlurEdgeMode, RenderTargetKind, RenderTaskId, SVGFE_GRAPH_MAX};
use crate::render_task::blur::{extends, BlurChain};
use crate::render_task::blur_paths::{
    blur_passes_lead_to_the_source, deviation_after, halved_further, is_blur, lemma_blur_kept,
    new_blurs_are_chains, reads_only,
};
use crate::render_task::svg_graph::{
    all_drawable, drawable, drawn_node, finished, has_source_input, input_task, lemma_drawn_node,
    lemma_state_after, node_task, state_after, state_ok, with_inputs, with_node_blur,
    FilterGraphState, NodeDrawing,
};
use crate::render_task::svg_plan::NodePlanView;
use crate::render_task::{BlurTask, RenderTaskKindView, RenderTaskLocation, RenderTaskView};
use crate::render_task_graph::{with_dependency, UvRectKind, MAX_TASKS};
use crate::svg_filter::{
    FilterGraphNodeView, FilterGraphOp, FilterGraphPictureReference, FilterOpGraphPictureBufferId,
};
use crate::units::LayoutRect;
use vstd::prelude::*;

verus! {

/// `source` is the task of an input: the source picture where the input names no
/// node, else the output of the node that it names.
pub open spec fn is_task_of(
    source: RenderTaskId,
    input: FilterGraphPictureReference,
    by_buffer: Seq<RenderTaskId>,
    original: RenderTaskId,
) -> bool {
    match input.buffer_id {
        FilterOpGraphPictureBufferId::NoBuffer => source == original,
        FilterOpGraphPictureBufferId::BufferId(id) => (id as int) < by_buffer.len() && source
            == by_buffer[id as int],
    }
}

/// The tasks of the inputs that have one, in order.
pub open spec fn tasks_of(
    inputs: Seq<FilterGraphPictureReference>,
    by_buffer: Seq<RenderTaskId>,
    original: RenderTaskId,
) -> Seq<u32> {
    inputs.filter(
        |r: FilterGraphPictureReference|
            input_task(r, by_buffer, original) != RenderTaskId::spec_invalid(),
    ).map_values(|r: FilterGraphPictureReference| input_task(r, by_buffer, original).index)
}

/// The task at the place `i` is a copy of an input, of the size and the region that a
/// blur of it reads. It reads the input and no other task.
pub open spec fn is_padded_copy(
    graph: Seq<RenderTaskView>,
    i: int,
    input: FilterGraphPictureReference,
    source: RenderTaskId,
    d: NodeDrawing,
) -> bool {
    &&& reads_only(graph, RenderTaskId { index: i as u32 }, source)
    &&& graph[i].location == (RenderTaskLocation::Unallocated { size: d.blur_size })
    &&& graph[i].kind matches RenderTaskKindView::SVGFENode(copy) && {
        &&& copy.op is SVGFEIdentity
        &&& copy.node.inputs == seq![input]
        &&& copy.node.subregion == d.blur_subregion
        &&& copy.extra_gpu_data is None
    }
}

/// The task at the place `i` blurs the task at the place `copy` by the deviations of a
/// node, in color and with duplicated edges, after `n` halvings.
pub open spec fn is_node_blur(
    graph: Seq<RenderTaskView>,
    i: int,
    copy: int,
    d: NodeDrawing,
    n: nat,
    x: BlurTask,
    y: BlurTask,
) -> bool {
    &&& is_blur(
        graph,
        RenderTaskId { index: i as u32 },
        RenderTaskId { index: copy as u32 },
        d.blur_size,
        RenderTargetKind::Color,
        n,
        x,
        y,
    )
    &&& !halved_further(d.blur_size, d.sigma_x, d.sigma_y, n)
    &&& x.blur_std_deviation == deviation_after(d.sigma_x, n)
    &&& y.blur_std_deviation == deviation_after(d.sigma_y, n)
    &&& x.edge_mode is Duplicate
    &&& i == copy + n + 2
}

/// A picture reference that is read as it is, shifted by so much.
pub open spec fn is_plain(
    r: FilterGraphPictureReference,
    buffer_id: FilterOpGraphPictureBufferId,
    subregion: LayoutRect,
    shift_x: FloatBits,
    shift_y: FloatBits,
) -> bool {
    &&& r.buffer_id == buffer_id
    &&& r.subregion == subregion
    &&& r.shift_x == shift_x
    &&& r.shift_y == shift_y
    &&& r.offset_x == 0
    &&& r.offset_y == 0
    &&& r.inflate == 0
    &&& r.target_padding == (LayoutRect { x0: 0, y0: 0, x1: 0, y1: 0 })
}

/// The tasks from the place `from` up to `id` draw a node, `id` holding its output.
///
/// A blur reads a padded copy of its input through the two passes, and nothing else. A
/// drop shadow reads its input first and then such a blur, shifted. Where the source
/// picture is a node it reads that picture. Any other node reads its inputs in order.
pub open spec fn is_drawn(
    graph: Seq<RenderTaskView>,
    from: int,
    id: RenderTaskId,
    by_buffer: Seq<RenderTaskId>,
    original: RenderTaskId,
    source_subregion: LayoutRect,
    p: NodePlanView,
    d: NodeDrawing,
) -> bool {
    let t = id.index as int;
    let task = graph[t];
    &&& from <= t < graph.len()
    &&& task.location == (RenderTaskLocation::Unallocated { size: p.task_size })
    &&& task.uv_rect_kind == d.uv_rect_kind
    &&& task.kind matches RenderTaskKindView::SVGFENode(drawn) && {
        &&& drawn.node.kept_by_optimizer == p.node.kept_by_optimizer
        &&& drawn.node.linear == p.node.linear
        &&& drawn.node.inflate == p.node.inflate
        &&& match p.op {
            FilterGraphOp::SVGFEGaussianBlur { .. } => {
                let input = p.node.inputs[0];
                &&& exists|source: RenderTaskId| #[trigger]
                    is_task_of(source, input, by_buffer, original) && is_padded_copy(
                        graph,
                        from,
                        input,
                        source,
                        d,
                    )
                &&& exists|n: nat, x: BlurTask, y: BlurTask| #[trigger]
                    is_node_blur(graph, t - 1, from, d, n, x, y)
                &&& task.children == seq![(t - 1) as u32]
                &&& drawn.op is SVGFEIdentity
                &&& drawn.node.inputs.len() == 1
                &&& is_plain(
                    drawn.node.inputs[0],
                    input.buffer_id,
                    d.blur_subregion,
                    FloatBits(0),
                    FloatBits(0),
                )
                &&& drawn.node.subregion == p.node.subregion
                &&& drawn.content_origin == (p.task_rect.x0, p.task_rect.y0)
                &&& drawn.extra_gpu_data is None
            },
            FilterGraphOp::SVGFEDropShadow { color, dx, dy, .. } => {
                let input = p.node.inputs[0];
                &&& exists|source: RenderTaskId| #[trigger]
                    is_task_of(source, input, by_buffer, original) && is_padded_copy(
                        graph,
                        from,
                        input,
                        source,
                        d,
                    ) && task.children == seq![source.index, (t - 1) as u32]
                &&& exists|n: nat, x: BlurTask, y: BlurTask| #[trigger]
                    is_node_blur(graph, t - 1, from, d, n, x, y)
                &&& drawn.op matches FilterGraphOp::SVGFEDropShadow { color: c, .. } && c == color
                &&& drawn.node.inputs.len() == 2
                &&& drawn.node.inputs[0] == input
                &&& is_plain(drawn.node.inputs[1], input.buffer_id, d.blur_subregion, dx, dy)
                &&& drawn.node.subregion == p.node.subregion
                &&& drawn.content_origin == (p.task_rect.x0, p.task_rect.y0)
                &&& drawn.extra_gpu_data is None
            },
            FilterGraphOp::SVGFESourceAlpha | FilterGraphOp::SVGFESourceGraphic => {
                &&& t == from
                &&& task.children == seq![original.index]
                &&& drawn.op == p.op
                &&& drawn.node.inputs.len() == 1
                &&& is_plain(
                    drawn.node.inputs[0],
                    FilterOpGraphPictureBufferId::NoBuffer,
                    source_subregion,
                    FloatBits(0),
                    FloatBits(0),
                )
                &&& drawn.node.subregion == source_subregion
                &&& drawn.content_origin == (source_subregion.x0, source_subregion.y0)
                &&& drawn.extra_gpu_data is None
            },
            _ => {
                &&& t == from
                &&& task.children == tasks_of(p.node.inputs, by_buffer, original)
                &&& drawn.op == p.op
                &&& drawn.node.inputs == p.node.inputs
                &&& drawn.node.subregion == p.node.subregion
                &&& drawn.content_origin == (p.task_rect.x0, p.task_rect.y0)
                &&& drawn.extra_gpu_data == if p.op is SVGFEComponentTransferInterned {
                    Some(d.filter_data_address)
                } else {
                    None
                }
            },
        }
    }
}

/// The output of a node reads the source picture itself; a blur reads a copy.
pub open spec fn reads_picture(
    graph: Seq<RenderTaskView>,
    id: RenderTaskId,
    original: RenderTaskId,
    p: NodePlanView,
) -> bool {
    &&& !(p.op is SVGFEGaussianBlur)
    &&& !(p.op is SVGFEDropShadow)
    &&& graph[id.index as int].children.contains(original.index)
}

/// An input of which the source picture is the task is among the tasks.
proof fn lemma_picture_among_tasks(
    inputs: Seq<FilterGraphPictureReference>,
    by_buffer: Seq<RenderTaskId>,
    original: RenderTaskId,
)
    requires
        original != RenderTaskId::spec_invalid(),
    ensures
        has_source_input(inputs, by_buffer, original) == tasks_of(
            inputs,
            by_buffer,
            original,
        ).contains(original.index),
    decreases inputs.len(),
{
    reveal(Seq::filter);
    let all = tasks_of(inputs, by_buffer, original);
    if inputs.len() > 0 {
        let most = inputs.drop_last();
        let fewer = tasks_of(most, by_buffer, original);
        lemma_picture_among_tasks(most, by_buffer, original);
        let last = input_task(inputs.last(), by_buffer, original);
        if last == RenderTaskId::spec_invalid() {
            assert(all =~= fewer);
        } else {
            assert(all =~= fewer.push(last.index));
            assert(all[all.len() - 1] == last.index);
        }
        if has_source_input(inputs, by_buffer, original) {
            let i = choose|i: int|
                0 <= i < inputs.len() && input_task(#[trigger] inputs[i], by_buffer, original)
                    == original;
            if i < most.len() {
                assert(most[i] == inputs[i]);
                let k = choose|k: int| 0 <= k < fewer.len() && fewer[k] == original.index;
                assert(all[k] == original.index);
            }
        }
        if all.contains(original.index) {
            if fewer.contains(original.index) {
                let i = choose|i: int|
                    0 <= i < most.len() && input_task(#[trigger] most[i], by_buffer, original)
                        == original;
                assert(inputs[i] == most[i]);
            } else {
                assert(last.index == original.index);
                assert(input_task(inputs[inputs.len() - 1], by_buffer, original) == original);
            }
        }
    }
}

proof fn lemma_tasks_of(
    graph: Seq<RenderTaskView>,
    task: RenderTaskId,
    inputs: Seq<FilterGraphPictureReference>,
    by_buffer: Seq<RenderTaskId>,
    original: RenderTaskId,
)
    requires
        task.index < graph.len(),
        graph[task.index as int].children.len() == 0,
    ensures
        ({
            let g = with_inputs(graph, task, inputs, by_buffer, original);
            &&& g.len() == graph.len()
            &&& g[task.index as int] == (RenderTaskView {
                children: tasks_of(inputs, by_buffer, original),
                ..graph[task.index as int]
            })
        }),
    decreases inputs.len(),
{
    let g = with_inputs(graph, task, inputs, by_buffer, original);
    let t = task.index as int;
    reveal(Seq::filter);
    if inputs.len() > 0 {
        lemma_tasks_of(graph, task, inputs.drop_last(), by_buffer, original);
    }
    assert(g[t].children =~= tasks_of(inputs, by_buffer, original));
}

/// The blur of a node in a graph that goes on from the one where the blur was added.
proof fn lemma_node_blur_drawn(
    graph: Seq<RenderTaskView>,
    input: FilterGraphPictureReference,
    source: RenderTaskId,
    content_origin: (i64, i64),
    d: NodeDrawing,
    after: Seq<RenderTaskView>,
)
    requires
        graph.len() + 100 <= MAX_TASKS,
        source.index < graph.len(),
        !d.blur_size.spec_is_empty(),
        extends(after, with_node_blur(graph, input, source, content_origin, d).graph),
    ensures
        ({
            let b = with_node_blur(graph, input, source, content_origin, d);
            &&& b.graph.len() > graph.len()
            &&& b.graph.len() <= graph.len() + 50
            &&& b.source.index == b.graph.len() - 1
            &&& is_padded_copy(after, graph.len() as int, input, source, d)
            &&& exists|n: nat, x: BlurTask, y: BlurTask| #[trigger]
                is_node_blur(after, b.graph.len() - 1, graph.len() as int, d, n, x, y)
        }),
{
    let id = RenderTaskId { index: graph.len() as u32 };
    let copy = node_task(
        d.blur_size,
        FilterGraphNodeView {
            kept_by_optimizer: true,
            linear: false,
            inflate: 0,
            inputs: seq![input],
            subregion: d.blur_subregion,
        },
        FilterGraphOp::SVGFEIdentity,
        content_origin,
        None,
        UvRectKind::Rect,
    );
    let start = BlurChain {
        graph: with_dependency(graph.push(copy), id, source),
        cache: Map::empty(),
        source: id,
        size: d.blur_size,
        sigma_x: d.sigma_x,
        sigma_y: d.sigma_y,
        level: 1,
    };
    let b = with_node_blur(graph, input, source, content_origin, d);
    let count = new_blurs_are_chains(
        start,
        RenderTargetKind::Color,
        d.blur_size,
        BlurEdgeMode::Duplicate,
    );
    let (n, x, y) = blur_passes_lead_to_the_source(
        start,
        RenderTargetKind::Color,
        d.blur_size,
        BlurEdgeMode::Duplicate,
    );
    assert(count == n) by {
        if count < n {
            assert(halved_further(d.blur_size, d.sigma_x, d.sigma_y, count));
        }
        if n < count {
            assert(halved_further(d.blur_size, d.sigma_x, d.sigma_y, n));
        }
    }
    lemma_blur_kept(
        b.graph,
        after,
        b.source,
        id,
        d.blur_size,
        RenderTargetKind::Color,
        n,
        x,
        y,
    );
    assert(is_node_blur(after, b.graph.len() - 1, graph.len() as int, d, n, x, y));
    let l = graph.len() as int;
    assert(start.graph[l].children =~= seq![source.index]);
    assert(b.graph[l] == start.graph[l]);
    assert(after[l] == b.graph[l]);
}

/// What drawing a node adds to the graph: the tasks that are there stay as they are, the
/// tasks of the node come after them, and the last of these holds the node's output.
pub proof fn nodes_read_their_inputs(
    s: FilterGraphState,
    original: RenderTaskId,
    source_subregion: LayoutRect,
    p: NodePlanView,
    d: NodeDrawing,
)
    requires
        state_ok(s),
        s.graph.len() + 200 <= MAX_TASKS,
        original.index < s.graph.len(),
        drawable(Some(p), d, s.by_buffer, original),
    ensures
        ({
            let (graph, id, reads_source) = drawn_node(
                s.graph,
                s.by_buffer,
                original,
                source_subregion,
                p,
                d,
            );
            &&& extends(graph, s.graph)
            &&& id.index == graph.len() - 1
            &&& is_drawn(
                graph,
                s.graph.len() as int,
                id,
                s.by_buffer,
                original,
                source_subregion,
                p,
                d,
            )
            &&& reads_source == reads_picture(graph, id, original, p)
        }),
{
    reveal(drawn_node);
    let n = drawn_node(s.graph, s.by_buffer, original, source_subregion, p, d);
    let from = s.graph.len() as int;
    let t = n.1.index as int;
    lemma_drawn_node(s, original, source_subregion, p, d, from as nat);
    match p.op {
        FilterGraphOp::SVGFEGaussianBlur { .. } => {
            let input = p.node.inputs[0];
            let source = input_task(input, s.by_buffer, original);
            let b = with_node_blur(s.graph, input, source, (0i64, 0i64), d);
            assert(is_task_of(source, input, s.by_buffer, original));
            lemma_node_blur_drawn(s.graph, input, source, (0i64, 0i64), d, b.graph);
            assert(extends(n.0, b.graph));
            lemma_node_blur_drawn(s.graph, input, source, (0i64, 0i64), d, n.0);
            assert(n.0[t].children =~= seq![(t - 1) as u32]);
        },
        FilterGraphOp::SVGFEDropShadow { .. } => {
            let input = p.node.inputs[0];
            let source = input_task(input, s.by_buffer, original);
            let origin = (p.task_rect.x0, p.task_rect.y0);
            let b = with_node_blur(s.graph, input, source, origin, d);
            assert(is_task_of(source, input, s.by_buffer, original));
            lemma_node_blur_drawn(s.graph, input, source, origin, d, b.graph);
            assert(extends(n.0, b.graph));
            lemma_node_blur_drawn(s.graph, input, source, origin, d, n.0);
            assert(n.0[t].children =~= seq![source.index, (t - 1) as u32]);
        },
        FilterGraphOp::SVGFESourceAlpha | FilterGraphOp::SVGFESourceGraphic => {
            assert(n.0[t].children =~= seq![original.index]);
            assert(n.0[t].children[0] == original.index);
        },
        _ => {
            let extra = if p.op is SVGFEComponentTransferInterned {
                Some(d.filter_data_address)
            } else {
                None
            };
            let task = node_task(
                p.task_size,
                p.node,
                p.op,
                (p.task_rect.x0, p.task_rect.y0),
                extra,
                d.uv_rect_kind,
            );
            lemma_tasks_of(s.graph.push(task), n.1, p.node.inputs, s.by_buffer, original);
            lemma_picture_among_tasks(p.node.inputs, s.by_buffer, original);
        },
    }
}

/// What draws a node stays as it is where tasks are added.
proof fn lemma_drawn_kept(
    before: Seq<RenderTaskView>,
    after: Seq<RenderTaskView>,
    from: int,
    id: RenderTaskId,
    by_buffer: Seq<RenderTaskId>,
    original: RenderTaskId,
    source_subregion: LayoutRect,
    p: NodePlanView,
    d: NodeDrawing,
)
    requires
        0 <= from,
        extends(after, before),
        is_drawn(before, from, id, by_buffer, original, source_subregion, p, d),
    ensures
        is_drawn(after, from, id, by_buffer, original, source_subregion, p, d),
{
    let t = id.index as int;
    assert(after[t] == before[t]);
    if p.op is SVGFEGaussianBlur || p.op is SVGFEDropShadow {
        let input = p.node.inputs[0];
        assert(after[from] == before[from]);
        let (n, x, y) = choose|n: nat, x: BlurTask, y: BlurTask| #[trigger]
            is_node_blur(before, t - 1, from, d, n, x, y);
        lemma_blur_kept(
            before,
            after,
            RenderTaskId { index: (t - 1) as u32 },
            RenderTaskId { index: from as u32 },
            d.blur_size,
            RenderTargetKind::Color,
            n,
            x,
            y,
        );
        assert(is_node_blur(after, t - 1, from, d, n, x, y));
        let source = choose|source: RenderTaskId| #[trigger]
            is_task_of(source, input, by_buffer, original) && is_padded_copy(
                before,
                from,
                input,
                source,
                d,
            ) && (p.op is SVGFEDropShadow ==> before[t].children == seq![
                source.index,
                (t - 1) as u32,
            ]);
        assert(is_task_of(source, input, by_buffer, original));
        assert(is_padded_copy(after, from, input, source, d));
    }
}

/// The node `i` is drawn, from what was there when its turn came.
pub open spec fn node_is_drawn(
    graph: Seq<RenderTaskView>,
    by_buffer: Seq<RenderTaskId>,
    original: RenderTaskId,
    source_subregion: LayoutRect,
    plans: Seq<Option<NodePlanView>>,
    drawings: Seq<NodeDrawing>,
    i: int,
) -> bool {
    exists|from: int|
        #![trigger is_drawn(
            graph,
            from,
            by_buffer[i],
            by_buffer.take(i),
            original,
            source_subregion,
            plans[i]->0,
            drawings[i],
        )]
        0 <= from && is_drawn(
            graph,
            from,
            by_buffer[i],
            by_buffer.take(i),
            original,
            source_subregion,
            plans[i]->0,
            drawings[i],
        )
}

/// Some kept node reads the source picture itself.
pub open spec fn picture_is_read(
    graph: Seq<RenderTaskView>,
    by_buffer: Seq<RenderTaskId>,
    original: RenderTaskId,
    plans: Seq<Option<NodePlanView>>,
) -> bool {
    exists|i: int|
        0 <= i < by_buffer.len() && (#[trigger] plans[i]) is Some && reads_picture(
            graph,
            by_buffer[i],
            original,
            plans[i]->0,
        )
}

proof fn lemma_nodes_so_far(
    graph: Seq<RenderTaskView>,
    original: RenderTaskId,
    source_subregion: LayoutRect,
    plans: Seq<Option<NodePlanView>>,
    drawings: Seq<NodeDrawing>,
    count: int,
)
    requires
        0 <= count <= plans.len() <= SVGFE_GRAPH_MAX,
        graph.len() + 0x1_0000 <= MAX_TASKS,
        original.index < graph.len(),
        all_drawable(plans, drawings),
    ensures
        ({
            let s = state_after(graph, original, source_subregion, plans, drawings, count);
            &&& s.by_buffer.len() == count
            &&& forall|i: int|
                #![trigger plans[i]]
                #![trigger s.by_buffer[i]]
                0 <= i < count ==> if plans[i] is Some {
                    graph.len() <= s.by_buffer[i].index < s.graph.len() && node_is_drawn(
                        s.graph,
                        s.by_buffer,
                        original,
                        source_subregion,
                        plans,
                        drawings,
                        i,
                    )
                } else {
                    s.by_buffer[i] == RenderTaskId::spec_invalid()
                }
            &&& forall|i: int, j: int|
                0 <= i < j < count && plans[i] is Some && plans[j] is Some ==> (
                #[trigger] s.by_buffer[i]).index < (#[trigger] s.by_buffer[j]).index
            &&& s.output == original ==> forall|i: int| 0 <= i < count ==> plans[i] is None
            &&& s.output != original ==> exists|i: int|
                #![trigger plans[i]]
                0 <= i < count && plans[i] is Some && s.output == s.by_buffer[i] && forall|j: int|
                    i < j < count ==> plans[j] is None
            &&& s.output != original ==> s.output.index == s.graph.len() - 1
            &&& s.output == original ==> s.graph == graph
            &&& s.reads_source == picture_is_read(s.graph, s.by_buffer, original, plans)
        }),
    decreases count,
{
    let s = state_after(graph, original, source_subregion, plans, drawings, count);
    if count > 0 {
        let b = state_after(graph, original, source_subregion, plans, drawings, count - 1);
        lemma_nodes_so_far(graph, original, source_subregion, plans, drawings, count - 1);
        lemma_state_after(graph, original, source_subregion, plans, drawings, count - 1);
        if plans[count - 1] is Some {
            nodes_read_their_inputs(
                b,
                original,
                source_subregion,
                plans[count - 1]->0,
                drawings[count - 1],
            );
        }
        assert(extends(s.graph, b.graph));
        assert(s.by_buffer.take(count - 1) =~= b.by_buffer);
        assert forall|i: int|
            #![trigger plans[i]]
            #![trigger s.by_buffer[i]]
            0 <= i < count implies if plans[i] is Some {
            graph.len() <= s.by_buffer[i].index < s.graph.len() && node_is_drawn(
                s.graph,
                s.by_buffer,
                original,
                source_subregion,
                plans,
                drawings,
                i,
            )
        } else {
            s.by_buffer[i] == RenderTaskId::spec_invalid()
        } by {
            if i < count - 1 {
                assert(s.by_buffer[i] == b.by_buffer[i]);
                if plans[i] is Some {
                    assert(s.by_buffer.take(i) =~= b.by_buffer.take(i));
                    let from = choose|from: int|
                        #![trigger is_drawn(
                            b.graph,
                            from,
                            b.by_buffer[i],
                            b.by_buffer.take(i),
                            original,
                            source_subregion,
                            plans[i]->0,
                            drawings[i],
                        )]
                        0 <= from && is_drawn(
                            b.graph,
                            from,
                            b.by_buffer[i],
                            b.by_buffer.take(i),
                            original,
                            source_subregion,
                            plans[i]->0,
                            drawings[i],
                        );
                    lemma_drawn_kept(
                        b.graph,
                        s.graph,
                        from,
                        b.by_buffer[i],
                        b.by_buffer.take(i),
                        original,
                        source_subregion,
                        plans[i]->0,
                        drawings[i],
                    );
                }
            }
        }
        assert(s.reads_source == picture_is_read(s.graph, s.by_buffer, original, plans)) by {
            if b.reads_source {
                let i = choose|i: int|
                    0 <= i < b.by_buffer.len() && (#[trigger] plans[i]) is Some && reads_picture(
                        b.graph,
                        b.by_buffer[i],
                        original,
                        plans[i]->0,
                    );
                assert(s.by_buffer[i] == b.by_buffer[i]);
                assert(s.graph[s.by_buffer[i].index as int] == b.graph[s.by_buffer[i].index as int]);
            }
            if picture_is_read(s.graph, s.by_buffer, original, plans) {
                let i = choose|i: int|
                    0 <= i < s.by_buffer.len() && (#[trigger] plans[i]) is Some && reads_picture(
                        s.graph,
                        s.by_buffer[i],
                        original,
                        plans[i]->0,
                    );
                if i < count - 1 {
                    assert(s.by_buffer[i] == b.by_buffer[i]);
                    assert(s.graph[s.by_buffer[i].index as int]
                        == b.graph[s.by_buffer[i].index as int]);
                    assert(b.reads_source);
                }
            }
            if plans[count - 1] is Some && s.reads_source && !b.reads_source {
                assert(reads_picture(
                    s.graph,
                    s.by_buffer[count - 1],
                    original,
                    plans[count - 1]->0,
                ));
            }
        }
        if s.output != original {
            if plans[count - 1] is Some {
                assert(s.output == s.by_buffer[count - 1]);
            } else {
                let i = choose|i: int|
                    #![trigger plans[i]]
                    0 <= i < count - 1 && plans[i] is Some && b.output == b.by_buffer[i] && forall|
                        j: int,
                    |
                        i < j < count - 1 ==> plans[j] is None;
                assert(s.output == s.by_buffer[i]);
            }
        }
    }
}

/// Every kept node of a filter graph is drawn, later nodes by later tasks, from
/// the tasks of the nodes before it; a dropped node has no task. The result is
/// the output of the last kept node, the last task of the graph, or the source
/// picture where no node is kept. The result reads the source picture
/// besides, once, exactly where no kept node reads it itself.
pub proof fn kept_nodes_are_drawn(
    graph: Seq<RenderTaskView>,
    original: RenderTaskId,
    source_subregion: LayoutRect,
    plans: Seq<Option<NodePlanView>>,
    drawings: Seq<NodeDrawing>,
)
    requires
        plans.len() <= SVGFE_GRAPH_MAX,
        graph.len() + 0x1_0000 <= MAX_TASKS,
        original.index < graph.len(),
        all_drawable(plans, drawings),
    ensures
        ({
            let n = plans.len() as int;
            let s = state_after(graph, original, source_subregion, plans, drawings, n);
            let g = finished(s, original);
            let none_kept = forall|i: int| 0 <= i < n ==> plans[i] is None;
            let out = s.output.index as int;
            &&& s.by_buffer.len() == n
            &&& forall|i: int|
                #![trigger plans[i]]
                #![trigger s.by_buffer[i]]
                0 <= i < n ==> if plans[i] is Some {
                    graph.len() <= s.by_buffer[i].index < s.graph.len() && node_is_drawn(
                        s.graph,
                        s.by_buffer,
                        original,
                        source_subregion,
                        plans,
                        drawings,
                        i,
                    )
                } else {
                    s.by_buffer[i] == RenderTaskId::spec_invalid()
                }
            &&& forall|i: int, j: int|
                0 <= i < j < n && plans[i] is Some && plans[j] is Some ==> (
                #[trigger] s.by_buffer[i]).index < (#[trigger] s.by_buffer[j]).index
            &&& none_kept ==> s.output == original && g == graph
            &&& !none_kept ==> {
                &&& out == g.len() - 1
                &&& exists|i: int|
                    #![trigger plans[i]]
                    0 <= i < n && plans[i] is Some && s.output == s.by_buffer[i] && forall|j: int|
                        i < j < n ==> plans[j] is None
                &&& g.drop_last() == s.graph.drop_last()
                &&& g[out].kind == s.graph[out].kind
                &&& g[out].children == if picture_is_read(
                    s.graph,
                    s.by_buffer,
                    original,
                    plans,
                ) {
                    s.graph[out].children
                } else {
                    s.graph[out].children.push(original.index)
                }
            }
        }),
{
    let n = plans.len() as int;
    lemma_nodes_so_far(graph, original, source_subregion, plans, drawings, n);
    lemma_state_after(graph, original, source_subregion, plans, drawings, n);
    let s = state_after(graph, original, source_subregion, plans, drawings, n);
    let g = finished(s, original);
    assert(g.drop_last() =~= s.graph.drop_last()) by {
        if s.output == original {
            assert(g == s.graph);
        }
    }
    if s.output == original && picture_is_read(s.graph, s.by_buffer, original, plans) {
        assert(forall|i: int| 0 <= i < n ==> plans[i] is None);
    }
}

} // verus!
