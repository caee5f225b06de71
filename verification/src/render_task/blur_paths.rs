//! What a blur reads, followed from its result back to its source.

use crate::float_bits::{power_of_two, FloatBits};
use crate::internal_types::{BlurEdgeMode, RenderTargetKind, RenderTaskId};
use crate::render_task::blur::{
    blurred, chain_ok, downscaled, downscaled_once, extends, level_scale, BlurChain, BlurTaskKey,
};
use crate::render_task::{
    BlurTask, DeviceIntSideOffsets, RenderTaskKind, RenderTaskKindView, RenderTaskLocation,
    RenderTaskView, ScalingTask,
};
use crate::render_task_graph::MAX_TASKS;
use crate::units::DeviceIntSize;
use vstd::prelude::*;

verus! {

/// The task `id` reads the task `child`, once, and no other.
pub open spec fn reads_only(
    graph: Seq<RenderTaskView>,
    id: RenderTaskId,
    child: RenderTaskId,
) -> bool {
    &&& id.index < graph.len()
    &&& graph[id.index as int].children.len() == 1
    &&& graph[id.index as int].children[0] == child.index
}

/// The first task that `id` reads.
pub open spec fn first_read(graph: Seq<RenderTaskView>, id: RenderTaskId) -> RenderTaskId {
    RenderTaskId { index: graph[id.index as int].children[0] }
}

/// The size `original`, `2^n` times smaller in both directions, cut off.
pub open spec fn size_after(original: DeviceIntSize, n: nat) -> DeviceIntSize {
    DeviceIntSize {
        width: (original.width as int / power_of_two(n) as int) as i32,
        height: (original.height as int / power_of_two(n) as int) as i32,
    }
}

/// `part` is `whole` divided by `2^n`, cut off towards zero.
pub open spec fn is_part_of(part: int, whole: int, n: nat) -> bool {
    let p = power_of_two(n) as int;
    if whole >= 0 {
        part * p <= whole < (part + 1) * p
    } else {
        (part - 1) * p < whole <= part * p
    }
}

/// The number halved `n` times.
pub open spec fn deviation_after(sigma: FloatBits, n: nat) -> FloatBits
    decreases n,
{
    if n == 0 {
        sigma
    } else {
        deviation_after(sigma, (n - 1) as nat).spec_half()
    }
}

/// From `id`, a path of `n` copies leads to `source`, each of them half as large
/// as the one that it reads, and each reading nothing else.
pub open spec fn is_copy(
    graph: Seq<RenderTaskView>,
    id: RenderTaskId,
    source: RenderTaskId,
    original: DeviceIntSize,
    target_kind: RenderTargetKind,
    n: nat,
) -> bool
    decreases n,
{
    if n == 0 {
        id == source
    } else {
        let task = graph[id.index as int];
        &&& reads_only(graph, id, first_read(graph, id))
        &&& task.kind == RenderTaskKindView::Plain(
            RenderTaskKind::Scaling(
                ScalingTask {
                    target_kind,
                    padding: DeviceIntSideOffsets { top: 0, right: 0, bottom: 0, left: 0 },
                },
            ),
        )
        &&& task.location == (RenderTaskLocation::Unallocated { size: size_after(original, n) })
        &&& is_copy(graph, first_read(graph, id), source, original, target_kind, (n - 1) as nat)
    }
}

/// The task is a horizontal pass, with this.
pub open spec fn is_horizontal_pass(task: RenderTaskView, blur: BlurTask) -> bool {
    task.kind == RenderTaskKindView::Plain(RenderTaskKind::HorizontalBlur(blur))
}

/// The task is a vertical pass, with this.
pub open spec fn is_vertical_pass(task: RenderTaskView, blur: BlurTask) -> bool {
    task.kind == RenderTaskKindView::Plain(RenderTaskKind::VerticalBlur(blur))
}

/// The task `id` is a horizontal pass that reads a vertical pass alone, which
/// reads `source` alone, or its last copy after `n` halvings. Both passes have the
/// size of what they blur. The horizontal pass blurs by `x`, the vertical one by
/// `y`.
pub open spec fn is_blur(
    graph: Seq<RenderTaskView>,
    id: RenderTaskId,
    source: RenderTaskId,
    original: DeviceIntSize,
    target_kind: RenderTargetKind,
    n: nat,
    x: BlurTask,
    y: BlurTask,
) -> bool {
    let v = first_read(graph, id);
    let copy = first_read(graph, v);
    let location = RenderTaskLocation::Unallocated { size: size_after(original, n) };
    &&& reads_only(graph, id, v)
    &&& is_horizontal_pass(graph[id.index as int], x)
    &&& graph[id.index as int].location == location
    &&& reads_only(graph, v, copy)
    &&& is_vertical_pass(graph[v.index as int], y)
    &&& graph[v.index as int].location == location
    &&& is_copy(graph, copy, source, original, target_kind, n)
    &&& x.target_kind == target_kind
    &&& y.target_kind == target_kind
    &&& x.blur_region == y.blur_region
    &&& x.edge_mode == y.edge_mode
}

/// What is found by a key: after `l` halvings the copy of the source that was
/// halved `l` times, or its blur by the deviations of the key.
pub open spec fn is_found_by(
    graph: Seq<RenderTaskView>,
    id: RenderTaskId,
    source: RenderTaskId,
    original: DeviceIntSize,
    target_kind: RenderTargetKind,
    key: BlurTaskKey,
) -> bool {
    match key {
        BlurTaskKey::DownScale(l) => l >= 1 && is_copy(
            graph,
            id,
            source,
            original,
            target_kind,
            l as nat,
        ),
        BlurTaskKey::Blur { downscale_level, stddev_x, stddev_y } => downscale_level >= 1 && exists|
            x: BlurTask,
            y: BlurTask,
        |
            #[trigger] is_blur(
                graph,
                id,
                source,
                original,
                target_kind,
                (downscale_level - 1) as nat,
                x,
                y,
            ) && x.blur_std_deviation.spec_in_1024ths() == stddev_x
                && y.blur_std_deviation.spec_in_1024ths() == stddev_y,
    }
}

/// Each task of the cache is what its key says.
pub open spec fn cache_holds(
    graph: Seq<RenderTaskView>,
    cache: Map<BlurTaskKey, RenderTaskId>,
    source: RenderTaskId,
    original: DeviceIntSize,
    target_kind: RenderTargetKind,
) -> bool {
    forall|k: BlurTaskKey| #[trigger]
        cache.dom().contains(k) ==> is_found_by(
            graph,
            cache[k],
            source,
            original,
            target_kind,
            k,
        )
}

/// After `n` halvings both deviations are still greater than four, and the copy
/// is at least eight pixels wide and high.
pub open spec fn halved_further(size: DeviceIntSize, x: FloatBits, y: FloatBits, n: nat) -> bool {
    &&& deviation_after(x, n).spec_gt(FloatBits(0x4080_0000))
    &&& deviation_after(y, n).spec_gt(FloatBits(0x4080_0000))
    &&& size_after(size, n).width >= 8
    &&& size_after(size, n).height >= 8
}

proof fn lemma_size_after(size: DeviceIntSize, n: nat)
    ensures
        size_after(size, 0) == size,
        size.width >= 0 && size.height >= 0 ==> crate::render_task::blur::half_size(
            size_after(size, n),
        ) == size_after(size, n + 1),
        size.width >= 0 ==> 0 <= size_after(size, n).width <= size.width,
        size.height >= 0 ==> 0 <= size_after(size, n).height <= size.height,
{
    lemma_power_positive(n);
    let p = power_of_two(n) as int;
    let w = size.width as int;
    let h = size.height as int;
    assert(power_of_two(n + 1) == p * 2);
    if w >= 0 {
        vstd::arithmetic::div_mod::lemma_div_denominator(w, p, 2);
        assert(0 <= w / p <= w) by (nonlinear_arith)
            requires
                w >= 0,
                p >= 1,
        ;
    }
    if h >= 0 {
        vstd::arithmetic::div_mod::lemma_div_denominator(h, p, 2);
        assert(0 <= h / p <= h) by (nonlinear_arith)
            requires
                h >= 0,
                p >= 1,
        ;
    }
    assert(power_of_two(0) == 1);
}

proof fn lemma_power_positive(n: nat)
    ensures
        power_of_two(n) >= 1,
    decreases n,
{
    if n > 0 {
        lemma_power_positive((n - 1) as nat);
    }
}

/// A path stays as it is where tasks are added.
proof fn lemma_copy_kept(
    before: Seq<RenderTaskView>,
    after: Seq<RenderTaskView>,
    id: RenderTaskId,
    source: RenderTaskId,
    original: DeviceIntSize,
    target_kind: RenderTargetKind,
    n: nat,
)
    requires
        extends(after, before),
        is_copy(before, id, source, original, target_kind, n),
    ensures
        is_copy(after, id, source, original, target_kind, n),
    decreases n,
{
    if n > 0 {
        assert(after[id.index as int] == before[id.index as int]);
        lemma_copy_kept(
            before,
            after,
            first_read(before, id),
            source,
            original,
            target_kind,
            (n - 1) as nat,
        );
    }
}

/// A blur stays as it is where tasks are added.
pub proof fn lemma_blur_kept(
    before: Seq<RenderTaskView>,
    after: Seq<RenderTaskView>,
    id: RenderTaskId,
    source: RenderTaskId,
    original: DeviceIntSize,
    target_kind: RenderTargetKind,
    n: nat,
    x: BlurTask,
    y: BlurTask,
)
    requires
        extends(after, before),
        is_blur(before, id, source, original, target_kind, n, x, y),
    ensures
        is_blur(after, id, source, original, target_kind, n, x, y),
{
    let v = first_read(before, id);
    assert(after[id.index as int] == before[id.index as int]);
    assert(after[v.index as int] == before[v.index as int]);
    lemma_copy_kept(before, after, first_read(before, v), source, original, target_kind, n);
}

proof fn lemma_found_kept(
    before: Seq<RenderTaskView>,
    after: Seq<RenderTaskView>,
    id: RenderTaskId,
    source: RenderTaskId,
    original: DeviceIntSize,
    target_kind: RenderTargetKind,
    key: BlurTaskKey,
)
    requires
        extends(after, before),
        is_found_by(before, id, source, original, target_kind, key),
    ensures
        is_found_by(after, id, source, original, target_kind, key),
{
    match key {
        BlurTaskKey::DownScale(l) => {
            lemma_copy_kept(before, after, id, source, original, target_kind, l as nat);
        },
        BlurTaskKey::Blur { downscale_level, stddev_x, stddev_y } => {
            let n = (downscale_level - 1) as nat;
            let (x, y) = choose|x: BlurTask, y: BlurTask| #[trigger]
                is_blur(before, id, source, original, target_kind, n, x, y)
                    && x.blur_std_deviation.spec_in_1024ths() == stddev_x
                    && y.blur_std_deviation.spec_in_1024ths() == stddev_y;
            lemma_blur_kept(before, after, id, source, original, target_kind, n, x, y);
        },
    }
}

proof fn lemma_cache_kept(
    before: Seq<RenderTaskView>,
    after: Seq<RenderTaskView>,
    cache: Map<BlurTaskKey, RenderTaskId>,
    source: RenderTaskId,
    original: DeviceIntSize,
    target_kind: RenderTargetKind,
)
    requires
        extends(after, before),
        cache_holds(before, cache, source, original, target_kind),
    ensures
        cache_holds(after, cache, source, original, target_kind),
{
    assert forall|k: BlurTaskKey| #[trigger] cache.dom().contains(k) implies is_found_by(
        after,
        cache[k],
        source,
        original,
        target_kind,
        k,
    ) by {
        lemma_found_kept(before, after, cache[k], source, original, target_kind, k);
    }
}

/// The chain stands `n` halvings below the task `source` of the size `original`.
spec fn stands_at(
    c: BlurChain,
    source: RenderTaskId,
    original: DeviceIntSize,
    x: FloatBits,
    y: FloatBits,
    target_kind: RenderTargetKind,
    n: nat,
) -> bool {
    &&& chain_ok(c)
    &&& c.level == n + 1
    &&& c.size == size_after(original, n)
    &&& c.sigma_x == deviation_after(x, n)
    &&& c.sigma_y == deviation_after(y, n)
    &&& is_copy(c.graph, c.source, source, original, target_kind, n)
    &&& cache_holds(c.graph, c.cache, source, original, target_kind)
}

proof fn lemma_one_halving(
    c: BlurChain,
    source: RenderTaskId,
    original: DeviceIntSize,
    x: FloatBits,
    y: FloatBits,
    target_kind: RenderTargetKind,
    n: nat,
)
    requires
        stands_at(c, source, original, x, y, target_kind, n),
        c.graph.len() < MAX_TASKS,
        n < 64,
        original.width >= 0,
        original.height >= 0,
    ensures
        stands_at(
            downscaled_once(c, target_kind),
            source,
            original,
            x,
            y,
            target_kind,
            n + 1,
        ),
        extends(downscaled_once(c, target_kind).graph, c.graph),
        downscaled_once(c, target_kind).graph.len() <= c.graph.len() + 1,
{
    let next = downscaled_once(c, target_kind);
    let key = BlurTaskKey::DownScale(c.level);
    lemma_size_after(original, n);
    lemma_cache_kept(c.graph, next.graph, c.cache, source, original, target_kind);
    lemma_copy_kept(c.graph, next.graph, c.source, source, original, target_kind, n);
    if !c.cache.dom().contains(key) {
        let task = next.graph[next.source.index as int];
        assert(task.children =~= seq![c.source.index]);
        assert(first_read(next.graph, next.source) == c.source);
        assert(is_copy(next.graph, next.source, source, original, target_kind, n + 1));
    } else {
        assert(is_found_by(c.graph, c.cache[key], source, original, target_kind, key));
    }
    assert forall|k: BlurTaskKey| #[trigger] next.cache.dom().contains(k) implies is_found_by(
        next.graph,
        next.cache[k],
        source,
        original,
        target_kind,
        k,
    ) by {
        if k != key {
            assert(c.cache.dom().contains(k));
        }
    }
}

proof fn lemma_all_halvings(
    c: BlurChain,
    source: RenderTaskId,
    original: DeviceIntSize,
    x: FloatBits,
    y: FloatBits,
    target_kind: RenderTargetKind,
    n: nat,
    left: nat,
) -> (end: nat)
    requires
        stands_at(c, source, original, x, y, target_kind, n),
        c.graph.len() + left < MAX_TASKS,
        c.size.width < power_of_two(left),
        n + left <= 40,
        original.width >= 0,
        original.height >= 0,
        forall|k: nat| k < n ==> #[trigger] halved_further(original, x, y, k),
    ensures
        n <= end <= n + left,
        stands_at(downscaled(c, target_kind), source, original, x, y, target_kind, end),
        extends(downscaled(c, target_kind).graph, c.graph),
        downscaled(c, target_kind).graph.len() <= c.graph.len() + left,
        forall|k: nat| k < end ==> #[trigger] halved_further(original, x, y, k),
        !halved_further(original, x, y, end),
    decreases left,
{
    lemma_size_after(original, n);
    if halved_further(original, x, y, n) {
        let next = downscaled_once(c, target_kind);
        assert(left > 0);
        lemma_one_halving(c, source, original, x, y, target_kind, n);
        let end = lemma_all_halvings(
            next,
            source,
            original,
            x,
            y,
            target_kind,
            n + 1,
            (left - 1) as nat,
        );
        let last = downscaled(c, target_kind).graph;
        assert forall|i: int| 0 <= i < c.graph.len() implies #[trigger] last[i] == c.graph[i] by {
            assert(next.graph[i] == c.graph[i]);
        }
        end
    } else {
        n
    }
}

proof fn lemma_level_scale(n: nat)
    ensures
        level_scale(n as int + 1) == power_of_two(n),
    decreases n,
{
    if n > 0 {
        lemma_level_scale((n - 1) as nat);
    }
}

/// From the task that holds a blur, a path of sole dependencies leads to the
/// source: through one horizontal pass, then one vertical pass, then the copies,
/// each half as large as the one before. There are as many copies as it takes
/// for a deviation to be at most four or a side to be below eight pixels. A
/// blur that was not in the cache blurs by the deviations asked for, the
/// horizontal one horizontally, halved with each copy; it has the region,
/// divided likewise, and the edge mode that were asked for, and the texture
/// coordinates of the source. What is in the cache stays what its key says.
pub proof fn blur_passes_lead_to_the_source(
    start: BlurChain,
    target_kind: RenderTargetKind,
    blur_region: DeviceIntSize,
    edge_mode: BlurEdgeMode,
) -> (found: (nat, BlurTask, BlurTask))
    requires
        chain_ok(start),
        start.graph.len() + 64 <= MAX_TASKS,
        start.level == 1,
        start.size.width >= 0,
        start.size.height >= 0,
        cache_holds(start.graph, start.cache, start.source, start.size, target_kind),
    ensures
        ({
            let (n, x, y) = found;
            let end = blurred(start, target_kind, blur_region, edge_mode);
            let key = BlurTaskKey::Blur {
                downscale_level: (n + 1) as u32,
                stddev_x: deviation_after(start.sigma_x, n).spec_in_1024ths() as u32,
                stddev_y: deviation_after(start.sigma_y, n).spec_in_1024ths() as u32,
            };
            let h = end.graph[end.source.index as int];
            let v = end.graph[first_read(end.graph, end.source).index as int];
            &&& forall|k: nat|
                k < n ==> #[trigger] halved_further(start.size, start.sigma_x, start.sigma_y, k)
            &&& !halved_further(start.size, start.sigma_x, start.sigma_y, n)
            &&& is_blur(
                end.graph,
                end.source,
                start.source,
                start.size,
                target_kind,
                n,
                x,
                y,
            )
            &&& x.blur_std_deviation.spec_in_1024ths() == deviation_after(
                start.sigma_x,
                n,
            ).spec_in_1024ths()
            &&& y.blur_std_deviation.spec_in_1024ths() == deviation_after(
                start.sigma_y,
                n,
            ).spec_in_1024ths()
            &&& start.cache.dom().contains(key) ==> end.source == start.cache[key]
            &&& !start.cache.dom().contains(key) ==> {
                &&& x.blur_std_deviation == deviation_after(start.sigma_x, n)
                &&& y.blur_std_deviation == deviation_after(start.sigma_y, n)
                &&& is_part_of(x.blur_region.width as int, blur_region.width as int, n)
                &&& is_part_of(x.blur_region.height as int, blur_region.height as int, n)
                &&& x.edge_mode == edge_mode
                &&& h.uv_rect_kind == start.graph[start.source.index as int].uv_rect_kind
                &&& v.uv_rect_kind == start.graph[start.source.index as int].uv_rect_kind
                &&& end.source.index == end.graph.len() - 1
                &&& first_read(end.graph, end.source).index == end.graph.len() - 2
            }
            &&& cache_holds(end.graph, end.cache, start.source, start.size, target_kind)
        }),
{
    assert(power_of_two(32) == 0x1_0000_0000) by {
        reveal_with_fuel(power_of_two, 33);
    }
    lemma_size_after(start.size, 0);
    let (x, y) = (start.sigma_x, start.sigma_y);
    let n = lemma_all_halvings(start, start.source, start.size, x, y, target_kind, 0, 32);
    let c = downscaled(start, target_kind);
    let end = blurred(start, target_kind, blur_region, edge_mode);
    let key = BlurTaskKey::spec_downscale_and_blur(c.level, c.sigma_x, c.sigma_y);
    lemma_in_range(c.sigma_x);
    lemma_in_range(c.sigma_y);
    lemma_same_blurs(start, target_kind, key);
    if c.cache.dom().contains(key) {
        assert(is_found_by(c.graph, c.cache[key], start.source, start.size, target_kind, key));
        assert(end.cache =~= c.cache);
        let (bx, by) = choose|bx: BlurTask, by: BlurTask| #[trigger]
            is_blur(c.graph, c.cache[key], start.source, start.size, target_kind, n, bx, by)
                && bx.blur_std_deviation.spec_in_1024ths() == c.sigma_x.spec_in_1024ths()
                && by.blur_std_deviation.spec_in_1024ths() == c.sigma_y.spec_in_1024ths();
        (n, bx, by)
    } else {
        let v = RenderTaskId { index: c.graph.len() as u32 };
        assert(end.graph[end.source.index as int].children =~= seq![v.index]);
        assert(end.graph[v.index as int].children =~= seq![c.source.index]);
        assert(extends(end.graph, c.graph));
        lemma_copy_kept(
            c.graph,
            end.graph,
            c.source,
            start.source,
            start.size,
            target_kind,
            n,
        );
        lemma_cache_kept(c.graph, end.graph, c.cache, start.source, start.size, target_kind);
        lemma_level_scale(n);
        lemma_power_positive(n);
        let p = power_of_two(n) as int;
        lemma_part(blur_region.width as int, n);
        lemma_part(blur_region.height as int, n);
        let region = DeviceIntSize {
            width: crate::render_task::blur::quotient(blur_region.width as int, p) as i32,
            height: crate::render_task::blur::quotient(blur_region.height as int, p) as i32,
        };
        let by = BlurTask {
            blur_std_deviation: c.sigma_y,
            target_kind,
            blur_region: region,
            edge_mode,
        };
        let bx = BlurTask { blur_std_deviation: c.sigma_x, ..by };
        assert(is_blur(
            end.graph,
            end.source,
            start.source,
            start.size,
            target_kind,
            n,
            bx,
            by,
        ));
        assert(is_found_by(end.graph, end.source, start.source, start.size, target_kind, key)) by {
            assert((c.level - 1) as nat == n);
        }
        assert forall|k: BlurTaskKey| #[trigger] end.cache.dom().contains(k) implies is_found_by(
            end.graph,
            end.cache[k],
            start.source,
            start.size,
            target_kind,
            k,
        ) by {
            if k != key {
                assert(c.cache.dom().contains(k));
            }
        }
        (n, bx, by)
    }
}

proof fn lemma_part(whole: int, n: nat)
    ensures
        is_part_of(crate::render_task::blur::quotient(whole, power_of_two(n) as int), whole, n),
        i32::MIN <= whole <= i32::MAX ==> i32::MIN <= crate::render_task::blur::quotient(
            whole,
            power_of_two(n) as int,
        ) <= i32::MAX,
{
    lemma_power_positive(n);
    let p = power_of_two(n) as int;
    let m = if whole >= 0 {
        whole
    } else {
        -whole
    };
    let q = m / p;
    assert(q * p <= m && m < (q + 1) * p && 0 <= q && q <= m) by (nonlinear_arith)
        requires
            p >= 1,
            m >= 0,
            q == m / p,
    ;
    assert((-q) * p == -(q * p) && (-q - 1) * p == -((q + 1) * p)) by (nonlinear_arith);
}

/// The task at the place `i` reads the task before it and no other.
pub open spec fn reads_previous(graph: Seq<RenderTaskView>, i: int) -> bool {
    &&& graph[i].children.len() == 1
    &&& graph[i].children[0] == i - 1
}

/// The tasks from `from` on are read one by the other, the first reading `source`.
pub open spec fn is_chain(graph: Seq<RenderTaskView>, from: int, source: RenderTaskId) -> bool {
    &&& from < graph.len() ==> reads_only(graph, RenderTaskId { index: from as u32 }, source)
    &&& forall|i: int| from < i < graph.len() ==> #[trigger] reads_previous(graph, i)
}

/// The halvings form a chain from `from` on, and the next one is not in the cache.
spec fn halvings_chain(c: BlurChain, from: int, source: RenderTaskId) -> bool {
    &&& c.level >= 1
    &&& c.source.index < c.graph.len()
    &&& 0 <= from <= c.graph.len()
    &&& is_chain(c.graph, from, source)
    &&& c.source.index == if c.graph.len() == from {
        source.index as int
    } else {
        c.graph.len() - 1
    }
    &&& c.graph.len() - from == c.level - 1
    &&& forall|k: BlurTaskKey| #[trigger]
        c.cache.dom().contains(k) ==> k is DownScale && k->DownScale_0 < c.level
}

proof fn lemma_halvings_chain(
    c: BlurChain,
    target_kind: RenderTargetKind,
    from: int,
    source: RenderTaskId,
    left: nat,
)
    requires
        halvings_chain(c, from, source),
        c.graph.len() + left < MAX_TASKS,
        c.size.width < power_of_two(left),
    ensures
        halvings_chain(downscaled(c, target_kind), from, source),
        extends(downscaled(c, target_kind).graph, c.graph),
        downscaled(c, target_kind).graph.len() <= c.graph.len() + left,
    decreases left,
{
    if crate::render_task::blur::can_downscale(c.size, c.sigma_x, c.sigma_y) {
        assert(left > 0);
        let next = downscaled_once(c, target_kind);
        let key = BlurTaskKey::DownScale(c.level);
        assert(!c.cache.dom().contains(key));
        assert(next.graph.last().children =~= seq![c.source.index]);
        assert forall|i: int| from < i < next.graph.len() implies #[trigger] reads_previous(
            next.graph,
            i,
        ) by {
            if i < c.graph.len() {
                assert(reads_previous(c.graph, i));
                assert(next.graph[i] == c.graph[i]);
            }
        }
        assert(next.level == c.level + 1);
        assert(next.graph.len() == c.graph.len() + 1);
        assert(is_chain(next.graph, from, source)) by {
            if from < c.graph.len() {
                assert(next.graph[from] == c.graph[from]);
            }
        }
        assert forall|k: BlurTaskKey| #[trigger] next.cache.dom().contains(k) implies k is DownScale
            && k->DownScale_0 < next.level by {
            if k != key {
                assert(c.cache.dom().contains(k));
            }
        }
        assert(halvings_chain(next, from, source));
        lemma_halvings_chain(next, target_kind, from, source, (left - 1) as nat);
        let last = downscaled(c, target_kind).graph;
        assert forall|i: int| 0 <= i < c.graph.len() implies #[trigger] last[i] == c.graph[i] by {
            assert(next.graph[i] == c.graph[i]);
        }
    }
}

/// A blur without a cache adds as many copies as there are halvings, and the two
/// passes. Each of the added tasks reads the one before it and no other, the
/// first reads the source, and the last one holds the blur.
pub proof fn new_blurs_are_chains(
    start: BlurChain,
    target_kind: RenderTargetKind,
    blur_region: DeviceIntSize,
    edge_mode: BlurEdgeMode,
) -> (n: nat)
    requires
        chain_ok(start),
        start.graph.len() + 64 <= MAX_TASKS,
        start.level == 1,
        start.size.width >= 0,
        start.size.height >= 0,
        start.cache == Map::<BlurTaskKey, RenderTaskId>::empty(),
    ensures
        ({
            let end = blurred(start, target_kind, blur_region, edge_mode);
            let from = start.graph.len() as int;
            &&& extends(end.graph, start.graph)
            &&& n <= 32
            &&& end.graph.len() == from + n + 2
            &&& is_chain(end.graph, from, start.source)
            &&& end.source.index == end.graph.len() - 1
            &&& forall|k: nat|
                k < n ==> #[trigger] halved_further(start.size, start.sigma_x, start.sigma_y, k)
            &&& !halved_further(start.size, start.sigma_x, start.sigma_y, n)
        }),
{
    assert(power_of_two(32) == 0x1_0000_0000) by {
        reveal_with_fuel(power_of_two, 33);
    }
    let from = start.graph.len() as int;
    lemma_halvings_chain(start, target_kind, from, start.source, 32);
    lemma_size_after(start.size, 0);
    let n = lemma_all_halvings(
        start,
        start.source,
        start.size,
        start.sigma_x,
        start.sigma_y,
        target_kind,
        0,
        32,
    );
    let c = downscaled(start, target_kind);
    let end = blurred(start, target_kind, blur_region, edge_mode);
    let key = BlurTaskKey::spec_downscale_and_blur(c.level, c.sigma_x, c.sigma_y);
    assert(!c.cache.dom().contains(key));
    let v = c.graph.len() as int;
    assert(end.graph[v].children =~= seq![c.source.index]);
    assert(end.graph[v + 1].children =~= seq![v as u32]);
    assert forall|i: int| from < i < end.graph.len() implies #[trigger] reads_previous(
        end.graph,
        i,
    ) by {
        if i < v {
            assert(reads_previous(c.graph, i));
            assert(end.graph[i] == c.graph[i]);
        }
    }
    n
}

/// Halvings put no blur into the cache.
proof fn lemma_same_blurs(c: BlurChain, target_kind: RenderTargetKind, key: BlurTaskKey)
    requires
        key is Blur,
    ensures
        downscaled(c, target_kind).cache.dom().contains(key) == c.cache.dom().contains(key),
        c.cache.dom().contains(key) ==> downscaled(c, target_kind).cache[key] == c.cache[key],
    decreases c.size.width,
{
    if crate::render_task::blur::can_downscale(c.size, c.sigma_x, c.sigma_y) {
        lemma_same_blurs(downscaled_once(c, target_kind), target_kind, key);
    }
}

/// A number in 1024ths fits its type.
proof fn lemma_in_range(x: FloatBits)
    ensures
        0 <= x.spec_in_1024ths() <= u32::MAX,
{
    if x.lowest_exponent() < 139 {
        lemma_halved_bound(x.integer_significand(), (139 - x.lowest_exponent()) as nat);
    }
}

proof fn lemma_halved_bound(a: nat, k: nat)
    ensures
        crate::float_bits::halved(a, k) <= a,
    decreases k,
{
    if k > 0 {
        lemma_halved_bound(a, (k - 1) as nat);
    }
}

} // verus!
