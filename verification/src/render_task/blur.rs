//! Blurs, scaled copies and blits.
//!
//! A blur with a large deviation is done on a smaller copy of its source. The
//! source is halved until the deviation is small or the copy is, then blurred
//! vertically and after that horizontally. Several blurs of one source share
//! their copies by means of a cache.

use crate::float_bits::FloatBits;
use crate::internal_types::{BlurEdgeMode, RenderTargetKind, RenderTaskId};
use crate::render_task::{
    fresh_task, sane_size, BlitTask, BlurTask, DeviceIntSideOffsets, RenderTask, RenderTaskKind,
    RenderTaskLocation, RenderTaskView, ScalingTask, MAX_BLUR_STD_DEVIATION,
    MIN_DOWNSCALING_RT_SIZE,
};
use crate::render_task_graph::{with_dependency, RenderTaskGraphBuilder, UvRectKind, MAX_TASKS};
use crate::units::{DeviceIntRect, DeviceIntSize};
use vstd::prelude::*;

verus! {

/// What a task of a blur is found by: the number of halvings, and for the blur
/// itself the deviations in 1024ths too.
#[derive(Clone, Copy, Debug, PartialEq, Eq, Structural)]
pub enum BlurTaskKey {
    DownScale(u32),
    Blur { downscale_level: u32, stddev_x: u32, stddev_y: u32 },
}

impl BlurTaskKey {
    pub open spec fn spec_downscale_and_blur(level: u32, x: FloatBits, y: FloatBits) -> Self {
        BlurTaskKey::Blur {
            downscale_level: level,
            stddev_x: x.spec_in_1024ths() as u32,
            stddev_y: y.spec_in_1024ths() as u32,
        }
    }

    pub fn downscale_and_blur(level: u32, x: FloatBits, y: FloatBits) -> (r: Self)
        ensures
            r == Self::spec_downscale_and_blur(level, x, y),
    {
        BlurTaskKey::Blur {
            downscale_level: level,
            stddev_x: x.in_1024ths(),
            stddev_y: y.in_1024ths(),
        }
    }
}

/// The blur tasks of one primitive.
pub struct BlurTaskCache {
    entries: Vec<(BlurTaskKey, RenderTaskId)>,
}

impl BlurTaskCache {
    /// The task found by each key that has one.
    pub closed spec fn view(self) -> Map<BlurTaskKey, RenderTaskId> {
        entries_map(self.entries@)
    }

    pub fn new() -> (r: Self)
        ensures
            r@ == Map::<BlurTaskKey, RenderTaskId>::empty(),
    {
        BlurTaskCache { entries: Vec::new() }
    }

    pub fn get(&self, key: BlurTaskKey) -> (r: Option<RenderTaskId>)
        ensures
            r == if self@.dom().contains(key) {
                Some(self@[key])
            } else {
                None
            },
    {
        let mut i: usize = self.entries.len();
        assert(self.entries@.take(i as int) =~= self.entries@);
        while i > 0
            invariant
                i <= self.entries@.len(),
                entries_map(self.entries@).dom().contains(key) <==> entries_map(
                    self.entries@.take(i as int),
                ).dom().contains(key),
                entries_map(self.entries@)[key] == entries_map(self.entries@.take(i as int))[key],
            decreases i,
        {
            assert(self.entries@.take(i as int).drop_last() =~= self.entries@.take(i - 1));
            i = i - 1;
            if self.entries[i].0 == key {
                return Some(self.entries[i].1);
            }
        }
        None
    }

    pub fn insert(&mut self, key: BlurTaskKey, id: RenderTaskId)
        ensures
            final(self)@ == old(self)@.insert(key, id),
    {
        self.entries.push((key, id));
        assert(self.entries@.drop_last() =~= old(self).entries@);
    }
}

/// The map that a list of entries stands for, later entries over earlier ones.
pub open spec fn entries_map(entries: Seq<(BlurTaskKey, RenderTaskId)>) -> Map<
    BlurTaskKey,
    RenderTaskId,
>
    decreases entries.len(),
{
    if entries.len() == 0 {
        Map::empty()
    } else {
        entries_map(entries.drop_last()).insert(entries.last().0, entries.last().1)
    }
}

/// The graph with a copy of `source`, scaled to fill `size` inside of `padding`.
pub open spec fn with_scaling(
    graph: Seq<RenderTaskView>,
    source: RenderTaskId,
    target_kind: RenderTargetKind,
    size: DeviceIntSize,
    padding: DeviceIntSideOffsets,
) -> Seq<RenderTaskView> {
    with_dependency(
        graph.push(
            fresh_task(
                RenderTaskLocation::Unallocated { size },
                RenderTaskKind::Scaling(ScalingTask { target_kind, padding })@,
                graph[source.index as int].uv_rect_kind,
            ),
        ),
        RenderTaskId { index: graph.len() as u32 },
        source,
    )
}

/// The offsets of a copy that fills its target.
pub open spec fn no_padding() -> DeviceIntSideOffsets {
    DeviceIntSideOffsets { top: 0, right: 0, bottom: 0, left: 0 }
}

/// A blur on its way down: the graph and the cache so far, the task to be read
/// next with its size, and the deviations at that size.
#[verifier::ext_equal]
pub struct BlurChain {
    pub graph: Seq<RenderTaskView>,
    pub cache: Map<BlurTaskKey, RenderTaskId>,
    pub source: RenderTaskId,
    pub size: DeviceIntSize,
    pub sigma_x: FloatBits,
    pub sigma_y: FloatBits,
    pub level: u32,
}

/// Both deviations are large and the task is not yet small.
pub open spec fn can_downscale(
    size: DeviceIntSize,
    sigma_x: FloatBits,
    sigma_y: FloatBits,
) -> bool {
    &&& sigma_x.spec_gt(FloatBits(MAX_BLUR_STD_DEVIATION))
    &&& sigma_y.spec_gt(FloatBits(MAX_BLUR_STD_DEVIATION))
    &&& size.width >= MIN_DOWNSCALING_RT_SIZE
    &&& size.height >= MIN_DOWNSCALING_RT_SIZE
}

pub open spec fn half_size(size: DeviceIntSize) -> DeviceIntSize {
    DeviceIntSize { width: (size.width as int / 2) as i32, height: (size.height as int / 2) as i32 }
}

/// One halving: the copy comes from the cache where it is there, and is in the
/// cache afterwards.
pub open spec fn downscaled_once(c: BlurChain, target_kind: RenderTargetKind) -> BlurChain {
    let key = BlurTaskKey::DownScale(c.level);
    let size = half_size(c.size);
    let cached = c.cache.dom().contains(key);
    let id = if cached {
        c.cache[key]
    } else {
        RenderTaskId { index: c.graph.len() as u32 }
    };
    BlurChain {
        graph: if cached {
            c.graph
        } else {
            with_scaling(c.graph, c.source, target_kind, size, no_padding())
        },
        cache: c.cache.insert(key, id),
        source: id,
        size,
        sigma_x: c.sigma_x.spec_half(),
        sigma_y: c.sigma_y.spec_half(),
        level: (c.level + 1) as u32,
    }
}

/// All the halvings.
pub open spec fn downscaled(c: BlurChain, target_kind: RenderTargetKind) -> BlurChain
    decreases c.size.width,
{
    if can_downscale(c.size, c.sigma_x, c.sigma_y) {
        downscaled(downscaled_once(c, target_kind), target_kind)
    } else {
        c
    }
}

/// `n` divided by `d`, cut off towards zero.
pub open spec fn quotient(n: int, d: int) -> int {
    if n >= 0 {
        n / d
    } else {
        -((-n) / d)
    }
}

/// Two to the power of the number of halvings that lead to a level.
pub open spec fn level_scale(level: int) -> int
    decreases level,
{
    if level <= 1 {
        1
    } else {
        2 * level_scale(level - 1)
    }
}

/// The graph with the two passes of a blur of `c.source`.
pub open spec fn with_blur_passes(
    c: BlurChain,
    target_kind: RenderTargetKind,
    blur_region: DeviceIntSize,
    edge_mode: BlurEdgeMode,
    uv_rect_kind: UvRectKind,
) -> Seq<RenderTaskView> {
    let location = RenderTaskLocation::Unallocated { size: c.size };
    let vertical = BlurTask {
        blur_std_deviation: c.sigma_y,
        target_kind,
        blur_region,
        edge_mode,
    };
    let horizontal = BlurTask { blur_std_deviation: c.sigma_x, ..vertical };
    let v = RenderTaskId { index: c.graph.len() as u32 };
    let h = RenderTaskId { index: (c.graph.len() + 1) as u32 };
    let g1 = with_dependency(
        c.graph.push(
            fresh_task(location, RenderTaskKind::VerticalBlur(vertical)@, uv_rect_kind),
        ),
        v,
        c.source,
    );
    with_dependency(
        g1.push(fresh_task(location, RenderTaskKind::HorizontalBlur(horizontal)@, uv_rect_kind)),
        h,
        v,
    )
}

/// What a blur makes of a graph and of the cache, and the task that holds its result.
pub open spec fn blurred(
    start: BlurChain,
    target_kind: RenderTargetKind,
    blur_region: DeviceIntSize,
    edge_mode: BlurEdgeMode,
) -> BlurChain {
    let uv_rect_kind = start.graph[start.source.index as int].uv_rect_kind;
    let c = downscaled(start, target_kind);
    let key = BlurTaskKey::spec_downscale_and_blur(c.level, c.sigma_x, c.sigma_y);
    let scale = level_scale(c.level as int);
    let region = DeviceIntSize {
        width: quotient(blur_region.width as int, scale) as i32,
        height: quotient(blur_region.height as int, scale) as i32,
    };
    let cached = c.cache.dom().contains(key);
    let id = if cached {
        c.cache[key]
    } else {
        RenderTaskId { index: (c.graph.len() + 1) as u32 }
    };
    BlurChain {
        graph: if cached {
            c.graph
        } else {
            with_blur_passes(c, target_kind, region, edge_mode, uv_rect_kind)
        },
        cache: c.cache.insert(key, id),
        source: id,
        ..c
    }
}

/// The source and every task in the cache are tasks of the graph.
pub open spec fn chain_ok(c: BlurChain) -> bool {
    &&& c.source.index < c.graph.len()
    &&& forall|k: BlurTaskKey| #[trigger]
        c.cache.dom().contains(k) ==> c.cache[k].index < c.graph.len()
}

/// The first task that the blur draws has a size that a task can have.
pub open spec fn blur_size_ok(size: DeviceIntSize, x: FloatBits, y: FloatBits) -> bool {
    let first = if can_downscale(size, x, y) {
        half_size(size)
    } else {
        size
    };
    !first.spec_is_empty() && sane_size(first)
}

/// The tasks of `before` are the first ones of `after`, as they were.
pub open spec fn extends(after: Seq<RenderTaskView>, before: Seq<RenderTaskView>) -> bool {
    &&& before.len() <= after.len()
    &&& forall|i: int| 0 <= i < before.len() ==> #[trigger] after[i] == before[i]
}

/// Everything that the task depends on lies before the place `i`.
pub open spec fn children_before(task: RenderTaskView, i: int) -> bool {
    forall|k: int| 0 <= k < task.children.len() ==> #[trigger] task.children[k] < i
}

/// From `from` on, each task depends only on tasks before it.
pub open spec fn depends_backwards(graph: Seq<RenderTaskView>, from: nat) -> bool {
    forall|i: int| from <= i < graph.len() ==> children_before(#[trigger] graph[i], i)
}

/// A dependency of the last task on an earlier one keeps the order.
pub proof fn lemma_with_dependency(
    graph: Seq<RenderTaskView>,
    parent: RenderTaskId,
    child: RenderTaskId,
    from: nat,
)
    requires
        parent.index == graph.len() - 1,
        child.index < parent.index,
        depends_backwards(graph, from),
    ensures
        extends(with_dependency(graph, parent, child), graph.drop_last()),
        with_dependency(graph, parent, child).len() == graph.len(),
        depends_backwards(with_dependency(graph, parent, child), from),
{
    let g = with_dependency(graph, parent, child);
    assert forall|i: int| from <= i < g.len() implies children_before(#[trigger] g[i], i) by {
        assert(children_before(graph[i], i));
        if i == parent.index {
            assert forall|k: int| 0 <= k < g[i].children.len() implies #[trigger] g[i].children[k]
                < i by {
                if k < graph[i].children.len() {
                    assert(graph[i].children[k] < i);
                }
            }
        }
    }
}

/// A new task that depends on an earlier one keeps the order.
pub proof fn lemma_new_task(
    graph: Seq<RenderTaskView>,
    task: RenderTaskView,
    child: RenderTaskId,
    from: nat,
)
    requires
        graph.len() < MAX_TASKS,
        task.children.len() == 0,
        child.index < graph.len(),
        depends_backwards(graph, from),
    ensures
        ({
            let g = with_dependency(
                graph.push(task),
                RenderTaskId { index: graph.len() as u32 },
                child,
            );
            &&& extends(g, graph)
            &&& g.len() == graph.len() + 1
            &&& depends_backwards(g, from)
        }),
{
    let pushed = graph.push(task);
    assert(depends_backwards(pushed, from)) by {
        assert forall|i: int| from <= i < pushed.len() implies children_before(
            #[trigger] pushed[i],
            i,
        ) by {
            if i < graph.len() {
                assert(pushed[i] == graph[i]);
            }
        }
    }
    lemma_with_dependency(pushed, RenderTaskId { index: graph.len() as u32 }, child, from);
    assert(pushed.drop_last() =~= graph);
}

proof fn lemma_downscaled_once(c: BlurChain, target_kind: RenderTargetKind, from: nat)
    requires
        chain_ok(c),
        c.graph.len() < MAX_TASKS,
        depends_backwards(c.graph, from),
    ensures
        chain_ok(downscaled_once(c, target_kind)),
        extends(downscaled_once(c, target_kind).graph, c.graph),
        downscaled_once(c, target_kind).graph.len() <= c.graph.len() + 1,
        depends_backwards(downscaled_once(c, target_kind).graph, from),
{
    let size = half_size(c.size);
    let task = fresh_task(
        RenderTaskLocation::Unallocated { size },
        RenderTaskKind::Scaling(ScalingTask { target_kind, padding: no_padding() })@,
        c.graph[c.source.index as int].uv_rect_kind,
    );
    lemma_new_task(c.graph, task, c.source, from);
}

/// A blur leaves the tasks that are there alone, and the tasks that it adds
/// depend only on earlier ones.
pub proof fn blur_extends_graph(
    start: BlurChain,
    target_kind: RenderTargetKind,
    blur_region: DeviceIntSize,
    edge_mode: BlurEdgeMode,
    from: nat,
)
    requires
        chain_ok(start),
        start.graph.len() + 64 <= MAX_TASKS,
        start.size.width <= i32::MAX,
        depends_backwards(start.graph, from),
    ensures
        chain_ok(blurred(start, target_kind, blur_region, edge_mode)),
        extends(blurred(start, target_kind, blur_region, edge_mode).graph, start.graph),
        depends_backwards(blurred(start, target_kind, blur_region, edge_mode).graph, from),
        blurred(start, target_kind, blur_region, edge_mode).graph.len() <= start.graph.len() + 34,
{
    assert(crate::float_bits::power_of_two(32) == 0x1_0000_0000) by {
        reveal_with_fuel(crate::float_bits::power_of_two, 33);
    }
    lemma_downscaled(start, target_kind, from, 32);
    let c = downscaled(start, target_kind);
    let scale = level_scale(c.level as int);
    let region = DeviceIntSize {
        width: quotient(blur_region.width as int, scale) as i32,
        height: quotient(blur_region.height as int, scale) as i32,
    };
    let uv_rect_kind = start.graph[start.source.index as int].uv_rect_kind;
    lemma_blur_passes(c, target_kind, region, edge_mode, uv_rect_kind, from);
}

/// What the cache has stays there.
proof fn lemma_cache_grows(c: BlurChain, target_kind: RenderTargetKind)
    ensures
        c.cache.submap_of(downscaled(c, target_kind).cache),
    decreases c.size.width,
{
    if can_downscale(c.size, c.sigma_x, c.sigma_y) {
        let next = downscaled_once(c, target_kind);
        lemma_cache_grows(next, target_kind);
        let end = downscaled(c, target_kind).cache;
        assert forall|k: BlurTaskKey| c.cache.dom().contains(k) implies #[trigger] end.dom().contains(
            k,
        ) && c.cache[k] == end[k] by {
            assert(next.cache.dom().contains(k) && next.cache[k] == c.cache[k]);
        }
    }
}

/// Halvings that are all in the cache add nothing, and lead to the same task.
proof fn lemma_halvings_again(c: BlurChain, again: BlurChain, target_kind: RenderTargetKind)
    requires
        again == (BlurChain { graph: again.graph, cache: again.cache, ..c }),
        downscaled(c, target_kind).cache.submap_of(again.cache),
    ensures
        downscaled(again, target_kind) == (BlurChain {
            graph: again.graph,
            cache: again.cache,
            ..downscaled(c, target_kind)
        }),
    decreases c.size.width,
{
    if can_downscale(c.size, c.sigma_x, c.sigma_y) {
        let next = downscaled_once(c, target_kind);
        let next_again = downscaled_once(again, target_kind);
        let key = BlurTaskKey::DownScale(c.level);
        lemma_cache_grows(next, target_kind);
        assert(next.cache.dom().contains(key));
        assert(downscaled(c, target_kind).cache.dom().contains(key));
        assert(again.cache.dom().contains(key));
        assert(again.cache[key] == next.source);
        assert(next_again.cache =~= again.cache);
        lemma_halvings_again(next, next_again, target_kind);
    }
}

/// A blur that is asked for again adds no task and no dependency, leaves the cache as it is,
/// and is held by the same task. Other tasks may have been added in the meantime.
pub proof fn repeated_blurs_add_nothing(
    start: BlurChain,
    target_kind: RenderTargetKind,
    blur_region: DeviceIntSize,
    edge_mode: BlurEdgeMode,
    later: Seq<RenderTaskView>,
)
    ensures
        ({
            let end = blurred(start, target_kind, blur_region, edge_mode);
            let again = blurred(
                BlurChain { graph: later, cache: end.cache, ..start },
                target_kind,
                blur_region,
                edge_mode,
            );
            &&& again.graph == later
            &&& again.cache == end.cache
            &&& again.source == end.source
        }),
{
    let end = blurred(start, target_kind, blur_region, edge_mode);
    let restart = BlurChain { graph: later, cache: end.cache, ..start };
    let c = downscaled(start, target_kind);
    let key = BlurTaskKey::spec_downscale_and_blur(c.level, c.sigma_x, c.sigma_y);
    assert(c.cache.submap_of(end.cache));
    lemma_halvings_again(start, restart, target_kind);
    assert(end.cache.insert(key, end.cache[key]) =~= end.cache);
}

proof fn lemma_blur_passes(
    c: BlurChain,
    target_kind: RenderTargetKind,
    blur_region: DeviceIntSize,
    edge_mode: BlurEdgeMode,
    uv_rect_kind: UvRectKind,
    from: nat,
)
    requires
        chain_ok(c),
        c.graph.len() + 1 < MAX_TASKS,
        depends_backwards(c.graph, from),
    ensures
        ({
            let g = with_blur_passes(c, target_kind, blur_region, edge_mode, uv_rect_kind);
            &&& extends(g, c.graph)
            &&& g.len() == c.graph.len() + 2
            &&& depends_backwards(g, from)
        }),
{
    let location = RenderTaskLocation::Unallocated { size: c.size };
    let vertical = BlurTask {
        blur_std_deviation: c.sigma_y,
        target_kind,
        blur_region,
        edge_mode,
    };
    let horizontal = BlurTask { blur_std_deviation: c.sigma_x, ..vertical };
    let v = RenderTaskId { index: c.graph.len() as u32 };
    let first = fresh_task(location, RenderTaskKind::VerticalBlur(vertical)@, uv_rect_kind);
    let second = fresh_task(location, RenderTaskKind::HorizontalBlur(horizontal)@, uv_rect_kind);
    lemma_new_task(c.graph, first, c.source, from);
    let g1 = with_dependency(c.graph.push(first), v, c.source);
    lemma_new_task(g1, second, v, from);
}

/// A width below two to the power of `n` can be halved at most `n` times.
proof fn lemma_downscaled(c: BlurChain, target_kind: RenderTargetKind, from: nat, n: nat)
    requires
        chain_ok(c),
        c.graph.len() + n < MAX_TASKS,
        c.size.width < crate::float_bits::power_of_two(n),
        depends_backwards(c.graph, from),
    ensures
        chain_ok(downscaled(c, target_kind)),
        extends(downscaled(c, target_kind).graph, c.graph),
        depends_backwards(downscaled(c, target_kind).graph, from),
        downscaled(c, target_kind).graph.len() <= c.graph.len() + n,
    decreases n,
{
    if can_downscale(c.size, c.sigma_x, c.sigma_y) {
        lemma_downscaled_once(c, target_kind, from);
        if n > 0 {
            lemma_downscaled(
                downscaled_once(c, target_kind),
                target_kind,
                from,
                (n - 1) as nat,
            );
        }
    }
}

impl RenderTask {
    /// Copies a part of another task.
    pub fn new_blit(
        size: DeviceIntSize,
        source: RenderTaskId,
        source_rect: DeviceIntRect,
        rg_builder: &mut RenderTaskGraphBuilder,
    ) -> (r: RenderTaskId)
        requires
            !size.spec_is_empty(),
            sane_size(size),
            old(rg_builder)@.len() < MAX_TASKS,
        ensures
            r.index == old(rg_builder)@.len(),
            final(rg_builder)@ == with_dependency(
                old(rg_builder)@.push(
                    fresh_task(
                        RenderTaskLocation::Unallocated { size },
                        RenderTaskKind::Blit(BlitTask { source, source_rect })@,
                        UvRectKind::Rect,
                    ),
                ),
                r,
                source,
            ),
            final(rg_builder).sub_tasks == old(rg_builder).sub_tasks,
    {
        let id = rg_builder.add_task(
            RenderTask::new_dynamic(size, RenderTaskKind::Blit(BlitTask { source, source_rect })),
        );
        rg_builder.add_dependency(id, source);
        id
    }

    /// A copy of another task, scaled to `size`.
    pub fn new_scaling(
        src_task_id: RenderTaskId,
        rg_builder: &mut RenderTaskGraphBuilder,
        target_kind: RenderTargetKind,
        size: DeviceIntSize,
    ) -> (r: RenderTaskId)
        requires
            src_task_id.index < old(rg_builder)@.len() < MAX_TASKS,
            !size.spec_is_empty(),
            sane_size(size),
        ensures
            r.index == old(rg_builder)@.len(),
            final(rg_builder)@ == with_scaling(
                old(rg_builder)@,
                src_task_id,
                target_kind,
                size,
                no_padding(),
            ),
            final(rg_builder).sub_tasks == old(rg_builder).sub_tasks,
    {
        Self::new_scaling_with_padding(
            src_task_id,
            rg_builder,
            target_kind,
            size,
            DeviceIntSideOffsets { top: 0, right: 0, bottom: 0, left: 0 },
        )
    }

    /// A copy of another task, scaled to `padded_size` without the padding.
    pub fn new_scaling_with_padding(
        source: RenderTaskId,
        rg_builder: &mut RenderTaskGraphBuilder,
        target_kind: RenderTargetKind,
        padded_size: DeviceIntSize,
        padding: DeviceIntSideOffsets,
    ) -> (r: RenderTaskId)
        requires
            source.index < old(rg_builder)@.len() < MAX_TASKS,
            !padded_size.spec_is_empty(),
            sane_size(padded_size),
        ensures
            r.index == old(rg_builder)@.len(),
            final(rg_builder)@ == with_scaling(
                old(rg_builder)@,
                source,
                target_kind,
                padded_size,
                padding,
            ),
            final(rg_builder).sub_tasks == old(rg_builder).sub_tasks,
    {
        let uv_rect_kind = rg_builder.get_task(source).uv_rect_kind();
        let id = rg_builder.add_task(
            RenderTask::new_dynamic(
                padded_size,
                RenderTaskKind::Scaling(ScalingTask { target_kind, padding }),
            ).with_uv_rect_kind(uv_rect_kind),
        );
        rg_builder.add_dependency(id, source);
        id
    }

    /// A blur of another task. Tasks found in `blur_cache` are used again, and
    /// what is made is put there.
    pub fn new_blur(
        sigma_x: FloatBits,
        sigma_y: FloatBits,
        src_task_id: RenderTaskId,
        rg_builder: &mut RenderTaskGraphBuilder,
        target_kind: RenderTargetKind,
        blur_cache: &mut BlurTaskCache,
        blur_region: DeviceIntSize,
        edge_mode: BlurEdgeMode,
    ) -> (r: RenderTaskId)
        requires
            blur_start(*old(rg_builder), *old(blur_cache), src_task_id, sigma_x, sigma_y).0,
        ensures
            ({
                let start = blur_start(
                    *old(rg_builder),
                    *old(blur_cache),
                    src_task_id,
                    sigma_x,
                    sigma_y,
                ).1;
                let end = blurred(start, target_kind, blur_region, edge_mode);
                &&& final(rg_builder)@ == end.graph
                &&& final(blur_cache)@ == end.cache
                &&& r == end.source
            }),
            final(rg_builder).sub_tasks == old(rg_builder).sub_tasks,
    {
        let ghost start = blur_start(*rg_builder, *blur_cache, src_task_id, sigma_x, sigma_y).1;
        let uv_rect_kind = rg_builder.get_task(src_task_id).uv_rect_kind();
        let mut size: DeviceIntSize = rg_builder.get_task(src_task_id).location.size();
        let mut x: FloatBits = sigma_x;
        let mut y: FloatBits = sigma_y;
        let mut source: RenderTaskId = src_task_id;
        let mut scale: i64 = 1;
        let mut level: u32 = 1;
        let ghost mut left: nat = 32;
        proof {
            assert(crate::float_bits::power_of_two(32) == 0x1_0000_0000) by {
                reveal_with_fuel(crate::float_bits::power_of_two, 33);
            }
        }
        while x.gt(FloatBits(MAX_BLUR_STD_DEVIATION)) && y.gt(FloatBits(MAX_BLUR_STD_DEVIATION))
            && size.width >= MIN_DOWNSCALING_RT_SIZE && size.height >= MIN_DOWNSCALING_RT_SIZE
            invariant
                rg_builder.sub_tasks == old(rg_builder).sub_tasks,
                level + left == 33,
                1 <= level,
                size.width < crate::float_bits::power_of_two(left),
                rg_builder@.len() + left + 2 < MAX_TASKS,
                blur_size_ok(size, x, y),
                scale == level_scale(level as int),
                1 <= scale <= 0x8000_0000,
                scale * crate::float_bits::power_of_two(left) == 0x1_0000_0000,
                ({
                    let c = BlurChain {
                        graph: rg_builder@,
                        cache: blur_cache@,
                        source,
                        size,
                        sigma_x: x,
                        sigma_y: y,
                        level,
                    };
                    &&& chain_ok(c)
                    &&& downscaled(start, target_kind) == downscaled(c, target_kind)
                }),
            decreases size.width,
        {
            let ghost c = BlurChain {
                graph: rg_builder@,
                cache: blur_cache@,
                source,
                size,
                sigma_x: x,
                sigma_y: y,
                level,
            };
            proof {
                lemma_downscaled_once(c, target_kind, rg_builder@.len());
                assert(left > 3) by {
                    reveal_with_fuel(crate::float_bits::power_of_two, 4);
                }
                lemma_scale_step(scale as int, left);
            }
            x = x.half();
            y = y.half();
            scale = scale * 2;
            size = DeviceIntSize::new(size.width / 2, size.height / 2);
            let cached: Option<RenderTaskId> = blur_cache.get(BlurTaskKey::DownScale(level));
            source = match cached {
                Some(id) => id,
                None => RenderTask::new_scaling(source, rg_builder, target_kind, size),
            };
            blur_cache.insert(BlurTaskKey::DownScale(level), source);
            level = level + 1;
            proof {
                left = (left - 1) as nat;
            }
        }
        let key = BlurTaskKey::downscale_and_blur(level, x, y);
        let region = DeviceIntSize::new(
            divided(blur_region.width, scale),
            divided(blur_region.height, scale),
        );
        let cached: Option<RenderTaskId> = blur_cache.get(key);
        let id = match cached {
            Some(id) => id,
            None => {
                let vertical = BlurTask {
                    blur_std_deviation: y,
                    target_kind,
                    blur_region: region,
                    edge_mode,
                };
                let horizontal = BlurTask {
                    blur_std_deviation: x,
                    target_kind,
                    blur_region: region,
                    edge_mode,
                };
                let v = rg_builder.add_task(
                    RenderTask::new_dynamic(
                        size,
                        RenderTaskKind::VerticalBlur(vertical),
                    ).with_uv_rect_kind(uv_rect_kind),
                );
                rg_builder.add_dependency(v, source);
                let h = rg_builder.add_task(
                    RenderTask::new_dynamic(
                        size,
                        RenderTaskKind::HorizontalBlur(horizontal),
                    ).with_uv_rect_kind(uv_rect_kind),
                );
                rg_builder.add_dependency(h, v);
                h
            },
        };
        blur_cache.insert(key, id);
        id
    }
}

/// The start of a blur, and whether it is one that can be done.
pub open spec fn blur_start(
    rg_builder: RenderTaskGraphBuilder,
    cache: BlurTaskCache,
    src: RenderTaskId,
    sigma_x: FloatBits,
    sigma_y: FloatBits,
) -> (bool, BlurChain) {
    let start = BlurChain {
        graph: rg_builder@,
        cache: cache@,
        source: src,
        size: rg_builder@[src.index as int].location.spec_size(),
        sigma_x,
        sigma_y,
        level: 1,
    };
    (
        {
            &&& chain_ok(start)
            &&& start.graph.len() + 64 <= MAX_TASKS
            &&& rg_builder@[src.index as int].location.wf()
            &&& blur_size_ok(start.size, sigma_x, sigma_y)
        },
        start,
    )
}

proof fn lemma_scale_step(scale: int, left: nat)
    requires
        1 <= scale,
        left > 1,
        scale * crate::float_bits::power_of_two(left) == 0x1_0000_0000,
    ensures
        (2 * scale) * crate::float_bits::power_of_two((left - 1) as nat) == 0x1_0000_0000,
        2 * scale <= 0x8000_0000,
{
    reveal_with_fuel(crate::float_bits::power_of_two, 3);
    let p = crate::float_bits::power_of_two((left - 1) as nat) as int;
    let q = crate::float_bits::power_of_two((left - 2) as nat) as int;
    assert(p == 2 * q);
    assert(q >= 1) by {
        lemma_power_positive((left - 2) as nat);
    }
    assert((2 * scale) * p == scale * (2 * p)) by (nonlinear_arith);
    assert(2 * scale <= 0x8000_0000) by (nonlinear_arith)
        requires
            scale * (2 * p) == 0x1_0000_0000,
            p == 2 * q,
            q >= 1,
            scale >= 1,
    ;
}

proof fn lemma_power_positive(n: nat)
    ensures
        crate::float_bits::power_of_two(n) >= 1,
    decreases n,
{
    if n > 0 {
        lemma_power_positive((n - 1) as nat);
    }
}

fn divided(n: i32, d: i64) -> (r: i32)
    requires
        1 <= d <= 0x8000_0000,
    ensures
        r == quotient(n as int, d as int),
{
    let wide: i64 = n as i64;
    if wide >= 0 {
        assert(0 <= wide / d <= wide) by (nonlinear_arith)
            requires
                wide >= 0,
                d >= 1,
        ;
        (wide / d) as i32
    } else {
        let m: i64 = -wide;
        assert(0 <= m / d <= m) by (nonlinear_arith)
            requires
                m >= 0,
                d >= 1,
        ;
        (-(m / d)) as i32
    }
}

/// `n` divided by `d`, rounded up.
pub open spec fn quotient_up(n: int, d: int) -> int {
    (n + d - 1) / d
}

/// What a quotient that is rounded up says of its parts.
pub proof fn lemma_quotient_up(n: int, d: int)
    requires
        d >= 1,
    ensures
        quotient_up(n, d) >= 8 ==> n > 7 * d,
        quotient_up(n, d) * d < n + d,
        n <= quotient_up(n, d) * d,
        n >= 1 ==> quotient_up(n, d) >= 1,
{
    let q = (n + d - 1) / d;
    assert(q * d <= n + d - 1 && n + d - 1 < q * d + d) by (nonlinear_arith)
        requires
            d >= 1,
            q == (n + d - 1) / d,
    ;
    assert(q >= 8 ==> q * d >= 8 * d) by (nonlinear_arith)
        requires
            d >= 1,
    ;
    assert(q <= 0 ==> q * d <= 0) by (nonlinear_arith)
        requires
            d >= 1,
    ;
}

/// The size of a source that is `scale` times smaller.
pub open spec fn scaled_source(original: DeviceIntSize, scale: int) -> (int, int) {
    (quotient_up(original.width as int, scale), quotient_up(original.height as int, scale))
}

/// The scale at which a blur reads its source: it doubles for as long as both
/// deviations are large and the scaled source is not small.
pub open spec fn source_scale(
    original: DeviceIntSize,
    sigma_x: FloatBits,
    sigma_y: FloatBits,
    scale: int,
) -> int
    decreases original.width - scale,
{
    if scale >= 1 && sigma_x.spec_gt(FloatBits(MAX_BLUR_STD_DEVIATION)) && sigma_y.spec_gt(
        FloatBits(MAX_BLUR_STD_DEVIATION),
    ) && scaled_source(original, scale).0 >= MIN_DOWNSCALING_RT_SIZE && scaled_source(
        original,
        scale,
    ).1 >= MIN_DOWNSCALING_RT_SIZE {
        proof {
            lemma_quotient_up(original.width as int, scale);
        }
        source_scale(original, sigma_x.spec_half(), sigma_y.spec_half(), 2 * scale)
    } else {
        scale
    }
}

/// The source of a blur is not smaller than what is blurred, and less than twice as large.
pub proof fn lemma_source_size(original: DeviceIntSize, sigma_x: FloatBits, sigma_y: FloatBits)
    requires
        1 <= original.width <= 0x100_0000,
        1 <= original.height <= 0x100_0000,
    ensures
        ({
            let scale = source_scale(original, sigma_x, sigma_y, 1);
            let size = scaled_source(original, scale);
            &&& original.width <= size.0 * scale < 2 * original.width
            &&& original.height <= size.1 * scale < 2 * original.height
        }),
{
    lemma_scale_bound(original, sigma_x, sigma_y, 1);
    let scale = source_scale(original, sigma_x, sigma_y, 1);
    lemma_quotient_up(original.width as int, scale);
    lemma_quotient_up(original.height as int, scale);
}

/// A source is not scaled down to less than a pixel.
proof fn lemma_scale_bound(
    original: DeviceIntSize,
    sigma_x: FloatBits,
    sigma_y: FloatBits,
    scale: int,
)
    requires
        1 <= scale <= original.width,
        scale <= original.height,
    ensures
        1 <= source_scale(original, sigma_x, sigma_y, scale) <= original.width,
        source_scale(original, sigma_x, sigma_y, scale) <= original.height,
    decreases original.width - scale,
{
    if sigma_x.spec_gt(FloatBits(MAX_BLUR_STD_DEVIATION)) && sigma_y.spec_gt(
        FloatBits(MAX_BLUR_STD_DEVIATION),
    ) && scaled_source(original, scale).0 >= MIN_DOWNSCALING_RT_SIZE && scaled_source(
        original,
        scale,
    ).1 >= MIN_DOWNSCALING_RT_SIZE {
        lemma_quotient_up(original.width as int, scale);
        lemma_quotient_up(original.height as int, scale);
        lemma_scale_bound(original, sigma_x.spec_half(), sigma_y.spec_half(), 2 * scale);
    }
}

fn divided_up(n: i64, d: i64) -> (r: i64)
    requires
        0 <= n <= 0x1_0000_0000,
        1 <= d <= 0x1_0000_0000,
    ensures
        r == quotient_up(n as int, d as int),
{
    (n + d - 1) / d
}

impl BlurTask {
    /// The source size that a blur can halve without losing pixels: at least
    /// `original`, and a multiple of the scale at which the blur is done.
    pub fn adjusted_blur_source_size(
        original: DeviceIntSize,
        sigma_x: FloatBits,
        sigma_y: FloatBits,
    ) -> (r: DeviceIntSize)
        requires
            0 <= original.width <= 0x100_0000,
            0 <= original.height <= 0x100_0000,
        ensures
            ({
                let scale = source_scale(original, sigma_x, sigma_y, 1);
                &&& r.width == scaled_source(original, scale).0 * scale
                &&& r.height == scaled_source(original, scale).1 * scale
            }),
            r.width >= original.width,
            r.height >= original.height,
    {
        let w: i64 = original.width as i64;
        let h: i64 = original.height as i64;
        let mut x: FloatBits = sigma_x;
        let mut y: FloatBits = sigma_y;
        let mut scale: i64 = 1;
        let mut size: (i64, i64) = (w, h);
        while x.gt(FloatBits(MAX_BLUR_STD_DEVIATION)) && y.gt(FloatBits(MAX_BLUR_STD_DEVIATION))
            && size.0 >= MIN_DOWNSCALING_RT_SIZE as i64 && size.1 >= MIN_DOWNSCALING_RT_SIZE as i64
            invariant
                w == original.width,
                h == original.height,
                0 <= w <= 0x100_0000,
                0 <= h <= 0x100_0000,
                1 <= scale <= 0x100_0000,
                (size.0 as int, size.1 as int) == scaled_source(original, scale as int),
                source_scale(original, sigma_x, sigma_y, 1) == source_scale(
                    original,
                    x,
                    y,
                    scale as int,
                ),
            decreases w - scale,
        {
            proof {
                lemma_quotient_up(w as int, scale as int);
            }
            x = x.half();
            y = y.half();
            scale = scale * 2;
            size = (divided_up(w, scale), divided_up(h, scale));
        }
        proof {
            lemma_quotient_up(w as int, scale as int);
            lemma_quotient_up(h as int, scale as int);
            assert(0 <= size.0 * scale) by (nonlinear_arith)
                requires
                    size.0 * scale >= w,
                    w >= 0,
            ;
        }
        DeviceIntSize::new((size.0 * scale) as i32, (size.1 * scale) as i32)
    }
}

} // verus!
