//! What the renderer keeps between frames, and how messages change it.

use crate::internal_types::{FrameId, ImageFormat};
use crate::renderer::cache_texture::{
    all_dirty, all_patched, dirty_commands, updates_ok, CacheCommand, CacheTexture, CacheView,
    GpuCacheUpdateList,
};
use crate::renderer::draw::color_target::FrameOutput;
use crate::renderer::frame::PassState;
use crate::renderer::textures::{
    all_resolved, resolve_ok, update_deferred_resolves, DeferredResolve, ResolverView,
    SourceTextureResolver, TextureId, TextureUpdate,
};
use crate::renderer::{DebugFlags, RendererError};
use std::collections::{HashMap, VecDeque};
use vstd::prelude::*;

verus! {

/// What the processor spent on a frame.
#[derive(Clone, Copy, Debug, PartialEq, Eq, Structural)]
pub struct CpuProfile {
    pub frame_id: FrameId,
    pub backend_time_ns: u64,
    pub composite_time_ns: u64,
    pub draw_calls: usize,
}

impl CpuProfile {
    pub fn new(
        frame_id: FrameId,
        backend_time_ns: u64,
        composite_time_ns: u64,
        draw_calls: usize,
    ) -> (r: CpuProfile)
        ensures
            r == (CpuProfile { frame_id, backend_time_ns, composite_time_ns, draw_calls }),
    {
        CpuProfile { frame_id, backend_time_ns, composite_time_ns, draw_calls }
    }
}

/// What the device spent on a frame.
#[derive(Clone, Copy, Debug, PartialEq, Eq, Structural)]
pub struct GpuProfile {
    pub frame_id: FrameId,
    pub paint_time_ns: u64,
}

/// The sum of times.
pub open spec fn total_time(timers: Seq<u64>) -> int
    decreases timers.len(),
{
    if timers.len() == 0 {
        0
    } else {
        total_time(timers.drop_last()) + timers.last()
    }
}

proof fn lemma_total_grows(timers: Seq<u64>, n: int)
    requires
        0 <= n <= timers.len(),
    ensures
        0 <= total_time(timers.take(n)) <= total_time(timers),
    decreases timers.len(),
{
    if n == timers.len() {
        assert(timers.take(n) =~= timers);
        if n > 0 {
            lemma_total_grows(timers.drop_last(), n - 1);
        }
    } else {
        lemma_total_grows(timers.drop_last(), n);
        assert(timers.drop_last().take(n) =~= timers.take(n));
    }
}

impl GpuProfile {
    /// Adds up the times of a frame.
    pub fn new(frame_id: FrameId, timers: &Vec<u64>) -> (r: GpuProfile)
        requires
            total_time(timers@) <= u64::MAX,
        ensures
            r.frame_id == frame_id,
            r.paint_time_ns == total_time(timers@),
    {
        let mut paint_time_ns: u64 = 0;
        let mut i: usize = 0;
        assert(timers@.take(0) =~= Seq::<u64>::empty());
        while i < timers.len()
            invariant
                i <= timers@.len(),
                paint_time_ns == total_time(timers@.take(i as int)),
                total_time(timers@) <= u64::MAX,
            decreases timers@.len() - i,
        {
            proof {
                assert(timers@.take(i as int + 1).drop_last() =~= timers@.take(i as int));
                lemma_total_grows(timers@, i as int + 1);
            }
            paint_time_ns = paint_time_ns + timers[i];
            i = i + 1;
        }
        assert(timers@.take(i as int) =~= timers@);
        GpuProfile { frame_id, paint_time_ns }
    }
}

/// The last `max` items, with one more at the end; nothing is recorded where none may be.
pub open spec fn recorded<T>(items: Seq<T>, item: T, max: int) -> Seq<T> {
    if max <= 0 {
        items
    } else if items.len() < max {
        items.push(item)
    } else {
        items.skip(items.len() - (max - 1)).push(item)
    }
}

/// Takes out all items, the oldest first.
fn drained<T>(items: &mut VecDeque<T>) -> (r: Vec<T>)
    ensures
        r@ == old(items)@,
        final(items)@ == Seq::<T>::empty(),
{
    let mut r: Vec<T> = Vec::new();
    let ghost all = items@;
    assert(r@ + items@ =~= all);
    while items.len() > 0
        invariant
            r@ + items@ == all,
        decreases items@.len(),
    {
        if let Some(item) = items.pop_front() {
            r.push(item);
        }
        assert(r@ + items@ =~= all);
    }
    assert(r@ =~= all);
    assert(items@ =~= Seq::<T>::empty());
    r
}

/// Records an item, and forgets the oldest ones.
pub fn record<T>(items: &mut VecDeque<T>, item: T, max: usize)
    requires
        old(items)@.len() < usize::MAX,
    ensures
        final(items)@ == recorded(old(items)@, item, max as int),
{
    if max > 0 {
        let ghost before = items@;
        assert(items@ =~= before.skip(0));
        let ghost mut dropped: int = 0;
        while items.len() >= max
            invariant
                max > 0,
                0 <= dropped <= before.len(),
                before == old(items)@,
                items@ == before.skip(dropped),
                dropped == 0 || items@.len() >= max - 1,
            decreases items@.len(),
        {
            let _ = items.pop_front();
            proof {
                dropped = dropped + 1;
                assert(items@ =~= before.skip(dropped));
            }
        }
        items.push_back(item);
        assert(items@ =~= recorded(before, item, max as int));
    }
}

/// No more is recorded than was asked for, and what was recorded last is there.
pub proof fn records_are_bounded<T>(items: Seq<T>, item: T, max: int)
    requires
        max > 0,
        items.len() <= max,
    ensures
        recorded(items, item, max).len() <= max,
        recorded(items, item, max).last() == item,
        items.len() < max ==> items.is_prefix_of(recorded(items, item, max)),
{
}

/// A frame that is ready to be drawn.
pub struct RendererFrame {
    /// Tells the frame from others.
    pub id: u64,
    /// There is something to draw.
    pub has_content: bool,
    /// The pipelines of the frame, with their epochs.
    pub pipeline_epochs: Vec<(u64, u32)>,
    /// How many layers are still bouncing back from beyond their end.
    pub layers_bouncing_back: usize,
}

/// What the renderer is asked by a debugger.
#[derive(Clone, Copy, Debug, PartialEq, Eq, Structural)]
pub enum DebugCommand {
    EnableProfiler(bool),
    EnableTextureCacheDebug(bool),
    EnableRenderTargetDebug(bool),
    EnableAlphaRectsDebug(bool),
    FetchDocuments,
    FetchClipScrollTree,
    FetchPasses,
}

/// What the renderer is told by the backend.
pub enum ResultMsg {
    NewFrame {
        frame: RendererFrame,
        texture_updates: Vec<TextureUpdate>,
        gpu_cache_updates: Option<GpuCacheUpdateList>,
        backend_time_ns: u64,
    },
    UpdateResources { updates: Vec<TextureUpdate>, cancel_rendering: bool },
    RefreshShader(String),
    DebugOutput(String),
    DebugCommand(DebugCommand),
}

/// What is to be done for a message.
pub enum UpdateAction {
    Nothing,
    /// All the updates of the texture cache that were waiting.
    UpdateTextureCache(Vec<TextureUpdate>),
    SendToDebugger(String),
    /// Send the passes of the current frame to the debugger.
    SendPasses,
}

/// The state of the renderer between frames.
pub struct Renderer {
    pub pending_texture_updates: Vec<TextureUpdate>,
    pub pending_gpu_cache_updates: Vec<GpuCacheUpdateList>,
    pub pending_shader_updates: Vec<String>,
    pub current_frame: Option<RendererFrame>,
    pub debug_flags: DebugFlags,
    pub backend_time_ns: u64,
    pub pipeline_epoch_map: HashMap<u64, u32>,
    pub renderer_errors: Vec<RendererError>,
    pub max_recorded_profiles: usize,
    pub max_texture_size: u32,
    pub cpu_profiles: VecDeque<CpuProfile>,
    pub gpu_profiles: VecDeque<GpuProfile>,
}

/// The state of the renderer as a mathematical value.
#[verifier::ext_equal]
pub struct RendererView {
    pub texture_updates: Seq<TextureUpdate>,
    pub gpu_cache_updates: Seq<GpuCacheUpdateList>,
    pub shader_updates: Seq<String>,
    pub current_frame: Option<RendererFrame>,
    pub debug_flags: DebugFlags,
    pub backend_time_ns: u64,
    pub epochs: Map<u64, u32>,
    pub errors: Seq<RendererError>,
    pub max_recorded_profiles: usize,
    pub max_texture_size: u32,
    pub cpu_profiles: Seq<CpuProfile>,
    pub gpu_profiles: Seq<GpuProfile>,
}

/// Epochs with those of a frame. Where a pipeline is there twice, the last epoch counts.
pub open spec fn with_epochs(epochs: Map<u64, u32>, more: Seq<(u64, u32)>) -> Map<u64, u32>
    decreases more.len(),
{
    if more.len() == 0 {
        epochs
    } else {
        with_epochs(epochs, more.drop_last()).insert(more.last().0, more.last().1)
    }
}

pub open spec fn with_flag(flags: DebugFlags, command: DebugCommand) -> DebugFlags {
    match command {
        DebugCommand::EnableProfiler(on) => DebugFlags { profiler_dbg: on, ..flags },
        DebugCommand::EnableTextureCacheDebug(on) => DebugFlags {
            texture_cache_dbg: on,
            ..flags
        },
        DebugCommand::EnableRenderTargetDebug(on) => DebugFlags {
            render_target_dbg: on,
            ..flags
        },
        DebugCommand::EnableAlphaRectsDebug(on) => DebugFlags { alpha_prim_dbg: on, ..flags },
        _ => flags,
    }
}

/// The renderer after a message.
pub open spec fn updated(r: RendererView, msg: ResultMsg) -> RendererView {
    match msg {
        ResultMsg::NewFrame { frame, texture_updates, gpu_cache_updates, backend_time_ns } => {
            RendererView {
                texture_updates: r.texture_updates + texture_updates@,
                gpu_cache_updates: match gpu_cache_updates {
                    Some(list) => if frame.has_content {
                        r.gpu_cache_updates.push(list)
                    } else {
                        r.gpu_cache_updates
                    },
                    None => r.gpu_cache_updates,
                },
                backend_time_ns,
                epochs: with_epochs(r.epochs, frame.pipeline_epochs@),
                current_frame: Some(frame),
                ..r
            }
        },
        ResultMsg::UpdateResources { updates, cancel_rendering } => RendererView {
            texture_updates: Seq::empty(),
            current_frame: if cancel_rendering {
                None
            } else {
                r.current_frame
            },
            ..r
        },
        ResultMsg::RefreshShader(path) => RendererView {
            shader_updates: r.shader_updates.push(path),
            ..r
        },
        ResultMsg::DebugOutput(_) => r,
        ResultMsg::DebugCommand(command) => RendererView {
            debug_flags: with_flag(r.debug_flags, command),
            ..r
        },
    }
}

/// The action is the one for a message.
pub open spec fn is_action(action: UpdateAction, r: RendererView, msg: ResultMsg) -> bool {
    match msg {
        ResultMsg::UpdateResources { updates, .. } => action matches UpdateAction::UpdateTextureCache(
            all,
        ) && all@ == r.texture_updates + updates@,
        ResultMsg::DebugOutput(text) => action == UpdateAction::SendToDebugger(text),
        ResultMsg::DebugCommand(DebugCommand::FetchPasses) => action is SendPasses,
        _ => action is Nothing,
    }
}

/// The GPU cache, the height of its texture, and what the device was told.
#[verifier::ext_equal]
pub struct CacheProgress {
    pub cache: CacheView,
    pub height: u32,
    pub commands: Seq<CacheCommand>,
}

/// The cache as an update list finds it: a texture that has to be made anew loses all rows.
pub open spec fn before_list(p: CacheProgress, list: GpuCacheUpdateList) -> CacheView {
    if list.height > p.height && p.height > 0 {
        all_dirty(p.cache)
    } else {
        p.cache
    }
}

pub open spec fn after_list(p: CacheProgress, list: GpuCacheUpdateList) -> CacheProgress {
    let cache = all_patched(before_list(p, list), list.updates@, list.blocks@);
    if list.height > p.height {
        let init = CacheCommand::Init {
            width: 1024,
            height: list.height,
            format: ImageFormat::RGBAF32,
        };
        CacheProgress { cache, height: list.height, commands: p.commands.push(init) }
    } else {
        CacheProgress { cache, ..p }
    }
}

/// The cache after several update lists.
pub open spec fn after_lists(p: CacheProgress, lists: Seq<GpuCacheUpdateList>) -> CacheProgress
    decreases lists.len(),
{
    if lists.len() == 0 {
        p
    } else {
        after_list(after_lists(p, lists.drop_last()), lists.last())
    }
}

/// Each list copies blocks that there are to places that there are.
pub open spec fn lists_ok(p: CacheProgress, lists: Seq<GpuCacheUpdateList>) -> bool {
    forall|i: int|
        #![trigger lists[i]]
        0 <= i < lists.len() ==> updates_ok(
            before_list(after_lists(p, lists.take(i)), lists[i]),
            lists[i].updates@,
            lists[i].blocks@,
        )
}

/// The images of a frame are textures, and have a place in the cache.
pub open spec fn resolves_ok(resolves: Seq<DeferredResolve>) -> bool {
    forall|i: int|
        0 <= i < resolves.len() ==> resolve_ok(#[trigger] resolves[i]) && resolves[i].address.u
            < 1024
}

impl Renderer {
    pub open spec fn view(self) -> RendererView {
        RendererView {
            texture_updates: self.pending_texture_updates@,
            gpu_cache_updates: self.pending_gpu_cache_updates@,
            shader_updates: self.pending_shader_updates@,
            current_frame: self.current_frame,
            debug_flags: self.debug_flags,
            backend_time_ns: self.backend_time_ns,
            epochs: self.pipeline_epoch_map@,
            errors: self.renderer_errors@,
            max_recorded_profiles: self.max_recorded_profiles,
            max_texture_size: self.max_texture_size,
            cpu_profiles: self.cpu_profiles@,
            gpu_profiles: self.gpu_profiles@,
        }
    }

    /// A renderer that has nothing to draw yet.
    pub fn new(max_recorded_profiles: usize, max_texture_size: u32, debug_flags: DebugFlags) -> (r:
        Self)
        ensures
            r@ == (RendererView {
                texture_updates: Seq::empty(),
                gpu_cache_updates: Seq::empty(),
                shader_updates: Seq::empty(),
                current_frame: None,
                debug_flags,
                backend_time_ns: 0,
                epochs: Map::empty(),
                errors: Seq::empty(),
                max_recorded_profiles,
                max_texture_size,
                cpu_profiles: Seq::empty(),
                gpu_profiles: Seq::empty(),
            }),
    {
        broadcast use vstd::std_specs::hash::group_hash_axioms;

        Renderer {
            pending_texture_updates: Vec::new(),
            pending_gpu_cache_updates: Vec::new(),
            pending_shader_updates: Vec::new(),
            current_frame: None,
            debug_flags,
            backend_time_ns: 0,
            pipeline_epoch_map: HashMap::new(),
            renderer_errors: Vec::new(),
            max_recorded_profiles,
            max_texture_size,
            cpu_profiles: VecDeque::new(),
            gpu_profiles: VecDeque::new(),
        }
    }

    pub fn get_max_texture_size(&self) -> (r: u32)
        ensures
            r == self.max_texture_size,
    {
        self.max_texture_size
    }

    pub fn get_debug_flags(&self) -> (r: DebugFlags)
        ensures
            r == self.debug_flags,
    {
        self.debug_flags
    }

    pub fn set_debug_flags(&mut self, flags: DebugFlags)
        ensures
            final(self)@ == (RendererView { debug_flags: flags, ..old(self)@ }),
    {
        self.debug_flags = flags;
    }

    fn add_epochs(&mut self, epochs: &Vec<(u64, u32)>)
        ensures
            final(self)@ == (RendererView {
                epochs: with_epochs(old(self)@.epochs, epochs@),
                ..old(self)@
            }),
    {
        broadcast use vstd::std_specs::hash::group_hash_axioms;

        let mut i: usize = 0;
        assert(epochs@.take(0) =~= Seq::<(u64, u32)>::empty());
        while i < epochs.len()
            invariant
                i <= epochs@.len(),
                self@ == (RendererView {
                    epochs: with_epochs(old(self)@.epochs, epochs@.take(i as int)),
                    ..old(self)@
                }),
            decreases epochs@.len() - i,
        {
            broadcast use vstd::std_specs::hash::group_hash_axioms;

            assert(epochs@.take(i as int + 1).drop_last() =~= epochs@.take(i as int));
            let (pipeline, epoch) = epochs[i];
            self.pipeline_epoch_map.insert(pipeline, epoch);
            i = i + 1;
            assert(self@ =~= (RendererView {
                epochs: with_epochs(old(self)@.epochs, epochs@.take(i as int)),
                ..old(self)@
            }));
        }
        assert(epochs@.take(i as int) =~= epochs@);
    }

    /// Takes a message of the backend. A frame whose resources may be gone is not drawn.
    pub fn update(&mut self, msg: ResultMsg) -> (r: UpdateAction)
        ensures
            final(self)@ == updated(old(self)@, msg),
            is_action(r, old(self)@, msg),
    {
        match msg {
            ResultMsg::NewFrame { frame, texture_updates, gpu_cache_updates, backend_time_ns } => {
                let mut texture_updates = texture_updates;
                self.pending_texture_updates.append(&mut texture_updates);
                if frame.has_content {
                    if let Some(list) = gpu_cache_updates {
                        self.pending_gpu_cache_updates.push(list);
                    }
                }
                self.backend_time_ns = backend_time_ns;
                self.add_epochs(&frame.pipeline_epochs);
                self.current_frame = Some(frame);
                UpdateAction::Nothing
            },
            ResultMsg::UpdateResources { updates, cancel_rendering } => {
                let mut updates = updates;
                self.pending_texture_updates.append(&mut updates);
                let all = self.take_texture_updates();
                if cancel_rendering {
                    self.current_frame = None;
                }
                UpdateAction::UpdateTextureCache(all)
            },
            ResultMsg::RefreshShader(path) => {
                self.pending_shader_updates.push(path);
                UpdateAction::Nothing
            },
            ResultMsg::DebugOutput(text) => UpdateAction::SendToDebugger(text),
            ResultMsg::DebugCommand(command) => self.handle_debug_command(command),
        }
    }

    /// All the updates of the texture cache that were waiting.
    pub fn take_texture_updates(&mut self) -> (r: Vec<TextureUpdate>)
        ensures
            r@ == old(self)@.texture_updates,
            final(self)@ == (RendererView { texture_updates: Seq::empty(), ..old(self)@ }),
    {
        let mut updates: Vec<TextureUpdate> = Vec::new();
        updates.append(&mut self.pending_texture_updates);
        assert(updates@ =~= old(self)@.texture_updates);
        self.pending_texture_updates = Vec::new();
        updates
    }

    /// All the updates of the GPU cache that were waiting.
    pub fn take_gpu_cache_updates(&mut self) -> (r: Vec<GpuCacheUpdateList>)
        ensures
            r@ == old(self)@.gpu_cache_updates,
            final(self)@ == (RendererView { gpu_cache_updates: Seq::empty(), ..old(self)@ }),
    {
        let mut updates: Vec<GpuCacheUpdateList> = Vec::new();
        updates.append(&mut self.pending_gpu_cache_updates);
        assert(updates@ =~= old(self)@.gpu_cache_updates);
        self.pending_gpu_cache_updates = Vec::new();
        updates
    }

    /// Brings the GPU cache up to date: all lists that were waiting are taken over, then the
    /// images of the frame, and then the rows that have changed are handed to the device.
    pub fn update_gpu_cache(
        &mut self,
        cache: &mut CacheTexture,
        texture_height: &mut u32,
        resolver: &mut SourceTextureResolver,
        resolves: &Vec<DeferredResolve>,
    ) -> (r: Vec<CacheCommand>)
        requires
            old(cache).wf(),
            lists_ok(
                (CacheProgress {
                    cache: old(cache)@,
                    height: *old(texture_height),
                    commands: Seq::empty(),
                }),
                old(self)@.gpu_cache_updates,
            ),
            resolves_ok(resolves@),
        ensures
            final(cache).wf(),
            final(self)@ == (RendererView { gpu_cache_updates: Seq::empty(), ..old(self)@ }),
            ({
                let start = CacheProgress {
                    cache: old(cache)@,
                    height: *old(texture_height),
                    commands: Seq::empty(),
                };
                let listed = after_lists(start, old(self)@.gpu_cache_updates);
                let resolved = all_resolved(
                    old(resolver)@.external_images,
                    listed.cache,
                    resolves@,
                );
                &&& *final(texture_height) == listed.height
                &&& final(resolver)@ == (ResolverView {
                    external_images: resolved.0,
                    ..old(resolver)@
                })
                &&& final(cache)@ == (CacheView {
                    dirty: Seq::new(resolved.1.dirty.len(), |i: int| false),
                    ..resolved.1
                })
                &&& r@ == listed.commands + (seq![CacheCommand::BindBuffer] + dirty_commands(
                    resolved.1.dirty,
                ) + seq![CacheCommand::UnbindBuffer])
            }),
    {
        let ghost start = CacheProgress {
            cache: cache@,
            height: *texture_height,
            commands: Seq::empty(),
        };
        let lists = self.take_gpu_cache_updates();
        let ghost all = lists@;
        let mut r: Vec<CacheCommand> = Vec::new();
        let mut i: usize = 0;
        assert(all.take(0) =~= Seq::<GpuCacheUpdateList>::empty());
        while i < lists.len()
            invariant
                i <= lists@.len(),
                lists@ == all,
                cache.wf(),
                lists_ok(start, all),
                ({
                    let p = after_lists(start, all.take(i as int));
                    &&& cache@ == p.cache
                    &&& *texture_height == p.height
                    &&& r@ == p.commands
                }),
            decreases lists@.len() - i,
        {
            let list = &lists[i];
            proof {
                let next = all.take(i + 1);
                assert(next.drop_last() =~= all.take(i as int));
                assert(next.last() == all[i as int]);
            }
            if let Some(command) = cache.update(*texture_height, list) {
                r.push(command);
                *texture_height = list.height;
            }
            i = i + 1;
        }
        assert(all.take(i as int) =~= all);
        update_deferred_resolves(resolver, cache, resolves);
        let mut commands = cache.flush();
        r.append(&mut commands);
        r
    }

    /// Turns debugging aids on and off.
    pub fn handle_debug_command(&mut self, command: DebugCommand) -> (r: UpdateAction)
        ensures
            final(self)@ == (RendererView {
                debug_flags: with_flag(old(self)@.debug_flags, command),
                ..old(self)@
            }),
            match command {
                DebugCommand::FetchPasses => r is SendPasses,
                _ => r is Nothing,
            },
    {
        match command {
            DebugCommand::EnableProfiler(enable) => {
                self.debug_flags.profiler_dbg = enable;
                UpdateAction::Nothing
            },
            DebugCommand::EnableTextureCacheDebug(enable) => {
                self.debug_flags.texture_cache_dbg = enable;
                UpdateAction::Nothing
            },
            DebugCommand::EnableRenderTargetDebug(enable) => {
                self.debug_flags.render_target_dbg = enable;
                UpdateAction::Nothing
            },
            DebugCommand::EnableAlphaRectsDebug(enable) => {
                self.debug_flags.alpha_prim_dbg = enable;
                UpdateAction::Nothing
            },
            DebugCommand::FetchDocuments => UpdateAction::Nothing,
            DebugCommand::FetchClipScrollTree => UpdateAction::Nothing,
            DebugCommand::FetchPasses => UpdateAction::SendPasses,
        }
    }

    /// The epoch of a pipeline.
    pub fn current_epoch(&self, pipeline_id: u64) -> (r: Option<u32>)
        ensures
            r == (if self@.epochs.dom().contains(pipeline_id) {
                Some(self@.epochs[pipeline_id])
            } else {
                None
            }),
    {
        broadcast use vstd::std_specs::hash::group_hash_axioms;

        match self.pipeline_epoch_map.get(&pipeline_id) {
            Some(epoch) => Some(*epoch),
            None => None,
        }
    }

    /// The epochs that were received since the last call.
    pub fn flush_rendered_epochs(&mut self) -> (r: HashMap<u64, u32>)
        ensures
            r@ == old(self)@.epochs,
            final(self)@ == (RendererView { epochs: Map::empty(), ..old(self)@ }),
    {
        broadcast use vstd::std_specs::hash::group_hash_axioms;

        let mut epochs: HashMap<u64, u32> = HashMap::new();
        std::mem::swap(&mut epochs, &mut self.pipeline_epoch_map);
        assert(self@ =~= (RendererView { epochs: Map::empty(), ..old(self)@ }));
        epochs
    }

    /// Some layer is still bouncing back from beyond its end.
    pub fn layers_are_bouncing_back(&self) -> (r: bool)
        ensures
            r == (self.current_frame matches Some(frame) && frame.layers_bouncing_back > 0),
    {
        match &self.current_frame {
            None => false,
            Some(frame) => frame.layers_bouncing_back > 0,
        }
    }

    /// There is something to draw.
    pub fn should_draw(&self) -> (r: bool)
        ensures
            r == (self.current_frame matches Some(frame) && frame.has_content),
    {
        match &self.current_frame {
            None => false,
            Some(frame) => frame.has_content,
        }
    }

    /// Records what the device spent on the frame before.
    pub fn record_gpu_profile(&mut self, frame_id: FrameId, timers: &Vec<u64>)
        requires
            total_time(timers@) <= u64::MAX,
            old(self)@.gpu_profiles.len() < usize::MAX,
        ensures
            final(self)@ == (RendererView {
                gpu_profiles: recorded(
                    old(self)@.gpu_profiles,
                    GpuProfile { frame_id, paint_time_ns: total_time(timers@) as u64 },
                    old(self)@.max_recorded_profiles as int,
                ),
                ..old(self)@
            }),
    {
        let profile = GpuProfile::new(frame_id, timers);
        record(&mut self.gpu_profiles, profile, self.max_recorded_profiles);
    }

    /// Records what the processor spent on a frame.
    pub fn record_cpu_profile(
        &mut self,
        frame_id: FrameId,
        composite_time_ns: u64,
        draw_calls: usize,
    )
        requires
            old(self)@.cpu_profiles.len() < usize::MAX,
        ensures
            final(self)@ == (RendererView {
                cpu_profiles: recorded(
                    old(self)@.cpu_profiles,
                    CpuProfile {
                        frame_id,
                        backend_time_ns: old(self)@.backend_time_ns,
                        composite_time_ns,
                        draw_calls,
                    },
                    old(self)@.max_recorded_profiles as int,
                ),
                ..old(self)@
            }),
    {
        let profile = CpuProfile::new(
            frame_id,
            self.backend_time_ns,
            composite_time_ns,
            draw_calls,
        );
        record(&mut self.cpu_profiles, profile, self.max_recorded_profiles);
    }

    /// The profiles that were recorded, which are forgotten.
    pub fn get_frame_profiles(&mut self) -> (r: (Vec<CpuProfile>, Vec<GpuProfile>))
        ensures
            r.0@ == old(self)@.cpu_profiles,
            r.1@ == old(self)@.gpu_profiles,
            final(self)@ == (RendererView {
                cpu_profiles: Seq::empty(),
                gpu_profiles: Seq::empty(),
                ..old(self)@
            }),
    {
        let cpu = drained(&mut self.cpu_profiles);
        let gpu = drained(&mut self.gpu_profiles);
        (cpu, gpu)
    }

    /// Ends drawing: the errors that came up are handed over, and forgotten.
    pub fn finish_render(&mut self) -> (r: Result<(), Vec<RendererError>>)
        ensures
            match r {
                Ok(_) => old(self)@.errors.len() == 0 && final(self)@ == old(self)@,
                Err(errors) => old(self)@.errors.len() > 0 && errors@ == old(self)@.errors
                    && final(self)@ == (RendererView { errors: Seq::empty(), ..old(self)@ }),
            },
    {
        if self.renderer_errors.len() > 0 {
            let mut errors: Vec<RendererError> = Vec::new();
            errors.append(&mut self.renderer_errors);
            assert(errors@ =~= old(self)@.errors);
            self.renderer_errors = Vec::new();
            return Err(errors);
        }
        Ok(())
    }
}

/// A resource update never leaves texture updates waiting, and a cancelled frame is never
/// drawn.
pub proof fn resource_updates_leave_nothing_waiting(
    r: RendererView,
    updates: Vec<TextureUpdate>,
    cancel: bool,
)
    ensures
        ({
            let after = updated(
                r,
                ResultMsg::UpdateResources { updates, cancel_rendering: cancel },
            );
            &&& after.texture_updates.len() == 0
            &&& cancel ==> after.current_frame is None
            &&& !cancel ==> after.current_frame == r.current_frame
        }),
{
}

/// Turning an aid on and off again leaves the others alone, and each command has its own
/// aid.
pub proof fn debug_commands_are_independent(flags: DebugFlags, a: DebugCommand, b: DebugCommand)
    requires
        !(a is EnableProfiler && b is EnableProfiler),
        !(a is EnableTextureCacheDebug && b is EnableTextureCacheDebug),
        !(a is EnableRenderTargetDebug && b is EnableRenderTargetDebug),
        !(a is EnableAlphaRectsDebug && b is EnableAlphaRectsDebug),
    ensures
        with_flag(with_flag(flags, a), b) == with_flag(with_flag(flags, b), a),
{
}

/// The number of bytes of a rectangle of pixels with four channels.
pub open spec fn pixel_bytes(width: u32, height: u32) -> int {
    4 * width * height
}

/// A buffer for the pixels of a rectangle, all zero.
pub fn pixel_buffer(width: u32, height: u32) -> (r: Vec<u8>)
    requires
        pixel_bytes(width, height) <= u32::MAX,
        4 * width <= u32::MAX,
    ensures
        r@ == Seq::new(pixel_bytes(width, height) as nat, |i: int| 0u8),
{
    let len: u32 = 4 * width * height;
    let mut r: Vec<u8> = Vec::new();
    let mut i: u32 = 0;
    while i < len
        invariant
            i <= len,
            r@ == Seq::new(i as nat, |i: int| 0u8),
        decreases len - i,
    {
        r.push(0);
        i = i + 1;
        assert(r@ =~= Seq::new(i as nat, |i: int| 0u8));
    }
    r
}

/// A buffer has the size of a rectangle of pixels.
pub fn fits_pixels(len: usize, width: u32, height: u32) -> (r: bool)
    requires
        pixel_bytes(width, height) <= u32::MAX,
        4 * width <= u32::MAX,
    ensures
        r == (len == pixel_bytes(width, height)),
{
    len == (4 * width * height) as usize
}

/// What is deleted with a renderer: the textures first, then the frame buffers.
pub fn deinit(dither_matrix_texture: Option<TextureId>, state: PassState) -> (r: (
    Vec<TextureId>,
    Vec<FrameOutput>,
))
    ensures
        r.0@ == (match dither_matrix_texture {
            Some(texture) => seq![texture],
            None => Seq::empty(),
        }) + state.alpha_render_targets@ + state.color_render_targets@ + (
        seq![state.resolver.dummy_cache_texture] + state.resolver.cache_texture_map@),
        r.1@ == state.output_targets@,
{
    let mut textures: Vec<TextureId> = Vec::new();
    if let Some(texture) = dither_matrix_texture {
        textures.push(texture);
    }
    let mut alpha = state.alpha_render_targets;
    let mut color = state.color_render_targets;
    textures.append(&mut alpha);
    textures.append(&mut color);
    let mut rest = state.resolver.deinit();
    textures.append(&mut rest);
    assert(textures@ =~= (match dither_matrix_texture {
        Some(texture) => seq![texture],
        None => Seq::empty(),
    }) + state.alpha_render_targets@ + state.color_render_targets@ + (
    seq![state.resolver.dummy_cache_texture] + state.resolver.cache_texture_map@));
    (textures, state.output_targets)
}

/// The last epoch that is given for a pipeline counts; pipelines that none is given for keep
/// theirs.
pub proof fn last_epochs_count(epochs: Map<u64, u32>, more: Seq<(u64, u32)>, pipeline: u64)
    ensures
        ({
            let after = with_epochs(epochs, more);
            &&& (forall|i: int| 0 <= i < more.len() ==> (#[trigger] more[i]).0 != pipeline) ==> {
                &&& after.dom().contains(pipeline) == epochs.dom().contains(pipeline)
                &&& after[pipeline] == epochs[pipeline]
            }
            &&& forall|i: int|
                0 <= i < more.len() && (#[trigger] more[i]).0 == pipeline && (forall|j: int|
                    i < j < more.len() ==> (#[trigger] more[j]).0 != pipeline)
                    ==> after.dom().contains(pipeline) && after[pipeline] == more[i].1
        }),
    decreases more.len(),
{
    if more.len() > 0 {
        let most = more.drop_last();
        last_epochs_count(epochs, most, pipeline);
        let after = with_epochs(epochs, more);
        assert forall|i: int|
            0 <= i < more.len() && (#[trigger] more[i]).0 == pipeline && (forall|j: int|
                i < j < more.len() ==> (#[trigger] more[j]).0 != pipeline) implies
            after.dom().contains(pipeline) && after[pipeline] == more[i].1 by {
            if i < most.len() {
                assert(most[i] == more[i]);
                assert(more[more.len() - 1].0 != pipeline);
                assert forall|j: int| i < j < most.len() implies (#[trigger] most[j]).0
                    != pipeline by {
                    assert(most[j] == more[j]);
                }
            }
        }
        if forall|i: int| 0 <= i < more.len() ==> (#[trigger] more[i]).0 != pipeline {
            assert(more[more.len() - 1].0 != pipeline);
            assert forall|i: int| 0 <= i < most.len() implies (#[trigger] most[i]).0
                != pipeline by {
                assert(most[i] == more[i]);
            }
        }
    }
}

/// What a message does to the renderer. A new frame takes the place of the one before; its
/// updates wait behind those that wait already, those of the GPU cache only where there is
/// something to draw. An update of resources is carried out at once, with all that waits
/// before it, and drops the frame where drawing is to be given up.
pub proof fn results_wait_their_turn(r: RendererView, msg: ResultMsg)
    ensures
        ({
            let after = updated(r, msg);
            &&& msg matches ResultMsg::NewFrame {
                frame,
                texture_updates,
                gpu_cache_updates,
                backend_time_ns,
            } ==> {
                &&& after.current_frame == Some(frame)
                &&& after.backend_time_ns == backend_time_ns
                &&& r.texture_updates.is_prefix_of(after.texture_updates)
                &&& after.texture_updates.skip(r.texture_updates.len() as int)
                    == texture_updates@
                &&& r.gpu_cache_updates.is_prefix_of(after.gpu_cache_updates)
                &&& after.gpu_cache_updates.len() == r.gpu_cache_updates.len() + if frame.has_content
                    && gpu_cache_updates is Some {
                    1int
                } else {
                    0int
                }
                &&& frame.has_content && gpu_cache_updates is Some
                    ==> after.gpu_cache_updates.last() == gpu_cache_updates->0
                &&& after.shader_updates == r.shader_updates
                &&& after.debug_flags == r.debug_flags
            }
            &&& msg matches ResultMsg::UpdateResources { cancel_rendering, .. } ==> {
                &&& after.texture_updates.len() == 0
                &&& cancel_rendering ==> after.current_frame is None
                &&& !cancel_rendering ==> after.current_frame == r.current_frame
                &&& after.gpu_cache_updates == r.gpu_cache_updates
                &&& after.epochs == r.epochs
            }
            &&& msg matches ResultMsg::RefreshShader(path) ==> {
                &&& after.shader_updates.len() == r.shader_updates.len() + 1
                &&& after.shader_updates.last() == path
                &&& r.shader_updates.is_prefix_of(after.shader_updates)
            }
            &&& msg is RefreshShader || msg is DebugOutput || msg is DebugCommand ==> {
                &&& after.texture_updates == r.texture_updates
                &&& after.gpu_cache_updates == r.gpu_cache_updates
                &&& after.current_frame == r.current_frame
                &&& after.epochs == r.epochs
            }
            &&& msg matches ResultMsg::DebugCommand(DebugCommand::EnableProfiler(on))
                ==> after.debug_flags.profiler_dbg == on
            &&& msg matches ResultMsg::DebugCommand(DebugCommand::EnableTextureCacheDebug(on))
                ==> after.debug_flags.texture_cache_dbg == on
            &&& msg matches ResultMsg::DebugCommand(DebugCommand::EnableRenderTargetDebug(on))
                ==> after.debug_flags.render_target_dbg == on
            &&& msg matches ResultMsg::DebugCommand(DebugCommand::EnableAlphaRectsDebug(on))
                ==> after.debug_flags.alpha_prim_dbg == on
        }),
{
    let after = updated(r, msg);
    if let ResultMsg::NewFrame { texture_updates, .. } = msg {
        assert(after.texture_updates.skip(r.texture_updates.len() as int) =~= texture_updates@);
    }
}

/// A list that needs a higher texture than there is has one made, and every row that was in
/// the old one is uploaded anew; a list that fits has none made. The texture never shrinks.
pub proof fn cache_textures_grow(p: CacheProgress, list: GpuCacheUpdateList)
    ensures
        ({
            let after = after_list(p, list);
            &&& after.height == if list.height > p.height {
                list.height
            } else {
                p.height
            }
            &&& list.height <= p.height ==> after.commands == p.commands
            &&& list.height > p.height ==> {
                &&& after.commands.len() == p.commands.len() + 1
                &&& after.commands.last() matches CacheCommand::Init { width, height, format }
                    && width == 1024 && height == list.height && format is RGBAF32
                &&& p.commands.is_prefix_of(after.commands)
            }
        }),
{
}

} // verus!
