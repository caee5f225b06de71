//! What comes before and after the drawing of a frame.

use crate::clock::FrameClock;
use crate::internal_types::FrameId;
use crate::renderer::cache_texture::{dirty_commands, CacheCommand, CacheTexture, CacheView};
use crate::renderer::debug::{debug_draws, nothing_drawn, DebugDraw, DebugRenderer};
use crate::renderer::state::{
    after_lists, lists_ok, recorded, resolves_ok, total_time, CacheProgress, CpuProfile,
    GpuProfile, Renderer, RendererView,
};
use crate::renderer::textures::{
    all_commands, all_resolved, counts_after, texture_updates_ok, update_texture_cache,
    DeferredResolve, ResolverView, SourceTextureResolver, TextureCommand,
};
use crate::renderer::RendererError;
use vstd::prelude::*;

verus! {

/// What the device measured of an earlier frame.
pub struct GpuSamples {
    pub frame_id: FrameId,
    pub timers: Vec<u64>,
}

/// What the device is told before a frame is drawn, once scissors, depth and blending are
/// off: first of the texture cache, then of the GPU cache.
pub struct FrameUpdates {
    pub textures: Vec<TextureCommand>,
    pub gpu_cache: Vec<CacheCommand>,
}

/// A frame that was drawn.
#[derive(Clone, Copy, Debug, PartialEq, Eq, Structural)]
pub struct DrawnFrame {
    pub frame_id: FrameId,
    /// What the processor spent on drawing.
    pub composite_time_ns: u64,
    pub draw_calls: usize,
}

/// What is told after a frame.
pub struct FrameEnd {
    /// How long the frame took, where the counter did not go back.
    pub frame_time_ns: Option<u64>,
    /// The timings are drawn over the frame.
    pub draw_profile: bool,
    /// What draws the aids for debugging, after the timings.
    pub debug: Vec<DebugDraw>,
}

/// The renderer with the measurements of an earlier frame.
pub open spec fn with_samples(r: RendererView, samples: Option<GpuSamples>) -> RendererView {
    match samples {
        Some(samples) => RendererView {
            gpu_profiles: recorded(
                r.gpu_profiles,
                GpuProfile {
                    frame_id: samples.frame_id,
                    paint_time_ns: total_time(samples.timers@) as u64,
                },
                r.max_recorded_profiles as int,
            ),
            ..r
        },
        None => r,
    }
}

/// The renderer with the measurements of a frame that was drawn.
pub open spec fn with_drawn_frame(r: RendererView, drawn: DrawnFrame) -> RendererView {
    RendererView {
        cpu_profiles: recorded(
            r.cpu_profiles,
            CpuProfile {
                frame_id: drawn.frame_id,
                backend_time_ns: r.backend_time_ns,
                composite_time_ns: drawn.composite_time_ns,
                draw_calls: drawn.draw_calls,
            },
            r.max_recorded_profiles as int,
        ),
        ..r
    }
}

/// There is something to draw.
pub open spec fn has_something_to_draw(r: RendererView) -> bool {
    r.current_frame matches Some(frame) && frame.has_content
}

impl Renderer {
    /// Brings the caches up to date before a frame is drawn. There is no result where there
    /// is nothing to draw; then everything goes on waiting.
    pub fn begin_render(
        &mut self,
        samples: Option<GpuSamples>,
        texture_count: &mut usize,
        cache: &mut CacheTexture,
        cache_height: &mut u32,
        resolver: &mut SourceTextureResolver,
        resolves: &Vec<DeferredResolve>,
    ) -> (r: Option<FrameUpdates>)
        requires
            old(cache).wf(),
            samples matches Some(s) ==> total_time(s.timers@) <= u64::MAX,
            old(self)@.gpu_profiles.len() < usize::MAX,
            texture_updates_ok(old(self)@.texture_updates, *old(texture_count) as int),
            *old(texture_count) + old(self)@.texture_updates.len() <= usize::MAX,
            lists_ok(
                (CacheProgress {
                    cache: old(cache)@,
                    height: *old(cache_height),
                    commands: Seq::empty(),
                }),
                old(self)@.gpu_cache_updates,
            ),
            resolves_ok(resolves@),
        ensures
            final(cache).wf(),
            (r is Some) == has_something_to_draw(old(self)@),
            r is None ==> {
                &&& final(self)@ == old(self)@
                &&& *final(texture_count) == *old(texture_count)
                &&& final(cache)@ == old(cache)@
                &&& *final(cache_height) == *old(cache_height)
                &&& final(resolver)@ == old(resolver)@
            },
            r matches Some(updates) ==> {
                let listed = after_lists(
                    CacheProgress {
                        cache: old(cache)@,
                        height: *old(cache_height),
                        commands: Seq::empty(),
                    },
                    old(self)@.gpu_cache_updates,
                );
                let resolved = all_resolved(
                    old(resolver)@.external_images,
                    listed.cache,
                    resolves@,
                );
                &&& final(self)@ == (RendererView {
                    texture_updates: Seq::empty(),
                    gpu_cache_updates: Seq::empty(),
                    ..with_samples(old(self)@, samples)
                })
                &&& updates.textures@ == all_commands(
                    old(self)@.texture_updates,
                    *old(texture_count) as int,
                )
                &&& *final(texture_count) == counts_after(
                    old(self)@.texture_updates,
                    *old(texture_count) as int,
                )
                &&& updates.gpu_cache@ == listed.commands + (seq![CacheCommand::BindBuffer]
                    + dirty_commands(resolved.1.dirty) + seq![CacheCommand::UnbindBuffer])
                &&& *final(cache_height) == listed.height
                &&& final(resolver)@ == (ResolverView {
                    external_images: resolved.0,
                    ..old(resolver)@
                })
                &&& final(cache)@ == (CacheView {
                    dirty: Seq::new(resolved.1.dirty.len(), |i: int| false),
                    ..resolved.1
                })
            },
    {
        if !self.should_draw() {
            return None;
        }
        if let Some(samples) = &samples {
            self.record_gpu_profile(samples.frame_id, &samples.timers);
        }
        let waiting = self.take_texture_updates();
        let textures = update_texture_cache(texture_count, &waiting);
        let gpu_cache = self.update_gpu_cache(cache, cache_height, resolver, resolves);
        Some(FrameUpdates { textures, gpu_cache })
    }

    /// Ends a frame at a time, where one was drawn, and hands over the errors that came up.
    /// What was collected for debugging is drawn with the frame, and forgotten.
    pub fn end_render_at(
        &mut self,
        drawn: Option<DrawnFrame>,
        debug: &mut DebugRenderer,
        has_viewport: bool,
        clock: &mut FrameClock,
        current_time: u64,
    ) -> (r: (Option<FrameEnd>, Result<(), Vec<RendererError>>))
        requires
            old(debug).wf(),
            old(self)@.cpu_profiles.len() < usize::MAX,
        ensures
            final(debug).wf(),
            (r.0 is Some) == (drawn is Some),
            match r.0 {
                Some(end) => {
                    &&& end.frame_time_ns == (if old(clock).last_time <= current_time {
                        Some((current_time - old(clock).last_time) as u64)
                    } else {
                        None
                    })
                    &&& final(clock).last_time == current_time
                    &&& end.draw_profile == old(self)@.debug_flags.profiler_dbg
                    &&& end.debug@ == (if has_viewport {
                        debug_draws(old(debug)@)
                    } else {
                        Seq::empty()
                    })
                    &&& final(debug)@ == nothing_drawn()
                },
                None => *final(clock) == *old(clock) && final(debug)@ == old(debug)@,
            },
            ({
                let recorded = match drawn {
                    Some(drawn) => with_drawn_frame(old(self)@, drawn),
                    None => old(self)@,
                };
                match r.1 {
                    Ok(_) => recorded.errors.len() == 0 && final(self)@ == recorded,
                    Err(errors) => {
                        &&& recorded.errors.len() > 0
                        &&& errors@ == recorded.errors
                        &&& final(self)@ == (RendererView { errors: Seq::empty(), ..recorded })
                    },
                }
            }),
    {
        let mut end: Option<FrameEnd> = None;
        if let Some(drawn) = drawn {
            let frame_time_ns = clock.frame_ended_at(current_time);
            self.record_cpu_profile(drawn.frame_id, drawn.composite_time_ns, drawn.draw_calls);
            end = Some(
                FrameEnd {
                    frame_time_ns,
                    draw_profile: self.debug_flags.profiler_dbg,
                    debug: debug.render(has_viewport),
                },
            );
        }
        (end, self.finish_render())
    }

    /// Ends a frame now, where one was drawn, and hands over the errors that came up.
    pub fn end_render(
        &mut self,
        drawn: Option<DrawnFrame>,
        debug: &mut DebugRenderer,
        has_viewport: bool,
        clock: &mut FrameClock,
    ) -> (r: (Option<FrameEnd>, Result<(), Vec<RendererError>>))
        requires
            old(debug).wf(),
            old(self)@.cpu_profiles.len() < usize::MAX,
        ensures
            final(debug).wf(),
            (r.0 is Some) == (drawn is Some),
            match r.0 {
                Some(end) => {
                    &&& match end.frame_time_ns {
                        Some(time) => final(clock).last_time == old(clock).last_time + time,
                        None => final(clock).last_time < old(clock).last_time,
                    }
                    &&& end.draw_profile == old(self)@.debug_flags.profiler_dbg
                    &&& end.debug@ == (if has_viewport {
                        debug_draws(old(debug)@)
                    } else {
                        Seq::empty()
                    })
                    &&& final(debug)@ == nothing_drawn()
                },
                None => *final(clock) == *old(clock) && final(debug)@ == old(debug)@,
            },
            ({
                let recorded = match drawn {
                    Some(drawn) => with_drawn_frame(old(self)@, drawn),
                    None => old(self)@,
                };
                match r.1 {
                    Ok(_) => recorded.errors.len() == 0 && final(self)@ == recorded,
                    Err(errors) => {
                        &&& recorded.errors.len() > 0
                        &&& errors@ == recorded.errors
                        &&& final(self)@ == (RendererView { errors: Seq::empty(), ..recorded })
                    },
                }
            }),
    {
        let current_time: u64 = crate::clock::precise_time_ns();
        self.end_render_at(drawn, debug, has_viewport, clock, current_time)
    }
}

} // verus!
