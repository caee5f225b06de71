//! Transactions against the clock.
//!
//! The measurements of a transaction need the time. What is done with a time is stated in
//! `transaction`; here the clock is read, and what holds is stated whatever it shows.

use crate::clock;
use crate::scene::{DocumentId, PipelineId};
use crate::scene_builder_thread::transaction::{
    is_finished, list_ok, no_profile, op_made, BlobResult, DisplayList, FinishedTransaction,
    FullFrameStats, MainBuild, OpAction, OpState, SceneMsg, SceneProgress, TransactionMsg,
};
use crate::scene_builder_thread::{RenderBackendId, SceneBuilderThread, ThreadContents};
use vstd::prelude::*;

verus! {

/// Why the changes of a transaction are not made further.
#[derive(Clone, Copy, Debug, PartialEq, Eq, Structural)]
pub enum OpsPause {
    /// A scene of this pipeline is to be built from the document as it is now.
    BuildOffscreen(PipelineId),
    /// There are no more changes.
    Finished,
    /// The times of the next display list are out of order, or measurements do not fit.
    WrongTimes,
}

/// What became of the next change of a transaction.
#[derive(Clone, Copy, Debug, PartialEq, Eq, Structural)]
pub enum OpStep {
    /// The change was made, where there was one.
    Made(OpAction),
    /// The change is a display list whose times are out of order, or whose measurements do
    /// not fit. It was not made.
    WrongTimes,
}

/// The next change of a transaction, where there is one, can be made at a time.
pub open spec fn next_is_taken(thread: ThreadContents, progress: SceneProgress, now: u64) -> bool {
    progress.done < progress.ops@.len() ==> progress.state(
        thread.documents[progress.document_id],
    ).takes(progress.ops@[progress.done as int], now)
}

/// The change asks for a scene beside that of the document.
pub open spec fn is_offscreen(op: SceneMsg) -> bool {
    op is RenderOffscreen
}

/// The changes that were made between two points of a transaction.
pub open spec fn ops_between(before: SceneProgress, after: SceneProgress) -> Seq<SceneMsg> {
    before.ops@.subrange(before.done as int, after.done as int)
}

/// Each of the changes can be made at its time, after those before it.
pub open spec fn all_taken(
    state: OpState,
    ops: Seq<SceneMsg>,
    id: DocumentId,
    times: Seq<u64>,
) -> bool {
    forall|i: int|
        0 <= i < ops.len() ==> state.after_all(ops.take(i), id, times).takes(
            #[trigger] ops[i],
            times[i],
        )
}

/// Some changes of a transaction were made, each at a time at which it could be. Only the
/// last of them can ask for an offscreen scene, and then the changes pause. They also pause
/// at a change that cannot be made at the time that comes next.
pub open spec fn ops_made(
    thread: ThreadContents,
    before: SceneProgress,
    thread_after: ThreadContents,
    after: SceneProgress,
    pause: OpsPause,
    times: Seq<u64>,
) -> bool {
    let id = before.document_id;
    let made = ops_between(before, after);
    let start = before.state(thread.documents[id]);
    let state = start.after_all(made, id, times);
    &&& before.done <= after.done <= before.ops@.len()
    &&& made.len() < times.len()
    &&& all_taken(start, made, id, times)
    &&& thread_after == thread.with_document(id, state.document)
    &&& after.state(state.document) == state
    &&& after.document_id == id
    &&& after.config == before.config
    &&& after.ops == before.ops
    &&& after.scene_build_start_ns == before.scene_build_start_ns
    &&& after.scene_build_end_ns == before.scene_build_end_ns
    &&& after.offscreen_scenes == before.offscreen_scenes
    &&& match pause {
        OpsPause::BuildOffscreen(pipeline) => {
            &&& made.len() > 0
            &&& made.last() == SceneMsg::RenderOffscreen(pipeline)
            &&& forall|i: int| 0 <= i < made.len() - 1 ==> !is_offscreen(#[trigger] made[i])
        },
        OpsPause::Finished => {
            &&& after.done == before.ops@.len()
            &&& forall|i: int| 0 <= i < made.len() ==> !is_offscreen(#[trigger] made[i])
        },
        OpsPause::WrongTimes => {
            &&& after.done < before.ops@.len()
            &&& !state.takes(before.ops@[after.done as int], times[made.len() as int])
            &&& forall|i: int| 0 <= i < made.len() ==> !is_offscreen(#[trigger] made[i])
        },
    }
}

/// The result of changes depends only on as many times as there are changes.
proof fn lemma_more_times(
    state: OpState,
    ops: Seq<SceneMsg>,
    id: DocumentId,
    times: Seq<u64>,
    more: Seq<u64>,
)
    requires
        ops.len() <= times.len() <= more.len(),
        forall|i: int| 0 <= i < times.len() ==> #[trigger] times[i] == more[i],
    ensures
        state.after_all(ops, id, times) == state.after_all(ops, id, more),
    decreases ops.len(),
{
    if ops.len() > 0 {
        lemma_more_times(state, ops.drop_last(), id, times, more);
    }
}

/// Changes that could be made stay so, whatever times come later.
proof fn lemma_taken_later(
    state: OpState,
    ops: Seq<SceneMsg>,
    id: DocumentId,
    times: Seq<u64>,
    more: Seq<u64>,
)
    requires
        ops.len() <= times.len() <= more.len(),
        forall|i: int| 0 <= i < times.len() ==> #[trigger] times[i] == more[i],
        all_taken(state, ops, id, times),
    ensures
        all_taken(state, ops, id, more),
{
    assert forall|i: int| 0 <= i < ops.len() implies state.after_all(
        ops.take(i),
        id,
        more,
    ).takes(#[trigger] ops[i], more[i]) by {
        lemma_more_times(state, ops.take(i), id, times, more);
        assert(times[i] == more[i]);
    }
}

/// The time that the scene took can be measured, and added to the statistics.
pub open spec fn fits_build_time(progress: SceneProgress, built_at_ns: u64) -> bool {
    &&& progress.scene_build_start_ns <= built_at_ns
    &&& progress.frame_stats.scene_build_time_ns + (built_at_ns - progress.scene_build_start_ns)
        <= u64::MAX
}

/// The times of a display list are in order, and its measurements can be added up.
fn can_measure(progress: &SceneProgress, list: &DisplayList, now: u64) -> (r: bool)
    ensures
        r == list_ok(progress.profile, progress.frame_stats, *list, now),
{
    list.send_time_ns <= now && list.builder_start_time_ns <= list.builder_end_time_ns
        && progress.profile.off_grid_coords <= u64::MAX - list.off_grid_coords
        && progress.frame_stats.wr_display_list_time_ns <= u64::MAX - (list.builder_end_time_ns
        - list.builder_start_time_ns)
}

impl SceneBuilderThread {
    /// Starts a transaction now. Tells also which window's hooks are called before a scene
    /// is built, if any.
    pub fn begin_transaction(&self, txn: &mut TransactionMsg) -> (r: (
        SceneProgress,
        Option<RenderBackendId>,
    ))
        requires
            self.wf(),
        ensures
            r.1 == self@.hooked_window(old(txn).document_id),
            r.0.document_id == old(txn).document_id,
            r.0.config == self@.config_for(old(txn).document_id),
            r.0.ops == old(txn).scene_ops,
            r.0.done == 0,
            r.0.scene_build_end_ns is None,
            !r.0.rebuild_scene,
            r.0.removed_pipelines@.len() == 0,
            r.0.offscreen_scenes@.len() == 0,
            r.0.profile == old(txn).profile,
            r.0.frame_stats == FullFrameStats::none(),
            final(txn).scene_ops@.len() == 0,
            *final(txn) == (TransactionMsg {
                scene_ops: final(txn).scene_ops,
                profile: no_profile(),
                ..*old(txn)
            }),
    {
        self.start_transaction(txn, clock::now())
    }

    /// Makes the next change of a transaction at a time, where there is a change and it can
    /// be made then.
    pub fn next_op_at(&mut self, progress: &mut SceneProgress, now: u64) -> (r: OpStep)
        requires
            old(self).wf(),
            old(self)@.documents.dom().contains(old(progress).document_id),
            old(progress).done <= old(progress).ops@.len(),
        ensures
            final(self).wf(),
            r is WrongTimes <==> !next_is_taken(old(self)@, *old(progress), now),
            match r {
                OpStep::WrongTimes => final(self)@ == old(self)@ && *final(progress) == *old(
                    progress,
                ),
                OpStep::Made(action) => op_made(
                    old(self)@,
                    *old(progress),
                    final(self)@,
                    *final(progress),
                    action,
                    now,
                ),
            },
    {
        if progress.done < progress.ops.len() {
            if let SceneMsg::SetDisplayList { display_list, .. } = &progress.ops[progress.done] {
                if !can_measure(progress, display_list, now) {
                    return OpStep::WrongTimes;
                }
            }
        }
        OpStep::Made(self.next_op(progress, now))
    }

    /// Makes the changes of a transaction in order, each at the time that the clock shows,
    /// up to one that asks for an offscreen scene.
    pub fn process_ops(&mut self, progress: &mut SceneProgress) -> (r: OpsPause)
        requires
            old(self).wf(),
            old(self)@.documents.dom().contains(old(progress).document_id),
            old(progress).done <= old(progress).ops@.len(),
        ensures
            final(self).wf(),
            exists|times: Seq<u64>| #[trigger]
                ops_made(old(self)@, *old(progress), final(self)@, *final(progress), r, times),
    {
        let ghost start = *progress;
        let ghost thread = self@;
        let ghost id = start.document_id;
        let ghost begun = start.state(thread.documents[id]);
        let ghost mut times: Seq<u64> = Seq::empty();
        proof {
            assert(ops_between(start, start) =~= Seq::<SceneMsg>::empty());
            assert(begun.after_all(Seq::<SceneMsg>::empty(), id, times) == begun);
            assert(thread.documents.insert(id, thread.documents[id]) =~= thread.documents);
        }
        loop
            invariant
                self.wf(),
                id == start.document_id,
                id == progress.document_id,
                thread.documents.dom().contains(id),
                begun == start.state(thread.documents[id]),
                start.done <= progress.done <= start.ops@.len(),
                progress.ops == start.ops,
                times.len() == progress.done - start.done,
                ({
                    let made = ops_between(start, *progress);
                    let state = begun.after_all(made, id, times);
                    &&& all_taken(begun, made, id, times)
                    &&& self@ == thread.with_document(id, state.document)
                    &&& progress.state(state.document) == state
                    &&& forall|i: int| 0 <= i < made.len() ==> !is_offscreen(#[trigger] made[i])
                }),
                progress.config == start.config,
                progress.scene_build_start_ns == start.scene_build_start_ns,
                progress.scene_build_end_ns == start.scene_build_end_ns,
                progress.offscreen_scenes == start.offscreen_scenes,
                start == *old(progress),
                thread == old(self)@,
            decreases start.ops@.len() - progress.done,
        {
            let now: u64 = clock::now();
            let ghost made = ops_between(start, *progress);
            let ghost state = begun.after_all(made, id, times);
            let ghost k = progress.done as int;
            let ghost more = times.push(now);
            proof {
                lemma_more_times(begun, made, id, times, more);
                lemma_taken_later(begun, made, id, times, more);
            }
            assert(self@.documents[id] == state.document);
            let step = self.next_op_at(progress, now);
            match step {
                OpStep::WrongTimes => {
                    assert(ops_made(thread, start, self@, *progress, OpsPause::WrongTimes, more));
                    return OpsPause::WrongTimes;
                },
                OpStep::Made(OpAction::Finished) => {
                    assert(ops_made(thread, start, self@, *progress, OpsPause::Finished, more));
                    return OpsPause::Finished;
                },
                OpStep::Made(action) => {
                    let ghost next = ops_between(start, *progress);
                    proof {
                        assert(next.drop_last() =~= made);
                        assert(next.last() == start.ops@[k]);
                        let after = begun.after_all(next, id, more);
                        assert(after == state.after(start.ops@[k], id, now));
                        assert(self@.documents =~= thread.documents.insert(id, after.document));
                        assert forall|i: int| 0 <= i < next.len() implies begun.after_all(
                            next.take(i),
                            id,
                            more,
                        ).takes(#[trigger] next[i], more[i]) by {
                            assert(next.take(i) =~= made.take(i));
                            if i < made.len() {
                                assert(next[i] == made[i]);
                            } else {
                                assert(made.take(i) =~= made);
                            }
                        }
                        assert forall|i: int| 0 <= i < next.len() - 1 implies !is_offscreen(
                            #[trigger] next[i],
                        ) by {
                            assert(next[i] == made[i]);
                        }
                    }
                    if let OpAction::BuildOffscreen(pipeline) = action {
                        proof {
                            let last = more.push(now);
                            lemma_more_times(begun, next, id, more, last);
                            lemma_taken_later(begun, next, id, more, last);
                            assert(ops_made(
                                thread,
                                start,
                                self@,
                                *progress,
                                OpsPause::BuildOffscreen(pipeline),
                                last,
                            ));
                        }
                        return OpsPause::BuildOffscreen(pipeline);
                    }
                    proof {
                        times = more;
                    }
                },
            }
        }
    }

    /// Ends a transaction whose scene was built, where it had to be, at a time. There is no
    /// result where that is before the transaction began, or the measurements do not fit.
    pub fn end_transaction_at(
        &mut self,
        txn: TransactionMsg,
        progress: SceneProgress,
        main: Option<MainBuild>,
        blobs: Option<BlobResult>,
        built_at_ns: u64,
    ) -> (r: Option<FinishedTransaction>)
        requires
            old(self).wf(),
            txn.document_id == progress.document_id,
            old(self)@.documents.dom().contains(txn.document_id),
            (main is Some) == (progress.rebuild_scene
                && old(self)@.documents[txn.document_id].scene.has_root_pipeline()),
            progress.offscreen_scenes@.len() > 0 ==> main is Some,
            (blobs is Some) == (txn.blob_requests@.len() > 0),
        ensures
            final(self).wf(),
            r is None <==> !fits_build_time(progress, built_at_ns),
            match r {
                Some(finished) => is_finished(
                    old(self)@,
                    final(self)@,
                    txn,
                    progress,
                    main,
                    built_at_ns,
                    blobs,
                    finished,
                ),
                None => final(self)@ == old(self)@,
            },
    {
        if built_at_ns < progress.scene_build_start_ns
            || progress.frame_stats.scene_build_time_ns > u64::MAX - (built_at_ns
            - progress.scene_build_start_ns) {
            return None;
        }
        Some(self.finish_transaction(txn, progress, main, built_at_ns, blobs))
    }

    /// Ends a transaction whose scene was built, where it had to be. There is no result where
    /// the clock went back while it was, or the measurements do not fit.
    pub fn end_transaction(
        &mut self,
        txn: TransactionMsg,
        progress: SceneProgress,
        main: Option<MainBuild>,
        blobs: Option<BlobResult>,
    ) -> (r: Option<FinishedTransaction>)
        requires
            old(self).wf(),
            progress.scene_build_end_ns is Some,
            txn.document_id == progress.document_id,
            old(self)@.documents.dom().contains(txn.document_id),
            (main is Some) == (progress.rebuild_scene
                && old(self)@.documents[txn.document_id].scene.has_root_pipeline()),
            progress.offscreen_scenes@.len() > 0 ==> main is Some,
            (blobs is Some) == (txn.blob_requests@.len() > 0),
        ensures
            final(self).wf(),
            r is None <==> !fits_build_time(progress, progress.scene_build_end_ns->0),
            match r {
                Some(finished) => is_finished(
                    old(self)@,
                    final(self)@,
                    txn,
                    progress,
                    main,
                    progress.scene_build_end_ns->0,
                    blobs,
                    finished,
                ),
                None => final(self)@ == old(self)@,
            },
    {
        match progress.scene_build_end_ns {
            Some(built_at_ns) => self.end_transaction_at(txn, progress, main, blobs, built_at_ns),
            None => None,
        }
    }
}

impl SceneProgress {
    /// The scene was built at a time.
    pub fn scene_built_at(&mut self, now: u64)
        ensures
            *final(self) == (SceneProgress { scene_build_end_ns: Some(now), ..*old(self) }),
    {
        self.scene_build_end_ns = Some(now);
    }

    /// The scene is built now. Blobs are rasterized after this.
    pub fn scene_built(&mut self)
        ensures
            final(self).scene_build_end_ns is Some,
            *final(self) == (SceneProgress {
                scene_build_end_ns: final(self).scene_build_end_ns,
                ..*old(self)
            }),
    {
        self.scene_built_at(clock::now());
    }
}

} // verus!
