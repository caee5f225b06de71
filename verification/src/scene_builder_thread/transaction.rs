//! How one transaction changes its document. Scenes are built elsewhere: a transaction is
//! gone through step by step, and says when a scene has to be built.

use crate::scene::{
    DisplayListId, DocumentId, Epoch, ListDetails, PipelineId, SceneContents,
};
use crate::scene_builder_thread::{
    document_contents, BuiltScene, Document, DocumentContents, FrameBuilderConfig,
    OffscreenBuiltScene, QualitySettings, RenderBackendId, SceneBuilderThread, SceneStats,
    SceneView, ThreadContents,
};
use crate::units::{DeviceIntRect, DeviceIntSize};
use vstd::prelude::*;

verus! {

/// A display list that was received, and what is known of its making.
#[derive(Clone, Copy, Debug, PartialEq, Eq, Structural)]
pub struct DisplayList {
    pub id: DisplayListId,
    pub builder_start_time_ns: u64,
    pub builder_end_time_ns: u64,
    pub send_time_ns: u64,
    pub size_in_bytes: usize,
    pub off_grid_coords: u64,
    /// The bits of the time in milliseconds.
    pub gecko_display_list_time: u64,
    pub full_display_list: bool,
}

/// A change of a scene.
#[derive(Clone, Copy, Debug, PartialEq, Eq, Structural)]
pub enum SceneMsg {
    UpdateEpoch(PipelineId, Epoch),
    SetQualitySettings { settings: QualitySettings },
    SetDocumentView { device_rect: DeviceIntRect },
    SetDisplayList {
        epoch: Epoch,
        pipeline_id: PipelineId,
        display_list: DisplayList,
        namespace: u32,
    },
    RenderOffscreen(PipelineId),
    SetRootPipeline(PipelineId),
    RemovePipeline(PipelineId),
}

/// Whether a transaction ends in a frame.
#[derive(Clone, Copy, Debug, PartialEq, Eq, Structural)]
pub enum GenerateFrame {
    Yes { id: u64, present: bool, is_tracked: bool },
    No,
}

impl GenerateFrame {
    pub fn as_bool(&self) -> (r: bool)
        ensures
            r == (*self is Yes),
    {
        match self {
            GenerateFrame::Yes { .. } => true,
            GenerateFrame::No => false,
        }
    }

    pub fn present(&self) -> (r: bool)
        ensures
            r == (*self matches GenerateFrame::Yes { present: true, .. }),
    {
        match self {
            GenerateFrame::Yes { present, .. } => *present,
            GenerateFrame::No => false,
        }
    }

    pub fn is_tracked(&self) -> (r: bool)
        ensures
            r == (*self matches GenerateFrame::Yes { is_tracked: true, .. }),
    {
        match self {
            GenerateFrame::Yes { is_tracked, .. } => *is_tracked,
            GenerateFrame::No => false,
        }
    }
}

/// How far a transaction has come.
#[derive(Clone, Copy, Debug, PartialEq, Eq, Structural)]
pub enum Checkpoint {
    SceneBuilt,
    FrameBuilt,
    FrameTexturesUpdated,
    FrameRendered,
    TransactionDropped,
}

/// Someone who is to be told when a transaction has come as far as a checkpoint.
#[derive(Clone, Copy, Debug, PartialEq, Eq, Structural)]
pub struct NotificationRequest {
    pub when: Checkpoint,
    pub id: u64,
}

/// What is measured of a transaction.
#[derive(Clone, Copy, Debug, PartialEq, Eq, Structural)]
pub struct TransactionProfile {
    pub content_send_time_ns: Option<u64>,
    pub display_list_build_time_ns: Option<u64>,
    pub display_list_mem_bytes: Option<usize>,
    pub off_grid_coords: u64,
    pub scene_build_time_ns: Option<u64>,
    pub blob_rasterization_time_ns: Option<u64>,
}

/// What is told of a frame as a whole.
#[derive(Clone, Copy, Debug, PartialEq, Eq, Structural)]
pub struct FullFrameStats {
    pub full_display_list: bool,
    /// The bits of the time in milliseconds.
    pub gecko_display_list_time: u64,
    pub wr_display_list_time_ns: u64,
    pub scene_build_time_ns: u64,
}

impl FullFrameStats {
    pub open spec fn none() -> Self {
        FullFrameStats {
            full_display_list: false,
            gecko_display_list_time: 0,
            wr_display_list_time_ns: 0,
            scene_build_time_ns: 0,
        }
    }
}

impl Default for FullFrameStats {
    fn default() -> (r: Self)
        ensures
            r == FullFrameStats::none(),
    {
        FullFrameStats {
            full_display_list: false,
            gecko_display_list_time: 0,
            wr_display_list_time_ns: 0,
            scene_build_time_ns: 0,
        }
    }
}

/// What is asked of a document. Resource updates, frame operations and blobs are known by
/// their numbers.
pub struct TransactionMsg {
    pub document_id: DocumentId,
    pub scene_ops: Vec<SceneMsg>,
    pub frame_ops: Vec<u64>,
    pub resource_updates: Vec<u64>,
    pub generate_frame: GenerateFrame,
    pub invalidate_rendered_frame: bool,
    pub blob_requests: Vec<u64>,
    pub rasterized_blobs: Vec<u64>,
    pub blob_rasterizer: Option<u64>,
    pub notifications: Vec<NotificationRequest>,
    pub profile: TransactionProfile,
}

/// What is left of a transaction once its scene is built.
pub struct BuiltTransaction {
    pub document_id: DocumentId,
    pub built_scene: Option<BuiltScene>,
    pub offscreen_scenes: Vec<OffscreenBuiltScene>,
    pub view: SceneView,
    pub resource_updates: Vec<u64>,
    pub rasterized_blobs: Vec<u64>,
    pub blob_rasterizer: Option<u64>,
    pub frame_ops: Vec<u64>,
    pub removed_pipelines: Vec<(PipelineId, DocumentId)>,
    pub notifications: Vec<NotificationRequest>,
    pub interner_updates: Option<u64>,
    pub spatial_tree_updates: Option<u64>,
    pub render_frame: bool,
    pub present: bool,
    pub is_tracked: bool,
    pub invalidate_rendered_frame: bool,
    pub profile: TransactionProfile,
    pub frame_stats: FullFrameStats,
}

/// How far the changes of a transaction have been made.
pub struct SceneProgress {
    pub document_id: DocumentId,
    pub config: FrameBuilderConfig,
    pub ops: Vec<SceneMsg>,
    /// How many of the changes have been made.
    pub done: usize,
    pub scene_build_start_ns: u64,
    /// When the scene was built, once it is.
    pub scene_build_end_ns: Option<u64>,
    pub rebuild_scene: bool,
    /// The pipelines that were removed in this transaction.
    pub removed_pipelines: Vec<(PipelineId, DocumentId)>,
    pub offscreen_scenes: Vec<OffscreenBuiltScene>,
    pub profile: TransactionProfile,
    pub frame_stats: FullFrameStats,
}

/// A document amid a transaction.
#[verifier::ext_equal]
pub struct OpState {
    pub document: DocumentContents,
    pub rebuild_scene: bool,
    pub removed: Seq<(PipelineId, DocumentId)>,
    pub profile: TransactionProfile,
    pub frame_stats: FullFrameStats,
}

/// A pipeline was removed in this transaction.
pub open spec fn was_removed(
    removed: Seq<(PipelineId, DocumentId)>,
    pipeline: PipelineId,
) -> bool {
    exists|i: int| 0 <= i < removed.len() && (#[trigger] removed[i]).0 == pipeline
}

/// The measurements with those of a display list.
pub open spec fn list_profile(
    profile: TransactionProfile,
    list: DisplayList,
    now: u64,
) -> TransactionProfile {
    TransactionProfile {
        content_send_time_ns: Some((now - list.send_time_ns) as u64),
        display_list_build_time_ns: Some(
            (list.builder_end_time_ns - list.builder_start_time_ns) as u64,
        ),
        display_list_mem_bytes: Some(list.size_in_bytes),
        off_grid_coords: (profile.off_grid_coords + list.off_grid_coords) as u64,
        ..profile
    }
}

/// The statistics with those of a display list.
pub open spec fn list_stats(stats: FullFrameStats, list: DisplayList) -> FullFrameStats {
    FullFrameStats {
        full_display_list: list.full_display_list,
        gecko_display_list_time: list.gecko_display_list_time,
        wr_display_list_time_ns: (stats.wr_display_list_time_ns + (list.builder_end_time_ns
            - list.builder_start_time_ns)) as u64,
        ..stats
    }
}

/// The times of a display list are in order, and its measurements can be added up.
pub open spec fn list_ok(
    profile: TransactionProfile,
    stats: FullFrameStats,
    list: DisplayList,
    now: u64,
) -> bool {
    &&& list.send_time_ns <= now
    &&& list.builder_start_time_ns <= list.builder_end_time_ns
    &&& profile.off_grid_coords + list.off_grid_coords <= u64::MAX
    &&& stats.wr_display_list_time_ns + (list.builder_end_time_ns - list.builder_start_time_ns)
        <= u64::MAX
}

impl OpState {
    /// A change can be made.
    pub open spec fn takes(self, op: SceneMsg, now: u64) -> bool {
        op matches SceneMsg::SetDisplayList { display_list, .. } ==> list_ok(
            self.profile,
            self.frame_stats,
            display_list,
            now,
        )
    }

    pub open spec fn with_scene(self, scene: SceneContents) -> Self {
        OpState { document: DocumentContents { scene, ..self.document }, ..self }
    }

    pub open spec fn with_view(self, view: SceneView) -> Self {
        OpState { document: DocumentContents { view, ..self.document }, ..self }
    }

    /// The document after a change. A display list for a pipeline that was removed in the
    /// same transaction is only measured.
    pub open spec fn after(self, op: SceneMsg, id: DocumentId, now: u64) -> Self {
        let scene = self.document.scene;
        let view = self.document.view;
        match op {
            SceneMsg::UpdateEpoch(pipeline, epoch) => self.with_scene(
                scene.with_epoch(pipeline, epoch),
            ),
            SceneMsg::SetQualitySettings { settings } => self.with_view(
                SceneView { quality_settings: settings, ..view },
            ),
            SceneMsg::SetDocumentView { device_rect } => self.with_view(
                SceneView { device_rect, ..view },
            ),
            SceneMsg::SetDisplayList { epoch, pipeline_id, display_list, namespace } => {
                let measured = OpState {
                    profile: list_profile(self.profile, display_list, now),
                    frame_stats: list_stats(self.frame_stats, display_list),
                    ..self
                };
                if was_removed(self.removed, pipeline_id) {
                    measured
                } else {
                    OpState {
                        rebuild_scene: true,
                        ..measured.with_scene(
                            scene.with_display_list(
                                pipeline_id,
                                epoch,
                                display_list.id,
                                ListDetails::Namespace(namespace),
                            ),
                        )
                    }
                }
            },
            SceneMsg::RenderOffscreen(_) => self,
            SceneMsg::SetRootPipeline(pipeline) => if scene.root == Some(pipeline) {
                self
            } else {
                OpState { rebuild_scene: true, ..self.with_scene(scene.with_root(pipeline)) }
            },
            SceneMsg::RemovePipeline(pipeline) => OpState {
                removed: self.removed.push((pipeline, id)),
                ..self.with_scene(scene.without(pipeline))
            },
        }
    }

    /// The document after several changes, each made at its own time.
    pub open spec fn after_all(self, ops: Seq<SceneMsg>, id: DocumentId, times: Seq<u64>) -> Self
        decreases ops.len(),
    {
        if ops.len() == 0 {
            self
        } else {
            self.after_all(ops.drop_last(), id, times).after(
                ops.last(),
                id,
                times[ops.len() - 1],
            )
        }
    }
}

/// What the next change of a transaction asks for.
#[derive(Clone, Copy, Debug, PartialEq, Eq, Structural)]
pub enum OpAction {
    /// The change was made.
    Applied,
    /// A scene of this pipeline is to be built from the document as it is now.
    BuildOffscreen(PipelineId),
    /// There are no more changes.
    Finished,
}

impl SceneProgress {
    /// The document amid this transaction.
    pub open spec fn state(self, document: DocumentContents) -> OpState {
        OpState {
            document,
            rebuild_scene: self.rebuild_scene,
            removed: self.removed_pipelines@,
            profile: self.profile,
            frame_stats: self.frame_stats,
        }
    }

    fn was_removed(&self, pipeline: PipelineId) -> (r: bool)
        ensures
            r == was_removed(self.removed_pipelines@, pipeline),
    {
        let mut i: usize = 0;
        while i < self.removed_pipelines.len()
            invariant
                i <= self.removed_pipelines@.len(),
                forall|j: int|
                    0 <= j < i ==> (#[trigger] self.removed_pipelines@[j]).0 != pipeline,
            decreases self.removed_pipelines@.len() - i,
        {
            if self.removed_pipelines[i].0 == pipeline {
                return true;
            }
            i = i + 1;
        }
        false
    }

    fn measure(&mut self, list: &DisplayList, now: u64)
        requires
            list_ok(old(self).profile, old(self).frame_stats, *list, now),
        ensures
            *final(self) == (SceneProgress {
                profile: list_profile(old(self).profile, *list, now),
                frame_stats: list_stats(old(self).frame_stats, *list),
                ..*old(self)
            }),
    {
        let build_time: u64 = list.builder_end_time_ns - list.builder_start_time_ns;
        self.profile.content_send_time_ns = Some(now - list.send_time_ns);
        self.profile.display_list_build_time_ns = Some(build_time);
        self.profile.display_list_mem_bytes = Some(list.size_in_bytes);
        self.profile.off_grid_coords = self.profile.off_grid_coords + list.off_grid_coords;
        self.frame_stats.full_display_list = list.full_display_list;
        self.frame_stats.gecko_display_list_time = list.gecko_display_list_time;
        self.frame_stats.wr_display_list_time_ns = self.frame_stats.wr_display_list_time_ns
            + build_time;
    }

    /// Makes one change.
    fn apply(&mut self, document: &mut Document, op: SceneMsg, now: u64)
        requires
            old(document).scene.wf(),
            old(self).state(old(document)@).takes(op, now),
        ensures
            final(document).scene.wf(),
            final(self).state(final(document)@) == old(self).state(old(document)@).after(
                op,
                old(self).document_id,
                now,
            ),
            final(self).document_id == old(self).document_id,
            final(self).config == old(self).config,
            final(self).ops == old(self).ops,
            final(self).done == old(self).done,
            final(self).scene_build_start_ns == old(self).scene_build_start_ns,
            final(self).scene_build_end_ns == old(self).scene_build_end_ns,
            final(self).offscreen_scenes == old(self).offscreen_scenes,
    {
        match op {
            SceneMsg::UpdateEpoch(pipeline_id, epoch) => {
                document.scene.update_epoch(pipeline_id, epoch);
            },
            SceneMsg::SetQualitySettings { settings } => {
                document.view.quality_settings = settings;
            },
            SceneMsg::SetDocumentView { device_rect } => {
                document.view.device_rect = device_rect;
            },
            SceneMsg::SetDisplayList { epoch, pipeline_id, display_list, namespace } => {
                self.measure(&display_list, now);
                if !self.was_removed(pipeline_id) {
                    self.rebuild_scene = true;
                    document.scene.set_display_list(
                        pipeline_id,
                        epoch,
                        display_list.id,
                        ListDetails::Namespace(namespace),
                    );
                }
            },
            SceneMsg::RenderOffscreen(_) => {},
            SceneMsg::SetRootPipeline(pipeline_id) => {
                if document.scene.root_pipeline_id != Some(pipeline_id) {
                    self.rebuild_scene = true;
                    document.scene.set_root_pipeline_id(pipeline_id);
                }
            },
            SceneMsg::RemovePipeline(pipeline_id) => {
                document.scene.remove_pipeline(pipeline_id);
                let document_id = self.document_id;
                self.removed_pipelines.push((pipeline_id, document_id));
            },
        }
    }
}

/// A scene that was built for a document, and what came with it.
pub struct MainBuild {
    pub scene: BuiltScene,
    pub stats: SceneStats,
    pub interner_updates: u64,
    pub spatial_tree_updates: u64,
}

/// Blobs that were rasterized, and the time that it took.
pub struct BlobResult {
    pub blobs: Vec<u64>,
    pub time_ns: u64,
}

/// A transaction whose scene is built, and what is to be done before it is forwarded.
pub struct FinishedTransaction {
    pub built: BuiltTransaction,
    /// Those who are told that the scene is built.
    pub notify: Vec<NotificationRequest>,
    /// How long to wait.
    pub sleep_ms: u32,
}

/// No measurement has been made.
pub open spec fn no_profile() -> TransactionProfile {
    TransactionProfile {
        content_send_time_ns: None,
        display_list_build_time_ns: None,
        display_list_mem_bytes: None,
        off_grid_coords: 0,
        scene_build_time_ns: None,
        blob_rasterization_time_ns: None,
    }
}

pub fn empty_profile() -> (r: TransactionProfile)
    ensures
        r == no_profile(),
{
    TransactionProfile {
        content_send_time_ns: None,
        display_list_build_time_ns: None,
        display_list_mem_bytes: None,
        off_grid_coords: 0,
        scene_build_time_ns: None,
        blob_rasterization_time_ns: None,
    }
}

/// The blobs of a transaction with those that were rasterized. Without a rasterizer there
/// are no more.
pub open spec fn blobs_with(txn: TransactionMsg, blobs: Seq<u64>) -> Seq<u64> {
    if txn.blob_rasterizer is Some {
        txn.rasterized_blobs@ + blobs
    } else {
        txn.rasterized_blobs@
    }
}

/// Adds the blobs that were rasterized to a transaction.
pub fn rasterize_blobs(txn: &mut TransactionMsg, blobs: Vec<u64>)
    ensures
        final(txn).rasterized_blobs@ == blobs_with(*old(txn), blobs@),
        *final(txn) == (TransactionMsg {
            rasterized_blobs: final(txn).rasterized_blobs,
            ..*old(txn)
        }),
{
    if txn.blob_rasterizer.is_some() {
        if txn.rasterized_blobs.len() == 0 {
            txn.rasterized_blobs = blobs;
        } else {
            let mut blobs = blobs;
            txn.rasterized_blobs.append(&mut blobs);
        }
        assert(txn.rasterized_blobs@ =~= blobs_with(*old(txn), blobs@));
    }
}

/// Those who wait for a scene to be built.
pub open spec fn waiting_for_scene(requests: Seq<NotificationRequest>) -> Seq<
    NotificationRequest,
> {
    requests.filter(|request: NotificationRequest| request.when == Checkpoint::SceneBuilt)
}

/// Those who wait for something later.
pub open spec fn waiting_on(requests: Seq<NotificationRequest>) -> Seq<NotificationRequest> {
    requests.filter(|request: NotificationRequest| request.when != Checkpoint::SceneBuilt)
}

/// Parts those who wait for the scene from the others, who stay in order.
pub fn split_notifications(requests: &Vec<NotificationRequest>) -> (r: (
    Vec<NotificationRequest>,
    Vec<NotificationRequest>,
))
    ensures
        r.0@ == waiting_for_scene(requests@),
        r.1@ == waiting_on(requests@),
{
    let mut told: Vec<NotificationRequest> = Vec::new();
    let mut kept: Vec<NotificationRequest> = Vec::new();
    let mut i: usize = 0;
    assert(requests@.take(0) =~= Seq::<NotificationRequest>::empty());
    proof {
        reveal(Seq::filter);
    }
    while i < requests.len()
        invariant
            i <= requests@.len(),
            told@ == waiting_for_scene(requests@.take(i as int)),
            kept@ == waiting_on(requests@.take(i as int)),
        decreases requests@.len() - i,
    {
        proof {
            reveal(Seq::filter);
            assert(requests@.take(i as int + 1).drop_last() =~= requests@.take(i as int));
        }
        if requests[i].when == Checkpoint::SceneBuilt {
            told.push(requests[i]);
        } else {
            kept.push(requests[i]);
        }
        i = i + 1;
    }
    assert(requests@.take(i as int) =~= requests@);
    (told, kept)
}

impl ThreadContents {
    /// The thread with another document in the place of one.
    pub open spec fn with_document(self, id: DocumentId, document: DocumentContents) -> Self {
        ThreadContents { documents: self.documents.insert(id, document), ..self }
    }
}

/// The next change of a transaction was made at a time, where there was one.
pub open spec fn op_made(
    thread: ThreadContents,
    before: SceneProgress,
    thread_after: ThreadContents,
    after: SceneProgress,
    action: OpAction,
    now: u64,
) -> bool {
    if before.done < before.ops@.len() {
        let id = before.document_id;
        let op = before.ops@[before.done as int];
        let state = before.state(thread.documents[id]).after(op, id, now);
        &&& action == (match op {
            SceneMsg::RenderOffscreen(pipeline) => OpAction::BuildOffscreen(pipeline),
            _ => OpAction::Applied,
        })
        &&& thread_after == thread.with_document(id, state.document)
        &&& after.state(state.document) == state
        &&& after.done == before.done + 1
        &&& after.document_id == id
        &&& after.config == before.config
        &&& after.ops == before.ops
        &&& after.scene_build_start_ns == before.scene_build_start_ns
        &&& after.scene_build_end_ns == before.scene_build_end_ns
        &&& after.offscreen_scenes == before.offscreen_scenes
    } else {
        &&& action is Finished
        &&& thread_after == thread
        &&& after == before
    }
}

/// A transaction is finished: what becomes of the thread, and what is handed on.
pub open spec fn is_finished(
    before: ThreadContents,
    after: ThreadContents,
    txn: TransactionMsg,
    progress: SceneProgress,
    main: Option<MainBuild>,
    built_at_ns: u64,
    blobs: Option<BlobResult>,
    r: FinishedTransaction,
) -> bool {
    &&& after == before.with_document(
        txn.document_id,
        DocumentContents {
            stats: match main {
                Some(build) => build.stats,
                None => before.documents[txn.document_id].stats,
            },
            ..before.documents[txn.document_id]
        },
    )
    &&& r.notify@ == waiting_for_scene(txn.notifications@)
    &&& r.sleep_ms == before.simulate_slow_ms
    &&& r.built.document_id == txn.document_id
    &&& r.built.render_frame == (txn.generate_frame is Yes)
    &&& r.built.present == (txn.generate_frame matches GenerateFrame::Yes {
        present: true,
        ..
    })
    &&& r.built.is_tracked == (txn.generate_frame matches GenerateFrame::Yes {
        is_tracked: true,
        ..
    })
    &&& r.built.invalidate_rendered_frame == txn.invalidate_rendered_frame
    &&& r.built.built_scene == (match main {
        Some(build) => Some(build.scene),
        None => None,
    })
    &&& r.built.interner_updates == (match main {
        Some(build) => Some(build.interner_updates),
        None => None,
    })
    &&& r.built.spatial_tree_updates == (match main {
        Some(build) => Some(build.spatial_tree_updates),
        None => None,
    })
    &&& r.built.offscreen_scenes == progress.offscreen_scenes
    &&& r.built.view == before.documents[txn.document_id].view
    &&& r.built.rasterized_blobs@ == (match blobs {
        Some(result) => blobs_with(txn, result.blobs@),
        None => txn.rasterized_blobs@,
    })
    &&& r.built.resource_updates == txn.resource_updates
    &&& r.built.blob_rasterizer == txn.blob_rasterizer
    &&& r.built.frame_ops == txn.frame_ops
    &&& r.built.removed_pipelines == progress.removed_pipelines
    &&& r.built.notifications@ == waiting_on(txn.notifications@)
    &&& r.built.profile == (TransactionProfile {
        scene_build_time_ns: Some((built_at_ns - progress.scene_build_start_ns) as u64),
        blob_rasterization_time_ns: match blobs {
            Some(result) => Some(result.time_ns),
            None => progress.profile.blob_rasterization_time_ns,
        },
        ..progress.profile
    })
    &&& r.built.frame_stats == (FullFrameStats {
        scene_build_time_ns: (progress.frame_stats.scene_build_time_ns + (built_at_ns
            - progress.scene_build_start_ns)) as u64,
        ..progress.frame_stats
    })
}

impl SceneBuilderThread {
    /// Starts a transaction. Tells also which window's hooks are called before a scene is
    /// built, if any.
    pub fn start_transaction(&self, txn: &mut TransactionMsg, now: u64) -> (r: (
        SceneProgress,
        Option<RenderBackendId>,
    ))
        requires
            self.wf(),
        ensures
            r.1 == self@.hooked_window(old(txn).document_id),
            r.0.document_id == old(txn).document_id,
            r.0.config == self@.config_for(old(txn).document_id),
            r.0.ops == old(txn).scene_ops,
            r.0.done == 0,
            r.0.scene_build_start_ns == now,
            r.0.scene_build_end_ns is None,
            !r.0.rebuild_scene,
            r.0.removed_pipelines@.len() == 0,
            r.0.offscreen_scenes@.len() == 0,
            r.0.profile == old(txn).profile,
            r.0.frame_stats == FullFrameStats::none(),
            final(txn).scene_ops@.len() == 0,
            *final(txn) == (TransactionMsg {
                scene_ops: final(txn).scene_ops,
                profile: no_profile(),
                ..*old(txn)
            }),
    {
        let mut ops: Vec<SceneMsg> = Vec::new();
        std::mem::swap(&mut ops, &mut txn.scene_ops);
        let profile = txn.profile;
        txn.profile = empty_profile();
        let progress = SceneProgress {
            document_id: txn.document_id,
            config: self.config_for(txn.document_id),
            ops,
            done: 0,
            scene_build_start_ns: now,
            scene_build_end_ns: None,
            rebuild_scene: false,
            removed_pipelines: Vec::new(),
            offscreen_scenes: Vec::new(),
            profile,
            frame_stats: FullFrameStats::default(),
        };
        (progress, self.hooked_window(txn.document_id))
    }

    /// Makes the next change of a transaction.
    pub fn next_op(&mut self, progress: &mut SceneProgress, now: u64) -> (r: OpAction)
        requires
            old(self).wf(),
            old(self)@.documents.dom().contains(old(progress).document_id),
            old(progress).done <= old(progress).ops@.len(),
            old(progress).done < old(progress).ops@.len() ==> old(progress).state(
                old(self)@.documents[old(progress).document_id],
            ).takes(old(progress).ops@[old(progress).done as int], now),
        ensures
            final(self).wf(),
            op_made(old(self)@, *old(progress), final(self)@, *final(progress), r, now),
    {
        if progress.done == progress.ops.len() {
            return OpAction::Finished;
        }
        let op = progress.ops[progress.done];
        let id = progress.document_id;
        let ghost before = self.documents@;
        let ghost after = progress.state(self@.documents[id]).after(op, id, now);
        match self.documents.get_mut(&id) {
            Some(document) => {
                progress.apply(document, op, now);
            },
            None => {},
        }
        progress.done = progress.done + 1;
        proof {
            assert(document_contents(self.documents@) =~= document_contents(before).insert(
                id,
                after.document,
            ));
            assert(self@ =~= old(self)@.with_document(id, after.document));
        }
        match op {
            SceneMsg::RenderOffscreen(pipeline_id) => OpAction::BuildOffscreen(pipeline_id),
            _ => OpAction::Applied,
        }
    }

    /// The scene of a document has to be built: something that it shows has changed, and
    /// its root has a display list.
    pub fn needs_scene(&self, progress: &SceneProgress) -> (r: bool)
        requires
            self.wf(),
            self@.documents.dom().contains(progress.document_id),
        ensures
            r == (progress.rebuild_scene
                && self@.documents[progress.document_id].scene.has_root_pipeline()),
    {
        match self.documents.get(&progress.document_id) {
            Some(document) => document.scene.has_root_pipeline() && progress.rebuild_scene,
            None => false,
        }
    }

    /// Ends a transaction whose scene was built where it had to be. An offscreen scene
    /// needs a scene of the document beside it, which tells what both have in common.
    pub fn finish_transaction(
        &mut self,
        txn: TransactionMsg,
        progress: SceneProgress,
        main: Option<MainBuild>,
        built_at_ns: u64,
        blobs: Option<BlobResult>,
    ) -> (r: FinishedTransaction)
        requires
            old(self).wf(),
            txn.document_id == progress.document_id,
            old(self)@.documents.dom().contains(txn.document_id),
            (main is Some) == (progress.rebuild_scene
                && old(self)@.documents[txn.document_id].scene.has_root_pipeline()),
            progress.offscreen_scenes@.len() > 0 ==> main is Some,
            progress.scene_build_start_ns <= built_at_ns,
            progress.frame_stats.scene_build_time_ns + (built_at_ns
                - progress.scene_build_start_ns) <= u64::MAX,
            (blobs is Some) == (txn.blob_requests@.len() > 0),
        ensures
            final(self).wf(),
            is_finished(
                old(self)@,
                final(self)@,
                txn,
                progress,
                main,
                built_at_ns,
                blobs,
                r,
            ),
    {
        let mut txn = txn;
        let mut profile = progress.profile;
        let mut frame_stats = progress.frame_stats;
        let build_time: u64 = built_at_ns - progress.scene_build_start_ns;
        let mut built_scene: Option<BuiltScene> = None;
        let mut interner_updates: Option<u64> = None;
        let mut spatial_tree_updates: Option<u64> = None;
        let mut stats: Option<SceneStats> = None;
        if let Some(build) = main {
            stats = Some(build.stats);
            interner_updates = Some(build.interner_updates);
            spatial_tree_updates = Some(build.spatial_tree_updates);
            built_scene = Some(build.scene);
        }
        let view = self.update_stats(txn.document_id, stats);
        profile.scene_build_time_ns = Some(build_time);
        frame_stats.scene_build_time_ns = frame_stats.scene_build_time_ns + build_time;
        if let Some(result) = blobs {
            rasterize_blobs(&mut txn, result.blobs);
            profile.blob_rasterization_time_ns = Some(result.time_ns);
        }
        let (notify, notifications) = split_notifications(&txn.notifications);
        FinishedTransaction {
            built: BuiltTransaction {
                document_id: txn.document_id,
                built_scene,
                offscreen_scenes: progress.offscreen_scenes,
                view,
                resource_updates: txn.resource_updates,
                rasterized_blobs: txn.rasterized_blobs,
                blob_rasterizer: txn.blob_rasterizer,
                frame_ops: txn.frame_ops,
                removed_pipelines: progress.removed_pipelines,
                notifications,
                interner_updates,
                spatial_tree_updates,
                render_frame: txn.generate_frame.as_bool(),
                present: txn.generate_frame.present(),
                is_tracked: txn.generate_frame.is_tracked(),
                invalidate_rendered_frame: txn.invalidate_rendered_frame,
                profile,
                frame_stats,
            },
            notify,
            sleep_ms: self.simulate_slow_ms,
        }
    }

    /// Keeps the statistics of a scene that was built, and gives how the document is looked
    /// at.
    fn update_stats(&mut self, id: DocumentId, stats: Option<SceneStats>) -> (r: SceneView)
        requires
            old(self).wf(),
            old(self)@.documents.dom().contains(id),
        ensures
            final(self).wf(),
            final(self)@ == old(self)@.with_document(
                id,
                DocumentContents {
                    stats: match stats {
                        Some(stats) => stats,
                        None => old(self)@.documents[id].stats,
                    },
                    ..old(self)@.documents[id]
                },
            ),
            r == old(self)@.documents[id].view,
    {
        let ghost before = self.documents@;
        let ghost contents = self@.documents[id];
        let mut view = SceneView {
            device_rect: DeviceIntRect::from_size(DeviceIntSize { width: 0, height: 0 }),
            quality_settings: QualitySettings { force_subpixel_aa_where_possible: false },
        };
        match self.documents.get_mut(&id) {
            Some(document) => {
                if let Some(stats) = stats {
                    document.stats = stats;
                }
                view = document.view;
            },
            None => {},
        }
        proof {
            let after = DocumentContents {
                stats: match stats {
                    Some(stats) => stats,
                    None => contents.stats,
                },
                ..contents
            };
            assert(document_contents(self.documents@) =~= document_contents(before).insert(
                id,
                after,
            ));
            assert(self@ =~= old(self)@.with_document(id, after));
        }
        view
    }
}

/// A display list that comes after its pipeline was removed in the same transaction changes
/// neither the scene nor whether it is built, whatever came before and between.
pub proof fn removed_pipelines_get_no_list(
    start: OpState,
    ops: Seq<SceneMsg>,
    id: DocumentId,
    times: Seq<u64>,
    removal: int,
    list: int,
)
    requires
        0 <= removal < list < ops.len(),
        ops[removal] matches SceneMsg::RemovePipeline(gone) && ops[list]
            matches SceneMsg::SetDisplayList { pipeline_id, .. } && pipeline_id == gone,
    ensures
        ({
            let before = start.after_all(ops.take(list), id, times);
            let after = start.after_all(ops.take(list + 1), id, times);
            &&& after.document == before.document
            &&& after.rebuild_scene == before.rebuild_scene
            &&& after.removed == before.removed
        }),
{
    let gone = ops[removal]->RemovePipeline_0;
    lemma_stays_removed(start, ops, id, times, removal, list, gone);
    assert(ops.take(list + 1).drop_last() =~= ops.take(list));
}

proof fn lemma_stays_removed(
    start: OpState,
    ops: Seq<SceneMsg>,
    id: DocumentId,
    times: Seq<u64>,
    removal: int,
    n: int,
    gone: PipelineId,
)
    requires
        0 <= removal < n <= ops.len(),
        ops[removal] == SceneMsg::RemovePipeline(gone),
    ensures
        was_removed(start.after_all(ops.take(n), id, times).removed, gone),
    decreases n,
{
    let before = start.after_all(ops.take(n - 1), id, times);
    let after = start.after_all(ops.take(n), id, times);
    assert(ops.take(n).drop_last() =~= ops.take(n - 1));
    assert(after == before.after(ops[n - 1], id, times[n - 1]));
    if removal == n - 1 {
        assert(after.removed[before.removed.len() as int].0 == gone);
    } else {
        lemma_stays_removed(start, ops, id, times, removal, n - 1, gone);
        let i = choose|i: int|
            0 <= i < before.removed.len() && (#[trigger] before.removed[i]).0 == gone;
        assert(after.removed[i].0 == gone);
    }
}

/// A pipeline that was removed in a transaction has no display list at the end of it.
pub proof fn removed_pipelines_stay_gone(
    start: OpState,
    ops: Seq<SceneMsg>,
    id: DocumentId,
    times: Seq<u64>,
    removal: int,
    gone: PipelineId,
)
    requires
        0 <= removal < ops.len(),
        ops[removal] == SceneMsg::RemovePipeline(gone),
    ensures
        !start.after_all(ops, id, times).document.scene.pipelines.dom().contains(gone),
    decreases ops.len(),
{
    let n = ops.len() as int;
    let before = start.after_all(ops.drop_last(), id, times);
    if removal < n - 1 {
        removed_pipelines_stay_gone(start, ops.drop_last(), id, times, removal, gone);
        lemma_stays_removed(start, ops, id, times, removal, n - 1, gone);
        assert(ops.take(n - 1) =~= ops.drop_last());
    }
}

/// Nothing is rebuilt by a transaction that sets neither a display list nor a root.
pub proof fn small_changes_build_nothing(
    start: OpState,
    ops: Seq<SceneMsg>,
    id: DocumentId,
    times: Seq<u64>,
)
    requires
        forall|i: int|
            0 <= i < ops.len() ==> !(#[trigger] ops[i] is SetDisplayList) && !(
            ops[i] is SetRootPipeline),
    ensures
        start.after_all(ops, id, times).rebuild_scene == start.rebuild_scene,
    decreases ops.len(),
{
    if ops.len() > 0 {
        small_changes_build_nothing(start, ops.drop_last(), id, times);
    }
}

/// What a change does to a document. The scene is built anew exactly for a display list of a
/// pipeline that was not removed in the same transaction, and for another root. A change
/// of the view leaves the scene alone, and the other way round. A removed pipeline is
/// gone from the scene and noted. Each display list is measured, also one that is not used.
pub proof fn changes_touch_their_part(state: OpState, op: SceneMsg, id: DocumentId, now: u64)
    requires
        state.takes(op, now),
    ensures
        ({
            let after = state.after(op, id, now);
            let (s, v) = (state.document.scene, state.document.view);
            let (t, w) = (after.document.scene, after.document.view);
            &&& !state.rebuild_scene ==> (after.rebuild_scene <==> match op {
                SceneMsg::SetDisplayList { pipeline_id, .. } => !exists|i: int|
                    0 <= i < state.removed.len() && (#[trigger] state.removed[i]).0 == pipeline_id,
                SceneMsg::SetRootPipeline(pipeline) => s.root != Some(pipeline),
                _ => false,
            })
            &&& state.rebuild_scene ==> after.rebuild_scene
            &&& op is SetQualitySettings || op is SetDocumentView || op is RenderOffscreen ==> t
                == s
            &&& !(op is SetQualitySettings) && !(op is SetDocumentView) ==> w == v
            &&& op matches SceneMsg::SetQualitySettings { settings } ==> w == (SceneView {
                quality_settings: settings,
                ..v
            })
            &&& op matches SceneMsg::SetDocumentView { device_rect } ==> w == (SceneView {
                device_rect,
                ..v
            })
            &&& op matches SceneMsg::SetRootPipeline(pipeline) ==> t.root == Some(pipeline)
                && t.pipelines == s.pipelines && t.epochs == s.epochs
            &&& op matches SceneMsg::UpdateEpoch(pipeline, epoch) ==> t.epochs.dom().contains(
                pipeline,
            ) && t.epochs[pipeline] == epoch && t.pipelines == s.pipelines && t.root == s.root
            &&& op matches SceneMsg::RemovePipeline(pipeline) ==> {
                &&& !t.pipelines.dom().contains(pipeline)
                &&& !t.epochs.dom().contains(pipeline)
                &&& t.root != Some(pipeline)
                &&& after.removed.len() == state.removed.len() + 1
                &&& after.removed.last().0 == pipeline
                &&& after.removed.last().1 == id
                &&& after.removed.drop_last() == state.removed
            }
            &&& !(op is RemovePipeline) ==> after.removed == state.removed
            &&& op matches SceneMsg::SetDisplayList {
                epoch,
                pipeline_id,
                display_list,
                namespace,
            } ==> {
                let skipped = exists|i: int|
                    0 <= i < state.removed.len() && (#[trigger] state.removed[i]).0 == pipeline_id;
                let took = display_list.builder_end_time_ns - display_list.builder_start_time_ns;
                &&& skipped ==> t == s
                &&& !skipped ==> {
                    &&& t.pipelines.dom().contains(pipeline_id)
                    &&& t.pipelines[pipeline_id].display_list == display_list.id
                    &&& t.pipelines[pipeline_id].details == ListDetails::Namespace(namespace)
                    &&& t.epochs.dom().contains(pipeline_id) && t.epochs[pipeline_id] == epoch
                    &&& t.root == s.root
                }
                &&& after.profile.content_send_time_ns is Some
                &&& after.profile.content_send_time_ns->0 + display_list.send_time_ns == now
                &&& after.profile.display_list_build_time_ns is Some
                &&& after.profile.display_list_build_time_ns->0 == took
                &&& after.profile.display_list_mem_bytes == Some(display_list.size_in_bytes)
                &&& after.profile.off_grid_coords == state.profile.off_grid_coords
                    + display_list.off_grid_coords
                &&& after.frame_stats.wr_display_list_time_ns
                    == state.frame_stats.wr_display_list_time_ns + took
                &&& after.frame_stats.full_display_list == display_list.full_display_list
                &&& after.frame_stats.gecko_display_list_time
                    == display_list.gecko_display_list_time
            }
            &&& !(op is SetDisplayList) ==> after.profile == state.profile && after.frame_stats
                == state.frame_stats
        }),
{
    let after = state.after(op, id, now);
    if op is RemovePipeline {
        assert(after.removed.drop_last() =~= state.removed);
    }
}

} // verus!
