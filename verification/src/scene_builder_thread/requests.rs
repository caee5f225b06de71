//! What the thread is asked, and what it does about it.

use crate::scene::{
    document_name, document_text, forget_namespace, in_namespace, DocumentId, Scene, SceneContents,
};
use crate::scene_builder_thread::transaction::{
    blobs_with, empty_profile, no_profile, rasterize_blobs, BlobResult, BuiltTransaction,
    FullFrameStats, MainBuild, TransactionMsg, TransactionProfile,
};
use crate::scene_builder_thread::{
    document_contents, first_view, lists_window, BuiltScene, CaptureConfig, Document, DocumentContents,
    FrameBuilderConfig, RenderBackendId, SceneBuilderThread, SceneStats, SceneView, ThreadContents,
};
use crate::units::DeviceIntSize;
use vstd::prelude::*;

verus! {

/// A scene that comes from a capture.
pub struct LoadScene {
    pub document_id: DocumentId,
    pub scene: Scene,
    pub view: SceneView,
    pub config: FrameBuilderConfig,
    pub build_frame: bool,
}

/// What the thread is asked. Those who wait for an answer, and what is only passed on, are
/// known by numbers.
pub enum SceneBuilderRequest {
    Transactions(Vec<TransactionMsg>),
    /// A new document, and the window that owns it.
    AddDocument(DocumentId, DeviceIntSize, RenderBackendId),
    DeleteDocument(DocumentId),
    GetGlyphDimensions(RenderBackendId, u64),
    GetGlyphIndices(RenderBackendId, u64),
    ClearNamespace(RenderBackendId, u32),
    SimulateLongSceneBuild(u32),
    ExternalEvent(RenderBackendId, u64),
    WakeUp,
    ShutDown(Option<u64>),
    /// No more results for a window, which stays known.
    StopWindow(RenderBackendId, u64),
    Flush(u64),
    SetFlags(u64),
    SetFrameBuilderConfig(RenderBackendId, FrameBuilderConfig),
    SetParameter(RenderBackendId, u64),
    ReportMemory(u64),
    /// A window has hooks from now on, or has none any more.
    SetSceneBuilderHooks(RenderBackendId, bool),
    SaveScene(CaptureConfig),
    LoadScenes(Vec<LoadScene>),
    StartCaptureSequence(CaptureConfig),
    StopCaptureSequence,
}

/// What is passed on to the render backend.
#[derive(Clone, Copy, Debug, PartialEq, Eq, Structural)]
pub enum SceneBuilderResult {
    ExternalEvent(RenderBackendId, u64),
    FlushComplete(u64),
    DeleteDocument(DocumentId),
    ClearNamespace(RenderBackendId, u32),
    GetGlyphDimensions(RenderBackendId, u64),
    GetGlyphIndices(RenderBackendId, u64),
    SetParameter(RenderBackendId, u64),
    StopWindow(RenderBackendId, u64),
    ShutDown(Option<u64>),
    StopCaptureSequence,
}

/// What a file of a capture holds.
#[derive(Clone, Copy, Debug, PartialEq, Eq, Structural)]
pub enum CapturePart {
    Interners,
    SpatialTree,
    Scene,
}

/// A file of a capture.
pub struct CaptureFile {
    pub name: String,
    pub part: CapturePart,
    pub document_id: DocumentId,
}

/// What is to be done for a request.
pub enum RequestAction {
    Nothing,
    Send(SceneBuilderResult),
    /// Go through transactions, and forward what comes of them.
    Process(Vec<TransactionMsg>),
    /// Build scenes from a capture, and forward them.
    Load(Vec<LoadScene>),
    /// Tell the heap memory that the documents take up.
    ReportMemory(u64),
    /// Change the hooks of a window. The old ones go first.
    ChangeHooks { window: RenderBackendId, deregister: bool, register: bool },
    /// Write the files of a capture.
    Capture { config: CaptureConfig, files: Vec<CaptureFile> },
    /// Pass this on and stop.
    Stop(SceneBuilderResult),
}

/// A file is the one for a part of a document.
pub open spec fn is_file(file: CaptureFile, part: CapturePart, document: DocumentId) -> bool {
    &&& file.part == part
    &&& file.document_id == document
    &&& file.name@ == document_text(
        match part {
            CapturePart::Interners => "interners-"@,
            CapturePart::SpatialTree => "scene-spatial-tree-"@,
            CapturePart::Scene => "scene-"@,
        },
        document,
    )
}

/// The number of files for each document.
pub open spec fn files_each(config: CaptureConfig) -> int {
    if config.scene {
        3
    } else {
        2
    }
}

/// The files of a capture: those of each document, in order.
pub open spec fn are_files(
    files: Seq<CaptureFile>,
    documents: Seq<DocumentId>,
    config: CaptureConfig,
) -> bool {
    &&& files.len() == files_each(config) * documents.len()
    &&& forall|i: int|
        #![trigger documents[i]]
        0 <= i < documents.len() ==> {
            let first = files_each(config) * i;
            &&& is_file(files[first], CapturePart::Interners, documents[i])
            &&& is_file(files[first + 1], CapturePart::SpatialTree, documents[i])
            &&& config.scene ==> is_file(files[first + 2], CapturePart::Scene, documents[i])
        }
}

/// The hooks after those of a window were changed.
pub open spec fn hooks_after(
    hooks: Seq<RenderBackendId>,
    window: RenderBackendId,
    register: bool,
) -> Seq<RenderBackendId> {
    let others = hooks.remove_value(window);
    if register {
        others.push(window)
    } else {
        others
    }
}

impl ThreadContents {
    /// The thread after a request.
    pub open spec fn after(self, request: SceneBuilderRequest) -> Self {
        match request {
            SceneBuilderRequest::AddDocument(document, size, window) => ThreadContents {
                documents: self.documents.insert(
                    document,
                    DocumentContents {
                        scene: SceneContents::empty(),
                        stats: SceneStats::empty(),
                        view: first_view(size),
                    },
                ),
                windows: self.windows.insert(document, window),
                ..self
            },
            SceneBuilderRequest::DeleteDocument(document) => ThreadContents {
                documents: self.documents.remove(document),
                windows: self.windows.remove(document),
                ..self
            },
            SceneBuilderRequest::ClearNamespace(_, namespace_id) => ThreadContents {
                documents: self.documents.remove_keys(in_namespace(namespace_id)),
                windows: self.windows.remove_keys(in_namespace(namespace_id)),
                ..self
            },
            SceneBuilderRequest::SimulateLongSceneBuild(time_ms) => ThreadContents {
                simulate_slow_ms: time_ms,
                ..self
            },
            SceneBuilderRequest::SetFlags(flags) => ThreadContents { debug_flags: flags, ..self },
            SceneBuilderRequest::SetFrameBuilderConfig(window, config) => ThreadContents {
                window_configs: self.window_configs.insert(window, config),
                ..self
            },
            SceneBuilderRequest::SetSceneBuilderHooks(window, register) => ThreadContents {
                hooks: hooks_after(self.hooks, window, register),
                ..self
            },
            SceneBuilderRequest::StartCaptureSequence(config) => ThreadContents {
                capture_config: Some(config),
                ..self
            },
            SceneBuilderRequest::StopCaptureSequence => ThreadContents {
                capture_config: None,
                ..self
            },
            _ => self,
        }
    }
}

/// The action is the one for a request.
pub open spec fn is_action(
    action: RequestAction,
    thread: SceneBuilderThread,
    request: SceneBuilderRequest,
) -> bool {
    match request {
        SceneBuilderRequest::Transactions(txns) => action == RequestAction::Process(txns),
        SceneBuilderRequest::LoadScenes(scenes) => action == RequestAction::Load(scenes),
        SceneBuilderRequest::DeleteDocument(document) => action == RequestAction::Send(
            SceneBuilderResult::DeleteDocument(document),
        ),
        SceneBuilderRequest::GetGlyphDimensions(window, asked) => action == RequestAction::Send(
            SceneBuilderResult::GetGlyphDimensions(window, asked),
        ),
        SceneBuilderRequest::GetGlyphIndices(window, asked) => action == RequestAction::Send(
            SceneBuilderResult::GetGlyphIndices(window, asked),
        ),
        SceneBuilderRequest::ClearNamespace(window, namespace_id) => action
            == RequestAction::Send(SceneBuilderResult::ClearNamespace(window, namespace_id)),
        SceneBuilderRequest::ExternalEvent(window, event) => action == RequestAction::Send(
            SceneBuilderResult::ExternalEvent(window, event),
        ),
        SceneBuilderRequest::StopWindow(window, reply) => action == RequestAction::Send(
            SceneBuilderResult::StopWindow(window, reply),
        ),
        SceneBuilderRequest::Flush(reply) => action == RequestAction::Send(
            SceneBuilderResult::FlushComplete(reply),
        ),
        SceneBuilderRequest::SetParameter(window, parameter) => action == RequestAction::Send(
            SceneBuilderResult::SetParameter(window, parameter),
        ),
        SceneBuilderRequest::StopCaptureSequence => action == RequestAction::Send(
            SceneBuilderResult::StopCaptureSequence,
        ),
        SceneBuilderRequest::ReportMemory(reply) => action == RequestAction::ReportMemory(reply),
        SceneBuilderRequest::SetSceneBuilderHooks(window, register) => action
            == RequestAction::ChangeHooks {
            window,
            deregister: thread.hooks@.contains(window),
            register,
        },
        SceneBuilderRequest::SaveScene(config) => action matches RequestAction::Capture {
            config: used,
            files,
        } && used == config && are_files(files@, thread.documents.keys@, config),
        SceneBuilderRequest::StartCaptureSequence(config) => action
            matches RequestAction::Capture { config: used, files } && used == config
            && are_files(files@, thread.documents.keys@, config),
        SceneBuilderRequest::ShutDown(reply) => action == RequestAction::Stop(
            SceneBuilderResult::ShutDown(reply),
        ),
        _ => action is Nothing,
    }
}

impl SceneBuilderThread {
    /// The files of a capture of all documents.
    pub fn save_scene(&self, config: CaptureConfig) -> (r: Vec<CaptureFile>)
        ensures
            are_files(r@, self.documents.keys@, config),
    {
        let mut files: Vec<CaptureFile> = Vec::new();
        let mut i: usize = 0;
        let total: usize = self.documents.keys.len();
        let ghost keys = self.documents.keys@;
        while i < total
            invariant
                i <= total,
                total == keys.len(),
                keys == self.documents.keys@,
                files@.len() == files_each(config) * i,
                forall|j: int|
                    #![trigger keys[j]]
                    0 <= j < i ==> {
                        let first = files_each(config) * j;
                        &&& is_file(files@[first], CapturePart::Interners, keys[j])
                        &&& is_file(files@[first + 1], CapturePart::SpatialTree, keys[j])
                        &&& config.scene ==> is_file(files@[first + 2], CapturePart::Scene, keys[j])
                    },
            decreases total - i,
        {
            let document_id = self.documents.keys[i];
            files.push(
                CaptureFile {
                    name: document_name("interners-", document_id),
                    part: CapturePart::Interners,
                    document_id,
                },
            );
            files.push(
                CaptureFile {
                    name: document_name("scene-spatial-tree-", document_id),
                    part: CapturePart::SpatialTree,
                    document_id,
                },
            );
            if config.scene {
                files.push(
                    CaptureFile {
                        name: document_name("scene-", document_id),
                        part: CapturePart::Scene,
                        document_id,
                    },
                );
            }
            i = i + 1;
        }
        files
    }

    /// What is captured after scenes were built, where a sequence is being captured.
    pub fn save_capture_sequence(&self) -> (r: Option<(CaptureConfig, Vec<CaptureFile>)>)
        ensures
            match self@.capture_config {
                Some(config) => r matches Some((used, files)) && used == config && are_files(
                    files@,
                    self.documents.keys@,
                    config,
                ),
                None => r is None,
            },
    {
        match self.capture_config {
            Some(config) => Some((config, self.save_scene(config))),
            None => None,
        }
    }

    /// Gives a window hooks or takes them away. Tells whether it had some before.
    fn set_hooks(&mut self, window: RenderBackendId, register: bool) -> (r: bool)
        requires
            old(self).wf(),
        ensures
            final(self).wf(),
            final(self)@ == (ThreadContents {
                hooks: hooks_after(old(self)@.hooks, window, register),
                ..old(self)@
            }),
            final(self).documents == old(self).documents,
            r == old(self)@.hooks.contains(window),
    {
        let ghost before = self.hooks@;
        let had = lists_window(&self.hooks, window);
        proof {
            before.index_of_first_ensures(window);
        }
        if had {
            let mut i: usize = 0;
            let total: usize = self.hooks.len();
            while self.hooks[i] != window
                invariant
                    before == self.hooks@,
                    before.contains(window),
                    total == before.len(),
                    i < total,
                    forall|j: int| 0 <= j < i ==> before[j] != window,
                decreases before.len() - i,
            {
                i = i + 1;
            }
            proof {
                before.index_of_first_ensures(window);
            }
            let _ = self.hooks.remove(i);
        }
        assert(self.hooks@ =~= before.remove_value(window));
        assert(!self.hooks@.contains(window));
        if register {
            self.hooks.push(window);
        }
        had
    }

    /// Takes a request.
    pub fn handle_request(&mut self, request: SceneBuilderRequest) -> (r: RequestAction)
        requires
            old(self).wf(),
            request matches SceneBuilderRequest::AddDocument(document, _, _) ==> !old(
                self,
            )@.documents.dom().contains(document),
        ensures
            final(self).wf(),
            final(self)@ == old(self)@.after(request),
            is_action(r, *old(self), request),
    {
        let ghost before = self.documents@;
        match request {
            SceneBuilderRequest::WakeUp => RequestAction::Nothing,
            SceneBuilderRequest::Flush(reply) => RequestAction::Send(
                SceneBuilderResult::FlushComplete(reply),
            ),
            SceneBuilderRequest::StopWindow(window, reply) => RequestAction::Send(
                SceneBuilderResult::StopWindow(window, reply),
            ),
            SceneBuilderRequest::SetFlags(debug_flags) => {
                self.debug_flags = debug_flags;
                RequestAction::Nothing
            },
            SceneBuilderRequest::Transactions(txns) => RequestAction::Process(txns),
            SceneBuilderRequest::AddDocument(document_id, initial_size, window) => {
                let document = Document::new(initial_size);
                let ghost contents = document@;
                self.documents.insert(document_id, document);
                self.doc_to_window.insert(document_id, window);
                assert(document_contents(self.documents@) =~= document_contents(before).insert(
                    document_id,
                    contents,
                ));
                RequestAction::Nothing
            },
            SceneBuilderRequest::DeleteDocument(document_id) => {
                let _ = self.documents.remove(&document_id);
                let _ = self.doc_to_window.remove(&document_id);
                assert(document_contents(self.documents@) =~= document_contents(before).remove(
                    document_id,
                ));
                RequestAction::Send(SceneBuilderResult::DeleteDocument(document_id))
            },
            SceneBuilderRequest::ClearNamespace(window, namespace_id) => {
                forget_namespace(&mut self.documents, namespace_id);
                forget_namespace(&mut self.doc_to_window, namespace_id);
                assert(document_contents(self.documents@) =~= document_contents(
                    before,
                ).remove_keys(in_namespace(namespace_id)));
                RequestAction::Send(SceneBuilderResult::ClearNamespace(window, namespace_id))
            },
            SceneBuilderRequest::ExternalEvent(window, event) => RequestAction::Send(
                SceneBuilderResult::ExternalEvent(window, event),
            ),
            SceneBuilderRequest::GetGlyphDimensions(window, asked) => RequestAction::Send(
                SceneBuilderResult::GetGlyphDimensions(window, asked),
            ),
            SceneBuilderRequest::GetGlyphIndices(window, asked) => RequestAction::Send(
                SceneBuilderResult::GetGlyphIndices(window, asked),
            ),
            SceneBuilderRequest::ShutDown(reply) => RequestAction::Stop(
                SceneBuilderResult::ShutDown(reply),
            ),
            SceneBuilderRequest::SimulateLongSceneBuild(time_ms) => {
                self.simulate_slow_ms = time_ms;
                RequestAction::Nothing
            },
            SceneBuilderRequest::ReportMemory(reply) => RequestAction::ReportMemory(reply),
            SceneBuilderRequest::SetFrameBuilderConfig(window, config) => {
                self.window_configs.insert(window, config);
                RequestAction::Nothing
            },
            SceneBuilderRequest::SetParameter(window, parameter) => RequestAction::Send(
                SceneBuilderResult::SetParameter(window, parameter),
            ),
            SceneBuilderRequest::SetSceneBuilderHooks(window, register) => {
                let deregister = self.set_hooks(window, register);
                RequestAction::ChangeHooks { window, deregister, register }
            },
            SceneBuilderRequest::LoadScenes(scenes) => RequestAction::Load(scenes),
            SceneBuilderRequest::SaveScene(config) => RequestAction::Capture {
                config,
                files: self.save_scene(config),
            },
            SceneBuilderRequest::StartCaptureSequence(config) => {
                self.capture_config = Some(config);
                RequestAction::Capture { config, files: self.save_scene(config) }
            },
            SceneBuilderRequest::StopCaptureSequence => {
                self.capture_config = None;
                RequestAction::Send(SceneBuilderResult::StopCaptureSequence)
            },
        }
    }

    /// The windows whose hooks are poked after each request that does not stop the thread.
    pub fn poke(&self) -> (r: &Vec<RenderBackendId>)
        ensures
            r@ == self@.hooks,
    {
        &self.hooks
    }

    /// The windows whose hooks are still there when the thread stops: they are
    /// deregistered.
    pub fn stop(&mut self) -> (r: Vec<RenderBackendId>)
        requires
            old(self).wf(),
        ensures
            final(self).wf(),
            r@ == old(self)@.hooks,
            final(self)@ == (ThreadContents { hooks: Seq::empty(), ..old(self)@ }),
    {
        let mut windows: Vec<RenderBackendId> = Vec::new();
        std::mem::swap(&mut windows, &mut self.hooks);
        windows
    }
}

/// Some scene was built.
pub open spec fn any_built(txns: Seq<BuiltTransaction>) -> bool {
    exists|i: int| 0 <= i < txns.len() && (#[trigger] txns[i]).built_scene is Some
}

impl SceneBuilderThread {
    /// What is captured of a batch of transactions before it is forwarded: something only
    /// where a scene was built while a sequence is being captured.
    pub fn capture_batch(&self, txns: &Vec<BuiltTransaction>) -> (r: Option<
        (CaptureConfig, Vec<CaptureFile>),
    >)
        ensures
            if any_built(txns@) && self@.capture_config is Some {
                r matches Some((used, files)) && Some(used) == self@.capture_config && are_files(
                    files@,
                    self.documents.keys@,
                    used,
                )
            } else {
                r is None
            },
    {
        let mut i: usize = 0;
        while i < txns.len()
            invariant
                i <= txns@.len(),
                forall|j: int| 0 <= j < i ==> (#[trigger] txns@[j]).built_scene is None,
            decreases txns@.len() - i,
        {
            if txns[i].built_scene.is_some() {
                return self.save_capture_sequence();
            }
            i = i + 1;
        }
        None
    }

    /// Takes a scene that comes from a capture, once it was built where it has a root.
    pub fn load_scene(&mut self, item: LoadScene, main: Option<MainBuild>) -> (r: BuiltTransaction)
        requires
            old(self).wf(),
            item.scene.wf(),
            (main is Some) == item.scene@.has_root_pipeline(),
        ensures
            final(self).wf(),
            final(self)@ == (ThreadContents {
                config: item.config,
                documents: old(self)@.documents.insert(
                    item.document_id,
                    DocumentContents {
                        scene: item.scene@,
                        stats: SceneStats::empty(),
                        view: item.view,
                    },
                ),
                ..old(self)@
            }),
            r.document_id == item.document_id,
            r.render_frame == item.build_frame,
            !r.is_tracked,
            r.present,
            !r.invalidate_rendered_frame,
            r.built_scene == (match main {
                Some(build) => Some(build.scene),
                None => None,
            }),
            r.interner_updates == (match main {
                Some(build) => Some(build.interner_updates),
                None => None,
            }),
            r.spatial_tree_updates == (match main {
                Some(build) => Some(build.spatial_tree_updates),
                None => None,
            }),
            r.view == item.view,
            r.resource_updates@.len() == 0,
            r.rasterized_blobs@.len() == 0,
            r.blob_rasterizer is None,
            r.frame_ops@.len() == 0,
            r.removed_pipelines@.len() == 0,
            r.notifications@.len() == 0,
            r.offscreen_scenes@.len() == 0,
            r.profile == no_profile(),
            r.frame_stats == FullFrameStats::none(),
    {
        let ghost before = self.documents@;
        self.config = item.config;
        let mut built_scene: Option<BuiltScene> = None;
        let mut interner_updates: Option<u64> = None;
        let mut spatial_tree_updates: Option<u64> = None;
        if let Some(build) = main {
            built_scene = Some(build.scene);
            interner_updates = Some(build.interner_updates);
            spatial_tree_updates = Some(build.spatial_tree_updates);
        }
        let view = item.view;
        let document = Document { scene: item.scene, stats: SceneStats::empty(), view };
        let ghost contents = document@;
        self.documents.insert(item.document_id, document);
        assert(document_contents(self.documents@) =~= document_contents(before).insert(
            item.document_id,
            contents,
        ));
        BuiltTransaction {
            document_id: item.document_id,
            built_scene,
            offscreen_scenes: Vec::new(),
            view,
            resource_updates: Vec::new(),
            rasterized_blobs: Vec::new(),
            blob_rasterizer: None,
            frame_ops: Vec::new(),
            removed_pipelines: Vec::new(),
            notifications: Vec::new(),
            interner_updates,
            spatial_tree_updates,
            render_frame: item.build_frame,
            present: true,
            is_tracked: false,
            invalidate_rendered_frame: false,
            profile: empty_profile(),
            frame_stats: FullFrameStats::default(),
        }
    }
}

/// What the thread of low priority does with a request.
pub enum LowPriorityAction {
    /// Rasterize the blobs of transactions, and pass them on.
    Rasterize(Vec<TransactionMsg>),
    /// Pass the request on.
    Forward(SceneBuilderRequest),
    /// Pass the request on and stop.
    ForwardAndStop(SceneBuilderRequest),
}

/// Decides what the thread of low priority does with a request.
pub fn low_priority_action(request: SceneBuilderRequest) -> (r: LowPriorityAction)
    ensures
        r == (match request {
            SceneBuilderRequest::Transactions(txns) => LowPriorityAction::Rasterize(txns),
            SceneBuilderRequest::ShutDown(_) => LowPriorityAction::ForwardAndStop(request),
            _ => LowPriorityAction::Forward(request),
        }),
{
    match request {
        SceneBuilderRequest::Transactions(txns) => LowPriorityAction::Rasterize(txns),
        SceneBuilderRequest::ShutDown(reply) => LowPriorityAction::ForwardAndStop(
            SceneBuilderRequest::ShutDown(reply),
        ),
        other => LowPriorityAction::Forward(other),
    }
}

/// Adds the blobs that were rasterized to a transaction, which asks for none any more.
pub fn process_low_priority_transaction(txn: TransactionMsg, result: BlobResult) -> (r:
    TransactionMsg)
    ensures
        r.rasterized_blobs@ == blobs_with(txn, result.blobs@),
        r.blob_requests@.len() == 0,
        r == (TransactionMsg {
            rasterized_blobs: r.rasterized_blobs,
            blob_requests: r.blob_requests,
            profile: TransactionProfile {
                blob_rasterization_time_ns: Some(result.time_ns),
                ..txn.profile
            },
            ..txn
        }),
{
    let mut txn = txn;
    rasterize_blobs(&mut txn, result.blobs);
    txn.profile.blob_rasterization_time_ns = Some(result.time_ns);
    txn.blob_requests = Vec::new();
    txn
}

/// A window has hooks exactly when it registered them last, and the hooks of other windows
/// stay as they are.
pub proof fn hooks_follow_the_last_request(
    hooks: Seq<RenderBackendId>,
    window: RenderBackendId,
    register: bool,
    other: RenderBackendId,
)
    requires
        hooks.no_duplicates(),
        other != window,
    ensures
        hooks_after(hooks, window, register).no_duplicates(),
        hooks_after(hooks, window, register).contains(window) == register,
        hooks_after(hooks, window, register).contains(other) == hooks.contains(other),
{
    hooks.index_of_first_ensures(window);
    let rest = hooks.remove_value(window);
    let after = hooks_after(hooks, window, register);
    if hooks.contains(window) {
        let at = hooks.index_of_first(window)->0;
        assert(rest =~= hooks.remove(at));
        assert(!rest.contains(window));
        if hooks.contains(other) {
            let i = hooks.index_of(other);
            assert(rest[if i < at { i } else { i - 1 }] == other);
        }
        if rest.contains(other) {
            let i = rest.index_of(other);
            assert(hooks[if i < at { i } else { i + 1 }] == other);
        }
    }
    if register {
        assert(after[rest.len() as int] == window);
        if rest.contains(other) {
            assert(after[rest.index_of(other)] == other);
        }
        if after.contains(other) {
            assert(rest[after.index_of(other)] == other);
        }
    }
}

/// A document that was deleted, or whose namespace was cleared, is known no more, and
/// belongs to no window.
pub proof fn deleted_documents_are_forgotten(
    thread: ThreadContents,
    document: DocumentId,
    window: RenderBackendId,
)
    ensures
        ({
            let after = thread.after(SceneBuilderRequest::DeleteDocument(document));
            !after.documents.dom().contains(document) && !after.windows.dom().contains(document)
        }),
        ({
            let after = thread.after(
                SceneBuilderRequest::ClearNamespace(window, document.namespace_id),
            );
            !after.documents.dom().contains(document) && !after.windows.dom().contains(document)
        }),
{
}

/// A document of another namespace outlives the clearing of a namespace.
pub proof fn other_namespaces_are_kept(
    thread: ThreadContents,
    document: DocumentId,
    window: RenderBackendId,
    namespace_id: u32,
)
    requires
        document.namespace_id != namespace_id,
        thread.documents.dom().contains(document),
    ensures
        ({
            let after = thread.after(SceneBuilderRequest::ClearNamespace(window, namespace_id));
            after.documents.dom().contains(document) && after.documents[document]
                == thread.documents[document]
        }),
{
}

/// A document that was added is drawn with the configuration of its window, as soon as the
/// window has registered one, and its hooks are those of its window.
pub proof fn documents_belong_to_their_window(
    thread: ThreadContents,
    document: DocumentId,
    size: DeviceIntSize,
    window: RenderBackendId,
    config: FrameBuilderConfig,
)
    ensures
        ({
            let after = thread.after(
                SceneBuilderRequest::AddDocument(document, size, window),
            ).after(SceneBuilderRequest::SetFrameBuilderConfig(window, config));
            after.config_for(document) == config
        }),
        ({
            let after = thread.after(
                SceneBuilderRequest::AddDocument(document, size, window),
            ).after(SceneBuilderRequest::SetSceneBuilderHooks(window, true));
            after.hooked_window(document) == Some(window)
        }),
{
    let hooks = hooks_after(thread.hooks, window, true);
    assert(hooks[hooks.len() - 1] == window);
}

} // verus!
