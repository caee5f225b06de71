//! What the backend is told, and what it does about it.

use crate::float_bits::FloatBits;
use crate::render_backend::capture::{
    can_capture, capture_works, captured, loaded, scenes_wf, told_documents, whole_capture,
    whole_load, CaptureStep, CapturedDocument, LoadedDocument, PlainRenderBackend,
};
use crate::render_backend::update::{updated, works, BackendAction, TransactionMsg};
use crate::render_backend::{first_view, DeviceUintSize, Document, DocumentState};
use crate::scene::{forget_namespace, in_namespace, DocumentId};
use crate::scene_builder_thread::CaptureConfig;
use crate::table::{with_key, Table};
use vstd::prelude::*;

verus! {

/// The namespaces of a process. None is given out twice, until the counter runs over.
pub struct NamespaceIds {
    pub next: usize,
}

impl NamespaceIds {
    /// Gives the next number, and goes on.
    pub fn fetch(&mut self) -> (r: usize)
        ensures
            r == old(self).next,
            final(self).next == (if old(self).next == usize::MAX {
                0
            } else {
                (old(self).next + 1) as usize
            }),
    {
        let r = self.next;
        self.next = self.next.wrapping_add(1);
        r
    }
}

/// What the backend keeps.
pub struct RenderBackend {
    pub documents: Table<DocumentId, Document>,
    pub default_device_pixel_ratio: FloatBits,
    pub enable_render_on_scroll: bool,
    /// For the documents to come.
    pub dual_source_blending: bool,
    pub frame_counter: u32,
}

/// The backend as a mathematical value.
#[verifier::ext_equal]
pub struct BackendState {
    pub documents: Map<DocumentId, DocumentState>,
    /// The documents in the order in which they came.
    pub order: Seq<DocumentId>,
    pub default_device_pixel_ratio: FloatBits,
    pub enable_render_on_scroll: bool,
    pub dual_source_blending: bool,
    pub frame_counter: u32,
}

pub open spec fn document_states(documents: Map<DocumentId, Document>) -> Map<
    DocumentId,
    DocumentState,
> {
    documents.map_values(|document: Document| document@)
}

/// What a debugger asks. What is not listed goes to the renderer.
pub enum DebugCommand {
    EnableDualSourceBlending(bool),
    FetchDocuments,
    FetchClipScrollTree,
    /// Write a capture.
    SaveCapture(CaptureConfig),
    /// Start over from a capture, which was read, and tell of its documents.
    LoadCapture { backend: PlainRenderBackend, items: Vec<LoadedDocument>, reply: u64 },
    ClearCaches(u64),
    Other(u64),
}

/// What the backend is told by the API.
pub enum ApiMsg {
    WakeUp,
    UpdateResources(Vec<u64>),
    GetGlyphDimensions(u64),
    GetGlyphIndices(u64),
    CloneApi(u64),
    AddDocument(DocumentId, DeviceUintSize, i8),
    DeleteDocument(DocumentId),
    ExternalEvent(u64),
    ClearNamespace(u32),
    MemoryPressure,
    DebugCommand(DebugCommand),
    ShutDown,
    UpdateDocument(DocumentId, TransactionMsg),
}

/// What is to be done for a message of the API.
pub enum ApiAction {
    Nothing,
    UpdateResources(Vec<u64>),
    AnswerGlyphDimensions(u64),
    AnswerGlyphIndices(u64),
    /// Give a new namespace to who asked for it.
    SendNamespace { reply: u64, namespace: u32 },
    ExternalEvent(u64),
    ClearResources(u32),
    /// Clear all caches, send what that changes to the renderer, which must not draw its
    /// current frame, and wake it up.
    ClearAllCaches,
    ClearCaches(u64),
    /// Send what a debugger asked for, and wake the renderer up.
    SendDocuments,
    SendClipScrollTree,
    SendDebugCommand(u64),
    /// Write a capture, send where it is and which resources are left to the renderer, and
    /// wake the renderer up.
    SaveCapture { config: CaptureConfig, steps: Vec<CaptureStep> },
    /// Do this for a capture, and then tell who asked for it of its documents.
    LoadCapture { actions: Vec<BackendAction>, documents: Vec<CapturedDocument>, reply: u64 },
    /// Do this for a document.
    Update(Vec<BackendAction>),
    /// Stop the scene builder, and tell that the backend shuts down.
    ShutDown,
}

impl BackendState {
    /// The backend with a document.
    pub open spec fn with_document(self, id: DocumentId, doc: DocumentState) -> Self {
        BackendState {
            documents: self.documents.insert(id, doc),
            order: with_key(self.order, id),
            ..self
        }
    }

    /// The backend after a message that is not a transaction.
    pub open spec fn after(self, msg: ApiMsg) -> Self {
        match msg {
            ApiMsg::AddDocument(id, size, layer) => self.with_document(
                id,
                DocumentState::first(
                    first_view(size, layer, self.default_device_pixel_ratio),
                    self.enable_render_on_scroll,
                    self.dual_source_blending,
                ),
            ),
            ApiMsg::DeleteDocument(id) => BackendState {
                documents: self.documents.remove(id),
                order: self.order.remove_value(id),
                ..self
            },
            ApiMsg::ClearNamespace(namespace_id) => BackendState {
                documents: self.documents.remove_keys(in_namespace(namespace_id)),
                order: self.order.filter(
                    |document: DocumentId| document.namespace_id != namespace_id,
                ),
                ..self
            },
            ApiMsg::DebugCommand(DebugCommand::EnableDualSourceBlending(enable)) => {
                BackendState {
                    documents: self.documents.map_values(
                        |doc: DocumentState|
                            DocumentState { dual_source_blending: enable, ..doc },
                    ),
                    dual_source_blending: enable,
                    ..self
                }
            },
            ApiMsg::DebugCommand(DebugCommand::SaveCapture(config)) => captured(self, config),
            ApiMsg::DebugCommand(DebugCommand::LoadCapture { backend, items, .. }) => {
                BackendState {
                    frame_counter: (self.frame_counter + 1) as u32,
                    ..loaded(self, backend, items@)
                }
            },
            _ => self,
        }
    }
}

/// The message takes a namespace: those who ask for one get it, and a capture has one of its
/// own.
pub open spec fn takes_namespace(msg: ApiMsg) -> bool {
    msg is CloneApi || (msg matches ApiMsg::DebugCommand(DebugCommand::LoadCapture { .. }))
}

/// The message can be taken: there is a document where there has to be one, frames can be
/// counted and captured, and the scenes of a capture are sound.
pub open spec fn can_take(state: BackendState, msg: ApiMsg) -> bool {
    match msg {
        ApiMsg::UpdateDocument(id, _) => state.documents.dom().contains(id)
            && state.frame_counter < u32::MAX,
        ApiMsg::DebugCommand(DebugCommand::SaveCapture(config)) => can_capture(state, config),
        ApiMsg::DebugCommand(DebugCommand::LoadCapture { items, .. }) => scenes_wf(items@)
            && state.frame_counter < u32::MAX,
        _ => true,
    }
}

/// The action is the one for a message to the backend, where `namespace` is the next one to
/// be given out.
pub open spec fn is_action(
    action: ApiAction,
    state: BackendState,
    msg: ApiMsg,
    namespace: usize,
) -> bool {
    match msg {
        ApiMsg::UpdateResources(updates) => action == ApiAction::UpdateResources(updates),
        ApiMsg::GetGlyphDimensions(asked) => action == ApiAction::AnswerGlyphDimensions(asked),
        ApiMsg::GetGlyphIndices(asked) => action == ApiAction::AnswerGlyphIndices(asked),
        ApiMsg::CloneApi(reply) => action == ApiAction::SendNamespace {
            reply,
            namespace: namespace as u32,
        },
        ApiMsg::ExternalEvent(event) => action == ApiAction::ExternalEvent(event),
        ApiMsg::ClearNamespace(namespace_id) => action == ApiAction::ClearResources(namespace_id),
        ApiMsg::MemoryPressure => action is ClearAllCaches,
        ApiMsg::DebugCommand(command) => match command {
            DebugCommand::EnableDualSourceBlending(_) => action is Nothing,
            DebugCommand::FetchDocuments => action is SendDocuments,
            DebugCommand::FetchClipScrollTree => action is SendClipScrollTree,
            DebugCommand::SaveCapture(wanted) => {
                action matches ApiAction::SaveCapture { config, steps } && config == wanted
                    && capture_works(steps@) == whole_capture(state, wanted)
            },
            DebugCommand::LoadCapture { items, reply: asked, .. } => {
                action matches ApiAction::LoadCapture { actions, documents, reply } && reply
                    == asked && works(actions@) == whole_load(items@) && documents@
                    == told_documents(state.after(msg))
            },
            DebugCommand::ClearCaches(mask) => action == ApiAction::ClearCaches(mask),
            DebugCommand::Other(command) => action == ApiAction::SendDebugCommand(command),
        },
        ApiMsg::ShutDown => action is ShutDown,
        ApiMsg::UpdateDocument(_, _) => action is Update,
        _ => action is Nothing,
    }
}

impl RenderBackend {
    pub open spec fn wf(self) -> bool {
        &&& self.documents.wf()
        &&& forall|id: DocumentId| #[trigger]
            self.documents@.dom().contains(id) ==> self.documents@[id].wf()
    }

    pub open spec fn view(self) -> BackendState {
        BackendState {
            documents: document_states(self.documents@),
            order: self.documents.keys@,
            default_device_pixel_ratio: self.default_device_pixel_ratio,
            enable_render_on_scroll: self.enable_render_on_scroll,
            dual_source_blending: self.dual_source_blending,
            frame_counter: self.frame_counter,
        }
    }

    /// A backend without documents. The first namespace that it gives out is not zero.
    pub fn new(
        default_device_pixel_ratio: FloatBits,
        enable_render_on_scroll: bool,
        dual_source_blending: bool,
        namespaces: &mut NamespaceIds,
    ) -> (r: Self)
        ensures
            r.wf(),
            r@ == (BackendState {
                documents: Map::empty(),
                order: Seq::empty(),
                default_device_pixel_ratio,
                enable_render_on_scroll,
                dual_source_blending,
                frame_counter: 0,
            }),
            final(namespaces).next == (if old(namespaces).next == usize::MAX {
                0
            } else {
                (old(namespaces).next + 1) as usize
            }),
    {
        let _ = namespaces.fetch();
        let r = RenderBackend {
            documents: Table::new(),
            default_device_pixel_ratio,
            enable_render_on_scroll,
            dual_source_blending,
            frame_counter: 0,
        };
        assert(document_states(r.documents@) =~= Map::<DocumentId, DocumentState>::empty());
        r
    }

    /// Takes a transaction for a document.
    pub fn update_document(&mut self, id: DocumentId, txn: TransactionMsg) -> (r: Vec<
        BackendAction,
    >)
        requires
            old(self).wf(),
            old(self)@.documents.dom().contains(id),
            old(self)@.frame_counter < u32::MAX,
        ensures
            final(self).wf(),
            ({
                let after = updated(
                    old(self)@.documents[id],
                    id,
                    txn@,
                    old(self)@.frame_counter as int,
                );
                &&& final(self)@ == (BackendState {
                    frame_counter: after.frame_counter as u32,
                    ..old(self)@.with_document(id, after.doc)
                })
                &&& works(r@) == after.works
            }),
    {
        let ghost before = self.documents@;
        let ghost keys = self.documents.keys@;
        let ghost start = self@.documents[id];
        let ghost after = updated(start, id, txn@, self@.frame_counter as int);
        let mut frame_counter: u32 = self.frame_counter;
        let mut actions: Vec<BackendAction> = Vec::new();
        match self.documents.get_mut(&id) {
            Some(document) => {
                actions = document.update(id, txn, &mut frame_counter);
            },
            None => {},
        }
        self.frame_counter = frame_counter;
        proof {
            assert(keys.contains(id));
            assert(document_states(self.documents@) =~= document_states(before).insert(
                id,
                after.doc,
            ));
        }
        actions
    }

    /// Tells every document whether two colors may be blended at once.
    fn set_dual_source_blending(&mut self, enable: bool)
        requires
            old(self).wf(),
        ensures
            final(self).wf(),
            final(self)@ == old(self)@.after(
                ApiMsg::DebugCommand(DebugCommand::EnableDualSourceBlending(enable)),
            ),
    {
        let ghost keys = self.documents.keys@;
        let ghost before = self@.documents;
        self.dual_source_blending = enable;
        let total: usize = self.documents.keys.len();
        let mut i: usize = 0;
        while i < total
            invariant
                i <= total,
                total == keys.len(),
                keys.no_duplicates(),
                self.wf(),
                self.documents.keys@ == keys,
                self@ == (BackendState {
                    documents: self@.documents,
                    dual_source_blending: enable,
                    ..old(self)@
                }),
                before == old(self)@.documents,
                self@.documents.dom() == before.dom(),
                forall|id: DocumentId| #[trigger]
                    before.dom().contains(id) ==> keys.contains(id),
                forall|j: int|
                    #![trigger keys[j]]
                    0 <= j < keys.len() ==> self@.documents[keys[j]] == (if j < i {
                        DocumentState { dual_source_blending: enable, ..before[keys[j]] }
                    } else {
                        before[keys[j]]
                    }),
            decreases total - i,
        {
            let key = self.documents.keys[i];
            let ghost now = self.documents@;
            assert(keys.contains(key));
            match self.documents.get_mut(&key) {
                Some(document) => {
                    document.dual_source_blending = enable;
                },
                None => {},
            }
            proof {
                assert(document_states(self.documents@) =~= document_states(now).insert(
                    key,
                    DocumentState { dual_source_blending: enable, ..before[key] },
                ));
                assert(self@.documents.dom() =~= before.dom());
            }
            i = i + 1;
        }
        proof {
            let after = old(self)@.after(
                ApiMsg::DebugCommand(DebugCommand::EnableDualSourceBlending(enable)),
            );
            assert forall|id: DocumentId| #[trigger]
                before.dom().contains(id) implies self@.documents[id]
                == after.documents[id] by {
                assert(keys[keys.index_of(id)] == id);
            }
            assert(self@.documents =~= after.documents);
            assert(self@ =~= after);
        }
    }

    /// Takes a message of the API. Gives also whether the backend keeps going.
    pub fn process_api_msg(&mut self, msg: ApiMsg, namespaces: &mut NamespaceIds) -> (r: (
        ApiAction,
        bool,
    ))
        requires
            old(self).wf(),
            can_take(old(self)@, msg),
        ensures
            final(self).wf(),
            r.1 == !(msg is ShutDown),
            is_action(r.0, old(self)@, msg, old(namespaces).next),
            !takes_namespace(msg) ==> *final(namespaces) == *old(namespaces),
            takes_namespace(msg) ==> final(namespaces).next == (if old(namespaces).next == usize::MAX {
                0
            } else {
                (old(namespaces).next + 1) as usize
            }),
            match msg {
                ApiMsg::UpdateDocument(id, txn) => {
                    let after = updated(
                        old(self)@.documents[id],
                        id,
                        txn@,
                        old(self)@.frame_counter as int,
                    );
                    &&& final(self)@ == (BackendState {
                        frame_counter: after.frame_counter as u32,
                        ..old(self)@.with_document(id, after.doc)
                    })
                    &&& works(r.0->Update_0@) == after.works
                },
                _ => final(self)@ == old(self)@.after(msg),
            },
    {
        let ghost before = self.documents@;
        match msg {
            ApiMsg::WakeUp => (ApiAction::Nothing, true),
            ApiMsg::UpdateResources(updates) => (ApiAction::UpdateResources(updates), true),
            ApiMsg::GetGlyphDimensions(asked) => (ApiAction::AnswerGlyphDimensions(asked), true),
            ApiMsg::GetGlyphIndices(asked) => (ApiAction::AnswerGlyphIndices(asked), true),
            ApiMsg::CloneApi(reply) => {
                let namespace = namespaces.fetch();
                (ApiAction::SendNamespace { reply, namespace: namespace as u32 }, true)
            },
            ApiMsg::AddDocument(id, initial_size, layer) => {
                let document = Document::new(
                    initial_size,
                    layer,
                    self.enable_render_on_scroll,
                    self.default_device_pixel_ratio,
                    self.dual_source_blending,
                );
                let ghost state = document@;
                self.documents.insert(id, document);
                assert(document_states(self.documents@) =~= document_states(before).insert(
                    id,
                    state,
                ));
                (ApiAction::Nothing, true)
            },
            ApiMsg::DeleteDocument(id) => {
                let _ = self.documents.remove(&id);
                assert(document_states(self.documents@) =~= document_states(before).remove(id));
                (ApiAction::Nothing, true)
            },
            ApiMsg::ExternalEvent(event) => (ApiAction::ExternalEvent(event), true),
            ApiMsg::ClearNamespace(namespace_id) => {
                forget_namespace(&mut self.documents, namespace_id);
                assert(document_states(self.documents@) =~= document_states(before).remove_keys(
                    in_namespace(namespace_id),
                ));
                (ApiAction::ClearResources(namespace_id), true)
            },
            ApiMsg::MemoryPressure => (ApiAction::ClearAllCaches, true),
            ApiMsg::DebugCommand(command) => match command {
                DebugCommand::EnableDualSourceBlending(enable) => {
                    self.set_dual_source_blending(enable);
                    (ApiAction::Nothing, true)
                },
                DebugCommand::FetchDocuments => (ApiAction::SendDocuments, true),
                DebugCommand::FetchClipScrollTree => (ApiAction::SendClipScrollTree, true),
                DebugCommand::SaveCapture(config) => {
                    let steps = self.save_capture(config);
                    (ApiAction::SaveCapture { config, steps }, true)
                },
                DebugCommand::LoadCapture { backend, items, reply } => {
                    let _ = namespaces.fetch();
                    self.frame_counter = self.frame_counter + 1;
                    let actions = self.load_capture(backend, items);
                    let documents = self.captured_documents();
                    (ApiAction::LoadCapture { actions, documents, reply }, true)
                },
                DebugCommand::ClearCaches(mask) => (ApiAction::ClearCaches(mask), true),
                DebugCommand::Other(command) => (ApiAction::SendDebugCommand(command), true),
            },
            ApiMsg::ShutDown => (ApiAction::ShutDown, false),
            ApiMsg::UpdateDocument(id, txn) => (
                ApiAction::Update(self.update_document(id, txn)),
                true,
            ),
        }
    }
}

} // verus!
