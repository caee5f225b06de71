//! Captures: writing down all documents, and starting over from what was written.

use crate::float_bits::FloatBits;
use crate::render_backend::messages::{document_states, BackendState, RenderBackend};
use crate::render_backend::update::{works, BackendAction, Work};
use crate::render_backend::{DeviceUintSize, Document, DocumentState, DocumentView};
use crate::scene::{document_name, document_text, DocumentId, PipelineId, Scene};
use crate::scene_builder_thread::CaptureConfig;
use crate::table::{with_key, Table};
use vstd::prelude::*;

verus! {

/// A step of writing a capture.
pub enum CaptureStep {
    /// Write the resources themselves. Those of the embedder are left to the renderer.
    SaveResources,
    SaveScene { document_id: DocumentId, file_name: String },
    /// Make a frame of a document, and write it down.
    SaveFrame { document_id: DocumentId, removed_pipelines: Vec<PipelineId>, file_name: String },
    SaveBackend,
    SendGpuCacheUpdates,
    /// Send what has changed of resources, which does not keep the renderer from drawing.
    SendResourceUpdates,
    SaveResourceCache,
    SaveGpuCache,
}

/// A step of writing a capture as a mathematical value.
#[verifier::ext_equal]
pub enum CaptureWork {
    SaveResources,
    SaveScene { document_id: DocumentId, file_name: Seq<char> },
    SaveFrame { document_id: DocumentId, removed_pipelines: Seq<PipelineId>, file_name: Seq<char> },
    SaveBackend,
    SendGpuCacheUpdates,
    SendResourceUpdates,
    SaveResourceCache,
    SaveGpuCache,
}

impl CaptureStep {
    pub open spec fn view(self) -> CaptureWork {
        match self {
            CaptureStep::SaveResources => CaptureWork::SaveResources,
            CaptureStep::SaveScene { document_id, file_name } => CaptureWork::SaveScene {
                document_id,
                file_name: file_name@,
            },
            CaptureStep::SaveFrame { document_id, removed_pipelines, file_name } => {
                CaptureWork::SaveFrame {
                    document_id,
                    removed_pipelines: removed_pipelines@,
                    file_name: file_name@,
                }
            },
            CaptureStep::SaveBackend => CaptureWork::SaveBackend,
            CaptureStep::SendGpuCacheUpdates => CaptureWork::SendGpuCacheUpdates,
            CaptureStep::SendResourceUpdates => CaptureWork::SendResourceUpdates,
            CaptureStep::SaveResourceCache => CaptureWork::SaveResourceCache,
            CaptureStep::SaveGpuCache => CaptureWork::SaveGpuCache,
        }
    }
}

pub open spec fn capture_works(steps: Seq<CaptureStep>) -> Seq<CaptureWork> {
    steps.map_values(|step: CaptureStep| step@)
}

/// What is written of one document.
pub open spec fn document_capture(
    id: DocumentId,
    doc: DocumentState,
    config: CaptureConfig,
) -> Seq<CaptureWork> {
    let scene = if config.scene {
        seq![
            CaptureWork::SaveScene { document_id: id, file_name: document_text("scene-"@, id) },
        ]
    } else {
        Seq::empty()
    };
    if config.frame {
        scene.push(
            CaptureWork::SaveFrame {
                document_id: id,
                removed_pipelines: doc.removed,
                file_name: document_text("frame-"@, id),
            },
        )
    } else {
        scene
    }
}

/// What is written of documents, in order.
pub open spec fn documents_capture(
    order: Seq<DocumentId>,
    documents: Map<DocumentId, DocumentState>,
    config: CaptureConfig,
) -> Seq<CaptureWork>
    decreases order.len(),
{
    if order.len() == 0 {
        Seq::empty()
    } else {
        documents_capture(order.drop_last(), documents, config) + document_capture(
            order.last(),
            documents[order.last()],
            config,
        )
    }
}

/// All the steps of writing a capture. With frames, the renderer gets what making them has
/// changed, and the caches are written too.
pub open spec fn whole_capture(state: BackendState, config: CaptureConfig) -> Seq<CaptureWork> {
    let documents = (seq![CaptureWork::SaveResources] + documents_capture(
        state.order,
        state.documents,
        config,
    )).push(CaptureWork::SaveBackend);
    if config.frame {
        documents + seq![
            CaptureWork::SendGpuCacheUpdates,
            CaptureWork::SendResourceUpdates,
            CaptureWork::SaveResourceCache,
            CaptureWork::SaveGpuCache,
        ]
    } else {
        documents
    }
}

/// Where frames are captured, each document has a scene of which one can be made.
pub open spec fn can_capture(state: BackendState, config: CaptureConfig) -> bool {
    config.frame ==> forall|id: DocumentId| #[trigger]
        state.documents.dom().contains(id) ==> state.documents[id].has_frame_builder
}

/// The backend after a capture, for which frames may have been made.
pub open spec fn captured(state: BackendState, config: CaptureConfig) -> BackendState {
    if config.frame {
        BackendState {
            documents: state.documents.map_values(|doc: DocumentState| doc.rendered()),
            ..state
        }
    } else {
        state
    }
}

/// A document that comes from a capture.
pub struct LoadedDocument {
    pub document_id: DocumentId,
    pub view: DocumentView,
    pub scene: Scene,
    pub scene_removed_pipelines: Vec<PipelineId>,
    /// A frame was captured too.
    pub has_frame: bool,
}

/// What a capture says of the backend itself.
#[derive(Clone, Copy, Debug, PartialEq, Eq, Structural)]
pub struct PlainRenderBackend {
    pub default_device_pixel_ratio: FloatBits,
    pub enable_render_on_scroll: bool,
    pub dual_source_blending: bool,
}

/// A document as it was captured.
pub open spec fn loaded_document(item: LoadedDocument, dual_source_blending: bool) -> DocumentState {
    let doc = DocumentState {
        scene: item.scene@,
        scene_removed: item.scene_removed_pipelines@,
        view: item.view,
        has_frame_builder: true,
        outputs: Seq::empty(),
        removed: Seq::empty(),
        render_on_scroll: None,
        render_on_hittest: false,
        has_hit_tester: false,
        dual_source_blending,
    };
    if item.has_frame {
        doc
    } else {
        doc.built().rendered()
    }
}

/// What is done for a document of a capture. Where its frame was not captured, it is made.
pub open spec fn loaded_works(item: LoadedDocument) -> Seq<Work> {
    let id = item.document_id;
    let frame = if item.has_frame {
        seq![Work::LoadFrame(id)]
    } else {
        seq![
            Work::BuildScene(id),
            Work::RenderDocument {
                document_id: id,
                removed_pipelines: item.scene_removed_pipelines@,
            },
        ]
    };
    frame.push(Work::PublishDocument(id)).push(
        Work::NotifyNewDocument { document_id: id, scroll: false, composite: true },
    )
}

/// The documents of a capture.
pub open spec fn loaded_documents(
    items: Seq<LoadedDocument>,
    dual_source_blending: bool,
) -> Map<DocumentId, DocumentState>
    decreases items.len(),
{
    if items.len() == 0 {
        Map::empty()
    } else {
        loaded_documents(items.drop_last(), dual_source_blending).insert(
            items.last().document_id,
            loaded_document(items.last(), dual_source_blending),
        )
    }
}

/// The documents of a capture, in order.
pub open spec fn loaded_order(items: Seq<LoadedDocument>) -> Seq<DocumentId>
    decreases items.len(),
{
    if items.len() == 0 {
        Seq::empty()
    } else {
        with_key(loaded_order(items.drop_last()), items.last().document_id)
    }
}

/// What is done for the documents of a capture.
pub open spec fn all_loaded_works(items: Seq<LoadedDocument>) -> Seq<Work>
    decreases items.len(),
{
    if items.len() == 0 {
        Seq::empty()
    } else {
        all_loaded_works(items.drop_last()) + loaded_works(items.last())
    }
}

/// Everything that is done for a capture.
pub open spec fn whole_load(items: Seq<LoadedDocument>) -> Seq<Work> {
    seq![Work::LoadResources, Work::LoadGpuCache] + all_loaded_works(items)
}

/// The backend with the documents of a capture, and no others.
pub open spec fn loaded(
    state: BackendState,
    backend: PlainRenderBackend,
    items: Seq<LoadedDocument>,
) -> BackendState {
    BackendState {
        documents: loaded_documents(items, backend.dual_source_blending),
        order: loaded_order(items),
        default_device_pixel_ratio: backend.default_device_pixel_ratio,
        enable_render_on_scroll: backend.enable_render_on_scroll,
        dual_source_blending: backend.dual_source_blending,
        frame_counter: state.frame_counter,
    }
}

/// The scenes of a capture are sound.
pub open spec fn scenes_wf(items: Seq<LoadedDocument>) -> bool {
    forall|i: int| 0 <= i < items.len() ==> (#[trigger] items[i]).scene.wf()
}

/// What is told of the documents of a backend, in order.
pub open spec fn told_documents(state: BackendState) -> Seq<CapturedDocument> {
    state.order.map_values(
        |id: DocumentId|
            CapturedDocument {
                document_id: id,
                root_pipeline_id: state.documents[id].scene.root,
                window_size: state.documents[id].view.window_size,
            },
    )
}

/// What is told of a document that came from a capture.
#[derive(Clone, Copy, Debug, PartialEq, Eq, Structural)]
pub struct CapturedDocument {
    pub document_id: DocumentId,
    pub root_pipeline_id: Option<PipelineId>,
    pub window_size: DeviceUintSize,
}

impl RenderBackend {
    /// Makes frames of all documents where the capture has them, and gives the steps of
    /// writing it.
    pub fn save_capture(&mut self, config: CaptureConfig) -> (r: Vec<CaptureStep>)
        requires
            old(self).wf(),
            can_capture(old(self)@, config),
        ensures
            final(self).wf(),
            capture_works(r@) == whole_capture(old(self)@, config),
            final(self)@ == captured(old(self)@, config),
    {
        let ghost keys = self.documents.keys@;
        let ghost before = self@.documents;
        let total: usize = self.documents.keys.len();
        let mut steps: Vec<CaptureStep> = Vec::new();
        let mut i: usize = 0;
        steps.push(CaptureStep::SaveResources);
        assert(keys.take(0) =~= Seq::<DocumentId>::empty());
        assert(capture_works(steps@) =~= seq![CaptureWork::SaveResources] + documents_capture(
            keys.take(0),
            before,
            config,
        ));
        while i < total
            invariant
                i <= total,
                total == keys.len(),
                keys.no_duplicates(),
                self.wf(),
                self.documents.keys@ == keys,
                self@ == (BackendState { documents: self@.documents, ..old(self)@ }),
                before == old(self)@.documents,
                old(self)@.order == keys,
                self@.documents.dom() == before.dom(),
                config.frame ==> forall|id: DocumentId| #[trigger]
                    before.dom().contains(id) ==> before[id].has_frame_builder,
                forall|id: DocumentId| #[trigger]
                    before.dom().contains(id) == keys.contains(id),
                forall|j: int|
                    #![trigger keys[j]]
                    0 <= j < keys.len() ==> self@.documents[keys[j]] == (if j < i
                        && config.frame {
                        before[keys[j]].rendered()
                    } else {
                        before[keys[j]]
                    }),
                capture_works(steps@) == seq![CaptureWork::SaveResources] + documents_capture(
                    keys.take(i as int),
                    before,
                    config,
                ),
            decreases total - i,
        {
            let id = self.documents.keys[i];
            let ghost now = self.documents@;
            let ghost earlier = steps@;
            let ghost doc = before[id];
            assert(keys.contains(id));
            assert(before.dom().contains(id));
            assert(self@.documents[id] == doc);
            if config.scene {
                steps.push(
                    CaptureStep::SaveScene {
                        document_id: id,
                        file_name: document_name("scene-", id),
                    },
                );
            }
            if config.frame {
                let mut removed_pipelines: Vec<PipelineId> = Vec::new();
                match self.documents.get_mut(&id) {
                    Some(document) => {
                        removed_pipelines = document.render();
                    },
                    None => {},
                }
                steps.push(
                    CaptureStep::SaveFrame {
                        document_id: id,
                        removed_pipelines,
                        file_name: document_name("frame-", id),
                    },
                );
                assert(document_states(self.documents@) =~= document_states(now).insert(
                    id,
                    doc.rendered(),
                ));
                assert(self@.documents.dom() =~= before.dom());
            }
            proof {
                assert(keys.take(i as int + 1).drop_last() =~= keys.take(i as int));
                assert(capture_works(steps@) =~= capture_works(earlier) + document_capture(
                    id,
                    doc,
                    config,
                ));
                assert(capture_works(steps@) =~= seq![CaptureWork::SaveResources]
                    + documents_capture(keys.take(i as int + 1), before, config));
            }
            i = i + 1;
        }
        proof {
            assert(keys.take(i as int) =~= keys);
            if config.frame {
                let after = before.map_values(|doc: DocumentState| doc.rendered());
                assert forall|id: DocumentId| #[trigger]
                    before.dom().contains(id) implies self@.documents[id] == after[id] by {
                    assert(keys[keys.index_of(id)] == id);
                }
                assert(self@.documents =~= after);
            } else {
                assert forall|id: DocumentId| #[trigger]
                    before.dom().contains(id) implies self@.documents[id] == before[id] by {
                    assert(keys[keys.index_of(id)] == id);
                }
                assert(self@.documents =~= before);
            }
        }
        steps.push(CaptureStep::SaveBackend);
        if config.frame {
            steps.push(CaptureStep::SendGpuCacheUpdates);
            steps.push(CaptureStep::SendResourceUpdates);
            steps.push(CaptureStep::SaveResourceCache);
            steps.push(CaptureStep::SaveGpuCache);
        }
        assert(capture_works(steps@) =~= whole_capture(old(self)@, config));
        steps
    }

    /// Forgets all documents, and takes those of a capture.
    pub fn load_capture(&mut self, backend: PlainRenderBackend, items: Vec<LoadedDocument>) -> (r:
        Vec<BackendAction>)
        requires
            scenes_wf(items@),
        ensures
            final(self).wf(),
            final(self)@ == loaded(old(self)@, backend, items@),
            works(r@) == whole_load(items@),
    {
        self.documents = Table::new();
        self.default_device_pixel_ratio = backend.default_device_pixel_ratio;
        self.enable_render_on_scroll = backend.enable_render_on_scroll;
        self.dual_source_blending = backend.dual_source_blending;
        let ghost all = items@;
        let ghost blending = backend.dual_source_blending;
        let total: usize = items.len();
        let mut items = items;
        let mut actions: Vec<BackendAction> = Vec::new();
        actions.push(BackendAction::LoadResources);
        actions.push(BackendAction::LoadGpuCache);
        let ghost mut done: int = 0;
        assert(all.take(0) =~= Seq::<LoadedDocument>::empty());
        assert(all.skip(0) =~= all);
        assert(self@.documents =~= loaded_documents(all.take(0), blending));
        assert(works(actions@) =~= whole_load(all.take(0)));
        while items.len() > 0
            invariant
                0 <= done <= all.len(),
                items@ == all.skip(done),
                forall|i: int| 0 <= i < all.len() ==> (#[trigger] all[i]).scene.wf(),
                blending == backend.dual_source_blending,
                self.wf(),
                self@ == (BackendState {
                    documents: loaded_documents(all.take(done), blending),
                    order: loaded_order(all.take(done)),
                    default_device_pixel_ratio: backend.default_device_pixel_ratio,
                    enable_render_on_scroll: backend.enable_render_on_scroll,
                    dual_source_blending: blending,
                    frame_counter: old(self)@.frame_counter,
                }),
                works(actions@) == whole_load(all.take(done)),
            decreases items@.len(),
        {
            let item = items.remove(0);
            proof {
                assert(item == all[done]);
                assert(items@ =~= all.skip(done + 1));
                assert(all.take(done + 1).drop_last() =~= all.take(done));
            }
            self.load_document(item, &mut actions);
            proof {
                assert(works(actions@) =~= whole_load(all.take(done + 1)));
                done = done + 1;
            }
        }
        assert(all.take(done) =~= all);
        actions
    }

    fn load_document(&mut self, item: LoadedDocument, actions: &mut Vec<BackendAction>)
        requires
            old(self).wf(),
            item.scene.wf(),
        ensures
            final(self).wf(),
            final(self)@ == old(self)@.with_document(
                item.document_id,
                loaded_document(item, old(self)@.dual_source_blending),
            ),
            works(final(actions)@) == works(old(actions)@) + loaded_works(item),
    {
        let ghost before = self.documents@;
        let ghost earlier = actions@;
        let id = item.document_id;
        let has_frame = item.has_frame;
        let ghost removed = item.scene_removed_pipelines@;
        let mut document = Document {
            scene: item.scene,
            scene_removed_pipelines: item.scene_removed_pipelines,
            view: item.view,
            has_frame_builder: true,
            output_pipelines: Vec::new(),
            removed_pipelines: Vec::new(),
            render_on_scroll: None,
            render_on_hittest: false,
            has_hit_tester: false,
            dual_source_blending: self.dual_source_blending,
        };
        if has_frame {
            actions.push(BackendAction::LoadFrame(id));
        } else {
            document.build_scene();
            assert(document@.removed =~= removed);
            actions.push(BackendAction::BuildScene(id));
            let removed_pipelines = document.render();
            actions.push(BackendAction::RenderDocument { document_id: id, removed_pipelines });
        }
        actions.push(BackendAction::PublishDocument(id));
        actions.push(
            BackendAction::NotifyNewDocument { document_id: id, scroll: false, composite: true },
        );
        assert(works(actions@) =~= works(earlier) + loaded_works(item));
        let ghost state = document@;
        assert(state =~= loaded_document(item, self@.dual_source_blending));
        self.documents.insert(id, document);
        assert(document_states(self.documents@) =~= document_states(before).insert(id, state));
    }

    /// What is told of the documents once a capture was loaded.
    pub fn captured_documents(&self) -> (r: Vec<CapturedDocument>)
        requires
            self.wf(),
        ensures
            r@ == told_documents(self@),
    {
        let mut r: Vec<CapturedDocument> = Vec::new();
        let total: usize = self.documents.keys.len();
        let mut i: usize = 0;
        while i < total
            invariant
                i <= total,
                total == self.documents.keys@.len(),
                self.wf(),
                r@.len() == i,
                forall|j: int|
                    0 <= j < i ==> #[trigger] r@[j] == (CapturedDocument {
                        document_id: self@.order[j],
                        root_pipeline_id: self@.documents[self@.order[j]].scene.root,
                        window_size: self@.documents[self@.order[j]].view.window_size,
                    }),
            decreases total - i,
        {
            let document_id = self.documents.keys[i];
            assert(self.documents.keys@.contains(document_id));
            match self.documents.get(&document_id) {
                Some(document) => {
                    r.push(
                        CapturedDocument {
                            document_id,
                            root_pipeline_id: document.scene.root_pipeline_id,
                            window_size: document.view.window_size,
                        },
                    );
                },
                None => {},
            }
            i = i + 1;
        }
        assert(r@ =~= told_documents(self@));
        r
    }
}

/// Every document of a capture is there after loading it, with the scene and the view that
/// were captured.
pub proof fn captured_documents_are_loaded(
    items: Seq<LoadedDocument>,
    dual_source_blending: bool,
    i: int,
)
    requires
        0 <= i < items.len(),
        forall|j: int, k: int|
            #![trigger items[j], items[k]]
            0 <= j < k < items.len() ==> items[j].document_id != items[k].document_id,
    ensures
        ({
            let documents = loaded_documents(items, dual_source_blending);
            let id = items[i].document_id;
            &&& documents.dom().contains(id)
            &&& documents[id].scene == items[i].scene@
            &&& documents[id].view == items[i].view
            &&& documents[id].has_frame_builder
        }),
    decreases items.len(),
{
    if i < items.len() - 1 {
        let earlier = items.drop_last();
        assert(earlier[i] == items[i]);
        assert forall|j: int, k: int|
            #![trigger earlier[j], earlier[k]]
            0 <= j < k < earlier.len() implies earlier[j].document_id
            != earlier[k].document_id by {
            assert(items[j].document_id != items[k].document_id);
        }
        captured_documents_are_loaded(earlier, dual_source_blending, i);
        assert(items[i].document_id != items[items.len() - 1].document_id);
    }
}

} // verus!
