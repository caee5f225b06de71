//! What a transaction does to a document, and what has to be done elsewhere for it.

use crate::render_backend::{
    composited_frames_are_rendered, hit_tests, removals, removals_wait_to_be_told,
    scrolling_waits_for_a_frame, Document, DocumentMsg, DocumentOps, DocumentState, DocumentView,
    HitTestAnswer,
};
use crate::scene::{DocumentId, PipelineId, Scene, SceneContents};
use crate::table::copied;
use vstd::prelude::*;

verus! {

/// What is asked of a document. Resource updates are known by their numbers.
pub struct TransactionMsg {
    /// What is done before the scene is built.
    pub prefix_ops: Vec<DocumentMsg>,
    /// What is done after that.
    pub postfix_ops: Vec<DocumentMsg>,
    pub resource_updates: Vec<u64>,
    pub generate_frame: bool,
    pub use_scene_builder_thread: bool,
}

/// A transaction as a mathematical value.
#[verifier::ext_equal]
pub struct TransactionContents {
    pub prefix: Seq<DocumentMsg>,
    pub postfix: Seq<DocumentMsg>,
    pub resources: Seq<u64>,
    pub generate_frame: bool,
    pub use_scene_builder_thread: bool,
}

impl TransactionContents {
    /// Nothing is asked.
    pub open spec fn is_empty(self) -> bool {
        &&& !self.generate_frame
        &&& self.prefix.len() == 0
        &&& self.postfix.len() == 0
        &&& self.resources.len() == 0
    }
}

impl TransactionMsg {
    pub open spec fn view(self) -> TransactionContents {
        TransactionContents {
            prefix: self.prefix_ops@,
            postfix: self.postfix_ops@,
            resources: self.resource_updates@,
            generate_frame: self.generate_frame,
            use_scene_builder_thread: self.use_scene_builder_thread,
        }
    }

    /// Nothing is asked.
    pub fn is_empty(&self) -> (r: bool)
        ensures
            r == self@.is_empty(),
    {
        !self.generate_frame && self.prefix_ops.len() == 0 && self.postfix_ops.len() == 0
            && self.resource_updates.len() == 0
    }
}

/// What the scene builder needs to build a scene.
pub struct SceneRequest {
    pub scene: Scene,
    pub removed_pipelines: Vec<PipelineId>,
    pub view: DocumentView,
    pub output_pipelines: Vec<PipelineId>,
}

/// A request to build a scene as a mathematical value.
#[verifier::ext_equal]
pub struct SceneOrder {
    pub scene: SceneContents,
    pub removed: Seq<PipelineId>,
    pub view: DocumentView,
    pub outputs: Seq<PipelineId>,
}

impl SceneRequest {
    pub open spec fn view(self) -> SceneOrder {
        SceneOrder {
            scene: self.scene@,
            removed: self.removed_pipelines@,
            view: self.view,
            outputs: self.output_pipelines@,
        }
    }
}

impl DocumentState {
    /// The request to build the scene of a document.
    pub open spec fn order(self) -> SceneOrder {
        SceneOrder {
            scene: self.scene,
            removed: self.scene_removed,
            view: self.view,
            outputs: self.outputs,
        }
    }
}

/// What has to be done elsewhere, in this order.
pub enum BackendAction {
    AnswerHitTest(HitTestAnswer),
    /// The rest of the transaction goes to the scene builder, with a scene to build where
    /// that is needed.
    ForwardToSceneBuilder {
        document_id: DocumentId,
        scene: Option<SceneRequest>,
        resource_updates: Vec<u64>,
        document_ops: Vec<DocumentMsg>,
        render: bool,
    },
    UpdateResources(Vec<u64>),
    /// Take the resources that were captured, and tell the renderer of them.
    LoadResources,
    /// Take the GPU cache that was captured, or an empty one where there is none.
    LoadGpuCache,
    BuildScene(DocumentId),
    /// Take the frame that was captured.
    LoadFrame(DocumentId),
    /// Make a frame, which tells of removed pipelines.
    RenderDocument { document_id: DocumentId, removed_pipelines: Vec<PipelineId> },
    SendGpuCacheUpdates,
    /// Send the frame that was made, with the updates of its resources.
    PublishDocument(DocumentId),
    NotifyNewDocument { document_id: DocumentId, scroll: bool, composite: bool },
}

/// What has to be done elsewhere as a mathematical value.
#[verifier::ext_equal]
pub enum Work {
    AnswerHitTest(HitTestAnswer),
    ForwardToSceneBuilder {
        document_id: DocumentId,
        scene: Option<SceneOrder>,
        resource_updates: Seq<u64>,
        document_ops: Seq<DocumentMsg>,
        render: bool,
    },
    UpdateResources(Seq<u64>),
    LoadResources,
    LoadGpuCache,
    BuildScene(DocumentId),
    LoadFrame(DocumentId),
    RenderDocument { document_id: DocumentId, removed_pipelines: Seq<PipelineId> },
    SendGpuCacheUpdates,
    PublishDocument(DocumentId),
    NotifyNewDocument { document_id: DocumentId, scroll: bool, composite: bool },
}

impl BackendAction {
    pub open spec fn view(self) -> Work {
        match self {
            BackendAction::AnswerHitTest(answer) => Work::AnswerHitTest(answer),
            BackendAction::ForwardToSceneBuilder {
                document_id,
                scene,
                resource_updates,
                document_ops,
                render,
            } => Work::ForwardToSceneBuilder {
                document_id,
                scene: match scene {
                    Some(request) => Some(request@),
                    None => None,
                },
                resource_updates: resource_updates@,
                document_ops: document_ops@,
                render,
            },
            BackendAction::UpdateResources(updates) => Work::UpdateResources(updates@),
            BackendAction::LoadResources => Work::LoadResources,
            BackendAction::LoadGpuCache => Work::LoadGpuCache,
            BackendAction::BuildScene(document) => Work::BuildScene(document),
            BackendAction::LoadFrame(document) => Work::LoadFrame(document),
            BackendAction::RenderDocument { document_id, removed_pipelines } => {
                Work::RenderDocument { document_id, removed_pipelines: removed_pipelines@ }
            },
            BackendAction::SendGpuCacheUpdates => Work::SendGpuCacheUpdates,
            BackendAction::PublishDocument(document) => Work::PublishDocument(document),
            BackendAction::NotifyNewDocument { document_id, scroll, composite } => {
                Work::NotifyNewDocument { document_id, scroll, composite }
            },
        }
    }
}

pub open spec fn works(actions: Seq<BackendAction>) -> Seq<Work> {
    actions.map_values(|action: BackendAction| action@)
}

pub open spec fn answers(tests: Seq<HitTestAnswer>) -> Seq<Work> {
    tests.map_values(|test: HitTestAnswer| Work::AnswerHitTest(test))
}

/// What an update comes to.
#[verifier::ext_equal]
pub struct Update {
    pub doc: DocumentState,
    pub frame_counter: int,
    pub works: Seq<Work>,
}

/// What has to be done for a document once its messages were taken: a frame that is asked
/// for is drawn where the document has a root.
pub open spec fn ops_with_frame(doc: DocumentState, ops: DocumentOps, generate_frame: bool) -> DocumentOps {
    if generate_frame && doc.scene.root is Some {
        DocumentOps { render: true, composite: true, ..ops }
    } else {
        ops
    }
}

/// A document of which a frame is asked for may be drawn when it is scrolled.
pub open spec fn frame_asked(doc: DocumentState, generate_frame: bool) -> DocumentState {
    DocumentState {
        render_on_scroll: match doc.render_on_scroll {
            Some(on) => Some(on || generate_frame),
            None => None,
        },
        ..doc
    }
}

/// The end of an update: the scene is built, a frame is drawn if there is a scene, and that
/// is made known.
pub open spec fn finished(
    doc: DocumentState,
    id: DocumentId,
    ops: DocumentOps,
    frame_counter: int,
    before: Seq<Work>,
) -> Update {
    let built = if ops.build {
        DocumentState { render_on_hittest: true, ..doc.built() }
    } else {
        doc
    };
    let works = if ops.build {
        before.push(Work::BuildScene(id))
    } else {
        before
    };
    let render = ops.render && built.has_frame_builder;
    let composite = ops.composite && built.has_frame_builder;
    let drawn = if render {
        works.push(
            Work::RenderDocument { document_id: id, removed_pipelines: built.removed },
        ).push(Work::SendGpuCacheUpdates).push(Work::PublishDocument(id))
    } else {
        works
    };
    Update {
        doc: if render {
            DocumentState { render_on_hittest: false, ..built.rendered() }
        } else {
            built
        },
        frame_counter: if render {
            frame_counter + 1
        } else {
            frame_counter
        },
        works: if render || ops.scroll {
            drawn.push(Work::NotifyNewDocument { document_id: id, scroll: ops.scroll, composite })
        } else {
            drawn
        },
    }
}

/// What a transaction comes to.
pub open spec fn updated(
    doc: DocumentState,
    id: DocumentId,
    txn: TransactionContents,
    frame_counter: int,
) -> Update {
    let prefix = txn.prefix;
    let first = doc.after_all(prefix);
    let ops = doc.ops_all(prefix);
    let answered = answers(hit_tests(doc, prefix));
    if txn.use_scene_builder_thread && (txn.generate_frame || txn.postfix.len() > 0
        || txn.resources.len() > 0) {
        Update {
            doc: first,
            frame_counter,
            works: answered.push(
                Work::ForwardToSceneBuilder {
                    document_id: id,
                    scene: if ops.build && first.scene.has_root_pipeline() {
                        Some(first.order())
                    } else {
                        None
                    },
                    resource_updates: txn.resources,
                    document_ops: txn.postfix,
                    render: txn.generate_frame,
                },
            ),
        }
    } else {
        let second = first.after_all(txn.postfix);
        finished(
            frame_asked(second, txn.generate_frame),
            id,
            ops_with_frame(
                second,
                ops.combined(first.ops_all(txn.postfix)),
                txn.generate_frame,
            ),
            frame_counter,
            answered.push(Work::UpdateResources(txn.resources)) + answers(
                hit_tests(first, txn.postfix),
            ),
        )
    }
}

impl Document {
    /// Takes several messages.
    fn take_messages(&mut self, msgs: &Vec<DocumentMsg>, actions: &mut Vec<BackendAction>) -> (r:
        DocumentOps)
        requires
            old(self).wf(),
        ensures
            final(self).wf(),
            final(self)@ == old(self)@.after_all(msgs@),
            r == old(self)@.ops_all(msgs@),
            works(final(actions)@) == works(old(actions)@) + answers(
                hit_tests(old(self)@, msgs@),
            ),
    {
        let mut op = DocumentOps::nop();
        let mut tests: Vec<HitTestAnswer> = Vec::new();
        let mut i: usize = 0;
        assert(msgs@.take(0) =~= Seq::<DocumentMsg>::empty());
        assert(tests@ =~= hit_tests(self@, msgs@.take(0)));
        while i < msgs.len()
            invariant
                i <= msgs@.len(),
                self.wf(),
                self@ == old(self)@.after_all(msgs@.take(i as int)),
                self@.has_hit_tester == old(self)@.has_hit_tester,
                op == old(self)@.ops_all(msgs@.take(i as int)),
                tests@ == hit_tests(old(self)@, msgs@.take(i as int)),
            decreases msgs@.len() - i,
        {
            proof {
                let msg = msgs@[i as int];
                assert(msgs@.take(i as int + 1).drop_last() =~= msgs@.take(i as int));
                assert(seq![msg].drop_last() =~= Seq::<DocumentMsg>::empty());
                reveal_with_fuel(hit_tests, 2);
                assert(hit_tests(old(self)@, msgs@.take(i as int + 1)) =~= hit_tests(
                    old(self)@,
                    msgs@.take(i as int),
                ) + hit_tests(self@, seq![msg]));
            }
            let more = self.process_document(msgs[i], &mut tests);
            op.combine(more);
            i = i + 1;
        }
        assert(msgs@.take(i as int) =~= msgs@);
        let mut j: usize = 0;
        assert(works(actions@) =~= works(old(actions)@) + answers(tests@.take(0)));
        while j < tests.len()
            invariant
                j <= tests@.len(),
                works(actions@) == works(old(actions)@) + answers(tests@.take(j as int)),
            decreases tests@.len() - j,
        {
            let ghost before = actions@;
            actions.push(BackendAction::AnswerHitTest(tests[j]));
            j = j + 1;
            assert(works(actions@) =~= works(before).push(Work::AnswerHitTest(tests@[j - 1])));
            assert(works(actions@) =~= works(old(actions)@) + answers(tests@.take(j as int)));
        }
        assert(tests@.take(j as int) =~= tests@);
        op
    }

    /// Forwards the rest of a transaction to the scene builder.
    fn forward_transaction_to_scene_builder(
        &self,
        id: DocumentId,
        ops: &DocumentOps,
        resource_updates: Vec<u64>,
        document_ops: Vec<DocumentMsg>,
        render: bool,
    ) -> (r: BackendAction)
        requires
            self.wf(),
        ensures
            r@ == (Work::ForwardToSceneBuilder {
                document_id: id,
                scene: if ops.build && self@.scene.has_root_pipeline() {
                    Some(self@.order())
                } else {
                    None
                },
                resource_updates: resource_updates@,
                document_ops: document_ops@,
                render,
            }),
    {
        let scene = if ops.build && self.scene.has_root_pipeline() {
            Some(
                SceneRequest {
                    scene: self.scene.duplicate(),
                    removed_pipelines: copied(&self.scene_removed_pipelines),
                    view: self.view,
                    output_pipelines: copied(&self.output_pipelines),
                },
            )
        } else {
            None
        };
        BackendAction::ForwardToSceneBuilder {
            document_id: id,
            scene,
            resource_updates,
            document_ops,
            render,
        }
    }

    /// Builds, draws and makes known what has to be.
    fn finish_update(
        &mut self,
        id: DocumentId,
        ops: DocumentOps,
        frame_counter: &mut u32,
        actions: &mut Vec<BackendAction>,
    )
        requires
            old(self).wf(),
            *old(frame_counter) < u32::MAX,
        ensures
            final(self).wf(),
            ({
                let after = finished(
                    old(self)@,
                    id,
                    ops,
                    *old(frame_counter) as int,
                    works(old(actions)@),
                );
                &&& final(self)@ == after.doc
                &&& *final(frame_counter) == after.frame_counter
                &&& works(final(actions)@) == after.works
            }),
    {
        if ops.build {
            self.build_scene();
            self.render_on_hittest = true;
            let ghost before = actions@;
            actions.push(BackendAction::BuildScene(id));
            assert(works(actions@) =~= works(before).push(Work::BuildScene(id)));
        }
        let can_render = self.can_render();
        let render = ops.render && can_render;
        let composite = ops.composite && can_render;
        if render {
            *frame_counter = *frame_counter + 1;
            let ghost removed = self@.removed;
            let removed_pipelines = self.render();
            let ghost before = actions@;
            actions.push(BackendAction::RenderDocument { document_id: id, removed_pipelines });
            actions.push(BackendAction::SendGpuCacheUpdates);
            actions.push(BackendAction::PublishDocument(id));
            assert(works(actions@) =~= works(before).push(
                Work::RenderDocument { document_id: id, removed_pipelines: removed },
            ).push(Work::SendGpuCacheUpdates).push(Work::PublishDocument(id)));
            self.render_on_hittest = false;
        }
        if render || ops.scroll {
            let ghost before = actions@;
            actions.push(
                BackendAction::NotifyNewDocument {
                    document_id: id,
                    scroll: ops.scroll,
                    composite,
                },
            );
            assert(works(actions@) =~= works(before).push(
                Work::NotifyNewDocument { document_id: id, scroll: ops.scroll, composite },
            ));
        }
    }

    /// Takes a transaction. The frame counter goes up with each frame.
    pub fn update(
        &mut self,
        id: DocumentId,
        txn: TransactionMsg,
        frame_counter: &mut u32,
    ) -> (r: Vec<BackendAction>)
        requires
            old(self).wf(),
            *old(frame_counter) < u32::MAX,
        ensures
            final(self).wf(),
            ({
                let after = updated(old(self)@, id, txn@, *old(frame_counter) as int);
                &&& final(self)@ == after.doc
                &&& *final(frame_counter) == after.frame_counter
                &&& works(r@) == after.works
            }),
    {
        let mut actions: Vec<BackendAction> = Vec::new();
        let ghost start = self@;
        let mut op = self.take_messages(&txn.prefix_ops, &mut actions);
        assert(works(actions@) =~= answers(hit_tests(start, txn.prefix_ops@)));
        let ghost before = actions@;
        if txn.use_scene_builder_thread && (txn.generate_frame || txn.postfix_ops.len() > 0
            || txn.resource_updates.len() > 0) {
            let action = self.forward_transaction_to_scene_builder(
                id,
                &op,
                txn.resource_updates,
                txn.postfix_ops,
                txn.generate_frame,
            );
            actions.push(action);
            assert(works(actions@) =~= works(before).push(action@));
            return actions;
        }
        actions.push(BackendAction::UpdateResources(txn.resource_updates));
        assert(works(actions@) =~= works(before).push(
            Work::UpdateResources(txn.resource_updates@),
        ));
        let more = self.take_messages(&txn.postfix_ops, &mut actions);
        op.combine(more);
        if txn.generate_frame {
            if self.render_on_scroll.is_some() {
                self.render_on_scroll = Some(true);
            }
            if self.scene.root_pipeline_id.is_some() {
                op.render = true;
                op.composite = true;
            }
        }
        proof {
            let second = start.after_all(txn.prefix_ops@).after_all(txn.postfix_ops@);
            assert(self@ =~= frame_asked(second, txn.generate_frame));
        }
        self.finish_update(id, op, frame_counter, &mut actions);
        actions
    }
}

/// The removals that are told by the frames among works.
pub open spec fn told(works: Seq<Work>) -> Seq<PipelineId>
    decreases works.len(),
{
    if works.len() == 0 {
        Seq::empty()
    } else {
        let before = told(works.drop_last());
        match works.last() {
            Work::RenderDocument { removed_pipelines, .. } => before + removed_pipelines,
            _ => before,
        }
    }
}

/// A frame is published among works.
pub open spec fn publishes(works: Seq<Work>) -> bool {
    exists|i: int| 0 <= i < works.len() && #[trigger] works[i] is PublishDocument
}

proof fn lemma_answers_tell_nothing(tests: Seq<HitTestAnswer>)
    ensures
        told(answers(tests)) =~= Seq::<PipelineId>::empty(),
        !publishes(answers(tests)),
    decreases tests.len(),
{
    if tests.len() > 0 {
        lemma_answers_tell_nothing(tests.drop_last());
        assert(answers(tests).drop_last() =~= answers(tests.drop_last()));
    }
}

proof fn lemma_told_push(works: Seq<Work>, work: Work)
    ensures
        told(works.push(work)) == (match work {
            Work::RenderDocument { removed_pipelines, .. } => told(works) + removed_pipelines,
            _ => told(works),
        }),
        publishes(works.push(work)) == (publishes(works) || work is PublishDocument),
{
    assert(works.push(work).drop_last() =~= works);
    if publishes(works) {
        let i = choose|i: int| 0 <= i < works.len() && #[trigger] works[i] is PublishDocument;
        assert(works.push(work)[i] is PublishDocument);
    }
    if work is PublishDocument {
        assert(works.push(work)[works.len() as int] is PublishDocument);
    }
    if publishes(works.push(work)) && !(work is PublishDocument) {
        let i = choose|i: int|
            0 <= i < works.push(work).len() && #[trigger] works.push(work)[i] is PublishDocument;
        assert(works[i] is PublishDocument);
    }
}

proof fn lemma_told_add(works: Seq<Work>, tests: Seq<HitTestAnswer>)
    ensures
        told(works + answers(tests)) == told(works),
        publishes(works + answers(tests)) == publishes(works),
    decreases tests.len(),
{
    if tests.len() == 0 {
        assert(works + answers(tests) =~= works);
    } else {
        lemma_told_add(works, tests.drop_last());
        let before = works + answers(tests.drop_last());
        assert(works + answers(tests) =~= before.push(Work::AnswerHitTest(tests.last())));
        lemma_told_push(before, Work::AnswerHitTest(tests.last()));
    }
}

proof fn lemma_finished(
    doc: DocumentState,
    id: DocumentId,
    ops: DocumentOps,
    frame_counter: int,
    before: Seq<Work>,
)
    ensures
        ({
            let after = finished(doc, id, ops, frame_counter, before);
            &&& told(after.works) + after.doc.untold() =~= told(before) + doc.untold()
            &&& publishes(after.works) == (publishes(before) || after.frame_counter
                == frame_counter + 1)
        }),
{
    let built = if ops.build {
        DocumentState { render_on_hittest: true, ..doc.built() }
    } else {
        doc
    };
    lemma_told_push(before, Work::BuildScene(id));
    let works = if ops.build {
        before.push(Work::BuildScene(id))
    } else {
        before
    };
    let one = works.push(
        Work::RenderDocument { document_id: id, removed_pipelines: built.removed },
    );
    let two = one.push(Work::SendGpuCacheUpdates);
    let three = two.push(Work::PublishDocument(id));
    lemma_told_push(
        works,
        Work::RenderDocument { document_id: id, removed_pipelines: built.removed },
    );
    lemma_told_push(one, Work::SendGpuCacheUpdates);
    lemma_told_push(two, Work::PublishDocument(id));
    let composite = ops.composite && built.has_frame_builder;
    let notify = Work::NotifyNewDocument { document_id: id, scroll: ops.scroll, composite };
    lemma_told_push(works, notify);
    lemma_told_push(three, notify);
    assert(built.untold() =~= doc.untold());
}

/// The removal of a pipeline is told exactly once and in order: what the frames of a
/// transaction tell, together with what is still to be told after it, is what was to be
/// told before, together with what the transaction removes.
pub proof fn removals_are_told_once(
    doc: DocumentState,
    id: DocumentId,
    txn: TransactionContents,
    frame_counter: int,
)
    ensures
        ({
            let after = updated(doc, id, txn, frame_counter);
            let forwarded = txn.use_scene_builder_thread && (txn.generate_frame
                || txn.postfix.len() > 0 || txn.resources.len() > 0);
            told(after.works) + after.doc.untold() =~= doc.untold() + removals(txn.prefix) + (
            if forwarded {
                Seq::empty()
            } else {
                removals(txn.postfix)
            })
        }),
{
    let prefix = txn.prefix;
    let first = doc.after_all(prefix);
    let second = first.after_all(txn.postfix);
    let answered = answers(hit_tests(doc, prefix));
    lemma_answers_tell_nothing(hit_tests(doc, prefix));
    removals_wait_to_be_told(doc, prefix);
    removals_wait_to_be_told(first, txn.postfix);
    let forward = Work::ForwardToSceneBuilder {
        document_id: id,
        scene: if doc.ops_all(prefix).build && first.scene.has_root_pipeline() {
            Some(first.order())
        } else {
            None
        },
        resource_updates: txn.resources,
        document_ops: txn.postfix,
        render: txn.generate_frame,
    };
    lemma_told_push(answered, forward);
    let resources = Work::UpdateResources(txn.resources);
    lemma_told_push(answered, resources);
    lemma_told_add(answered.push(resources), hit_tests(first, txn.postfix));
    let asked = frame_asked(second, txn.generate_frame);
    assert(asked.untold() =~= second.untold());
    lemma_finished(
        asked,
        id,
        ops_with_frame(
            second,
            doc.ops_all(prefix).combined(first.ops_all(txn.postfix)),
            txn.generate_frame,
        ),
        frame_counter,
        answered.push(resources) + answers(hit_tests(first, txn.postfix)),
    );
}

/// The frame counter goes up by one with each frame that is published, which takes a scene
/// that was built, and stays as it is otherwise.
pub proof fn frames_are_counted(
    doc: DocumentState,
    id: DocumentId,
    txn: TransactionContents,
    frame_counter: int,
)
    ensures
        ({
            let after = updated(doc, id, txn, frame_counter);
            &&& after.frame_counter == frame_counter + (if publishes(after.works) {
                1int
            } else {
                0int
            })
            &&& publishes(after.works) ==> after.doc.has_frame_builder && after.doc.has_hit_tester
                && !after.doc.render_on_hittest
        }),
{
    let prefix = txn.prefix;
    let first = doc.after_all(prefix);
    let second = first.after_all(txn.postfix);
    let answered = answers(hit_tests(doc, prefix));
    lemma_answers_tell_nothing(hit_tests(doc, prefix));
    let forward = Work::ForwardToSceneBuilder {
        document_id: id,
        scene: if doc.ops_all(prefix).build && first.scene.has_root_pipeline() {
            Some(first.order())
        } else {
            None
        },
        resource_updates: txn.resources,
        document_ops: txn.postfix,
        render: txn.generate_frame,
    };
    lemma_told_push(answered, forward);
    let resources = Work::UpdateResources(txn.resources);
    lemma_told_push(answered, resources);
    lemma_told_add(answered.push(resources), hit_tests(first, txn.postfix));
    lemma_finished(
        frame_asked(second, txn.generate_frame),
        id,
        ops_with_frame(
            second,
            doc.ops_all(prefix).combined(first.ops_all(txn.postfix)),
            txn.generate_frame,
        ),
        frame_counter,
        answered.push(resources) + answers(hit_tests(first, txn.postfix)),
    );
}

/// Where scrolling must not draw, only a frame that is asked for is published.
pub proof fn only_frames_asked_for_are_published(
    doc: DocumentState,
    id: DocumentId,
    txn: TransactionContents,
    frame_counter: int,
)
    requires
        doc.render_on_scroll != Some(true),
        !txn.generate_frame,
    ensures
        !publishes(updated(doc, id, txn, frame_counter).works),
        updated(doc, id, txn, frame_counter).doc.render_on_scroll != Some(true),
{
    frames_are_counted(doc, id, txn, frame_counter);
    scrolling_waits_for_a_frame(doc, txn.prefix);
    scrolling_waits_for_a_frame(doc.after_all(txn.prefix), txn.postfix);
}

/// What is made known as composited was drawn in the same transaction.
pub proof fn composited_documents_are_published(
    doc: DocumentState,
    id: DocumentId,
    txn: TransactionContents,
    frame_counter: int,
)
    ensures
        ({
            let after = updated(doc, id, txn, frame_counter);
            forall|i: int|
                0 <= i < after.works.len() && (#[trigger] after.works[i]
                    matches Work::NotifyNewDocument { composite: true, .. }) ==> publishes(
                    after.works,
                )
        }),
{
    let after = updated(doc, id, txn, frame_counter);
    frames_are_counted(doc, id, txn, frame_counter);
    composited_frames_are_rendered(doc, txn.prefix);
    composited_frames_are_rendered(doc.after_all(txn.prefix), txn.postfix);
}

/// The scene is built before the frame is drawn, the frame is sent before it is published, and
/// only then is anyone told. There is a frame where one is due and some scene was built, which
/// is then not owed to a hit test any more; it tells of all pipelines that were removed. Who is
/// told learns whether there was scrolling, and whether there is something to composite.
pub proof fn updates_end_in_order(
    doc: DocumentState,
    id: DocumentId,
    ops: DocumentOps,
    frame_counter: int,
    before: Seq<Work>,
)
    ensures
        ({
            let end = finished(doc, id, ops, frame_counter, before);
            let can_draw = ops.build || doc.has_frame_builder;
            let draws = ops.render && can_draw;
            let b: int = before.len() as int + if ops.build { 1int } else { 0int };
            let d: int = b + if draws { 3int } else { 0int };
            &&& end.works.take(before.len() as int) == before
            &&& ops.build ==> end.works[before.len() as int] == Work::BuildScene(id)
            &&& draws ==> {
                &&& end.works[b] == (Work::RenderDocument {
                    document_id: id,
                    removed_pipelines: if ops.build {
                        doc.removed + doc.scene_removed
                    } else {
                        doc.removed
                    },
                })
                &&& end.works[b + 1] is SendGpuCacheUpdates
                &&& end.works[b + 2] == Work::PublishDocument(id)
                &&& end.doc.removed.len() == 0
                &&& end.doc.has_hit_tester
                &&& !end.doc.render_on_hittest
                &&& end.frame_counter == frame_counter + 1
            }
            &&& draws || ops.scroll ==> {
                &&& end.works.len() == d + 1
                &&& end.works[d] == (Work::NotifyNewDocument {
                    document_id: id,
                    scroll: ops.scroll,
                    composite: ops.composite && can_draw,
                })
            }
            &&& !draws && !ops.scroll ==> end.works.len() == d
            &&& !draws ==> end.frame_counter == frame_counter && end.doc.has_hit_tester
                == doc.has_hit_tester
            &&& ops.build && !draws ==> end.doc.render_on_hittest && end.doc.removed
                == doc.removed + doc.scene_removed
            &&& ops.build ==> end.doc.scene_removed.len() == 0 && end.doc.has_frame_builder
            &&& !ops.build ==> end.doc.scene_removed == doc.scene_removed
            &&& end.doc.scene == doc.scene
            &&& end.doc.view == doc.view
            &&& end.doc.outputs == doc.outputs
            &&& end.doc.render_on_scroll == doc.render_on_scroll
        }),
{
    let end = finished(doc, id, ops, frame_counter, before);
    assert(end.works.take(before.len() as int) =~= before);
}

/// A transaction for the scene builder leaves everything but its first messages to it:
/// resources, the other messages and the frame that is asked for go with it, and a scene
/// goes with it where one is to be built and the root has a display list. Any other
/// transaction is done at once, its resources before its other messages.
pub proof fn transactions_are_forwarded_or_done(
    doc: DocumentState,
    id: DocumentId,
    txn: TransactionContents,
    frame_counter: int,
)
    ensures
        ({
            let end = updated(doc, id, txn, frame_counter);
            let forward = txn.use_scene_builder_thread && (txn.generate_frame || txn.postfix.len()
                > 0 || txn.resources.len() > 0);
            let n = hit_tests(doc, txn.prefix).len() as int;
            let first = doc.after_all(txn.prefix);
            &&& forward ==> {
                &&& end.doc == first
                &&& end.frame_counter == frame_counter
                &&& end.works.len() == n + 1
                &&& end.works[n] matches Work::ForwardToSceneBuilder {
                    document_id,
                    scene,
                    resource_updates,
                    document_ops,
                    render,
                } && {
                    &&& document_id == id
                    &&& resource_updates == txn.resources
                    &&& document_ops == txn.postfix
                    &&& render == txn.generate_frame
                    &&& scene is Some <==> doc.ops_all(txn.prefix).build
                        && first.scene.has_root_pipeline()
                }
            }
            &&& !forward ==> {
                &&& end.works.len() > n
                &&& end.works[n] == Work::UpdateResources(txn.resources)
                &&& forall|i: int|
                    0 <= i < end.works.len() ==> !(#[trigger] end.works[i]
                        is ForwardToSceneBuilder)
                &&& end.doc.scene == first.after_all(txn.postfix).scene
                &&& end.doc.view == first.after_all(txn.postfix).view
                &&& txn.generate_frame && first.after_all(txn.postfix).scene.root is Some
                    && end.doc.has_frame_builder ==> end.frame_counter == frame_counter + 1
            }
        }),
{
    let end = updated(doc, id, txn, frame_counter);
    let first = doc.after_all(txn.prefix);
    let a = answers(hit_tests(doc, txn.prefix));
    let b = answers(hit_tests(first, txn.postfix));
    let before = a.push(Work::UpdateResources(txn.resources)) + b;
    let n = hit_tests(doc, txn.prefix).len() as int;
    assert(a.len() == n);
    assert(before[n] == Work::UpdateResources(txn.resources));
    let second = first.after_all(txn.postfix);
    let asked = frame_asked(second, txn.generate_frame);
    let ops = ops_with_frame(
        second,
        doc.ops_all(txn.prefix).combined(first.ops_all(txn.postfix)),
        txn.generate_frame,
    );
    updates_end_in_order(asked, id, ops, frame_counter, before);
    let done = finished(asked, id, ops, frame_counter, before);
    assert(done.works.take(before.len() as int)[n] == before[n]);
    assert forall|i: int| 0 <= i < done.works.len() implies !(#[trigger] done.works[i]
        is ForwardToSceneBuilder) by {
        if i < before.len() {
            assert(done.works.take(before.len() as int)[i] == before[i]);
        }
    }
}

} // verus!
