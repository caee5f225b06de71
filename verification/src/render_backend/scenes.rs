//! Display lists on their way to the backend, and scenes on their way back from the scene
//! builder.

use crate::render_backend::messages::{document_states, BackendState, RenderBackend};
use crate::render_backend::update::{
    updated, works, BackendAction, SceneRequest, TransactionContents, TransactionMsg,
};
use crate::render_backend::{DocumentMsg, DocumentState};
use crate::scene::{DocumentId, Epoch, PipelineId};
use std::collections::VecDeque;
use vstd::prelude::*;

verus! {

/// The data of a display list, which comes apart from the message that announces it.
#[derive(Clone, Copy, Debug, PartialEq, Eq, Structural)]
pub struct Payload {
    pub epoch: Epoch,
    pub pipeline_id: PipelineId,
    pub data: u64,
}

/// The payload is the one that a message announces.
pub open spec fn is_for(payload: Payload, epoch: Epoch, pipeline_id: PipelineId) -> bool {
    payload.epoch == epoch && payload.pipeline_id == pipeline_id
}

/// Takes the payload that a message announces. Those before it go to the end of the queue.
pub fn recv_payload(queue: &mut VecDeque<Payload>, epoch: Epoch, pipeline_id: PipelineId) -> (r:
    Option<Payload>)
    requires
        old(queue)@.len() < usize::MAX,
    ensures
        match r {
            Some(payload) => exists|i: int|
                #![trigger old(queue)@[i]]
                {
                    &&& 0 <= i < old(queue)@.len()
                    &&& payload == old(queue)@[i]
                    &&& is_for(payload, epoch, pipeline_id)
                    &&& forall|j: int|
                        0 <= j < i ==> !is_for(#[trigger] old(queue)@[j], epoch, pipeline_id)
                    &&& final(queue)@ == old(queue)@.skip(i + 1) + old(queue)@.take(i)
                },
            None => {
                &&& final(queue)@ == old(queue)@
                &&& forall|j: int|
                    0 <= j < old(queue)@.len() ==> !is_for(
                        #[trigger] old(queue)@[j],
                        epoch,
                        pipeline_id,
                    )
            },
        },
{
    let total: usize = queue.len();
    let mut i: usize = 0;
    assert(queue@ =~= old(queue)@.skip(0) + old(queue)@.take(0));
    while i < total
        invariant
            i <= total,
            total == old(queue)@.len(),
            total < usize::MAX,
            queue@ == old(queue)@.skip(i as int) + old(queue)@.take(i as int),
            forall|j: int|
                0 <= j < i ==> !is_for(#[trigger] old(queue)@[j], epoch, pipeline_id),
        decreases total - i,
    {
        let ghost now = queue@;
        assert(now[0] == old(queue)@[i as int]);
        match queue.pop_front() {
            Some(payload) => {
                assert(payload == old(queue)@[i as int]);
                assert(queue@ =~= old(queue)@.skip(i + 1) + old(queue)@.take(i as int));
                if payload.epoch == epoch && payload.pipeline_id == pipeline_id {
                    return Some(payload);
                }
                queue.push_back(payload);
                assert(queue@ =~= old(queue)@.skip(i + 1) + old(queue)@.take(i + 1));
            },
            None => {},
        }
        i = i + 1;
    }
    assert(queue@ =~= old(queue)@);
    None
}

/// A scene that was built elsewhere.
pub struct BuiltScene {
    pub id: u64,
    pub removed_pipelines: Vec<PipelineId>,
}

/// What comes back from the scene builder.
pub struct SceneBuilderMsg {
    pub document_id: DocumentId,
    pub built_scene: Option<BuiltScene>,
    pub resource_updates: Vec<u64>,
    pub document_ops: Vec<DocumentMsg>,
    pub render: bool,
}

/// The document with a scene that was built elsewhere.
pub open spec fn with_built_scene(doc: DocumentState, scene: Option<BuiltScene>) -> DocumentState {
    match scene {
        Some(scene) => DocumentState {
            has_frame_builder: true,
            removed: doc.removed + scene.removed_pipelines@,
            render_on_hittest: true,
            ..doc
        },
        None => doc,
    }
}

impl SceneBuilderMsg {
    /// What is left of the transaction that went to the scene builder.
    pub open spec fn rest(self) -> TransactionContents {
        TransactionContents {
            prefix: Seq::empty(),
            postfix: self.document_ops@,
            resources: self.resource_updates@,
            generate_frame: self.render,
            use_scene_builder_thread: false,
        }
    }
}

/// What is to be done for a scene that was built elsewhere.
pub struct SceneArrival {
    /// The scene that is current from now on.
    pub scene: Option<u64>,
    pub actions: Vec<BackendAction>,
}

impl RenderBackend {
    fn take_scene(&mut self, id: DocumentId, built_scene: Option<BuiltScene>) -> (r: Option<u64>)
        requires
            old(self).wf(),
            old(self)@.documents.dom().contains(id),
        ensures
            final(self).wf(),
            final(self)@ == old(self)@.with_document(
                id,
                with_built_scene(old(self)@.documents[id], built_scene),
            ),
            r == (match built_scene {
                Some(scene) => Some(scene.id),
                None => None,
            }),
    {
        let ghost before = self.documents@;
        let ghost after = with_built_scene(self@.documents[id], built_scene);
        let mut ready: Option<u64> = None;
        assert(self.documents.keys@.contains(id));
        match self.documents.get_mut(&id) {
            Some(document) => {
                if let Some(scene) = built_scene {
                    let mut removed = scene.removed_pipelines;
                    document.has_frame_builder = true;
                    document.removed_pipelines.append(&mut removed);
                    document.render_on_hittest = true;
                    ready = Some(scene.id);
                }
                assert(document@ =~= after);
            },
            None => {},
        }
        assert(document_states(self.documents@) =~= document_states(before).insert(id, after));
        ready
    }

    /// Takes what comes back from the scene builder. A document that was deleted meanwhile
    /// is skipped.
    pub fn scene_built(&mut self, msg: SceneBuilderMsg) -> (r: Option<SceneArrival>)
        requires
            old(self).wf(),
            old(self)@.frame_counter < u32::MAX,
        ensures
            final(self).wf(),
            (r is Some) == old(self)@.documents.dom().contains(msg.document_id),
            match r {
                None => final(self)@ == old(self)@,
                Some(arrival) => {
                    let id = msg.document_id;
                    let doc = with_built_scene(old(self)@.documents[id], msg.built_scene);
                    &&& arrival.scene == (match msg.built_scene {
                        Some(scene) => Some(scene.id),
                        None => None,
                    })
                    &&& if msg.rest().is_empty() {
                        &&& arrival.actions@.len() == 0
                        &&& final(self)@ == old(self)@.with_document(id, doc)
                    } else {
                        let after = updated(
                            doc,
                            id,
                            msg.rest(),
                            old(self)@.frame_counter as int,
                        );
                        &&& works(arrival.actions@) == after.works
                        &&& final(self)@ == (BackendState {
                            frame_counter: after.frame_counter as u32,
                            ..old(self)@.with_document(id, after.doc)
                        })
                    }
                },
            },
    {
        let id = msg.document_id;
        if !self.documents.contains(&id) {
            return None;
        }
        let scene = self.take_scene(id, msg.built_scene);
        let ghost installed = self@;
        let txn = TransactionMsg {
            prefix_ops: Vec::new(),
            postfix_ops: msg.document_ops,
            resource_updates: msg.resource_updates,
            generate_frame: msg.render,
            use_scene_builder_thread: false,
        };
        let ghost rest = msg.rest();
        assert(txn@ =~= rest);
        if txn.is_empty() {
            return Some(SceneArrival { scene, actions: Vec::new() });
        }
        let actions = self.update_document(id, txn);
        proof {
            assert(installed.order.contains(id));
            let doc = with_built_scene(old(self)@.documents[id], msg.built_scene);
            let after = updated(doc, id, rest, old(self)@.frame_counter as int);
            assert(installed.documents.insert(id, after.doc) =~= old(self)@.documents.insert(
                id,
                after.doc,
            ));
        }
        Some(SceneArrival { scene, actions })
    }
}

/// What goes to the scene builder.
pub enum SceneBuilderRequest {
    Transaction {
        document_id: DocumentId,
        scene: Option<SceneRequest>,
        resource_updates: Vec<u64>,
        document_ops: Vec<DocumentMsg>,
        render: bool,
    },
    Stop,
}

/// What the scene builder does for a request.
pub enum SceneBuilderStep {
    /// Build the scene where there is one, send the transaction back with it, and wake the
    /// backend up.
    Build { scene: Option<SceneRequest>, rest: SceneBuilderMsg },
    Stop,
}

/// Decides what the scene builder does for a request. The scene is to be put into the rest
/// of the transaction once it was built.
pub fn process_message(request: SceneBuilderRequest) -> (r: SceneBuilderStep)
    ensures
        match request {
            SceneBuilderRequest::Transaction {
                document_id,
                scene,
                resource_updates,
                document_ops,
                render,
            } => r == (SceneBuilderStep::Build {
                scene,
                rest: SceneBuilderMsg {
                    document_id,
                    built_scene: None,
                    resource_updates,
                    document_ops,
                    render,
                },
            }),
            SceneBuilderRequest::Stop => r is Stop,
        },
{
    match request {
        SceneBuilderRequest::Transaction {
            document_id,
            scene,
            resource_updates,
            document_ops,
            render,
        } => SceneBuilderStep::Build {
            scene,
            rest: SceneBuilderMsg {
                document_id,
                built_scene: None,
                resource_updates,
                document_ops,
                render,
            },
        },
        SceneBuilderRequest::Stop => SceneBuilderStep::Stop,
    }
}

/// No payload is lost or doubled by taking one out of the queue, and the others stay in the
/// order in which they will be looked at.
pub proof fn payloads_are_kept(queue: Seq<Payload>, i: int)
    requires
        0 <= i < queue.len(),
    ensures
        (queue.skip(i + 1) + queue.take(i)).to_multiset().insert(queue[i]) =~= queue.to_multiset(),
{
    broadcast use vstd::seq_lib::group_to_multiset_ensures;

    let before = queue.take(i);
    let behind = queue.skip(i + 1);
    assert(queue =~= before.push(queue[i]) + behind);
    vstd::seq_lib::lemma_multiset_commutative(before.push(queue[i]), behind);
    vstd::seq_lib::lemma_multiset_commutative(behind, before);
    assert(before.push(queue[i]).to_multiset() =~= before.to_multiset().insert(queue[i]));
}

} // verus!
