//! A scene builder with one set of hooks, which are told before and after each scene.

use crate::render_backend::update::SceneRequest;
use crate::scene::{DocumentId, Epoch, PipelineId};
use crate::table::{copied, Table};
use vstd::prelude::*;

verus! {

/// What the scene builder is asked. Frame operations and resource updates are known by
/// their numbers.
pub enum SceneBuilderRequest {
    Transaction {
        document_id: DocumentId,
        scene: Option<SceneRequest>,
        resource_updates: Vec<u64>,
        frame_ops: Vec<u64>,
        render: bool,
    },
    Stop,
}

/// A scene that was built.
pub struct BuiltScene {
    pub id: u64,
    pub pipeline_epochs: Table<PipelineId, Epoch>,
    pub removed_pipelines: Vec<PipelineId>,
}

/// What comes back of a transaction.
pub struct SceneBuilderResult {
    pub document_id: DocumentId,
    pub built_scene: Option<BuiltScene>,
    pub resource_updates: Vec<u64>,
    pub frame_ops: Vec<u64>,
    pub render: bool,
}

/// What the hooks are told of a scene.
pub struct PipelineInfo {
    pub epochs: Table<PipelineId, Epoch>,
    pub removed_pipelines: Vec<PipelineId>,
}

/// A step of the scene builder.
#[derive(Clone, Copy, Debug, PartialEq, Eq, Structural)]
pub enum BuilderStep {
    Register,
    PreSceneSwap,
    SendResult,
    WakeUp,
    PostSceneSwap,
    Deregister,
}

/// What is done first for a request.
pub enum MessageStart {
    /// Build the scene, where there is one.
    Build { scene: Option<SceneRequest>, rest: SceneBuilderResult },
    Stop,
}

/// A scene builder, with hooks or without.
#[derive(Clone, Copy, Debug, PartialEq, Eq, Structural)]
pub struct SceneBuilder {
    pub has_hooks: bool,
}

/// The steps for a transaction.
pub open spec fn transaction_steps(has_hooks: bool) -> Seq<BuilderStep> {
    if has_hooks {
        seq![
            BuilderStep::PreSceneSwap,
            BuilderStep::SendResult,
            BuilderStep::WakeUp,
            BuilderStep::PostSceneSwap,
        ]
    } else {
        seq![BuilderStep::SendResult, BuilderStep::WakeUp]
    }
}

impl SceneBuilder {
    /// What is done before the first request, if anything.
    pub fn started(&self) -> (r: Option<BuilderStep>)
        ensures
            r == (if self.has_hooks {
                Some(BuilderStep::Register)
            } else {
                None
            }),
    {
        if self.has_hooks {
            Some(BuilderStep::Register)
        } else {
            None
        }
    }

    /// What is done after the last request, if anything.
    pub fn stopped(&self) -> (r: Option<BuilderStep>)
        ensures
            r == (if self.has_hooks {
                Some(BuilderStep::Deregister)
            } else {
                None
            }),
    {
        if self.has_hooks {
            Some(BuilderStep::Deregister)
        } else {
            None
        }
    }

    /// Takes a request.
    pub fn process_message(&self, msg: SceneBuilderRequest) -> (r: MessageStart)
        ensures
            match msg {
                SceneBuilderRequest::Transaction {
                    document_id,
                    scene,
                    resource_updates,
                    frame_ops,
                    render,
                } => r == (MessageStart::Build {
                    scene,
                    rest: SceneBuilderResult {
                        document_id,
                        built_scene: None,
                        resource_updates,
                        frame_ops,
                        render,
                    },
                }),
                SceneBuilderRequest::Stop => r is Stop,
            },
    {
        match msg {
            SceneBuilderRequest::Transaction {
                document_id,
                scene,
                resource_updates,
                frame_ops,
                render,
            } => MessageStart::Build {
                scene,
                rest: SceneBuilderResult {
                    document_id,
                    built_scene: None,
                    resource_updates,
                    frame_ops,
                    render,
                },
            },
            SceneBuilderRequest::Stop => MessageStart::Stop,
        }
    }

    /// Ends a transaction once its scene was built. Gives what is sent back, what the hooks
    /// are told, and the steps to take.
    pub fn scene_built(&self, rest: SceneBuilderResult, built_scene: Option<BuiltScene>) -> (r: (
        SceneBuilderResult,
        PipelineInfo,
        Vec<BuilderStep>,
    ))
        requires
            built_scene matches Some(scene) ==> scene.pipeline_epochs.wf(),
        ensures
            r.0 == (SceneBuilderResult { built_scene, ..rest }),
            r.1.epochs@ == (match built_scene {
                Some(scene) => scene.pipeline_epochs@,
                None => Map::empty(),
            }),
            r.1.removed_pipelines@ == (match built_scene {
                Some(scene) => scene.removed_pipelines@,
                None => Seq::empty(),
            }),
            r.2@ == transaction_steps(self.has_hooks),
    {
        let info = match &built_scene {
            Some(scene) => PipelineInfo {
                epochs: scene.pipeline_epochs.duplicate(),
                removed_pipelines: copied(&scene.removed_pipelines),
            },
            None => PipelineInfo { epochs: Table::new(), removed_pipelines: Vec::new() },
        };
        let mut steps: Vec<BuilderStep> = Vec::new();
        if self.has_hooks {
            steps.push(BuilderStep::PreSceneSwap);
        }
        steps.push(BuilderStep::SendResult);
        steps.push(BuilderStep::WakeUp);
        if self.has_hooks {
            steps.push(BuilderStep::PostSceneSwap);
        }
        assert(steps@ =~= transaction_steps(self.has_hooks));
        let result = SceneBuilderResult { built_scene, ..rest };
        (result, info, steps)
    }
}

} // verus!
