use webrender::scene::{DocumentId, Epoch, PipelineId};
use webrender::scene_builder::{
    BuilderStep, BuiltScene, MessageStart, SceneBuilder, SceneBuilderRequest,
};
use webrender::table::Table;

fn request() -> SceneBuilderRequest {
    SceneBuilderRequest::Transaction {
        document_id: DocumentId { namespace_id: 1, id: 2 },
        scene: None,
        resource_updates: vec![3],
        frame_ops: vec![4],
        render: true,
    }
}

#[test]
fn hooks_are_told_before_and_after_the_swap() {
    let builder = SceneBuilder { has_hooks: true };
    assert_eq!(builder.started(), Some(BuilderStep::Register));
    assert_eq!(builder.stopped(), Some(BuilderStep::Deregister));
    let rest = match builder.process_message(request()) {
        MessageStart::Build { scene, rest } => {
            assert!(scene.is_none());
            rest
        }
        MessageStart::Stop => panic!("the scene builder stops"),
    };
    let mut epochs = Table::new();
    epochs.insert(PipelineId(1, 1), Epoch(6));
    let scene = BuiltScene {
        id: 7,
        pipeline_epochs: epochs,
        removed_pipelines: vec![PipelineId(2, 2)],
    };
    let (result, info, steps) = builder.scene_built(rest, Some(scene));
    assert_eq!(result.built_scene.map(|scene| scene.id), Some(7));
    assert_eq!(result.frame_ops, vec![4]);
    assert_eq!(info.epochs.get(&PipelineId(1, 1)), Some(&Epoch(6)));
    assert_eq!(info.removed_pipelines, vec![PipelineId(2, 2)]);
    assert_eq!(
        steps,
        vec![
            BuilderStep::PreSceneSwap,
            BuilderStep::SendResult,
            BuilderStep::WakeUp,
            BuilderStep::PostSceneSwap,
        ]
    );
}

#[test]
fn without_hooks_results_are_only_sent() {
    let builder = SceneBuilder { has_hooks: false };
    assert_eq!(builder.started(), None);
    assert!(matches!(builder.process_message(SceneBuilderRequest::Stop), MessageStart::Stop));
    if let MessageStart::Build { rest, .. } = builder.process_message(request()) {
        let (_, info, steps) = builder.scene_built(rest, None);
        assert!(info.epochs.keys.is_empty() && info.removed_pipelines.is_empty());
        assert_eq!(steps, vec![BuilderStep::SendResult, BuilderStep::WakeUp]);
    }
}
