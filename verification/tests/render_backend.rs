use std::collections::VecDeque;
use webrender::float_bits::FloatBits;
use webrender::internal_types::FloatPoint;
use webrender::render_backend::capture::{CaptureStep, LoadedDocument, PlainRenderBackend};
use webrender::render_backend::debugger::{traverse_items, SpecificDisplayItem};
use webrender::render_backend::messages::{
    ApiAction, ApiMsg, DebugCommand, NamespaceIds, RenderBackend,
};
use webrender::render_backend::scenes::{
    process_message, recv_payload, BuiltScene, Payload, SceneBuilderMsg, SceneBuilderRequest,
    SceneBuilderStep,
};
use webrender::render_backend::update::{BackendAction, TransactionMsg};
use webrender::render_backend::{
    DeviceUintRect, DeviceUintSize, DocumentMsg, DocumentOps, DocumentView,
};
use webrender::scene::{DisplayListId, DocumentId, Epoch, PipelineId, Scene};
use webrender::scene_builder_thread::CaptureConfig;
use webrender::units::DeviceIntPoint;

const DOC: DocumentId = DocumentId { namespace_id: 1, id: 4 };
const ROOT: PipelineId = PipelineId(0, 1);
const OTHER: PipelineId = PipelineId(0, 2);
const SIZE: DeviceUintSize = DeviceUintSize { width: 640, height: 480 };

fn backend(enable_render_on_scroll: bool) -> RenderBackend {
    let mut ids = NamespaceIds { next: 0 };
    let mut backend =
        RenderBackend::new(FloatBits(0x3F800000), enable_render_on_scroll, true, &mut ids);
    assert_eq!(ids.next, 1);
    backend.process_api_msg(ApiMsg::AddDocument(DOC, SIZE, 0), &mut ids);
    backend
}

fn txn(prefix_ops: Vec<DocumentMsg>, postfix_ops: Vec<DocumentMsg>, frame: bool) -> TransactionMsg {
    TransactionMsg {
        prefix_ops,
        postfix_ops,
        resource_updates: Vec::new(),
        generate_frame: frame,
        use_scene_builder_thread: false,
    }
}

const VIEWPORT: FloatPoint = FloatPoint { x: FloatBits(7), y: FloatBits(8) };

fn set_list(pipeline_id: PipelineId) -> DocumentMsg {
    DocumentMsg::SetDisplayList {
        epoch: Epoch(1),
        pipeline_id,
        background: None,
        viewport_size: VIEWPORT,
        content_size: VIEWPORT,
        display_list: DisplayListId(5),
    }
}

fn names(actions: &[BackendAction]) -> Vec<&'static str> {
    actions
        .iter()
        .map(|action| match action {
            BackendAction::AnswerHitTest(_) => "hit",
            BackendAction::ForwardToSceneBuilder { .. } => "forward",
            BackendAction::UpdateResources(_) => "resources",
            BackendAction::LoadResources => "load resources",
            BackendAction::LoadGpuCache => "load gpu",
            BackendAction::BuildScene(_) => "build",
            BackendAction::LoadFrame(_) => "load",
            BackendAction::RenderDocument { .. } => "render",
            BackendAction::SendGpuCacheUpdates => "gpu",
            BackendAction::PublishDocument(_) => "publish",
            BackendAction::NotifyNewDocument { .. } => "notify",
        })
        .collect()
}

#[test]
fn operations_add_up() {
    let mut ops = DocumentOps::nop();
    ops.combine(DocumentOps::build());
    assert_eq!(ops, DocumentOps::build());
    ops.combine(DocumentOps { scroll: true, build: false, render: false, composite: true });
    assert_eq!(ops, DocumentOps { scroll: true, build: true, render: false, composite: true });
    ops.combine(DocumentOps::nop());
    assert!(ops.scroll && ops.build && !ops.render && ops.composite);
}

#[test]
fn a_frame_that_is_asked_for_is_published() {
    let mut backend = backend(false);
    let ops = vec![set_list(ROOT), DocumentMsg::SetRootPipeline(ROOT)];
    let actions = backend.update_document(DOC, txn(ops, Vec::new(), true));
    assert_eq!(
        names(&actions),
        vec!["resources", "build", "render", "gpu", "publish", "notify"]
    );
    assert_eq!(backend.frame_counter, 1);
    match actions.last() {
        Some(BackendAction::NotifyNewDocument { document_id, scroll, composite }) => {
            assert_eq!(*document_id, DOC);
            assert!(!*scroll && *composite);
        }
        _ => panic!("nothing was made known"),
    }
}

#[test]
fn nothing_is_drawn_without_a_scene() {
    let mut backend = backend(false);
    let ops = vec![DocumentMsg::SetRootPipeline(ROOT), DocumentMsg::Scroll { scrolled: true }];
    let actions = backend.update_document(DOC, txn(ops, Vec::new(), true));
    assert_eq!(names(&actions), vec!["resources", "notify"]);
    assert_eq!(backend.frame_counter, 0);
}

#[test]
fn scrolling_draws_only_after_a_frame() {
    let mut backend = backend(true);
    let ops = vec![set_list(ROOT), DocumentMsg::SetRootPipeline(ROOT)];
    backend.update_document(DOC, txn(ops, Vec::new(), false));
    let scroll = || vec![DocumentMsg::Scroll { scrolled: true }];
    let actions = backend.update_document(DOC, txn(scroll(), Vec::new(), false));
    assert_eq!(names(&actions), vec!["resources", "notify"]);
    backend.update_document(DOC, txn(Vec::new(), Vec::new(), true));
    let actions = backend.update_document(DOC, txn(scroll(), Vec::new(), false));
    assert_eq!(names(&actions), vec!["resources", "render", "gpu", "publish", "notify"]);
    let still = vec![DocumentMsg::ScrollNodeWithId { scrolled: false }];
    let actions = backend.update_document(DOC, txn(still, Vec::new(), false));
    assert_eq!(names(&actions), vec!["resources", "notify"]);
    let bounce = vec![DocumentMsg::TickScrollingBounce];
    let actions = backend.update_document(DOC, txn(bounce, Vec::new(), false));
    assert!(names(&actions).contains(&"publish"));
    backend.update_document(DOC, txn(vec![set_list(OTHER)], Vec::new(), false));
    let actions = backend.update_document(DOC, txn(scroll(), Vec::new(), false));
    assert!(!names(&actions).contains(&"publish"));
}

#[test]
fn removals_are_told_with_one_frame() {
    let mut backend = backend(false);
    let ops = vec![
        set_list(ROOT),
        set_list(OTHER),
        DocumentMsg::SetRootPipeline(ROOT),
        DocumentMsg::RemovePipeline(OTHER),
    ];
    let told = |actions: &[BackendAction]| {
        actions
            .iter()
            .filter_map(|action| match action {
                BackendAction::RenderDocument { removed_pipelines, .. } => {
                    Some(removed_pipelines.clone())
                }
                _ => None,
            })
            .collect::<Vec<_>>()
    };
    let actions = backend.update_document(DOC, txn(ops, Vec::new(), true));
    assert_eq!(told(&actions), vec![vec![OTHER]]);
    let actions = backend.update_document(DOC, txn(Vec::new(), Vec::new(), true));
    assert_eq!(told(&actions), vec![Vec::<PipelineId>::new()]);
}

#[test]
fn transactions_go_to_the_scene_builder() {
    let mut backend = backend(false);
    let mut request = txn(
        vec![set_list(ROOT), DocumentMsg::SetRootPipeline(ROOT)],
        vec![DocumentMsg::TickScrollingBounce],
        true,
    );
    request.use_scene_builder_thread = true;
    request.resource_updates = vec![6];
    let actions = backend.update_document(DOC, request);
    assert_eq!(actions.len(), 1);
    match &actions[0] {
        BackendAction::ForwardToSceneBuilder {
            document_id,
            scene,
            resource_updates,
            document_ops,
            render,
        } => {
            assert_eq!(*document_id, DOC);
            let scene = scene.as_ref().unwrap();
            assert_eq!(scene.scene.root_pipeline_id, Some(ROOT));
            assert_eq!(scene.view.window_size, SIZE);
            assert_eq!(*resource_updates, vec![6]);
            assert_eq!(*document_ops, vec![DocumentMsg::TickScrollingBounce]);
            assert!(*render);
        }
        _ => panic!("nothing was forwarded"),
    }

    let mut empty = txn(vec![DocumentMsg::RemovePipeline(ROOT)], Vec::new(), false);
    empty.use_scene_builder_thread = true;
    assert_eq!(names(&backend.update_document(DOC, empty)), vec!["resources"]);
}

#[test]
fn scenes_come_back_from_the_scene_builder() {
    let mut backend = backend(false);
    backend.update_document(
        DOC,
        txn(vec![DocumentMsg::SetRootPipeline(ROOT)], Vec::new(), false),
    );
    let msg = |document_id| SceneBuilderMsg {
        document_id,
        built_scene: Some(BuiltScene { id: 8, removed_pipelines: vec![OTHER] }),
        resource_updates: Vec::new(),
        document_ops: Vec::new(),
        render: true,
    };
    let arrival = backend.scene_built(msg(DOC)).unwrap();
    assert_eq!(arrival.scene, Some(8));
    assert_eq!(names(&arrival.actions), vec!["resources", "render", "gpu", "publish", "notify"]);
    let gone = DocumentId { namespace_id: 1, id: 99 };
    assert!(backend.scene_built(msg(gone)).is_none());
    let mut nothing = msg(DOC);
    nothing.built_scene = None;
    nothing.render = false;
    assert!(backend.scene_built(nothing).unwrap().actions.is_empty());
}

#[test]
fn the_scene_builder_is_asked_and_stopped() {
    match process_message(SceneBuilderRequest::Transaction {
        document_id: DOC,
        scene: None,
        resource_updates: vec![1],
        document_ops: vec![DocumentMsg::GetScrollNodeState],
        render: true,
    }) {
        SceneBuilderStep::Build { scene, rest } => {
            assert!(scene.is_none() && rest.built_scene.is_none());
            assert_eq!(rest.document_id, DOC);
            assert_eq!(rest.resource_updates, vec![1]);
            assert!(rest.render);
        }
        SceneBuilderStep::Stop => panic!("the scene builder stops"),
    }
    assert!(matches!(process_message(SceneBuilderRequest::Stop), SceneBuilderStep::Stop));
}

#[test]
fn views_are_changed() {
    let mut backend = backend(false);
    let size = DeviceUintSize { width: 10, height: 20 };
    let inner = DeviceUintRect { x: 1, y: 2, size };
    let ops = vec![
        DocumentMsg::SetPageZoom(FloatBits(7)),
        DocumentMsg::SetPinchZoom(FloatBits(8)),
        DocumentMsg::SetPan(DeviceIntPoint::new(-3, 4)),
        DocumentMsg::SetWindowParameters {
            window_size: size,
            inner_rect: inner,
            device_pixel_ratio: FloatBits(9),
        },
        DocumentMsg::EnableFrameOutput(ROOT, true),
        DocumentMsg::EnableFrameOutput(OTHER, true),
        DocumentMsg::EnableFrameOutput(ROOT, true),
        DocumentMsg::EnableFrameOutput(ROOT, false),
        DocumentMsg::UpdateEpoch(ROOT, Epoch(3)),
    ];
    let actions = backend.update_document(DOC, txn(ops, Vec::new(), false));
    assert_eq!(names(&actions), vec!["resources"]);
    let document = backend.documents.get(&DOC).unwrap();
    assert_eq!(
        document.view,
        DocumentView {
            window_size: size,
            inner_rect: inner,
            layer: 0,
            pan: DeviceIntPoint::new(-3, 4),
            device_pixel_ratio: FloatBits(9),
            page_zoom_factor: FloatBits(7),
            pinch_zoom_factor: FloatBits(8),
        }
    );
    assert_eq!(document.output_pipelines, vec![OTHER]);
    assert_eq!(document.scene.pipeline_epochs.get(&ROOT), Some(&Epoch(3)));
}

#[test]
fn hit_tests_need_a_frame() {
    let mut backend = backend(false);
    let test = || vec![DocumentMsg::HitTest { reply: 3 }];
    let tests = |actions: Vec<BackendAction>| match &actions[0] {
        BackendAction::AnswerHitTest(answer) => {
            assert_eq!(answer.reply, 3);
            answer.tests
        }
        _ => panic!("no hit test was answered"),
    };
    assert!(!tests(backend.update_document(DOC, txn(test(), Vec::new(), false))));
    let ops = vec![set_list(ROOT), DocumentMsg::SetRootPipeline(ROOT)];
    backend.update_document(DOC, txn(ops, Vec::new(), true));
    assert!(tests(backend.update_document(DOC, txn(test(), Vec::new(), false))));
}

#[test]
fn messages_of_the_api_are_taken() {
    let mut backend = backend(false);
    let mut ids = NamespaceIds { next: 5 };
    let (action, going) = backend.process_api_msg(ApiMsg::CloneApi(9), &mut ids);
    assert!(going && ids.next == 6);
    assert!(matches!(action, ApiAction::SendNamespace { reply: 9, namespace: 5 }));
    let (action, _) = backend.process_api_msg(ApiMsg::MemoryPressure, &mut ids);
    assert!(matches!(action, ApiAction::ClearAllCaches));
    let (action, _) = backend.process_api_msg(
        ApiMsg::DebugCommand(DebugCommand::EnableDualSourceBlending(false)),
        &mut ids,
    );
    assert!(matches!(action, ApiAction::Nothing));
    assert!(!backend.dual_source_blending);
    assert!(!backend.documents.get(&DOC).unwrap().dual_source_blending);
    let (action, _) =
        backend.process_api_msg(ApiMsg::DebugCommand(DebugCommand::Other(3)), &mut ids);
    assert!(matches!(action, ApiAction::SendDebugCommand(3)));
    let (action, _) = backend.process_api_msg(ApiMsg::ClearNamespace(2), &mut ids);
    assert!(matches!(action, ApiAction::ClearResources(2)));
    assert!(backend.documents.contains(&DOC));
    backend.process_api_msg(ApiMsg::ClearNamespace(1), &mut ids);
    assert!(!backend.documents.contains(&DOC));
    backend.process_api_msg(ApiMsg::AddDocument(DOC, SIZE, 1), &mut ids);
    backend.process_api_msg(ApiMsg::DeleteDocument(DOC), &mut ids);
    assert!(!backend.documents.contains(&DOC));
    let (_, going) = backend.process_api_msg(ApiMsg::ShutDown, &mut ids);
    assert!(!going);
}

#[test]
fn payloads_wait_for_their_message() {
    let payload = |epoch, p, data| Payload {
        epoch: Epoch(epoch),
        pipeline_id: PipelineId(0, p),
        data,
    };
    let mut queue: VecDeque<Payload> =
        VecDeque::from(vec![payload(1, 1, 10), payload(2, 1, 20), payload(1, 2, 30)]);
    assert_eq!(
        recv_payload(&mut queue, Epoch(2), PipelineId(0, 1)),
        Some(payload(2, 1, 20))
    );
    assert_eq!(queue, VecDeque::from(vec![payload(1, 2, 30), payload(1, 1, 10)]));
    assert_eq!(recv_payload(&mut queue, Epoch(9), PipelineId(0, 1)), None);
    assert_eq!(queue.len(), 2);
}

#[test]
fn captures_are_written_and_loaded() {
    let mut backend = backend(false);
    let ops = vec![set_list(ROOT), DocumentMsg::SetRootPipeline(ROOT)];
    backend.update_document(DOC, txn(ops, Vec::new(), true));
    let steps = backend.save_capture(CaptureConfig { id: 1, scene: true, frame: true });
    assert_eq!(steps.len(), 8);
    assert!(matches!(steps[0], CaptureStep::SaveResources));
    match (&steps[1], &steps[2]) {
        (
            CaptureStep::SaveScene { file_name: scene, .. },
            CaptureStep::SaveFrame { file_name: frame, .. },
        ) => {
            assert_eq!(scene, "scene-1-4");
            assert_eq!(frame, "frame-1-4");
        }
        _ => panic!("the document was not captured"),
    }
    assert!(matches!(steps[3], CaptureStep::SaveBackend));
    assert!(matches!(steps[7], CaptureStep::SaveGpuCache));
    assert_eq!(
        backend.save_capture(CaptureConfig { id: 1, scene: false, frame: false }).len(),
        2
    );

    let mut scene = Scene::new();
    scene.set_root_pipeline_id(OTHER);
    let item = |id, has_frame| LoadedDocument {
        document_id: DocumentId { namespace_id: 2, id },
        view: backend.documents.get(&DOC).unwrap().view,
        scene: scene.duplicate(),
        scene_removed_pipelines: vec![ROOT],
        has_frame,
    };
    let items = vec![item(1, true), item(2, false)];
    let plain = PlainRenderBackend {
        default_device_pixel_ratio: FloatBits(3),
        enable_render_on_scroll: true,
        dual_source_blending: false,
    };
    let actions = backend.load_capture(plain, items);
    assert_eq!(
        names(&actions),
        vec![
            "load resources",
            "load gpu",
            "load",
            "publish",
            "notify",
            "build",
            "render",
            "publish",
            "notify",
        ]
    );
    let captured = backend.captured_documents();
    assert_eq!(captured.len(), 2);
    assert_eq!(captured[1].document_id, DocumentId { namespace_id: 2, id: 2 });
    assert_eq!(captured[1].root_pipeline_id, Some(OTHER));
    assert_eq!(captured[1].window_size, SIZE);
    assert!(!backend.documents.contains(&DOC));
}

#[test]
fn captures_are_taken_and_loaded_on_command() {
    let mut backend = backend(false);
    let ops = vec![set_list(ROOT), DocumentMsg::SetRootPipeline(ROOT)];
    backend.update_document(DOC, txn(ops, Vec::new(), true));
    let mut ids = NamespaceIds { next: 5 };
    let config = CaptureConfig { id: 1, scene: true, frame: false };
    let save = ApiMsg::DebugCommand(DebugCommand::SaveCapture(config));
    match backend.process_api_msg(save, &mut ids) {
        (ApiAction::SaveCapture { config: saved, steps }, true) => {
            assert_eq!(saved, config);
            assert_eq!(steps.len(), 3);
        }
        _ => panic!("nothing was captured"),
    }
    assert_eq!(ids.next, 5);
    let frames = backend.frame_counter;
    let load = ApiMsg::DebugCommand(DebugCommand::LoadCapture {
        backend: PlainRenderBackend {
            default_device_pixel_ratio: FloatBits(3),
            enable_render_on_scroll: true,
            dual_source_blending: false,
        },
        items: vec![LoadedDocument {
            document_id: DocumentId { namespace_id: 2, id: 8 },
            view: backend.documents.get(&DOC).unwrap().view,
            scene: Scene::new(),
            scene_removed_pipelines: Vec::new(),
            has_frame: true,
        }],
        reply: 66,
    });
    match backend.process_api_msg(load, &mut ids) {
        (ApiAction::LoadCapture { actions, documents, reply }, true) => {
            assert_eq!(
                names(&actions),
                vec!["load resources", "load gpu", "load", "publish", "notify"]
            );
            assert_eq!(documents.len(), 1);
            assert_eq!(documents[0].document_id.id, 8);
            assert_eq!(reply, 66);
        }
        _ => panic!("nothing was loaded"),
    }
    assert_eq!(ids.next, 6);
    assert_eq!(backend.frame_counter, frames + 1);
    assert!(!backend.documents.contains(&DOC));
}

#[test]
fn display_lists_are_shown_as_trees() {
    let items = vec![
        SpecificDisplayItem::Rectangle,
        SpecificDisplayItem::PushStackingContext,
        SpecificDisplayItem::Text,
        SpecificDisplayItem::PushStackingContext,
        SpecificDisplayItem::PopStackingContext,
        SpecificDisplayItem::Rectangle,
        SpecificDisplayItem::PopStackingContext,
        SpecificDisplayItem::Text,
        SpecificDisplayItem::PopStackingContext,
        SpecificDisplayItem::Rectangle,
    ];
    let lines = traverse_items(&items);
    let parents: Vec<Option<usize>> = lines.iter().map(|line| line.parent).collect();
    assert_eq!(parents, vec![None, None, Some(1), Some(1), Some(1), None]);
    assert!(lines[1].is_node && lines[3].is_node && !lines[2].is_node);
    assert_eq!(lines[4].item.debug_string(), "rectangle");
    assert_eq!(SpecificDisplayItem::YuvImage.debug_string(), "yuv_image");
    assert_eq!(SpecificDisplayItem::PopAllShadows.debug_string(), "pop_all_shadows");
}
