use webrender::scene::{
    DisplayListId, DocumentId, Epoch, ListDetails, PipelineId, Scene, ScenePipeline,
};
use webrender::scene_builder_thread::forward::{DocumentPipeline, HookCall};
use webrender::scene_builder_thread::process::{OpStep, OpsPause};
use webrender::scene_builder_thread::requests::{
    low_priority_action, process_low_priority_transaction, CapturePart, LoadScene,
    LowPriorityAction, RequestAction, SceneBuilderRequest, SceneBuilderResult,
};
use webrender::scene_builder_thread::transaction::{
    empty_profile, BlobResult, BuiltTransaction, Checkpoint, DisplayList, FinishedTransaction,
    GenerateFrame, MainBuild, NotificationRequest, OpAction, SceneMsg, TransactionMsg,
};
use webrender::scene_builder_thread::{
    BuiltScene, CaptureConfig, FrameBuilderConfig, OffscreenBuiltScene, QualitySettings,
    RenderBackendId, SceneBuilderThread, SceneStats, SceneView,
};
use webrender::units::{DeviceIntPoint, DeviceIntRect, DeviceIntSize};

const WIN_A: RenderBackendId = RenderBackendId(1);
const WIN_B: RenderBackendId = RenderBackendId(2);

fn doc(id: u32) -> DocumentId {
    DocumentId { namespace_id: 7, id }
}

fn pipeline(id: u32) -> PipelineId {
    PipelineId(0, id)
}

fn list(id: u64) -> DisplayList {
    DisplayList {
        id: DisplayListId(id),
        builder_start_time_ns: 100,
        builder_end_time_ns: 150,
        send_time_ns: 160,
        size_in_bytes: 12,
        off_grid_coords: 3,
        gecko_display_list_time: 77,
        full_display_list: true,
    }
}

fn set_list(p: u32, id: u64) -> SceneMsg {
    SceneMsg::SetDisplayList {
        epoch: Epoch(id as u32),
        pipeline_id: pipeline(p),
        display_list: list(id),
        namespace: 70 + id as u32,
    }
}

fn txn(document_id: DocumentId, scene_ops: Vec<SceneMsg>) -> TransactionMsg {
    TransactionMsg {
        document_id,
        scene_ops,
        frame_ops: Vec::new(),
        resource_updates: Vec::new(),
        generate_frame: GenerateFrame::No,
        invalidate_rendered_frame: false,
        blob_requests: Vec::new(),
        rasterized_blobs: Vec::new(),
        blob_rasterizer: None,
        notifications: Vec::new(),
        profile: empty_profile(),
    }
}

fn thread() -> SceneBuilderThread {
    let mut thread = SceneBuilderThread::new(FrameBuilderConfig(5));
    for (id, window) in [(1, WIN_A), (2, WIN_B)] {
        thread.handle_request(SceneBuilderRequest::AddDocument(
            doc(id),
            DeviceIntSize::new(800, 600),
            window,
        ));
    }
    thread
}

fn build(id: u64, epochs: Vec<(PipelineId, Epoch)>) -> MainBuild {
    MainBuild {
        scene: BuiltScene { id, pipeline_epochs: epochs },
        stats: SceneStats(id),
        interner_updates: id + 1,
        spatial_tree_updates: id + 2,
    }
}

fn run(
    thread: &mut SceneBuilderThread,
    mut txn: TransactionMsg,
    main: MainBuild,
) -> FinishedTransaction {
    let (mut progress, _) = thread.start_transaction(&mut txn, 1000);
    loop {
        match thread.next_op(&mut progress, 1200) {
            OpAction::Applied => {}
            OpAction::BuildOffscreen(_) => {
                progress.offscreen_scenes.push(OffscreenBuiltScene {
                    scene: 50,
                    spatial_tree_updates: 51,
                });
            }
            OpAction::Finished => break,
        }
    }
    let main = if thread.needs_scene(&progress) { Some(main) } else { None };
    thread.finish_transaction(txn, progress, main, 1500, None)
}

#[test]
fn a_display_list_builds_the_scene() {
    let mut thread = thread();
    let ops = vec![SceneMsg::SetRootPipeline(pipeline(1)), set_list(1, 9)];
    let done = run(&mut thread, txn(doc(1), ops), build(30, vec![(pipeline(1), Epoch(9))]));
    assert_eq!(done.built.built_scene.as_ref().map(|s| s.id), Some(30));
    assert_eq!(done.built.interner_updates, Some(31));
    assert_eq!(done.built.spatial_tree_updates, Some(32));
    assert_eq!(done.built.profile.content_send_time_ns, Some(1040));
    assert_eq!(done.built.profile.display_list_build_time_ns, Some(50));
    assert_eq!(done.built.profile.display_list_mem_bytes, Some(12));
    assert_eq!(done.built.profile.off_grid_coords, 3);
    assert_eq!(done.built.profile.scene_build_time_ns, Some(500));
    assert_eq!(done.built.frame_stats.wr_display_list_time_ns, 50);
    assert_eq!(done.built.frame_stats.scene_build_time_ns, 500);
    assert!(done.built.frame_stats.full_display_list);
    let document = thread.documents.get(&doc(1)).unwrap();
    assert_eq!(document.stats, SceneStats(30));
    assert_eq!(
        document.scene.pipelines.get(&pipeline(1)),
        Some(&ScenePipeline {
            display_list: DisplayListId(9),
            details: ListDetails::Namespace(79),
        })
    );
}

#[test]
fn lists_of_removed_pipelines_are_ignored() {
    let mut thread = thread();
    let ops = vec![
        SceneMsg::SetRootPipeline(pipeline(1)),
        SceneMsg::RemovePipeline(pipeline(1)),
        set_list(1, 9),
        set_list(2, 10),
    ];
    let done = run(&mut thread, txn(doc(1), ops), build(30, Vec::new()));
    assert!(done.built.built_scene.is_none());
    assert_eq!(done.built.removed_pipelines, vec![(pipeline(1), doc(1))]);
    assert_eq!(done.built.profile.off_grid_coords, 6);
    let scene = &thread.documents.get(&doc(1)).unwrap().scene;
    assert!(!scene.pipelines.contains(&pipeline(1)));
    assert!(scene.pipelines.contains(&pipeline(2)));

    let done = run(
        &mut thread,
        txn(doc(1), vec![SceneMsg::SetRootPipeline(pipeline(1)), set_list(1, 11)]),
        build(31, Vec::new()),
    );
    assert!(done.built.built_scene.is_some());
}

#[test]
fn small_changes_build_nothing() {
    let mut thread = thread();
    let rect = DeviceIntRect::new(DeviceIntPoint::new(1, 2), DeviceIntPoint::new(3, 4));
    let settings = QualitySettings { force_subpixel_aa_where_possible: true };
    let ops = vec![
        SceneMsg::UpdateEpoch(pipeline(3), Epoch(8)),
        SceneMsg::SetDocumentView { device_rect: rect },
        SceneMsg::SetQualitySettings { settings },
    ];
    let done = run(&mut thread, txn(doc(2), ops), build(1, Vec::new()));
    assert!(done.built.built_scene.is_none());
    assert_eq!(done.built.view, SceneView { device_rect: rect, quality_settings: settings });
}

#[test]
fn setting_the_same_root_again_builds_nothing() {
    let mut thread = thread();
    let ops = vec![SceneMsg::SetRootPipeline(pipeline(1)), set_list(1, 9)];
    run(&mut thread, txn(doc(1), ops), build(30, Vec::new()));
    let done = run(
        &mut thread,
        txn(doc(1), vec![SceneMsg::SetRootPipeline(pipeline(1))]),
        build(31, Vec::new()),
    );
    assert!(done.built.built_scene.is_none());
    assert_eq!(thread.documents.get(&doc(1)).unwrap().stats, SceneStats(30));
}

#[test]
fn offscreen_scenes_come_with_the_main_scene() {
    let mut thread = thread();
    let ops = vec![
        SceneMsg::SetRootPipeline(pipeline(1)),
        set_list(1, 9),
        SceneMsg::RenderOffscreen(pipeline(4)),
    ];
    let done = run(&mut thread, txn(doc(1), ops), build(30, Vec::new()));
    assert_eq!(done.built.offscreen_scenes.len(), 1);
    assert!(done.built.interner_updates.is_some());
}

#[test]
fn those_who_wait_for_the_scene_are_told() {
    let mut thread = thread();
    thread.handle_request(SceneBuilderRequest::SimulateLongSceneBuild(250));
    let mut txn = txn(doc(1), Vec::new());
    txn.generate_frame = GenerateFrame::Yes { id: 1, present: false, is_tracked: true };
    txn.notifications = vec![
        NotificationRequest { when: Checkpoint::FrameBuilt, id: 1 },
        NotificationRequest { when: Checkpoint::SceneBuilt, id: 2 },
        NotificationRequest { when: Checkpoint::FrameRendered, id: 3 },
        NotificationRequest { when: Checkpoint::SceneBuilt, id: 4 },
    ];
    txn.blob_requests = vec![8];
    txn.rasterized_blobs = vec![1];
    txn.blob_rasterizer = Some(6);
    let (progress, window) = thread.start_transaction(&mut txn, 10);
    assert_eq!(window, None);
    let blobs = Some(BlobResult { blobs: vec![2, 3], time_ns: 44 });
    let done = thread.finish_transaction(txn, progress, None, 20, blobs);
    assert_eq!(done.notify.iter().map(|n| n.id).collect::<Vec<_>>(), vec![2, 4]);
    assert_eq!(done.built.notifications.iter().map(|n| n.id).collect::<Vec<_>>(), vec![1, 3]);
    assert_eq!(done.sleep_ms, 250);
    assert_eq!(done.built.rasterized_blobs, vec![1, 2, 3]);
    assert_eq!(done.built.profile.blob_rasterization_time_ns, Some(44));
    assert!(done.built.render_frame && !done.built.present && done.built.is_tracked);
}

#[test]
fn blobs_need_a_rasterizer() {
    let mut request = txn(doc(1), Vec::new());
    request.blob_requests = vec![8];
    request.rasterized_blobs = vec![1];
    let done = process_low_priority_transaction(
        request,
        BlobResult { blobs: vec![2], time_ns: 5 },
    );
    assert_eq!(done.rasterized_blobs, vec![1]);
    assert!(done.blob_requests.is_empty());
    assert_eq!(done.profile.blob_rasterization_time_ns, Some(5));
}

#[test]
fn configurations_follow_the_window() {
    let mut thread = thread();
    assert_eq!(thread.config_for(doc(1)), FrameBuilderConfig(5));
    thread.handle_request(SceneBuilderRequest::SetFrameBuilderConfig(
        WIN_A,
        FrameBuilderConfig(6),
    ));
    assert_eq!(thread.config_for(doc(1)), FrameBuilderConfig(6));
    assert_eq!(thread.config_for(doc(2)), FrameBuilderConfig(5));
    assert_eq!(thread.config_for(doc(9)), FrameBuilderConfig(5));
}

#[test]
fn hooks_are_replaced_in_pairs() {
    let mut thread = thread();
    let change = |thread: &mut SceneBuilderThread, register| {
        match thread.handle_request(SceneBuilderRequest::SetSceneBuilderHooks(WIN_A, register)) {
            RequestAction::ChangeHooks { window, deregister, register } => {
                assert_eq!(window, WIN_A);
                (deregister, register)
            }
            _ => panic!("no hooks were changed"),
        }
    };
    assert_eq!(change(&mut thread, true), (false, true));
    assert_eq!(thread.hooked_window(doc(1)), Some(WIN_A));
    assert_eq!(thread.hooked_window(doc(2)), None);
    assert_eq!(change(&mut thread, true), (true, true));
    assert_eq!(thread.poke(), &vec![WIN_A]);
    assert_eq!(change(&mut thread, false), (true, false));
    assert_eq!(change(&mut thread, false), (false, false));
    assert!(thread.poke().is_empty());
    change(&mut thread, true);
    assert_eq!(thread.stop(), vec![WIN_A]);
    assert!(thread.poke().is_empty());
}

#[test]
fn documents_are_forgotten() {
    let mut thread = thread();
    let other = DocumentId { namespace_id: 8, id: 1 };
    thread.handle_request(SceneBuilderRequest::AddDocument(
        other,
        DeviceIntSize::new(1, 1),
        WIN_A,
    ));
    match thread.handle_request(SceneBuilderRequest::DeleteDocument(doc(1))) {
        RequestAction::Send(result) => {
            assert_eq!(result, SceneBuilderResult::DeleteDocument(doc(1)));
        }
        _ => panic!("nothing was sent"),
    }
    assert!(!thread.documents.contains(&doc(1)));
    assert!(!thread.doc_to_window.contains(&doc(1)));
    thread.handle_request(SceneBuilderRequest::ClearNamespace(WIN_A, 7));
    assert_eq!(thread.documents.keys, vec![other]);
    assert_eq!(thread.doc_to_window.keys, vec![other]);
}

#[test]
fn requests_are_passed_on() {
    let mut thread = thread();
    let sent = |action| match action {
        RequestAction::Send(result) => result,
        _ => panic!("nothing was sent"),
    };
    assert_eq!(
        sent(thread.handle_request(SceneBuilderRequest::Flush(3))),
        SceneBuilderResult::FlushComplete(3)
    );
    assert_eq!(
        sent(thread.handle_request(SceneBuilderRequest::StopWindow(WIN_B, 4))),
        SceneBuilderResult::StopWindow(WIN_B, 4)
    );
    assert_eq!(
        sent(thread.handle_request(SceneBuilderRequest::ExternalEvent(WIN_B, 5))),
        SceneBuilderResult::ExternalEvent(WIN_B, 5)
    );
    assert_eq!(
        sent(thread.handle_request(SceneBuilderRequest::GetGlyphIndices(WIN_B, 6))),
        SceneBuilderResult::GetGlyphIndices(WIN_B, 6)
    );
    assert_eq!(
        sent(thread.handle_request(SceneBuilderRequest::GetGlyphDimensions(WIN_B, 6))),
        SceneBuilderResult::GetGlyphDimensions(WIN_B, 6)
    );
    assert_eq!(
        sent(thread.handle_request(SceneBuilderRequest::SetParameter(WIN_A, 7))),
        SceneBuilderResult::SetParameter(WIN_A, 7)
    );
    match thread.handle_request(SceneBuilderRequest::ShutDown(Some(8))) {
        RequestAction::Stop(result) => {
            assert_eq!(result, SceneBuilderResult::ShutDown(Some(8)));
        }
        _ => panic!("the thread goes on"),
    }
}

#[test]
fn captures_name_their_files() {
    let mut thread = thread();
    let config = CaptureConfig { id: 1, scene: true, frame: false };
    match thread.handle_request(SceneBuilderRequest::StartCaptureSequence(config)) {
        RequestAction::Capture { config: used, files } => {
            assert_eq!(used, config);
            let names: Vec<&str> = files.iter().map(|f| f.name.as_str()).collect();
            assert_eq!(
                names,
                vec![
                    "interners-7-1",
                    "scene-spatial-tree-7-1",
                    "scene-7-1",
                    "interners-7-2",
                    "scene-spatial-tree-7-2",
                    "scene-7-2",
                ]
            );
            assert_eq!(files[5].part, CapturePart::Scene);
        }
        _ => panic!("nothing is captured"),
    }
    assert!(thread.save_capture_sequence().is_some());
    thread.handle_request(SceneBuilderRequest::StopCaptureSequence);
    assert!(thread.save_capture_sequence().is_none());
    let files = thread.save_scene(CaptureConfig { id: 2, scene: false, frame: true });
    assert_eq!(files.len(), 4);
}

fn built(document_id: DocumentId, scene: Option<BuiltScene>) -> BuiltTransaction {
    let mut thread = thread();
    let mut request = txn(document_id, Vec::new());
    let (progress, _) = thread.start_transaction(&mut request, 0);
    let mut done = thread.finish_transaction(request, progress, None, 0, None).built;
    done.built_scene = scene;
    done
}

fn hook_both(thread: &mut SceneBuilderThread) {
    for window in [WIN_A, WIN_B] {
        thread.handle_request(SceneBuilderRequest::SetSceneBuilderHooks(window, true));
    }
}

#[test]
fn each_window_hears_of_its_own_documents() {
    let mut thread = thread();
    hook_both(&mut thread);
    let scene = |id, p| {
        Some(BuiltScene { id, pipeline_epochs: vec![(pipeline(p), Epoch(id as u32))] })
    };
    let mut first = built(doc(1), scene(10, 1));
    first.removed_pipelines = vec![(pipeline(5), doc(1))];
    first.profile.scene_build_time_ns = Some(70);
    let mut second = built(doc(2), scene(20, 2));
    second.profile.scene_build_time_ns = Some(90);
    let plan = thread.forward_built_transactions(&vec![first, second]);
    assert_eq!(plan.scene_build_time_ns, Some(90));
    assert_eq!(plan.pre_scene_swap, vec![WIN_A, WIN_B]);
    assert!(plan.wait_for_swap);
    assert_eq!(plan.post.len(), 2);
    match &plan.post[0] {
        HookCall::PostSceneSwap { window, documents, info, schedule_frame } => {
            assert_eq!(*window, WIN_A);
            assert_eq!(*documents, vec![doc(1)]);
            assert!(*schedule_frame);
            let key = DocumentPipeline { pipeline_id: pipeline(1), document_id: doc(1) };
            assert_eq!(info.epochs.keys, vec![key]);
            assert_eq!(info.epochs.values, vec![Epoch(10)]);
            assert_eq!(info.removed_pipelines, vec![(pipeline(5), doc(1))]);
        }
        _ => panic!("no scene was swapped"),
    }
    match &plan.post[1] {
        HookCall::PostSceneSwap { window, info, .. } => {
            assert_eq!(*window, WIN_B);
            assert_eq!(info.epochs.values, vec![Epoch(20)]);
            assert!(info.removed_pipelines.is_empty());
        }
        _ => panic!("no scene was swapped"),
    }
}

#[test]
fn windows_without_scenes_hear_of_updates() {
    let mut thread = thread();
    hook_both(&mut thread);
    let mut first = built(doc(1), None);
    first.resource_updates = vec![1];
    first.render_frame = true;
    let second = built(doc(2), None);
    let plan = thread.forward_built_transactions(&vec![first, second]);
    assert!(!plan.wait_for_swap);
    assert!(plan.pre_scene_swap.is_empty());
    match (&plan.post[0], &plan.post[1]) {
        (
            HookCall::PostResourceUpdate { window: a, documents },
            HookCall::PostEmptySceneBuild { window: b },
        ) => {
            assert_eq!((*a, *b), (WIN_A, WIN_B));
            assert_eq!(*documents, vec![doc(1)]);
        }
        _ => panic!("the windows were told something else"),
    }
    let unknown = built(doc(1), None);
    let mut stranger = unknown;
    stranger.document_id = doc(77);
    assert!(thread.forward_built_transactions(&vec![stranger]).post.is_empty());
}

#[test]
fn a_frame_that_is_drawn_is_not_scheduled() {
    let mut thread = thread();
    hook_both(&mut thread);
    let mut first = built(doc(1), Some(BuiltScene { id: 1, pipeline_epochs: Vec::new() }));
    first.render_frame = true;
    match &thread.forward_built_transactions(&vec![first]).post[0] {
        HookCall::PostSceneSwap { schedule_frame, .. } => assert!(!*schedule_frame),
        _ => panic!("no scene was swapped"),
    }
}

#[test]
fn loaded_scenes_replace_documents() {
    let mut thread = thread();
    let mut scene = Scene::new();
    scene.set_root_pipeline_id(pipeline(1));
    scene.set_display_list(
        pipeline(1),
        Epoch(2),
        DisplayListId(3),
        ListDetails::Namespace(1),
    );
    let view = SceneView {
        device_rect: DeviceIntRect::from_size(DeviceIntSize::new(9, 9)),
        quality_settings: QualitySettings { force_subpixel_aa_where_possible: false },
    };
    let item = LoadScene {
        document_id: doc(1),
        scene,
        view,
        config: FrameBuilderConfig(99),
        build_frame: true,
    };
    let built = thread.load_scene(item, Some(build(40, Vec::new())));
    assert!(built.render_frame && built.present && !built.is_tracked);
    assert_eq!(built.interner_updates, Some(41));
    assert_eq!(thread.config, FrameBuilderConfig(99));
    assert_eq!(thread.documents.get(&doc(1)).unwrap().stats, SceneStats::empty());
    assert_eq!(thread.documents.get(&doc(1)).unwrap().view, view);
    let config = CaptureConfig { id: 1, scene: true, frame: true };
    assert!(thread.capture_batch(&vec![built]).is_none());
    thread.handle_request(SceneBuilderRequest::StartCaptureSequence(config));
    assert!(thread.capture_batch(&Vec::new()).is_none());
}

#[test]
fn the_thread_of_low_priority_passes_requests_on() {
    assert!(matches!(
        low_priority_action(SceneBuilderRequest::Transactions(Vec::new())),
        LowPriorityAction::Rasterize(_)
    ));
    assert!(matches!(
        low_priority_action(SceneBuilderRequest::ShutDown(None)),
        LowPriorityAction::ForwardAndStop(SceneBuilderRequest::ShutDown(None))
    ));
    assert!(matches!(
        low_priority_action(SceneBuilderRequest::Flush(4)),
        LowPriorityAction::Forward(SceneBuilderRequest::Flush(4))
    ));
}

#[test]
fn transactions_run_against_the_clock() {
    let mut thread = thread();
    let mut request = txn(
        doc(1),
        vec![
            SceneMsg::SetRootPipeline(pipeline(1)),
            set_list(1, 4),
            SceneMsg::RenderOffscreen(pipeline(1)),
            SceneMsg::UpdateEpoch(pipeline(1), Epoch(9)),
        ],
    );
    let (mut progress, window) = thread.begin_transaction(&mut request);
    assert_eq!(window, None);
    assert!(progress.scene_build_start_ns > 0);
    assert_eq!(thread.process_ops(&mut progress), OpsPause::BuildOffscreen(pipeline(1)));
    assert_eq!(progress.done, 3);
    progress.offscreen_scenes.push(OffscreenBuiltScene { scene: 50, spatial_tree_updates: 51 });
    assert_eq!(thread.process_ops(&mut progress), OpsPause::Finished);
    assert_eq!(thread.process_ops(&mut progress), OpsPause::Finished);
    assert!(progress.profile.content_send_time_ns.unwrap() > 0);
    assert_eq!(progress.profile.display_list_build_time_ns, Some(50));
    assert!(thread.needs_scene(&progress));
    assert_eq!(progress.scene_build_end_ns, None);
    progress.scene_built();
    let finished = thread.end_transaction(request, progress, Some(build(6, Vec::new())), None);
    let built = finished.unwrap().built;
    assert_eq!(built.built_scene.unwrap().id, 6);
    assert_eq!(built.offscreen_scenes.len(), 1);
    assert_eq!(built.profile.scene_build_time_ns, Some(built.frame_stats.scene_build_time_ns));
}

#[test]
fn changes_are_made_at_their_time() {
    let mut thread = thread();
    let mut request = txn(doc(1), vec![set_list(1, 4), SceneMsg::RenderOffscreen(pipeline(1))]);
    let (mut progress, _) = thread.start_transaction(&mut request, 100);
    assert_eq!(thread.next_op_at(&mut progress, 159), OpStep::WrongTimes);
    assert_eq!(progress.done, 0);
    assert_eq!(thread.next_op_at(&mut progress, 160), OpStep::Made(OpAction::Applied));
    assert_eq!(progress.profile.content_send_time_ns, Some(0));
    assert_eq!(
        thread.next_op_at(&mut progress, 0),
        OpStep::Made(OpAction::BuildOffscreen(pipeline(1)))
    );
    assert_eq!(thread.next_op_at(&mut progress, 0), OpStep::Made(OpAction::Finished));
}

#[test]
fn scenes_are_not_built_before_they_are_begun() {
    let mut thread = thread();
    let mut begin = || {
        let mut request = txn(doc(1), Vec::new());
        let (progress, _) = thread.start_transaction(&mut request, 100);
        (request, progress)
    };
    let early = begin();
    let (request, mut progress) = begin();
    progress.scene_built_at(130);
    assert!(thread.end_transaction_at(early.0, early.1, None, None, 99).is_none());
    let built = thread.end_transaction(request, progress, None, None).unwrap().built;
    assert_eq!(built.profile.scene_build_time_ns, Some(30));
    assert_eq!(built.frame_stats.scene_build_time_ns, 30);
}

#[test]
fn lists_from_the_future_are_not_measured() {
    let mut thread = thread();
    let mut late = list(4);
    late.send_time_ns = u64::MAX;
    let op = SceneMsg::SetDisplayList {
        epoch: Epoch(1),
        pipeline_id: pipeline(1),
        display_list: late,
        namespace: 1,
    };
    let mut request = txn(doc(1), vec![SceneMsg::SetRootPipeline(pipeline(1)), op]);
    let (mut progress, _) = thread.begin_transaction(&mut request);
    assert_eq!(thread.process_ops(&mut progress), OpsPause::WrongTimes);
    assert_eq!(progress.done, 1);
    assert!(progress.rebuild_scene);
    assert_eq!(progress.profile.content_send_time_ns, None);
}
