use std::collections::VecDeque;
use webrender::clock::FrameClock;
use webrender::internal_types::{FrameId, ImageFormat};
use webrender::renderer::cache_texture::{
    update_vertex_data, CacheCommand, CacheRow, CacheTexture, GpuBlockData, GpuCacheAddress,
    GpuCacheUpdate, GpuCacheUpdateList,
};
use webrender::renderer::debug::{DebugDraw, DebugRenderer};
use webrender::renderer::render::{DrawnFrame, GpuSamples};
use webrender::renderer::state::{
    fits_pixels, pixel_buffer, record, DebugCommand, Renderer, RendererFrame, ResultMsg,
    UpdateAction,
};
use webrender::renderer::textures::{
    external_pixels, update_deferred_resolves, update_texture_cache, Binding, DeferredResolve,
    DeviceUintRect, ExternalImageKey, ExternalImageType, ExternalReply, ExternalTexture,
    ImagePixels, SourceTexture, SourceTextureResolver, TextureCommand, TextureFilter, TextureId,
    TextureTarget, TextureUpdate, TextureUpdateOp, TextureUpdateSource,
};
use webrender::renderer::{
    DebugFlags, DebugServer, ImageBufferKind, RendererError,
};

fn block(n: u32) -> GpuBlockData {
    GpuBlockData { data: [n, n, n, n] }
}

fn update(block_index: usize, block_count: usize, u: u16, v: u16) -> GpuCacheUpdate {
    GpuCacheUpdate { block_index, block_count, address: GpuCacheAddress { u, v } }
}

#[test]
fn patches_go_to_their_rows() {
    let mut cache = CacheTexture::new();
    cache.apply_patch(&update(1, 2, 5, 2), &vec![block(1), block(2), block(3)]);
    assert_eq!(cache.rows.len(), 3);
    assert_eq!(cache.cpu_blocks.len(), 3 * 1024);
    assert!(!cache.rows[0].is_dirty && !cache.rows[1].is_dirty && cache.rows[2].is_dirty);
    assert_eq!(cache.cpu_blocks[2 * 1024 + 5], block(2));
    assert_eq!(cache.cpu_blocks[2 * 1024 + 6], block(3));
    assert_eq!(cache.cpu_blocks[2 * 1024 + 7], GpuBlockData::empty());
    assert!(!CacheRow::new().is_dirty);
}

#[test]
fn only_dirty_rows_are_handed_over() {
    let mut cache = CacheTexture::new();
    cache.apply_patch(&update(0, 1, 0, 1), &vec![block(9)]);
    assert_eq!(
        cache.flush(),
        vec![
            CacheCommand::BindBuffer,
            CacheCommand::FillBuffer { first_block: 1024 },
            CacheCommand::CopyToRow { row: 1 },
            CacheCommand::OrphanBuffer,
            CacheCommand::UnbindBuffer,
        ]
    );
    assert_eq!(cache.flush(), vec![CacheCommand::BindBuffer, CacheCommand::UnbindBuffer]);
}

#[test]
fn a_larger_cache_is_handed_over_again() {
    let mut cache = CacheTexture::new();
    let list = |height, v| GpuCacheUpdateList {
        height,
        updates: vec![update(0, 1, 0, v)],
        blocks: vec![block(1)],
    };
    let init = |height| {
        Some(CacheCommand::Init { width: 1024, height, format: ImageFormat::RGBAF32 })
    };
    assert_eq!(cache.update(0, &list(2, 0)), init(2));
    cache.flush();
    assert_eq!(cache.update(2, &list(2, 1)), None);
    assert!(!cache.rows[0].is_dirty && cache.rows[1].is_dirty);
    cache.flush();
    assert_eq!(cache.update(2, &list(4, 1)), init(4));
    assert!(cache.rows[0].is_dirty && cache.rows[1].is_dirty);
}

#[test]
fn vertex_data_fills_whole_rows() {
    let mut data: Vec<u32> = (0..300).collect();
    let upload = update_vertex_data(&mut data, 7, 5, 0).unwrap();
    assert_eq!(upload.width, 1020);
    assert_eq!(upload.height, 2);
    assert_eq!(upload.new_height, Some(128));
    assert_eq!(data.len(), 2 * 204);
    assert_eq!(data[299], 299);
    assert_eq!(data[300], 7);
    let upload = update_vertex_data(&mut data, 7, 5, 128).unwrap();
    assert_eq!(upload.new_height, None);
    assert!(update_vertex_data(&mut Vec::<u32>::new(), 0, 5, 0).is_none());
}

fn external(id: u64) -> ExternalImageKey {
    ExternalImageKey { id, channel_index: 0 }
}

#[test]
fn textures_are_found_by_their_source() {
    let mut resolver = SourceTextureResolver::new(TextureId(100));
    assert_eq!(resolver.bind(&SourceTexture::Invalid), Binding::Unchanged);
    assert_eq!(resolver.resolve(&SourceTexture::Invalid), None);
    assert_eq!(resolver.bind(&SourceTexture::CacheA8), Binding::Texture(TextureId(100)));
    let image = ExternalTexture { id: 4, target: TextureTarget::Rect };
    resolver.insert_image(external(3), image);
    assert_eq!(resolver.bind(&SourceTexture::External(external(3))), Binding::External(image));
    assert_eq!(resolver.unlock_external_images(), vec![external(3)]);
    assert!(resolver.external_images.is_empty());
}

#[test]
fn passes_hand_their_targets_on() {
    let mut resolver = SourceTextureResolver::new(TextureId(100));
    let (mut a8, mut rgba8) = (Vec::new(), Vec::new());
    resolver.end_pass(0, 3, Some(TextureId(1)), Some(TextureId(2)), &mut a8, &mut rgba8);
    assert_eq!(resolver.resolve(&SourceTexture::CacheA8), Some(TextureId(1)));
    assert_eq!(resolver.bind(&SourceTexture::CacheRGBA8), Binding::Texture(TextureId(2)));
    resolver.end_pass(1, 3, None, Some(TextureId(3)), &mut a8, &mut rgba8);
    assert_eq!(a8, vec![TextureId(1)]);
    assert_eq!(rgba8, vec![TextureId(2)]);
    assert_eq!(resolver.resolve(&SourceTexture::CacheRGBA8), Some(TextureId(3)));
    resolver.end_pass(2, 3, None, None, &mut a8, &mut rgba8);
    assert_eq!(rgba8, vec![TextureId(2), TextureId(3)]);
    assert_eq!(resolver.deinit(), vec![TextureId(100)]);
}

#[test]
fn external_images_are_resolved() {
    let mut resolver = SourceTextureResolver::new(TextureId(100));
    let mut cache = CacheTexture::new();
    let resolve = DeferredResolve {
        key: external(8),
        image_type: ExternalImageType::TextureRectHandle,
        address: GpuCacheAddress { u: 3, v: 0 },
        reply: ExternalReply::NativeTexture { id: 55 },
        uv: block(6),
    };
    update_deferred_resolves(&mut resolver, &mut cache, &vec![resolve]);
    assert_eq!(cache.cpu_blocks[3], block(6));
    assert_eq!(
        resolver.bind(&SourceTexture::External(external(8))),
        Binding::External(ExternalTexture { id: 55, target: TextureTarget::Rect })
    );
}

#[test]
fn the_texture_cache_grows_with_new_textures() {
    let rect = DeviceUintRect { x: 0, y: 0, width: 4, height: 4 };
    let create = TextureUpdateOp::Create {
        width: 16,
        height: 16,
        format: ImageFormat::R8,
        filter: TextureFilter::Linear,
        is_target: false,
        layer_count: 1,
    };
    let source = TextureUpdateSource::Bytes { buffer: 9, len: 64 };
    let updates = vec![
        TextureUpdate { id: 0, op: create },
        TextureUpdate {
            id: 0,
            op: TextureUpdateOp::Update {
                rect,
                stride: Some(4),
                offset: 2,
                layer_index: 0,
                source,
            },
        },
        TextureUpdate { id: 0, op: TextureUpdateOp::Free },
    ];
    let mut count: usize = 0;
    let commands = update_texture_cache(&mut count, &updates);
    assert_eq!(count, 1);
    assert_eq!(
        commands,
        vec![
            TextureCommand::Create { index: 0 },
            TextureCommand::Init { index: 0, op: create },
            TextureCommand::BindBuffer,
            TextureCommand::FillBuffer { buffer: 9, offset: 2 },
            TextureCommand::CopyToTexture { index: 0, rect, layer_index: 0, stride: Some(4) },
            TextureCommand::UnbindBuffer,
            TextureCommand::FreeStorage { index: 0 },
        ]
    );
}

#[test]
fn missing_images_are_white() {
    let rect = DeviceUintRect { x: 0, y: 0, width: 3, height: 2 };
    assert_eq!(
        external_pixels(ExternalReply::RawData { len: 100 }, rect, None, 8, 4),
        ImagePixels::Data { offset: 8 }
    );
    assert_eq!(
        external_pixels(ExternalReply::Invalid, rect, None, 0, 4),
        ImagePixels::White { size: 24 }
    );
}

fn frame(id: u64, has_content: bool) -> RendererFrame {
    RendererFrame { id, has_content, pipeline_epochs: vec![(1, 10), (2, 20)], layers_bouncing_back: 2 }
}

fn new_frame(id: u64, has_content: bool) -> ResultMsg {
    ResultMsg::NewFrame {
        frame: frame(id, has_content),
        texture_updates: vec![TextureUpdate { id: 0, op: TextureUpdateOp::Free }],
        gpu_cache_updates: Some(GpuCacheUpdateList {
            height: 0,
            updates: Vec::new(),
            blocks: Vec::new(),
        }),
        backend_time_ns: 77,
    }
}

#[test]
fn frames_bring_their_updates() {
    let mut renderer = Renderer::new(2, 4096, DebugFlags::empty());
    assert_eq!(renderer.get_max_texture_size(), 4096);
    assert!(!renderer.should_draw() && !renderer.layers_are_bouncing_back());
    assert!(matches!(renderer.update(new_frame(1, false)), UpdateAction::Nothing));
    assert!(!renderer.should_draw() && renderer.layers_are_bouncing_back());
    assert!(renderer.pending_gpu_cache_updates.is_empty());
    renderer.update(new_frame(2, true));
    assert!(renderer.should_draw());
    assert_eq!(renderer.take_gpu_cache_updates().len(), 1);
    assert_eq!(renderer.pending_texture_updates.len(), 2);
    assert_eq!(renderer.current_epoch(1), Some(10));
    assert_eq!(renderer.current_epoch(3), None);
    assert_eq!(renderer.flush_rendered_epochs().len(), 2);
    assert_eq!(renderer.current_epoch(1), None);
}

#[test]
fn resource_updates_can_cancel_a_frame() {
    let mut renderer = Renderer::new(0, 4096, DebugFlags::empty());
    renderer.update(new_frame(1, true));
    let updates = vec![TextureUpdate { id: 0, op: TextureUpdateOp::Free }];
    match renderer.update(ResultMsg::UpdateResources { updates, cancel_rendering: true }) {
        UpdateAction::UpdateTextureCache(all) => assert_eq!(all.len(), 2),
        _ => panic!("nothing is updated"),
    }
    assert!(!renderer.should_draw());
    assert!(renderer.take_texture_updates().is_empty());
}

#[test]
fn debug_commands_turn_aids_on() {
    let mut renderer = Renderer::new(0, 4096, DebugFlags::empty());
    renderer.handle_debug_command(DebugCommand::EnableTextureCacheDebug(true));
    renderer.update(ResultMsg::DebugCommand(DebugCommand::EnableProfiler(true)));
    let flags = renderer.get_debug_flags();
    assert!(flags.texture_cache_dbg && flags.profiler_dbg);
    assert!(!flags.render_target_dbg && !flags.alpha_prim_dbg);
    assert!(matches!(
        renderer.handle_debug_command(DebugCommand::FetchPasses),
        UpdateAction::SendPasses
    ));
    renderer.set_debug_flags(DebugFlags::empty());
    assert_eq!(renderer.get_debug_flags().bits(), 0);
    match renderer.update(ResultMsg::DebugOutput(String::from("text"))) {
        UpdateAction::SendToDebugger(text) => {
            DebugServer::new().send(text.clone());
            assert_eq!(text, "text");
        }
        _ => panic!("nothing is sent"),
    }
}

#[test]
fn only_the_last_profiles_are_kept() {
    let mut renderer = Renderer::new(2, 4096, DebugFlags::empty());
    renderer.update(new_frame(1, true));
    for id in 1..4 {
        renderer.record_cpu_profile(FrameId(id), 5, 6);
        renderer.record_gpu_profile(FrameId(id), &vec![id, 10, 20]);
    }
    let (cpu, gpu) = renderer.get_frame_profiles();
    assert_eq!(cpu.iter().map(|p| p.frame_id.0).collect::<Vec<_>>(), vec![2, 3]);
    assert_eq!(cpu[0].backend_time_ns, 77);
    assert_eq!(gpu.iter().map(|p| p.paint_time_ns).collect::<Vec<_>>(), vec![32, 33]);
    assert!(renderer.get_frame_profiles().0.is_empty());
    let mut none: VecDeque<u8> = VecDeque::new();
    record(&mut none, 1, 0);
    assert!(none.is_empty());
}

#[test]
fn errors_are_handed_over_once() {
    let mut renderer = Renderer::new(0, 4096, DebugFlags::empty());
    assert!(renderer.finish_render().is_ok());
    renderer.renderer_errors.push(RendererError::MaxTextureSize);
    assert_eq!(renderer.finish_render().unwrap_err().len(), 1);
    assert!(renderer.finish_render().is_ok());
}

#[test]
fn pixels_have_four_channels() {
    assert_eq!(pixel_buffer(3, 2), vec![0; 24]);
    assert!(fits_pixels(24, 3, 2));
    assert!(!fits_pixels(23, 3, 2));
}

#[test]
fn texture_kinds_have_their_features() {
    assert_eq!(ImageBufferKind::Texture2D.get_feature_string(), "TEXTURE_2D");
    assert_eq!(ImageBufferKind::Texture2DArray.get_feature_string(), "");
    assert_eq!(ImageBufferKind::TextureRect.get_feature_string(), "TEXTURE_RECT");
    assert_eq!(ImageBufferKind::TextureExternal.get_feature_string(), "TEXTURE_EXTERNAL");
}

#[test]
fn frames_are_timed_from_end_to_end() {
    let mut clock = FrameClock { last_time: 100 };
    assert_eq!(clock.frame_ended_at(130), Some(30));
    assert_eq!(clock.frame_ended_at(90), None);
    assert_eq!(clock.last_time, 90);
}

#[test]
fn the_gpu_cache_is_brought_up_to_date() {
    let mut renderer = Renderer::new(0, 4096, DebugFlags::empty());
    for height in [1, 2] {
        renderer.update(ResultMsg::NewFrame {
            frame: frame(1, true),
            texture_updates: Vec::new(),
            gpu_cache_updates: Some(GpuCacheUpdateList {
                height,
                updates: vec![update(0, 1, 0, height as u16 - 1)],
                blocks: vec![block(height)],
            }),
            backend_time_ns: 0,
        });
    }
    let mut cache = CacheTexture::new();
    let mut height = 0;
    let mut resolver = SourceTextureResolver::new(TextureId(9));
    let key = ExternalImageKey { id: 5, channel_index: 0 };
    let resolve = DeferredResolve {
        key,
        image_type: ExternalImageType::Texture2DHandle,
        address: GpuCacheAddress { u: 3, v: 0 },
        reply: ExternalReply::NativeTexture { id: 44 },
        uv: block(8),
    };
    let commands =
        renderer.update_gpu_cache(&mut cache, &mut height, &mut resolver, &vec![resolve]);
    let init = |height| CacheCommand::Init { width: 1024, height, format: ImageFormat::RGBAF32 };
    assert_eq!(
        commands,
        vec![
            init(1),
            init(2),
            CacheCommand::BindBuffer,
            CacheCommand::FillBuffer { first_block: 0 },
            CacheCommand::CopyToRow { row: 0 },
            CacheCommand::OrphanBuffer,
            CacheCommand::FillBuffer { first_block: 1024 },
            CacheCommand::CopyToRow { row: 1 },
            CacheCommand::OrphanBuffer,
            CacheCommand::UnbindBuffer,
        ]
    );
    assert_eq!(height, 2);
    assert_eq!(cache.cpu_blocks[0], block(1));
    assert_eq!(cache.cpu_blocks[3], block(8));
    assert_eq!(cache.cpu_blocks[1024], block(2));
    assert!(renderer.pending_gpu_cache_updates.is_empty());
    assert_eq!(
        resolver.bind(&SourceTexture::External(key)),
        Binding::External(ExternalTexture { id: 44, target: TextureTarget::Default })
    );
}

#[test]
fn frames_without_content_leave_updates_waiting() {
    let mut renderer = Renderer::new(2, 4096, DebugFlags::empty());
    renderer.update(new_frame(1, false));
    let mut textures = 0;
    let mut cache = CacheTexture::new();
    let mut height = 0;
    let mut resolver = SourceTextureResolver::new(TextureId(9));
    let begun = renderer.begin_render(
        None,
        &mut textures,
        &mut cache,
        &mut height,
        &mut resolver,
        &Vec::new(),
    );
    assert!(begun.is_none());
    assert_eq!(renderer.pending_texture_updates.len(), 1);
    let mut debug = DebugRenderer::new();
    let mut clock = FrameClock { last_time: 7 };
    renderer.renderer_errors.push(RendererError::MaxTextureSize);
    let (end, result) = renderer.end_render(None, &mut debug, true, &mut clock);
    assert!(end.is_none() && clock.last_time == 7);
    assert_eq!(result.unwrap_err().len(), 1);
    assert!(renderer.end_render(None, &mut debug, true, &mut clock).1.is_ok());
}

#[test]
fn frames_are_drawn_between_updates_and_debugging() {
    let mut renderer = Renderer::new(2, 4096, DebugFlags::empty());
    renderer.update(ResultMsg::NewFrame {
        frame: frame(1, true),
        texture_updates: vec![TextureUpdate {
            id: 0,
            op: TextureUpdateOp::Create {
                width: 8,
                height: 8,
                format: ImageFormat::BGRA8,
                filter: TextureFilter::Linear,
                is_target: false,
                layer_count: 1,
            },
        }],
        gpu_cache_updates: None,
        backend_time_ns: 77,
    });
    let mut textures = 0;
    let mut cache = CacheTexture::new();
    let mut height = 0;
    let mut resolver = SourceTextureResolver::new(TextureId(9));
    let updates = renderer
        .begin_render(
            Some(GpuSamples { frame_id: FrameId(3), timers: vec![4, 5] }),
            &mut textures,
            &mut cache,
            &mut height,
            &mut resolver,
            &Vec::new(),
        )
        .unwrap();
    assert_eq!(textures, 1);
    assert_eq!(updates.textures[0], TextureCommand::Create { index: 0 });
    assert_eq!(updates.gpu_cache, vec![CacheCommand::BindBuffer, CacheCommand::UnbindBuffer]);
    assert_eq!(renderer.gpu_profiles[0].paint_time_ns, 9);
    let mut debug = DebugRenderer::new();
    let mut clock = FrameClock { last_time: 100 };
    let drawn = DrawnFrame { frame_id: FrameId(4), composite_time_ns: 55, draw_calls: 6 };
    let (end, result) =
        renderer.end_render_at(Some(drawn), &mut debug, true, &mut clock, 130);
    let end = end.unwrap();
    assert_eq!(end.frame_time_ns, Some(30));
    assert!(!end.draw_profile && result.is_ok());
    assert_eq!(end.debug, vec![DebugDraw::Setup]);
    assert_eq!(renderer.cpu_profiles[0].backend_time_ns, 77);
    assert_eq!(renderer.cpu_profiles[0].draw_calls, 6);
    let mut clock = FrameClock { last_time: 0 };
    let (end, _) = renderer.end_render(Some(drawn), &mut debug, false, &mut clock);
    assert_eq!(end.unwrap().frame_time_ns, Some(clock.last_time));
    assert!(clock.last_time > 0);
}
