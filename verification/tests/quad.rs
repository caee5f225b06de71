use webrender::float_bits::FloatBits;
use webrender::internal_types::{
    ClipSpace, ColorF, EdgeMask, FloatPoint, FrameId, GpuTransformId, PatternKind, PatternShaderInput,
    QuadFlags, RenderTaskId, SpatialNodeIndex,
};
use webrender::quad::batch::{write_layout_prim_blocks, QuadPrimitive};
use webrender::quad::clips::{
    clip_placement, prepare_clip_task, ClipForTask, ClipItemKind, ClipPlacement, MaskedArea,
};
use webrender::quad::draw::{
    prepare_border_image_nine_patch, prepare_quad, prepare_repeatable_quad, BorderImageSegment,
    QuadGeometry, QuadInputs, RepeatableQuad, RepeatedQuad, SplitGeometry,
};
use webrender::quad::prepare::{
    cache_request, FrameCommand, Pattern, PatternSource, QuadFrame,
};
use webrender::quad::split::{prepare_nine_patch, NinePatchCuts, SplitQuad};
use webrender::quad::tiles::{ClipMode, QuadTileClassifier};
use webrender::quad::{
    cache_key, get_prim_render_strategy, quad_strategy, repetition_strategy, BorderRadius,
    CachedClip, ClipSummary, QuadCacheKey, QuadRenderStrategy, QuadTransformState, RelativeTransform,
    RepetitionMeasures, RepetitionStrategy, ScaleOffset, SingleClip,
};
use webrender::render_task::gpu_data::to_float_rect;
use webrender::render_task::{FloatRect, RenderTaskKind, SubTask};
use webrender::render_task_graph::RenderTaskGraphBuilder;
use webrender::renderer::gpu_buffer::{GpuBufferBlockF, GpuBufferBuilderImpl};
use webrender::units::{DeviceIntPoint, DeviceIntRect};

fn bits(value: f32) -> FloatBits {
    FloatBits(value.to_bits())
}

fn point(x: f32, y: f32) -> FloatPoint {
    FloatPoint { x: bits(x), y: bits(y) }
}

fn rect(x0: i32, y0: i32, x1: i32, y1: i32) -> DeviceIntRect {
    DeviceIntRect::new(DeviceIntPoint::new(x0, y0), DeviceIntPoint::new(x1, y1))
}

fn float_rect(x0: i32, y0: i32, x1: i32, y1: i32) -> FloatRect {
    to_float_rect(rect(x0, y0, x1, y1))
}

fn rounded(radius: f32, size: f32) -> SingleClip {
    let corner = point(radius, radius);
    SingleClip {
        rounded: Some((
            BorderRadius {
                top_left: corner,
                top_right: corner,
                bottom_left: corner,
                bottom_right: corner,
            },
            ClipMode::Clip,
        )),
        size: point(size, size),
        matches_prim: true,
        rect_in_prim_space: Some(float_rect(0, 0, 400, 400)),
    }
}

fn clips(size: f32, single: Option<SingleClip>) -> ClipSummary {
    ClipSummary { needs_mask: true, coverage_size: point(size, size), count: 1, single }
}

#[test]
fn strategies_follow_the_clips() {
    assert_eq!(get_prim_render_strategy(&no_mask(), true), QuadRenderStrategy::Direct);
    let small = clips(256.0, Some(rounded(8.0, 256.0)));
    assert_eq!(get_prim_render_strategy(&small, true), QuadRenderStrategy::Indirect);
    let large = clips(400.0, Some(rounded(8.0, 400.0)));
    assert_eq!(get_prim_render_strategy(&large, false), QuadRenderStrategy::Indirect);
    assert_eq!(
        get_prim_render_strategy(&large, true),
        QuadRenderStrategy::NinePatch {
            radius: point(8.0, 8.0),
            clip_rect: float_rect(0, 0, 400, 400)
        }
    );
    let round = clips(400.0, Some(rounded(201.0, 400.0)));
    assert_eq!(get_prim_render_strategy(&round, true), QuadRenderStrategy::Tiled);
    let many = ClipSummary { count: 2, ..clips(400.0, None) };
    assert_eq!(get_prim_render_strategy(&many, true), QuadRenderStrategy::Tiled);
    assert_eq!(quad_strategy(true, &many, true), QuadRenderStrategy::Indirect);
    assert_eq!(quad_strategy(false, &many, true), QuadRenderStrategy::Tiled);
}

fn measures(prim: f32, stretch: f32, repetitions: f32, surface: f32) -> RepetitionMeasures {
    RepetitionMeasures {
        stretch_size: point(stretch, stretch),
        prim_size: point(prim, prim),
        pattern_is_task: false,
        repetitions: bits(repetitions),
        surface_size: point(surface, surface),
        surface_area: bits(surface * surface),
    }
}

#[test]
fn patterns_are_repeated_where_they_are_small() {
    assert_eq!(repetition_strategy(&measures(10.0, 10.0, 1.0, 10.0)), RepetitionStrategy::Single);
    let task = RepetitionMeasures { pattern_is_task: true, ..measures(100.0, 10.0, 100.0, 10.0) };
    assert_eq!(repetition_strategy(&task), RepetitionStrategy::RepeatTask);
    assert_eq!(
        repetition_strategy(&measures(100.0, 10.0, 100.0, 10.0)),
        RepetitionStrategy::RepeatPattern
    );
    assert_eq!(
        repetition_strategy(&measures(100.0, 90.0, 2.0, 3000.0)),
        RepetitionStrategy::Duplicate
    );
}

fn transform(state: &mut QuadTransformState, scale: f32) {
    state.set(
        SpatialNodeIndex(1),
        SpatialNodeIndex(1),
        &RelativeTransform {
            scale_offset: Some(ScaleOffset { scale: point(scale, scale), offset: point(0.0, 0.0) }),
            axis_aligned: true,
            scale_factors: point(scale, scale),
        },
        bits(1.0),
    );
}

#[test]
fn transforms_are_kept() {
    let mut state = QuadTransformState::new();
    transform(&mut state, 2.0);
    assert!(state.is_2d_scale_offset() && state.is_2d_axis_aligned());
    assert_eq!(state.scale_factors(), point(2.0, 2.0));
    assert_eq!(state.prim_spatial_node_index(), SpatialNodeIndex(1));
    assert_eq!(state.device_pixel_scale(), bits(1.0));
    assert_eq!(state.as_2d_scale_offset().map(|s| s.scale), Some(point(2.0, 2.0)));
}

#[test]
fn cache_keys_name_the_quad() {
    let mut state = QuadTransformState::new();
    transform(&mut state, 1.0);
    let clip = |uid| CachedClip { uid, spatial_node: SpatialNodeIndex(1) };
    let key = cache_key(5, &state, &vec![clip(6)]).unwrap();
    assert_eq!(key.prim, 5);
    assert_eq!(key.clips[0], 6);
    let other = cache_key(5, &state, &vec![clip(7)]).unwrap();
    assert!(key != other);
    assert!(cache_key(5, &state, &vec![clip(1), clip(2), clip(3), clip(4)]).is_none());
}

#[test]
fn clips_are_placed_by_their_space() {
    assert_eq!(clip_placement(1, 1, 1), ClipPlacement::Device);
    assert_eq!(clip_placement(2, 1, 1), ClipPlacement::Device);
    assert_eq!(clip_placement(1, 5, 3), ClipPlacement::ClipToPrim);
    assert_eq!(clip_placement(3, 5, 1), ClipPlacement::PrimToClip);
}

fn pattern() -> Pattern {
    Pattern {
        kind: PatternKind::ColorOrTexture,
        shader_input: PatternShaderInput(0, 0),
        texture_input: RenderTaskId::invalid(),
        base_color: ColorF::white(),
        is_opaque: true,
    }
}

fn prim(bounds: FloatRect) -> QuadPrimitive {
    QuadPrimitive {
        bounds,
        clip: bounds,
        input_task: RenderTaskId::invalid(),
        pattern_scale_offset: ScaleOffset::identity(),
        color: ColorF::white(),
    }
}

fn no_mask() -> ClipSummary {
    ClipSummary { needs_mask: false, ..clips(400.0, None) }
}

fn frame() -> QuadFrame {
    QuadFrame {
        gpu_buffer: GpuBufferBuilderImpl::new(0, FrameId::first()),
        rg_builder: RenderTaskGraphBuilder::new(),
        commands: Vec::new(),
        surface_tasks: Vec::new(),
    }
}

fn inputs(geometry: QuadGeometry) -> QuadInputs {
    QuadInputs {
        pattern: pattern(),
        prim_size: point(400.0, 400.0),
        aligned_aa_edges: EdgeMask::empty(),
        transformed_aa_edges: EdgeMask::empty(),
        prim_instance_index: 9,
        to_raster: GpuTransformId::identity(),
        clips: Vec::new(),
        cached: None,
        geometry,
    }
}

#[test]
fn a_quad_without_a_mask_is_drawn_directly() {
    let mut state = QuadTransformState::new();
    transform(&mut state, 1.0);
    let mut frame = frame();
    let strategy = prepare_quad(
        inputs(QuadGeometry::Direct { prim: prim(float_rect(0, 0, 400, 400)) }),
        false,
        &no_mask(),
        &state,
        &mut QuadTileClassifier::new(),
        &mut frame,
    );
    assert_eq!(strategy, QuadRenderStrategy::Direct);
    assert!(frame.rg_builder.tasks.is_empty());
    assert_eq!(frame.commands.len(), 1);
    match &frame.commands[0] {
        FrameCommand::PushPrim { command, .. } => {
            assert_eq!(command.pattern, PatternKind::ColorOrTexture);
            assert_eq!(command.prim_instance_index, 9);
        }
        _ => panic!("nothing was drawn"),
    }
}

fn tiled(surface: DeviceIntRect) -> QuadGeometry {
    let whole = to_float_rect(surface);
    QuadGeometry::Tiled {
        surface_rect: Some(surface),
        split: SplitGeometry {
            task_prim: prim(whole),
            direct_prim: prim(whole),
            composite_rect: whole,
            coverage_rect: whole,
        },
        clips: Vec::new(),
    }
}

#[test]
fn tiles_without_masks_need_no_task() {
    let mut state = QuadTransformState::new();
    transform(&mut state, 1.0);
    let mut frame = frame();
    let many = ClipSummary { count: 2, ..clips(700.0, None) };
    let strategy = prepare_quad(
        inputs(tiled(rect(0, 0, 700, 700))),
        false,
        &many,
        &state,
        &mut QuadTileClassifier::new(),
        &mut frame,
    );
    assert_eq!(strategy, QuadRenderStrategy::Tiled);
    assert!(frame.rg_builder.tasks.is_empty());
    assert!(!frame.commands.is_empty());
}

#[test]
fn a_single_quad_is_not_repeated() {
    let mut state = QuadTransformState::new();
    transform(&mut state, 1.0);
    let mut frame = frame();
    let quad = inputs(QuadGeometry::Direct { prim: prim(float_rect(0, 0, 10, 10)) });
    let strategy = prepare_repeatable_quad(
        &measures(10.0, 10.0, 1.0, 10.0),
        RepeatableQuad::Single { quad },
        false,
        &no_mask(),
        &state,
        &mut QuadTileClassifier::new(),
        &mut frame,
    );
    assert_eq!(strategy, (RepetitionStrategy::Single, QuadRenderStrategy::Direct));
    assert_eq!(frame.commands.len(), 1);
}

#[test]
fn corners_of_a_nine_patch_are_tasks() {
    let whole = float_rect(0, 0, 300, 300);
    let quad = SplitQuad {
        pattern: pattern(),
        prim_instance_index: 1,
        transform_id: GpuTransformId::identity(),
        is_scale_offset: true,
        aa_flags: EdgeMask::empty(),
        quad_flags: QuadFlags::empty(),
        clips: Vec::new(),
        coverage_rect: whole,
        task_prim: prim(whole),
        direct_prim: prim(whole),
        composite_rect: whole,
    };
    let cuts = NinePatchCuts {
        x: (300, 0, 280, 20),
        y: (0, 20, 280, 300),
        clip: rect(0, 0, 300, 300),
    };
    let mut frame = frame();
    prepare_nine_patch(&quad, &cuts, &mut frame);
    assert_eq!(frame.rg_builder.tasks.len(), 4);
    assert_eq!(frame.rg_builder.tasks[0].location.size().width, 20);
    assert_eq!(frame.surface_tasks.len(), 4);
    let mut clipped = self::frame();
    let cuts = NinePatchCuts { clip: rect(0, 0, 300, 100), ..cuts };
    prepare_nine_patch(&quad, &cuts, &mut clipped);
    assert_eq!(clipped.rg_builder.tasks.len(), 2);
}

#[test]
fn quads_are_written_in_five_blocks() {
    let mut builder: GpuBufferBuilderImpl<GpuBufferBlockF> =
        GpuBufferBuilderImpl::new(0, FrameId::first());
    let bounds = float_rect(1, 2, 3, 4);
    let address = write_layout_prim_blocks(
        &mut builder,
        bounds,
        bounds,
        ColorF::white(),
        RenderTaskId::invalid(),
        &Vec::new(),
    );
    assert_eq!(address.as_u32(), 0);
    let buffer = builder.finalize(&webrender::render_task_graph::TaskPlacements {
        placements: Vec::new(),
    });
    let one = 1.0f32.to_bits();
    assert_eq!(
        buffer.data[0].data,
        [one, 2.0f32.to_bits(), 3.0f32.to_bits(), 4.0f32.to_bits()]
    );
    assert_eq!(buffer.data[3].data, [one, one, 0, 0]);
    assert_eq!(buffer.data[4].data, [one, one, one, one]);
}

fn clip(prim_system: u32, raster_system: u32, clip_system: u32) -> ClipForTask {
    ClipForTask {
        kind: ClipItemKind::Rectangle { mode: ClipMode::Clip },
        clip_rect: float_rect(1, 1, 9, 9),
        prim_system,
        raster_system,
        clip_system,
        to_raster: GpuTransformId { index: 3, axis_aligned: false },
        to_raster_is_scale_offset: false,
        clip_transform: GpuTransformId { index: 4, axis_aligned: true },
    }
}

#[test]
fn clips_are_drawn_where_their_systems_place_them() {
    let area = MaskedArea {
        task_rect: float_rect(0, 0, 10, 10),
        coverage_rect: float_rect(-2, -2, 12, 12),
    };
    let drawn = |clip: ClipForTask| {
        let mut frame = frame();
        let mut range = frame.rg_builder.begin_sub_tasks();
        prepare_clip_task(
            &clip,
            &area,
            &mut frame.gpu_buffer,
            &mut frame.rg_builder,
            &mut range,
        );
        match frame.rg_builder.sub_tasks[0] {
            SubTask::RectangleClip(task) => task,
            _ => panic!("there is no rectangle"),
        }
    };
    let task = drawn(clip(2, 1, 1));
    assert_eq!(task.clip_space, ClipSpace::Device);
    assert_eq!(task.quad_transform_id, GpuTransformId::identity());
    assert_eq!(task.clip_transform_id.index, 4);
    assert!(!task.needs_scissor_rect && task.quad_flags.apply_render_task_clip);
    let task = drawn(clip(5, 5, 1));
    assert_eq!(task.clip_space, ClipSpace::Primitive);
    assert_eq!(task.quad_transform_id.index, 3);
    assert!(!task.needs_scissor_rect);
    let task = drawn(clip(1, 5, 3));
    assert!(task.needs_scissor_rect && !task.quad_flags.apply_render_task_clip);
}

fn source() -> PatternSource {
    PatternSource {
        pattern: pattern(),
        prim: prim(float_rect(0, 0, 30, 20)),
        quad_rect: rect(0, 0, 30, 20),
        coverage_rect: float_rect(0, 0, 30, 20),
    }
}

#[test]
fn repeated_patterns_are_drawn_plainly() {
    let mut state = QuadTransformState::new();
    transform(&mut state, 1.0);
    let quad = || inputs(QuadGeometry::Direct { prim: prim(float_rect(0, 0, 600, 400)) });
    let many = measures(600.0, 30.0, 400.0, 30.0);
    let mut frame = frame();
    let strategy = prepare_repeatable_quad(
        &many,
        RepeatableQuad::RepeatPattern { source: source(), cached: None, quad: quad() },
        false,
        &no_mask(),
        &state,
        &mut QuadTileClassifier::new(),
        &mut frame,
    );
    assert_eq!(strategy, (RepetitionStrategy::RepeatPattern, QuadRenderStrategy::Direct));
    assert_eq!(frame.rg_builder.tasks.len(), 1);
    match &frame.rg_builder.tasks[0].kind {
        RenderTaskKind::Prim(task) => {
            assert_eq!(task.transform_id, GpuTransformId::identity());
            assert_eq!(task.edge_flags, EdgeMask::empty());
            assert!(task.quad_flags.is_opaque && !task.prim_needs_scissor_rect);
        }
        _ => panic!("the pattern was not drawn"),
    }
    match &frame.commands[0] {
        FrameCommand::PushPrim { command, .. } => {
            assert_eq!(command.src_task, RenderTaskId { index: 0 });
        }
        _ => panic!("nothing was drawn"),
    }
    // A quad with a key is drawn to a task, also where its pattern comes from the cache.
    let mut cached = self::frame();
    let id = RenderTaskId { index: 77 };
    let whole = inputs(QuadGeometry::Indirect {
        surface_rect: Some(rect(0, 0, 600, 400)),
        prim: prim(float_rect(0, 0, 600, 400)),
        quad_rect: rect(0, 0, 600, 400),
        coverage_rect: float_rect(0, 0, 600, 400),
    });
    let strategy = prepare_repeatable_quad(
        &many,
        RepeatableQuad::RepeatPattern { source: source(), cached: Some(id), quad: whole },
        true,
        &no_mask(),
        &state,
        &mut QuadTileClassifier::new(),
        &mut cached,
    );
    assert_eq!(strategy.1, QuadRenderStrategy::Indirect);
    assert_eq!(cached.rg_builder.tasks.len(), 1);
    assert_eq!(cached.surface_tasks[0], id);
}

#[test]
fn parts_of_a_border_image_read_their_patterns() {
    let mut state = QuadTransformState::new();
    transform(&mut state, 1.0);
    let part = || RepeatedQuad {
        quad: inputs(QuadGeometry::Direct { prim: prim(float_rect(0, 0, 60, 40)) }),
        outer_edges: EdgeMask::empty(),
    };
    let mut empty = source();
    empty.quad_rect = rect(0, 0, 0, 20);
    let mut frame = frame();
    let strategy = prepare_border_image_nine_patch(
        vec![
            BorderImageSegment { source: source(), part: part() },
            BorderImageSegment { source: empty, part: part() },
            BorderImageSegment { source: source(), part: part() },
        ],
        &no_mask(),
        &state,
        &mut QuadTileClassifier::new(),
        &mut frame,
    );
    assert_eq!(strategy, QuadRenderStrategy::Direct);
    assert_eq!(frame.rg_builder.tasks.len(), 2);
    assert_eq!(frame.commands.len(), 2);
}

#[test]
fn the_cache_is_asked_for_opaque_tasks() {
    let key = QuadCacheKey { prim: 5, clips: [0; 3], transform: [0; 4] };
    let mut quad = source().quad(None);
    let request = cache_request(&quad, key).unwrap();
    assert_eq!(request.origin, DeviceIntPoint::new(0, 0));
    assert_eq!((request.size.width, request.size.height), (30, 20));
    assert!(request.is_opaque);
    quad.clips.push(clip(1, 1, 1));
    assert!(!cache_request(&quad, key).unwrap().is_opaque);
    quad.quad_rect = rect(0, 0, 0, 20);
    assert!(cache_request(&quad, key).is_none());
}
