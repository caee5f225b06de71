use webrender::float_bits::FloatBits;
use webrender::internal_types::{
    BlurEdgeMode, CacheTextureId, ColorF, CommandBufferIndex, EdgeMask, FloatPoint, FrameId,
    GpuTransformId, PatternKind, PatternShaderInput, QuadFlags, RenderTargetKind, RenderTaskId,
    SpatialNodeIndex, TextureSource, LineOrientation, LineStyle,
};
use webrender::render_task::blur::BlurTaskCache;
use webrender::render_task::gpu_data::to_float_rect;
use webrender::render_task::svg_graph::{blur_source, NodeDrawing};
use webrender::render_task::svg_plan::{plan_svg_filter_graph, DeviceFilterNode, FilterRegions};
use webrender::render_task::{
    BlurTask, CachedTask, ClipNodeRange, RenderTask, RenderTaskAddress, RenderTaskKind,
    RenderTaskLocation, StaticRenderTaskSurface,
};
use webrender::render_task_graph::{RenderTaskGraph, RenderTaskGraphBuilder, UvRectKind};
use webrender::renderer::gpu_buffer::{GpuBufferAddress, GpuBufferBuilder, GpuBufferBuilderImpl};
use webrender::svg_filter::{
    DeviceLengths, FilterGraphNode, FilterGraphOp, FilterGraphPictureReference,
    FilterOpGraphPictureBufferId,
};
use webrender::units::{DeviceIntPoint, DeviceIntRect, DeviceIntSize, LayoutRect};

fn bits(value: f32) -> FloatBits {
    FloatBits(value.to_bits())
}

fn rect(x0: i32, y0: i32, x1: i32, y1: i32) -> DeviceIntRect {
    DeviceIntRect::new(DeviceIntPoint::new(x0, y0), DeviceIntPoint::new(x1, y1))
}

fn layout(x0: i64, y0: i64, x1: i64, y1: i64) -> LayoutRect {
    LayoutRect { x0, y0, x1, y1 }
}

fn source(builder: &mut RenderTaskGraphBuilder, width: i32, height: i32) -> RenderTaskId {
    builder.add_task(RenderTask::new_dynamic(
        DeviceIntSize::new(width, height),
        RenderTaskKind::Cached(CachedTask { target_kind: RenderTargetKind::Color }),
    ))
}

fn blur(builder: &mut RenderTaskGraphBuilder, src: RenderTaskId, sigma: f32) -> RenderTaskId {
    RenderTask::new_blur(
        bits(sigma),
        bits(sigma),
        src,
        builder,
        RenderTargetKind::Color,
        &mut BlurTaskCache::new(),
        DeviceIntSize::new(200, 100),
        BlurEdgeMode::Duplicate,
    )
}

#[test]
fn a_small_blur_takes_two_tasks() {
    let mut builder = RenderTaskGraphBuilder::new();
    let src = source(&mut builder, 200, 100);
    let out = blur(&mut builder, src, 4.0);
    assert_eq!(builder.tasks.len(), 3);
    assert_eq!(out.index, 2);
    match &builder.tasks[1].kind {
        RenderTaskKind::VerticalBlur(BlurTask { blur_std_deviation, blur_region, .. }) => {
            assert_eq!(*blur_std_deviation, bits(4.0));
            assert_eq!(*blur_region, DeviceIntSize::new(200, 100));
        }
        _ => panic!("there is no vertical blur"),
    }
    assert_eq!(builder.tasks[2].kind.as_str(), "HorizontalBlur");
}

#[test]
fn a_large_blur_is_drawn_smaller() {
    let mut builder = RenderTaskGraphBuilder::new();
    let src = source(&mut builder, 200, 100);
    let out = blur(&mut builder, src, 10.0);
    let kinds: Vec<&str> = builder.tasks.iter().map(|task| task.kind.as_str()).collect();
    assert_eq!(kinds, vec!["Cached", "Scaling", "Scaling", "VerticalBlur", "HorizontalBlur"]);
    assert_eq!(builder.tasks[1].location.size(), DeviceIntSize::new(100, 50));
    assert_eq!(builder.get_task(out).location.size(), DeviceIntSize::new(50, 25));
    match &builder.get_task(out).kind {
        RenderTaskKind::HorizontalBlur(BlurTask { blur_std_deviation, blur_region, .. }) => {
            assert_eq!(*blur_std_deviation, bits(2.5));
            assert_eq!(*blur_region, DeviceIntSize::new(50, 25));
        }
        _ => panic!("there is no horizontal blur"),
    }
}

#[test]
fn blurs_share_their_steps() {
    let mut builder = RenderTaskGraphBuilder::new();
    let src = source(&mut builder, 200, 100);
    let mut cache = BlurTaskCache::new();
    let mut once = |builder: &mut RenderTaskGraphBuilder, sigma: f32| {
        RenderTask::new_blur(
            bits(sigma),
            bits(sigma),
            src,
            builder,
            RenderTargetKind::Color,
            &mut cache,
            DeviceIntSize::new(200, 100),
            BlurEdgeMode::Mirror,
        )
    };
    let first = once(&mut builder, 6.0);
    let tasks = builder.tasks.len();
    assert_eq!(once(&mut builder, 6.0), first);
    assert_eq!(builder.tasks.len(), tasks);
    once(&mut builder, 7.0);
    assert_eq!(builder.tasks.len(), tasks + 2);
}

#[test]
fn sources_of_blurs_can_be_halved() {
    let adjust = |w, h, sigma| {
        BlurTask::adjusted_blur_source_size(DeviceIntSize::new(w, h), bits(sigma), bits(sigma))
    };
    assert_eq!(adjust(101, 50, 2.0), DeviceIntSize::new(101, 50));
    assert_eq!(adjust(101, 50, 6.0), DeviceIntSize::new(102, 50));
    assert_eq!(adjust(101, 50, 12.0), DeviceIntSize::new(104, 52));
    assert_eq!(adjust(4, 4, 100.0), DeviceIntSize::new(4, 4));
}

#[test]
fn tasks_say_what_they_are() {
    let kind = RenderTaskKind::new_readback(None);
    assert_eq!(kind.as_str(), "Readback");
    assert!(kind.is_a_rendering_operation() && kind.should_advance_pass());
    assert!(kind.can_use_shared_surface());
    let cached = RenderTaskKind::Cached(CachedTask { target_kind: RenderTargetKind::Alpha });
    assert!(!cached.is_a_rendering_operation() && !cached.should_advance_pass());
    assert_eq!(cached.target_kind(), RenderTargetKind::Alpha);
    let line = RenderTaskKind::new_line_decoration(
        LineStyle::Wavy,
        LineOrientation::Horizontal,
        bits(2.0),
        FloatPoint { x: bits(1.0), y: bits(1.0) },
    );
    assert_eq!(line.as_str(), "LineDecoration");
    assert_eq!(line.target_kind(), RenderTargetKind::Color);
    assert_eq!(RenderTaskKind::new_border_segment(Vec::new()).as_str(), "Border");
    let tile = RenderTaskKind::new_tile_composite(
        DeviceIntPoint::new(0, 0),
        rect(0, 0, 1, 1),
        rect(0, 0, 1, 1),
        ColorF::white(),
    );
    assert_eq!(tile.as_str(), "TileComposite");
}

fn picture(needs_scissor_rect: bool) -> RenderTaskKind {
    RenderTaskKind::new_picture(
        DeviceIntSize::new(64, 64),
        needs_scissor_rect,
        FloatPoint { x: bits(3.0), y: bits(4.0) },
        SpatialNodeIndex(0),
        SpatialNodeIndex(0),
        bits(2.0),
        None,
        None,
        None,
        CommandBufferIndex(0),
        false,
        None,
    )
}

#[test]
fn pictures_tell_the_shaders_their_origin() {
    let task = picture(false);
    assert!(!task.can_use_shared_surface());
    let data = task.write_task_data(rect(1, 2, 65, 66)).data;
    let expected: Vec<u32> =
        [1.0f32, 2.0, 65.0, 66.0, 2.0, 3.0, 4.0, 0.0].iter().map(|v| v.to_bits()).collect();
    assert_eq!(data.to_vec(), expected);
}

#[test]
fn prims_have_the_scale_of_the_device() {
    let prim = RenderTaskKind::new_prim(
        PatternKind::ColorOrTexture,
        PatternShaderInput(0, 0),
        FloatPoint { x: bits(5.0), y: bits(6.0) },
        GpuBufferAddress(0),
        GpuTransformId::identity(),
        EdgeMask::empty(),
        QuadFlags::empty(),
        false,
        RenderTaskId::invalid(),
    );
    let data = prim.write_task_data(rect(0, 0, 8, 8)).data;
    assert_eq!(data[4..], [1.0f32.to_bits(), 5.0f32.to_bits(), 6.0f32.to_bits(), 0]);
}

#[test]
fn masks_cover_their_rectangle() {
    let mut builder = RenderTaskGraphBuilder::new();
    let id = RenderTaskKind::new_mask(
        rect(10, 20, 50, 40),
        ClipNodeRange { first: 0, count: 2 },
        SpatialNodeIndex(1),
        &mut builder,
        bits(1.0),
        true,
    );
    let task = builder.get_task(id);
    assert_eq!(task.location.size(), DeviceIntSize::new(40, 20));
    assert_eq!(task.target_kind(), RenderTargetKind::Alpha);
    match &task.kind {
        RenderTaskKind::CacheMask(mask) => {
            assert!(mask.clear_to_one);
            assert_eq!(mask.actual_rect, to_float_rect(rect(10, 20, 50, 40)));
        }
        _ => panic!("there is no mask"),
    }
}

#[test]
fn placed_tasks_know_their_texture() {
    let task = RenderTask::new_test(
        RenderTaskLocation::Dynamic { texture_id: CacheTextureId(3), rect: rect(0, 0, 4, 4) },
        RenderTargetKind::Color,
    );
    assert!(task.location.is_dynamic());
    assert_eq!(task.get_target_texture(), CacheTextureId(3));
    assert_eq!(task.get_target_rect(), rect(0, 0, 4, 4));
    assert_eq!(task.get_target_size(), DeviceIntSize::new(4, 4));
    assert_eq!(task.uv_rect_kind(), UvRectKind::Rect);
    let read_only = RenderTask::new_test(
        RenderTaskLocation::Static {
            surface: StaticRenderTaskSurface::ReadOnly { source: TextureSource::Invalid },
            rect: rect(0, 0, 2, 2),
        },
        RenderTargetKind::Color,
    );
    assert!(!read_only.location.is_dynamic());
    assert_eq!(read_only.get_texture_source(), TextureSource::Invalid);
    assert_eq!(RenderTaskAddress::of(RenderTaskId { index: 9 }), RenderTaskAddress(9));
}

#[test]
fn blits_depend_on_their_source() {
    let mut builder = RenderTaskGraphBuilder::new();
    let src = source(&mut builder, 10, 10);
    let id = RenderTask::new_blit(
        DeviceIntSize::new(5, 5),
        src,
        rect(1, 1, 6, 6),
        &mut builder,
    );
    assert_eq!(builder.get_task(id).kind.as_str(), "Blit");
    builder.tasks[id.index as usize].mark_cached(44);
    assert_eq!(builder.get_task(id).cache_handle, Some(44));
    let graph = RenderTaskGraph { tasks: builder.tasks, sub_tasks: builder.sub_tasks };
    assert_eq!(graph.tasks.len(), 2);
}

fn input(buffer_id: FilterOpGraphPictureBufferId) -> FilterGraphPictureReference {
    FilterGraphPictureReference {
        buffer_id,
        subregion: layout(0, 0, 0, 0),
        offset_x: 0,
        offset_y: 0,
        shift_x: FloatBits(0),
        shift_y: FloatBits(0),
        inflate: 0,
        target_padding: layout(0, 0, 0, 0),
    }
}

fn node(op: FilterGraphOp, inputs: Vec<FilterGraphPictureReference>) -> DeviceFilterNode {
    DeviceFilterNode {
        node: FilterGraphNode {
            kept_by_optimizer: true,
            linear: false,
            inflate: 1,
            inputs,
            subregion: layout(0, 0, 100, 80),
        },
        op,
        blur_padding_x: 0,
        blur_padding_y: 0,
    }
}

fn drawing() -> NodeDrawing {
    NodeDrawing {
        uv_rect_kind: UvRectKind::Rect,
        sigma_x: bits(0.0),
        sigma_y: bits(0.0),
        blur_size: DeviceIntSize::new(1, 1),
        blur_subregion: layout(0, 0, 1, 1),
        filter_data_address: GpuBufferAddress(0),
    }
}

#[test]
fn filters_are_planned_from_source_to_output() {
    let regions = FilterRegions {
        source: layout(10, 10, 60, 60),
        target: layout(0, 0, 90, 70),
        prim: layout(0, 0, 100, 80),
    };
    let nodes = vec![
        node(FilterGraphOp::SVGFESourceGraphic, Vec::new()),
        node(
            FilterGraphOp::SVGFEOpacity { value: bits(0.0) },
            vec![input(FilterOpGraphPictureBufferId::BufferId(0))],
        ),
        node(
            FilterGraphOp::SVGFEIdentity,
            vec![input(FilterOpGraphPictureBufferId::BufferId(0))],
        ),
    ];
    let plans = plan_svg_filter_graph(&nodes, &regions);
    let first = plans[0].as_ref().unwrap();
    assert_eq!(first.node.subregion, layout(10, 10, 60, 60));
    assert_eq!(first.task_rect, layout(9, 9, 61, 61));
    assert_eq!(first.task_size, DeviceIntSize::new(52, 52));
    assert_eq!(first.render_scale, 1);
    assert_eq!(plans[1].as_ref().unwrap().node.subregion, layout(0, 0, 0, 0));
    let output = plans[2].as_ref().unwrap();
    assert_eq!(output.node.subregion, layout(0, 0, 90, 70));
    assert_eq!(output.node.inflate, 0);

    let mut builder = RenderTaskGraphBuilder::new();
    let original = source(&mut builder, 50, 50);
    let id = RenderTask::new_svg_filter_graph(
        &plans,
        &vec![drawing(), drawing(), drawing()],
        &mut builder,
        original,
        regions.source,
    );
    assert_eq!(builder.get_task(id).kind.as_str(), "SVGFENode");
    assert_eq!(builder.get_task(id).location.size(), DeviceIntSize::new(90, 70));
}

#[test]
fn large_filters_are_drawn_smaller() {
    let regions = FilterRegions {
        source: layout(0, 0, 10000, 100),
        target: layout(0, 0, 10000, 100),
        prim: layout(0, 0, 10000, 100),
    };
    let mut wide = node(FilterGraphOp::SVGFESourceGraphic, Vec::new());
    wide.node.subregion = layout(0, 0, 10000, 100);
    let plans = plan_svg_filter_graph(&vec![wide], &regions);
    let plan = plans[0].as_ref().unwrap();
    assert_eq!(plan.render_scale, 4);
    assert_eq!(plan.task_size, DeviceIntSize::new(2500, 25));
}

#[test]
fn dropped_nodes_are_not_planned() {
    let regions = FilterRegions {
        source: layout(0, 0, 10, 10),
        target: layout(0, 0, 10, 10),
        prim: layout(0, 0, 10, 10),
    };
    let mut dropped = node(FilterGraphOp::SVGFESourceGraphic, Vec::new());
    dropped.node.kept_by_optimizer = false;
    let plans = plan_svg_filter_graph(&vec![dropped], &regions);
    assert!(plans[0].is_none());
    let mut builder = RenderTaskGraphBuilder::new();
    let original = source(&mut builder, 10, 10);
    let id = RenderTask::new_svg_filter_graph(
        &plans,
        &vec![drawing()],
        &mut builder,
        original,
        regions.source,
    );
    assert_eq!(id, original);
}

#[test]
fn invisible_blurs_do_nothing() {
    let lengths = DeviceLengths {
        kernel_unit_length_x: bits(0.0),
        kernel_unit_length_y: bits(0.0),
        x: bits(0.0),
        y: bits(0.0),
        points_at_x: bits(0.0),
        points_at_y: bits(0.0),
        displacement: bits(9.0),
        dx: bits(0.0),
        dy: bits(0.0),
        std_deviation_x: bits(3.0),
        std_deviation_y: bits(4.0),
        blur_is_visible: false,
        radius_x: bits(0.0),
        radius_y: bits(0.0),
        base_frequency_x: bits(0.0),
        base_frequency_y: bits(0.0),
    };
    let blur = FilterGraphOp::SVGFEGaussianBlur {
        std_deviation_x: bits(1.0),
        std_deviation_y: bits(1.0),
    };
    assert!(matches!(blur.in_device_space(&lengths), FilterGraphOp::SVGFEIdentity));
    let visible = DeviceLengths { blur_is_visible: true, ..lengths };
    match blur.in_device_space(&visible) {
        FilterGraphOp::SVGFEGaussianBlur { std_deviation_x, std_deviation_y } => {
            assert_eq!((std_deviation_x, std_deviation_y), (bits(3.0), bits(4.0)));
        }
        _ => panic!("the blur is gone"),
    }
    let map = FilterGraphOp::SVGFEDisplacementMap {
        scale: bits(1.0),
        x_channel_selector: 2,
        y_channel_selector: 3,
    };
    match map.in_device_space(&visible) {
        FilterGraphOp::SVGFEDisplacementMap { scale, x_channel_selector, .. } => {
            assert_eq!((scale, x_channel_selector), (bits(9.0), 2));
        }
        _ => panic!("the displacement is gone"),
    }
}

#[test]
fn tasks_write_their_own_data() {
    let mut kind = picture(false);
    let mut gpu = GpuBufferBuilder {
        floats: GpuBufferBuilderImpl::new(0, FrameId::first()),
        integers: GpuBufferBuilderImpl::new(0, FrameId::first()),
    };
    kind.write_gpu_blocks(&mut gpu);
    assert_eq!(kind.as_str(), "Picture");
}

#[test]
fn images_ask_the_cache_for_their_size() {
    let task = RenderTask::new_image(DeviceIntSize::new(30, 20), 9, true);
    assert!(!task.location.is_dynamic());
    assert_eq!(task.kind.as_str(), "Image");
    assert_eq!(task.get_texture_address(), GpuBufferAddress::invalid());
}

#[test]
fn sources_of_blurs_are_centered() {
    let padded = layout(10, 20, 75, 85);
    let (size, region) = blur_source(&padded, bits(1.0), bits(1.0), 2);
    assert_eq!(size, DeviceIntSize::new(65, 65));
    assert_eq!(region, layout(20, 40, 150, 170));
    // Both deviations are large, so that the source becomes a multiple of four.
    let (size, region) = blur_source(&padded, bits(16.0), bits(16.0), 1);
    assert_eq!(size, DeviceIntSize::new(68, 68));
    assert_eq!(region, layout(8, 18, 76, 86));
    let (size, _) = blur_source(&layout(5, 5, 5, 5), bits(16.0), bits(16.0), 1);
    assert_eq!(size, DeviceIntSize::new(1, 1));
}
