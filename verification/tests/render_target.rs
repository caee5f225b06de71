use webrender::float_bits::FloatBits;
use webrender::grouped::Grouped;
use webrender::internal_types::{
    BlurEdgeMode, CacheTextureId, ColorF, FrameId, RenderTargetKind, RenderTaskId, Swizzle,
    TextureSource,
};
use webrender::render_target::filters::{
    filter_kind, inner_box, BatchTextures, FilterInputContents, ScaleAndOffset,
};
use webrender::render_target::tasks::{add_blur_instances, RenderTarget, RenderTargetList};
use webrender::render_target::AlphaBatchContainer;
use webrender::render_task::{
    BlitTask, BlurTask, BorderTask, DeviceIntSideOffsets, RenderTask, RenderTaskAddress,
    RenderTaskKind, RenderTaskLocation,
};
use webrender::render_task_graph::{RenderTaskGraph, RenderTaskGraphBuilder};
use webrender::renderer::gpu_buffer::{GpuBufferBuilder, GpuBufferBuilderImpl};
use webrender::svg_filter::FilterGraphOp;
use webrender::units::{DeviceIntPoint, DeviceIntRect, DeviceIntSize};

fn rect(x0: i32, y0: i32, x1: i32, y1: i32) -> DeviceIntRect {
    DeviceIntRect::new(DeviceIntPoint::new(x0, y0), DeviceIntPoint::new(x1, y1))
}

fn gpu() -> GpuBufferBuilder {
    GpuBufferBuilder {
        integers: GpuBufferBuilderImpl::new(0, FrameId::first()),
        floats: GpuBufferBuilderImpl::new(0, FrameId::first()),
    }
}

fn placed(kind: RenderTaskKind, texture: u32, rect: DeviceIntRect) -> RenderTask {
    RenderTask::new(
        RenderTaskLocation::Dynamic { texture_id: CacheTextureId(texture), rect },
        kind,
    )
}

fn blur_kind() -> BlurTask {
    BlurTask {
        blur_std_deviation: FloatBits(2.0f32.to_bits()),
        target_kind: RenderTargetKind::Color,
        blur_region: DeviceIntSize::new(20, 10),
        edge_mode: BlurEdgeMode::Mirror,
    }
}

fn contents() -> FilterInputContents {
    FilterInputContents { first: ScaleAndOffset::zero(), second: ScaleAndOffset::zero() }
}

fn new_target() -> RenderTarget {
    RenderTarget::new(
        RenderTargetKind::Color,
        false,
        CacheTextureId(7),
        DeviceIntSize::new(800, 600),
        None,
    )
}

fn id(index: u32) -> RenderTaskId {
    RenderTaskId { index }
}

#[test]
fn blurs_are_grouped_by_their_source() {
    let graph = RenderTaskGraph {
        tasks: vec![
            placed(RenderTaskKind::new_readback(None), 1, rect(0, 0, 8, 8)),
            placed(RenderTaskKind::new_readback(None), 2, rect(0, 0, 8, 8)),
        ],
        sub_tasks: Vec::new(),
    };
    let mut instances = Grouped::new();
    for src in [0, 1, 0] {
        add_blur_instances(&mut instances, 1, &blur_kind(), id(5), id(src), &graph);
    }
    assert_eq!(instances.groups.len(), 2);
    assert_eq!(instances.groups[0].1.len(), 2);
    let blur = instances.groups[0].1[0];
    assert_eq!(blur.blur_direction, 1);
    assert_eq!(blur.task_address, RenderTaskAddress(5));
    assert_eq!(blur.src_task_address, RenderTaskAddress(0));
    assert_eq!(blur.blur_region.x, FloatBits(20.0f32.to_bits()));
}

#[test]
fn tasks_go_to_their_lists() {
    let graph = RenderTaskGraph {
        tasks: vec![
            placed(
                RenderTaskKind::Blit(BlitTask { source: id(1), source_rect: rect(1, 1, 4, 4) }),
                7,
                rect(10, 10, 13, 13),
            ),
            placed(RenderTaskKind::new_readback(None), 1, rect(0, 0, 8, 8)),
            placed(RenderTaskKind::Border(BorderTask { instances: Vec::new() }), 7, rect(0, 0, 5, 5)),
        ],
        sub_tasks: Vec::new(),
    };
    let mut target = new_target();
    target.add_task(id(0), &mut gpu(), &graph, &contents(), false);
    assert_eq!(target.blits.len(), 1);
    assert_eq!(target.blits[0].source, id(1));
    assert_eq!(target.blits[0].source_rect, rect(1, 1, 4, 4));
    assert_eq!(target.blits[0].target_rect, rect(10, 10, 13, 13));
    target.add_task(id(2), &mut gpu(), &graph, &contents(), false);
    assert!(target.border_segments_complex.is_empty());
    assert_eq!(target.clears.len(), 1);
    assert_eq!(target.clears[0], (rect(0, 0, 5, 5), ColorF::transparent()));
}

#[test]
fn targets_need_depth_for_opaque_batches() {
    let mut target = new_target();
    assert_eq!(target.texture_id(), CacheTextureId(7));
    assert!(!target.needs_depth());
    target.alpha_batch_containers.push(AlphaBatchContainer {
        alpha_batches: Vec::new(),
        opaque_batches: Vec::new(),
        task_scissor_rect: None,
        task_rect: rect(0, 0, 1, 1),
    });
    assert!(!target.needs_depth());
    let mut list = RenderTargetList::new();
    list.targets.push(new_target());
    let graph = RenderTaskGraph { tasks: Vec::new(), sub_tasks: Vec::new() };
    assert_eq!(list.build(&graph).len(), 1);
    assert!(list.targets[0].clip_masks.image_mask_instances.is_empty());
}

#[test]
fn textures_are_combined_where_they_agree() {
    let source = |n| TextureSource::TextureCache(CacheTextureId(n), Swizzle::Rgba);
    let empty = BatchTextures::empty();
    let one = BatchTextures { color0: source(1), ..empty };
    let two = BatchTextures { color0: source(2), ..empty };
    let both = BatchTextures { color0: source(1), color1: source(3), ..empty };
    assert_eq!(one.combine_textures(empty), Some(one));
    assert_eq!(empty.combine_textures(one), Some(one));
    assert_eq!(one.combine_textures(two), None);
    assert_eq!(one.combine_textures(both), Some(both));
}

#[test]
fn filters_have_their_own_kinds() {
    assert_eq!(filter_kind(&FilterGraphOp::SVGFEIdentity, false), 0);
    assert_eq!(filter_kind(&FilterGraphOp::SVGFEIdentity, true), 0);
    assert_eq!(filter_kind(&FilterGraphOp::SVGFEOpacity { value: FloatBits(0) }, false), 2);
    assert_eq!(filter_kind(&FilterGraphOp::SVGFEToAlpha, true), 4);
    assert_eq!(filter_kind(&FilterGraphOp::SVGFEBlendColor, false), 6);
    assert_eq!(filter_kind(&FilterGraphOp::SVGFEBlendColor, true), 7);
    assert_eq!(filter_kind(&FilterGraphOp::SVGFETile, true), 92);
}

#[test]
fn padding_is_taken_off() {
    let padding = DeviceIntSideOffsets { top: 1, right: 2, bottom: 3, left: 4 };
    assert_eq!(inner_box(rect(0, 0, 20, 20), padding), rect(4, 1, 18, 17));
}

#[test]
fn blurs_read_what_they_depend_on() {
    let mut builder = RenderTaskGraphBuilder::new();
    for texture in [1, 2] {
        builder.add_task(placed(RenderTaskKind::new_readback(None), texture, rect(0, 0, 8, 8)));
    }
    let vertical = builder.add_task(placed(
        RenderTaskKind::VerticalBlur(blur_kind()),
        7,
        rect(0, 0, 8, 8),
    ));
    // Of three dependencies the first is read.
    for child in [1, 0, 1] {
        builder.add_dependency(vertical, id(child));
    }
    let horizontal = builder.add_task(placed(
        RenderTaskKind::HorizontalBlur(blur_kind()),
        7,
        rect(8, 0, 16, 8),
    ));
    builder.add_dependency(horizontal, vertical);
    let graph = RenderTaskGraph { tasks: builder.tasks, sub_tasks: builder.sub_tasks };
    let mut target = new_target();
    target.add_task(vertical, &mut gpu(), &graph, &contents(), false);
    target.add_task(horizontal, &mut gpu(), &graph, &contents(), false);
    assert_eq!(target.vertical_blurs.groups.len(), 1);
    let (source, blurs) = &target.vertical_blurs.groups[0];
    assert_eq!(*source, TextureSource::TextureCache(CacheTextureId(2), Swizzle::Rgba));
    assert_eq!(blurs[0].task_address, RenderTaskAddress(2));
    assert_eq!(blurs[0].src_task_address, RenderTaskAddress(1));
    let (source, blurs) = &target.horizontal_blurs.groups[0];
    assert_eq!(*source, TextureSource::TextureCache(CacheTextureId(7), Swizzle::Rgba));
    assert_eq!(blurs[0].src_task_address, RenderTaskAddress(2));
}

#[test]
fn merged_batches_come_last() {
    let container = |task_rect| AlphaBatchContainer {
        alpha_batches: Vec::new(),
        opaque_batches: Vec::new(),
        task_scissor_rect: None,
        task_rect,
    };
    let mut target = new_target();
    target.finish_build(vec![container(rect(0, 0, 1, 1))], container(rect(0, 0, 2, 2)));
    assert_eq!(target.alpha_batch_containers.len(), 1);
    assert_eq!(target.alpha_batch_containers[0].task_rect, rect(0, 0, 1, 1));
}
