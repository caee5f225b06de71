//! Render tasks: what is drawn into a part of a texture, and what it depends on.

pub mod blur;
pub mod blur_paths;
pub mod gpu_data;
pub mod svg_graph;
pub mod svg_paths;
pub mod svg_plan;

use crate::float_bits::FloatBits;
use crate::internal_types::{
    BlurEdgeMode, CacheTextureId, ClipSpace, ColorF, CommandBufferIndex, EdgeMask, FloatPoint,
    GpuTransformId, LineOrientation, LineStyle, PassId, PatternKind, PatternShaderInput, QuadFlags,
    RenderTargetKind, RenderTaskId, SpatialNodeIndex, Swizzle, TextureSource,
    INVALID_CACHE_TEXTURE, MAX_PASS, MAX_RENDER_TASK_SIZE,
};
use crate::render_task_graph::{SubTaskRange, UvRectKind};
use crate::renderer::gpu_buffer::GpuBufferAddress;
use crate::svg_filter::{FilterGraphNode, FilterGraphNodeView, FilterGraphOp};
use crate::task_dependencies::{dependency_ids, TaskDependencies};
use crate::units::{DeviceIntPoint, DeviceIntRect, DeviceIntSize};
use vstd::prelude::*;

verus! {

/// The bits of 4: above this standard deviation a blur is done at half the size.
pub const MAX_BLUR_STD_DEVIATION: u32 = 0x4080_0000;

/// A render target smaller than this is not scaled down any further.
pub const MIN_DOWNSCALING_RT_SIZE: i32 = 8;

/// The size is one that a render task can have.
pub open spec fn sane_size(size: DeviceIntSize) -> bool {
    size.width <= MAX_RENDER_TASK_SIZE && size.height <= MAX_RENDER_TASK_SIZE
}

/// A task as the shaders know it.
#[derive(Clone, Copy, Debug, PartialEq, Eq, Structural)]
pub struct RenderTaskAddress(pub i32);

/// The low 32 bits as a signed number.
pub open spec fn spec_signed(bits: u32) -> int {
    if bits < 0x8000_0000 {
        bits as int
    } else {
        bits - 0x1_0000_0000
    }
}

impl RenderTaskAddress {
    pub open spec fn spec_of(id: RenderTaskId) -> Self {
        RenderTaskAddress(spec_signed(id.index) as i32)
    }

    /// The address of a task.
    pub fn of(id: RenderTaskId) -> (r: Self)
        ensures
            r == Self::spec_of(id),
    {
        RenderTaskAddress(GpuBufferAddress(id.index).as_int())
    }
}

/// A target that outlives the frame.
#[derive(Clone, Copy, Debug, PartialEq, Eq, Structural)]
pub enum StaticRenderTaskSurface {
    /// A texture of the texture cache.
    TextureCache { texture: CacheTextureId, target_kind: RenderTargetKind },
    /// A texture that is only read.
    ReadOnly { source: TextureSource },
    /// A tile of a cached picture, by its number.
    PictureCache { surface: u64 },
}

/// Where a task is drawn to.
#[derive(Clone, Copy, Debug, PartialEq, Eq, Structural)]
pub enum RenderTaskLocation {
    /// Not decided yet.
    Unallocated { size: DeviceIntSize },
    /// To be decided by the texture cache.
    CacheRequest { size: DeviceIntSize },
    /// The place of another task.
    Existing { parent_task_id: RenderTaskId, size: DeviceIntSize },
    /// A part of a render target of this frame.
    Dynamic { texture_id: CacheTextureId, rect: DeviceIntRect },
    /// A part of a target that outlives the frame.
    Static { surface: StaticRenderTaskSurface, rect: DeviceIntRect },
}

impl RenderTaskLocation {
    /// The rectangle of an allocated location.
    pub open spec fn spec_rect(self) -> Option<DeviceIntRect> {
        match self {
            RenderTaskLocation::Dynamic { rect, .. } => Some(rect),
            RenderTaskLocation::Static { rect, .. } => Some(rect),
            _ => None,
        }
    }

    /// Sizes of rectangles fit.
    pub open spec fn wf(self) -> bool {
        self.spec_rect() matches Some(rect) ==> rect.sized()
    }

    pub open spec fn spec_size(self) -> DeviceIntSize {
        match self {
            RenderTaskLocation::Unallocated { size } => size,
            RenderTaskLocation::CacheRequest { size } => size,
            RenderTaskLocation::Existing { size, .. } => size,
            RenderTaskLocation::Dynamic { rect, .. } => DeviceIntSize {
                width: rect.spec_width() as i32,
                height: rect.spec_height() as i32,
            },
            RenderTaskLocation::Static { rect, .. } => DeviceIntSize {
                width: rect.spec_width() as i32,
                height: rect.spec_height() as i32,
            },
        }
    }

    pub fn is_dynamic(&self) -> (r: bool)
        ensures
            r == (*self is Dynamic),
    {
        match *self {
            RenderTaskLocation::Dynamic { .. } => true,
            _ => false,
        }
    }

    pub fn size(&self) -> (r: DeviceIntSize)
        requires
            self.wf(),
        ensures
            r == self.spec_size(),
    {
        match *self {
            RenderTaskLocation::Unallocated { size } => size,
            RenderTaskLocation::Dynamic { rect, .. } => rect.size(),
            RenderTaskLocation::Static { rect, .. } => rect.size(),
            RenderTaskLocation::CacheRequest { size } => size,
            RenderTaskLocation::Existing { size, .. } => size,
        }
    }
}

#[derive(Clone, Copy, Debug, PartialEq, Eq, Structural)]
pub struct CachedTask {
    pub target_kind: RenderTargetKind,
}

/// A request for an image, by its number.
#[derive(Clone, Copy, Debug, PartialEq, Eq, Structural)]
pub struct ImageRequestTask {
    pub request: u64,
    pub is_composited: bool,
}

/// A rectangle whose corners are only carried through.
#[derive(Clone, Copy, Debug, PartialEq, Eq, Structural)]
pub struct FloatRect {
    pub min: FloatPoint,
    pub max: FloatPoint,
}

/// Some of the clips of the frame.
#[derive(Clone, Copy, Debug, PartialEq, Eq, Structural)]
pub struct ClipNodeRange {
    pub first: u32,
    pub count: u32,
}

#[derive(Clone, Copy, Debug, PartialEq, Eq, Structural)]
pub struct CacheMaskTask {
    pub actual_rect: FloatRect,
    pub root_spatial_node_index: SpatialNodeIndex,
    pub clip_node_range: ClipNodeRange,
    pub device_pixel_scale: FloatBits,
    pub clear_to_one: bool,
}

/// A rounded rectangle with its four corner radii.
#[derive(Clone, Copy, Debug, PartialEq, Eq, Structural)]
pub struct ClipData {
    pub rect: FloatRect,
    pub top_left: FloatPoint,
    pub top_right: FloatPoint,
    pub bottom_left: FloatPoint,
    pub bottom_right: FloatPoint,
    /// The pixels inside are kept, as opposed to those outside.
    pub clip: bool,
}

#[derive(Clone, Copy, Debug, PartialEq, Eq, Structural)]
pub struct ClipRegionTask {
    pub local_pos: FloatPoint,
    pub device_pixel_scale: FloatBits,
    pub clip_data: ClipData,
    pub clear_to_one: bool,
}

#[derive(Clone, Copy, Debug, PartialEq, Eq, Structural)]
pub struct EmptyTask {
    pub content_origin: FloatPoint,
    pub device_pixel_scale: FloatBits,
    pub raster_spatial_node_index: SpatialNodeIndex,
}

#[derive(Clone, Copy, Debug, PartialEq, Eq, Structural)]
pub struct PrimTask {
    pub pattern: PatternKind,
    pub pattern_input: PatternShaderInput,
    pub content_origin: FloatPoint,
    pub prim_address_f: GpuBufferAddress,
    pub transform_id: GpuTransformId,
    pub edge_flags: EdgeMask,
    pub quad_flags: QuadFlags,
    pub prim_needs_scissor_rect: bool,
    pub texture_input: RenderTaskId,
}

#[derive(Clone, Copy, Debug, PartialEq, Eq, Structural)]
pub struct TileCompositeTask {
    pub clear_color: ColorF,
    pub scissor_rect: DeviceIntRect,
    pub valid_rect: DeviceIntRect,
    pub task_id: Option<RenderTaskId>,
    pub sub_rect_offset: DeviceIntPoint,
}

/// Copies parts of several tasks into one.
#[derive(Debug)]
pub struct ResolveOp {
    pub src_task_ids: Vec<RenderTaskId>,
    pub dest_task_id: RenderTaskId,
}

#[derive(Debug)]
pub struct PictureTask {
    pub can_merge: bool,
    pub content_origin: FloatPoint,
    pub surface_spatial_node_index: SpatialNodeIndex,
    pub raster_spatial_node_index: SpatialNodeIndex,
    pub device_pixel_scale: FloatBits,
    pub clear_color: Option<ColorF>,
    pub scissor_rect: Option<DeviceIntRect>,
    pub valid_rect: Option<DeviceIntRect>,
    pub cmd_buffer_index: CommandBufferIndex,
    pub resolve_op: Option<ResolveOp>,
    pub content_size: DeviceIntSize,
    pub can_use_shared_surface: bool,
}

impl PictureTask {
    /// A task that goes on drawing the same picture from another command buffer.
    /// It never clears, since it draws over what is there.
    pub fn duplicate(&self, cmd_buffer_index: CommandBufferIndex) -> (r: Self)
        requires
            self.resolve_op is None,
        ensures
            r == (PictureTask {
                clear_color: None,
                cmd_buffer_index,
                resolve_op: None,
                can_use_shared_surface: false,
                ..*self
            }),
    {
        PictureTask {
            can_merge: self.can_merge,
            content_origin: self.content_origin,
            surface_spatial_node_index: self.surface_spatial_node_index,
            raster_spatial_node_index: self.raster_spatial_node_index,
            device_pixel_scale: self.device_pixel_scale,
            clear_color: None,
            scissor_rect: self.scissor_rect,
            valid_rect: self.valid_rect,
            cmd_buffer_index,
            resolve_op: None,
            content_size: self.content_size,
            can_use_shared_surface: false,
        }
    }
}

#[derive(Clone, Copy, Debug, PartialEq, Eq, Structural)]
pub struct BlurTask {
    pub blur_std_deviation: FloatBits,
    pub target_kind: RenderTargetKind,
    pub blur_region: DeviceIntSize,
    pub edge_mode: BlurEdgeMode,
}

/// The pixels that lie around the content of a scaled copy.
#[derive(Clone, Copy, Debug, PartialEq, Eq, Structural)]
pub struct DeviceIntSideOffsets {
    pub top: i32,
    pub right: i32,
    pub bottom: i32,
    pub left: i32,
}

#[derive(Clone, Copy, Debug, PartialEq, Eq, Structural)]
pub struct ScalingTask {
    pub target_kind: RenderTargetKind,
    pub padding: DeviceIntSideOffsets,
}

/// One segment of a border, as it is handed to its shader.
#[derive(Clone, Copy, Debug, PartialEq, Eq, Structural)]
pub struct BorderInstance {
    pub task_origin: FloatPoint,
    pub local_rect: FloatRect,
    pub color0: ColorF,
    pub color1: ColorF,
    pub flags: i32,
    pub widths: FloatPoint,
    pub radius: FloatPoint,
}

#[derive(Debug)]
pub struct BorderTask {
    pub instances: Vec<BorderInstance>,
}

#[derive(Clone, Copy, Debug, PartialEq, Eq, Structural)]
pub struct BlitTask {
    pub source: RenderTaskId,
    pub source_rect: DeviceIntRect,
}

#[derive(Clone, Copy, Debug, PartialEq, Eq, Structural)]
pub struct LineDecorationTask {
    pub wavy_line_thickness: FloatBits,
    pub style: LineStyle,
    pub orientation: LineOrientation,
    pub local_size: FloatPoint,
}

/// A node of a filter graph that is drawn.
#[derive(Debug)]
pub struct SVGFEFilterTask {
    pub node: FilterGraphNode,
    pub op: FilterGraphOp,
    /// The corner of the drawn pixels, in whole pixels.
    pub content_origin: (i64, i64),
    pub extra_gpu_data: Option<GpuBufferAddress>,
}

/// A filter task as a mathematical value.
#[verifier::ext_equal]
pub struct SVGFEFilterTaskView {
    pub node: FilterGraphNodeView,
    pub op: FilterGraphOp,
    pub content_origin: (i64, i64),
    pub extra_gpu_data: Option<GpuBufferAddress>,
}

#[derive(Clone, Copy, Debug, PartialEq, Eq, Structural)]
pub struct ReadbackTask {
    /// The corner of what is read back, or nothing for a readback without a source.
    pub readback_origin: Option<FloatPoint>,
}

/// What the shaders read of a task.
#[derive(Clone, Copy, Debug, PartialEq, Eq)]
pub struct RenderTaskData {
    pub data: [u32; 8],
}

#[derive(Debug)]
pub enum RenderTaskKind {
    Image(ImageRequestTask),
    Cached(CachedTask),
    Picture(PictureTask),
    CacheMask(CacheMaskTask),
    ClipRegion(ClipRegionTask),
    VerticalBlur(BlurTask),
    HorizontalBlur(BlurTask),
    Readback(ReadbackTask),
    Scaling(ScalingTask),
    Blit(BlitTask),
    Border(BorderTask),
    LineDecoration(LineDecorationTask),
    SVGFENode(SVGFEFilterTask),
    TileComposite(TileCompositeTask),
    Prim(PrimTask),
    Empty(EmptyTask),
    /// A task that draws nothing, for trials of the graph.
    Test(RenderTargetKind),
}

/// What a task draws, as a mathematical value.
#[verifier::ext_equal]
pub enum RenderTaskKindView {
    SVGFENode(SVGFEFilterTaskView),
    Border(Seq<BorderInstance>),
    Plain(RenderTaskKind),
}

impl RenderTaskKind {
    pub open spec fn view(self) -> RenderTaskKindView {
        match self {
            RenderTaskKind::SVGFENode(task) => RenderTaskKindView::SVGFENode(
                SVGFEFilterTaskView {
                    node: task.node@,
                    op: task.op,
                    content_origin: task.content_origin,
                    extra_gpu_data: task.extra_gpu_data,
                },
            ),
            RenderTaskKind::Border(task) => RenderTaskKindView::Border(task.instances@),
            _ => RenderTaskKindView::Plain(self),
        }
    }

    /// The task only stands for texels that exist already.
    pub open spec fn stands_for_texels(self) -> bool {
        self is Image || self is Cached
    }

    pub fn is_a_rendering_operation(&self) -> (r: bool)
        ensures
            r == !self.stands_for_texels(),
    {
        match self {
            RenderTaskKind::Image(..) => false,
            RenderTaskKind::Cached(..) => false,
            _ => true,
        }
    }

    /// Whether the task can share its render target with others.
    pub fn can_use_shared_surface(&self) -> (r: bool)
        ensures
            r == match *self {
                RenderTaskKind::Picture(info) => info.can_use_shared_surface,
                _ => true,
            },
    {
        match self {
            RenderTaskKind::Picture(info) => info.can_use_shared_surface,
            _ => true,
        }
    }

    /// Whether what depends on the task has to wait for another pass.
    pub fn should_advance_pass(&self) -> (r: bool)
        ensures
            r == !self.stands_for_texels(),
    {
        match self {
            RenderTaskKind::Image(..) => false,
            RenderTaskKind::Cached(..) => false,
            _ => true,
        }
    }

    pub open spec fn spec_str(self) -> Seq<char> {
        match self {
            RenderTaskKind::Image(..) => "Image"@,
            RenderTaskKind::Cached(..) => "Cached"@,
            RenderTaskKind::Picture(..) => "Picture"@,
            RenderTaskKind::CacheMask(..) => "CacheMask"@,
            RenderTaskKind::ClipRegion(..) => "ClipRegion"@,
            RenderTaskKind::VerticalBlur(..) => "VerticalBlur"@,
            RenderTaskKind::HorizontalBlur(..) => "HorizontalBlur"@,
            RenderTaskKind::Readback(..) => "Readback"@,
            RenderTaskKind::Scaling(..) => "Scaling"@,
            RenderTaskKind::Blit(..) => "Blit"@,
            RenderTaskKind::Border(..) => "Border"@,
            RenderTaskKind::LineDecoration(..) => "LineDecoration"@,
            RenderTaskKind::SVGFENode(..) => "SVGFENode"@,
            RenderTaskKind::TileComposite(..) => "TileComposite"@,
            RenderTaskKind::Prim(..) => "Prim"@,
            RenderTaskKind::Empty(..) => "Empty"@,
            RenderTaskKind::Test(..) => "Test"@,
        }
    }

    pub fn as_str(&self) -> (r: &'static str)
        ensures
            r@ == self.spec_str(),
    {
        match self {
            RenderTaskKind::Image(..) => "Image",
            RenderTaskKind::Cached(..) => "Cached",
            RenderTaskKind::Picture(..) => "Picture",
            RenderTaskKind::CacheMask(..) => "CacheMask",
            RenderTaskKind::ClipRegion(..) => "ClipRegion",
            RenderTaskKind::VerticalBlur(..) => "VerticalBlur",
            RenderTaskKind::HorizontalBlur(..) => "HorizontalBlur",
            RenderTaskKind::Readback(..) => "Readback",
            RenderTaskKind::Scaling(..) => "Scaling",
            RenderTaskKind::Blit(..) => "Blit",
            RenderTaskKind::Border(..) => "Border",
            RenderTaskKind::LineDecoration(..) => "LineDecoration",
            RenderTaskKind::SVGFENode(..) => "SVGFENode",
            RenderTaskKind::TileComposite(..) => "TileComposite",
            RenderTaskKind::Prim(..) => "Prim",
            RenderTaskKind::Empty(..) => "Empty",
            RenderTaskKind::Test(..) => "Test",
        }
    }

    /// Masks are drawn to alpha targets, blurs and copies to what they were made
    /// for, everything else to color targets.
    pub open spec fn spec_target_kind(self) -> RenderTargetKind {
        match self {
            RenderTaskKind::ClipRegion(..) => RenderTargetKind::Alpha,
            RenderTaskKind::CacheMask(..) => RenderTargetKind::Alpha,
            RenderTaskKind::Empty(..) => RenderTargetKind::Alpha,
            RenderTaskKind::VerticalBlur(info) => info.target_kind,
            RenderTaskKind::HorizontalBlur(info) => info.target_kind,
            RenderTaskKind::Scaling(info) => info.target_kind,
            RenderTaskKind::Cached(info) => info.target_kind,
            RenderTaskKind::Test(kind) => kind,
            _ => RenderTargetKind::Color,
        }
    }

    pub fn target_kind(&self) -> (r: RenderTargetKind)
        ensures
            r == self.spec_target_kind(),
    {
        match self {
            RenderTaskKind::Image(..) | RenderTaskKind::LineDecoration(..)
            | RenderTaskKind::Readback(..) | RenderTaskKind::Border(..)
            | RenderTaskKind::Picture(..) | RenderTaskKind::Blit(..)
            | RenderTaskKind::TileComposite(..) | RenderTaskKind::Prim(..)
            | RenderTaskKind::SVGFENode(..) => RenderTargetKind::Color,
            RenderTaskKind::ClipRegion(..) | RenderTaskKind::CacheMask(..)
            | RenderTaskKind::Empty(..) => RenderTargetKind::Alpha,
            RenderTaskKind::VerticalBlur(info) => info.target_kind,
            RenderTaskKind::HorizontalBlur(info) => info.target_kind,
            RenderTaskKind::Scaling(info) => info.target_kind,
            RenderTaskKind::Cached(info) => info.target_kind,
            RenderTaskKind::Test(kind) => *kind,
        }
    }

    pub fn new_tile_composite(
        sub_rect_offset: DeviceIntPoint,
        scissor_rect: DeviceIntRect,
        valid_rect: DeviceIntRect,
        clear_color: ColorF,
    ) -> (r: Self)
        ensures
            r == RenderTaskKind::TileComposite(
                TileCompositeTask {
                    task_id: None,
                    sub_rect_offset,
                    scissor_rect,
                    valid_rect,
                    clear_color,
                },
            ),
    {
        RenderTaskKind::TileComposite(
            TileCompositeTask {
                task_id: None,
                sub_rect_offset,
                scissor_rect,
                valid_rect,
                clear_color,
            },
        )
    }

    pub fn new_picture(
        size: DeviceIntSize,
        needs_scissor_rect: bool,
        content_origin: FloatPoint,
        surface_spatial_node_index: SpatialNodeIndex,
        raster_spatial_node_index: SpatialNodeIndex,
        device_pixel_scale: FloatBits,
        scissor_rect: Option<DeviceIntRect>,
        valid_rect: Option<DeviceIntRect>,
        clear_color: Option<ColorF>,
        cmd_buffer_index: CommandBufferIndex,
        can_use_shared_surface: bool,
        content_size: Option<DeviceIntSize>,
    ) -> (r: Self)
        requires
            sane_size(size),
        ensures
            r == RenderTaskKind::Picture(
                PictureTask {
                    content_origin,
                    can_merge: !needs_scissor_rect,
                    surface_spatial_node_index,
                    raster_spatial_node_index,
                    device_pixel_scale,
                    scissor_rect,
                    valid_rect,
                    clear_color,
                    cmd_buffer_index,
                    resolve_op: None,
                    can_use_shared_surface,
                    content_size: match content_size {
                        Some(s) => s,
                        None => size,
                    },
                },
            ),
    {
        RenderTaskKind::Picture(
            PictureTask {
                content_origin,
                can_merge: !needs_scissor_rect,
                surface_spatial_node_index,
                raster_spatial_node_index,
                device_pixel_scale,
                scissor_rect,
                valid_rect,
                clear_color,
                cmd_buffer_index,
                resolve_op: None,
                can_use_shared_surface,
                content_size: match content_size {
                    Some(s) => s,
                    None => size,
                },
            },
        )
    }

    pub fn new_prim(
        pattern: PatternKind,
        pattern_input: PatternShaderInput,
        content_origin: FloatPoint,
        prim_address_f: GpuBufferAddress,
        transform_id: GpuTransformId,
        edge_flags: EdgeMask,
        quad_flags: QuadFlags,
        prim_needs_scissor_rect: bool,
        texture_input: RenderTaskId,
    ) -> (r: Self)
        ensures
            r == RenderTaskKind::Prim(
                PrimTask {
                    pattern,
                    pattern_input,
                    content_origin,
                    prim_address_f,
                    transform_id,
                    edge_flags,
                    quad_flags,
                    prim_needs_scissor_rect,
                    texture_input,
                },
            ),
    {
        RenderTaskKind::Prim(
            PrimTask {
                pattern,
                pattern_input,
                content_origin,
                prim_address_f,
                transform_id,
                edge_flags,
                quad_flags,
                prim_needs_scissor_rect,
                texture_input,
            },
        )
    }

    pub fn new_readback(readback_origin: Option<FloatPoint>) -> (r: Self)
        ensures
            r == RenderTaskKind::Readback(ReadbackTask { readback_origin }),
    {
        RenderTaskKind::Readback(ReadbackTask { readback_origin })
    }

    pub fn new_line_decoration(
        style: LineStyle,
        orientation: LineOrientation,
        wavy_line_thickness: FloatBits,
        local_size: FloatPoint,
    ) -> (r: Self)
        ensures
            r == RenderTaskKind::LineDecoration(
                LineDecorationTask { style, orientation, wavy_line_thickness, local_size },
            ),
    {
        RenderTaskKind::LineDecoration(
            LineDecorationTask { style, orientation, wavy_line_thickness, local_size },
        )
    }

    pub fn new_border_segment(instances: Vec<BorderInstance>) -> (r: Self)
        ensures
            r@ == RenderTaskKindView::Border(instances@),
    {
        RenderTaskKind::Border(BorderTask { instances })
    }

    pub fn new_rounded_rect_mask(
        local_pos: FloatPoint,
        clip_data: ClipData,
        device_pixel_scale: FloatBits,
        gpu_supports_fast_clears: bool,
    ) -> (r: Self)
        ensures
            r == RenderTaskKind::ClipRegion(
                ClipRegionTask {
                    local_pos,
                    device_pixel_scale,
                    clip_data,
                    clear_to_one: gpu_supports_fast_clears,
                },
            ),
    {
        RenderTaskKind::ClipRegion(
            ClipRegionTask {
                local_pos,
                device_pixel_scale,
                clip_data,
                clear_to_one: gpu_supports_fast_clears,
            },
        )
    }
}

/// A rendering operation on top of a task.
#[derive(Clone, Copy, Debug, PartialEq, Eq, Structural)]
pub enum SubTask {
    RectangleClip(RectangleClipSubTask),
    ImageClip(ImageClipSubTask),
}

/// A clip to a rectangle, which may be rounded.
#[derive(Clone, Copy, Debug, PartialEq, Eq, Structural)]
pub struct RectangleClipSubTask {
    pub quad_address: GpuBufferAddress,
    pub clip_address: GpuBufferAddress,
    /// The space in which the clip's quad is placed: that of the target, or that
    /// of the primitive that is clipped.
    pub clip_space: ClipSpace,
    pub quad_transform_id: GpuTransformId,
    /// From the space of the quad to the space of the clip.
    pub clip_transform_id: GpuTransformId,
    pub quad_flags: QuadFlags,
    pub needs_scissor_rect: bool,
    pub rounded_rect_fast_path: bool,
}

/// A clip to the alpha channel of an image.
#[derive(Clone, Copy, Debug, PartialEq, Eq, Structural)]
pub struct ImageClipSubTask {
    pub quad_address: GpuBufferAddress,
    pub quad_transform_id: GpuTransformId,
    pub src_task: RenderTaskId,
    pub quad_flags: QuadFlags,
    pub needs_scissor_rect: bool,
}

/// A task, what it depends on, and where it is drawn.
pub struct RenderTask {
    pub location: RenderTaskLocation,
    pub children: TaskDependencies,
    pub kind: RenderTaskKind,
    pub sub_tasks: SubTaskRange,
    pub free_after: PassId,
    pub render_on: PassId,
    pub uv_rect_handle: GpuBufferAddress,
    pub cache_handle: Option<u64>,
    pub uv_rect_kind: UvRectKind,
}

/// A task as a mathematical value.
#[verifier::ext_equal]
pub struct RenderTaskView {
    pub location: RenderTaskLocation,
    pub children: Seq<u32>,
    pub kind: RenderTaskKindView,
    pub sub_tasks: SubTaskRange,
    pub free_after: PassId,
    pub render_on: PassId,
    pub uv_rect_handle: GpuBufferAddress,
    pub cache_handle: Option<u64>,
    pub uv_rect_kind: UvRectKind,
}

/// A task without dependencies, drawn by no pass yet and freed by none.
pub open spec fn fresh_task(
    location: RenderTaskLocation,
    kind: RenderTaskKindView,
    uv_rect_kind: UvRectKind,
) -> RenderTaskView {
    RenderTaskView {
        location,
        children: Seq::empty(),
        kind,
        sub_tasks: SubTaskRange::spec_empty(),
        free_after: PassId(MAX_PASS),
        render_on: PassId(0),
        uv_rect_handle: GpuBufferAddress::spec_invalid(),
        cache_handle: None,
        uv_rect_kind,
    }
}

impl RenderTask {
    pub open spec fn view(self) -> RenderTaskView {
        RenderTaskView {
            location: self.location,
            children: dependency_ids(self.children),
            kind: self.kind@,
            sub_tasks: self.sub_tasks,
            free_after: self.free_after,
            render_on: self.render_on,
            uv_rect_handle: self.uv_rect_handle,
            cache_handle: self.cache_handle,
            uv_rect_kind: self.uv_rect_kind,
        }
    }

    fn fresh(location: RenderTaskLocation, kind: RenderTaskKind) -> (r: Self)
        ensures
            r@ == fresh_task(location, kind@, UvRectKind::Rect),
            r.kind == kind,
    {
        RenderTask {
            location,
            children: TaskDependencies::new(),
            kind,
            free_after: PassId(MAX_PASS),
            render_on: PassId(0),
            uv_rect_handle: GpuBufferAddress::invalid(),
            uv_rect_kind: UvRectKind::Rect,
            cache_handle: None,
            sub_tasks: SubTaskRange::empty(),
        }
    }

    pub fn new(location: RenderTaskLocation, kind: RenderTaskKind) -> (r: Self)
        requires
            location.wf(),
            sane_size(location.spec_size()),
        ensures
            r@ == fresh_task(location, kind@, UvRectKind::Rect),
            r.kind == kind,
    {
        RenderTask::fresh(location, kind)
    }

    /// A task that is still to be given a place in a render target.
    pub fn new_dynamic(size: DeviceIntSize, kind: RenderTaskKind) -> (r: Self)
        requires
            !size.spec_is_empty(),
            sane_size(size),
        ensures
            r@ == fresh_task(RenderTaskLocation::Unallocated { size }, kind@, UvRectKind::Rect),
            r.kind == kind,
    {
        RenderTask::new(RenderTaskLocation::Unallocated { size }, kind)
    }

    pub fn with_uv_rect_kind(self, uv_rect_kind: UvRectKind) -> (r: Self)
        ensures
            r@ == (RenderTaskView { uv_rect_kind, ..self@ }),
            r.kind == self.kind,
    {
        let mut task = self;
        task.uv_rect_kind = uv_rect_kind;
        task
    }

    /// A task for an image, which can be of any size.
    pub fn new_image(size: DeviceIntSize, request: u64, is_composited: bool) -> (r: Self)
        ensures
            r@ == fresh_task(
                RenderTaskLocation::CacheRequest { size },
                RenderTaskKind::Image(ImageRequestTask { request, is_composited })@,
                UvRectKind::Rect,
            ),
    {
        RenderTask::fresh(
            RenderTaskLocation::CacheRequest { size },
            RenderTaskKind::Image(ImageRequestTask { request, is_composited }),
        )
    }

    pub fn new_test(location: RenderTaskLocation, target: RenderTargetKind) -> (r: Self)
        ensures
            r@ == fresh_task(location, RenderTaskKind::Test(target)@, UvRectKind::Rect),
    {
        RenderTask::fresh(location, RenderTaskKind::Test(target))
    }

    /// Gives the task its sub-tasks, of which it has none yet.
    pub fn set_sub_tasks(&mut self, sub_tasks: SubTaskRange)
        requires
            old(self).sub_tasks.spec_is_empty(),
        ensures
            final(self)@ == (RenderTaskView { sub_tasks, ..old(self)@ }),
            final(self).kind == old(self).kind,
    {
        self.sub_tasks = sub_tasks;
    }

    pub fn uv_rect_kind(&self) -> (r: UvRectKind)
        ensures
            r == self.uv_rect_kind,
    {
        self.uv_rect_kind
    }

    pub fn get_texture_address(&self) -> (r: GpuBufferAddress)
        ensures
            r == self.uv_rect_handle,
    {
        self.uv_rect_handle
    }

    /// The texture that an allocated task is drawn to.
    pub open spec fn spec_target_texture(self) -> Option<CacheTextureId> {
        match self.location {
            RenderTaskLocation::Dynamic { texture_id, .. } => if texture_id.0
                != INVALID_CACHE_TEXTURE {
                Some(texture_id)
            } else {
                None
            },
            RenderTaskLocation::Static {
                surface: StaticRenderTaskSurface::TextureCache { texture, .. },
                ..
            } => Some(texture),
            _ => None,
        }
    }

    pub fn get_target_texture(&self) -> (r: CacheTextureId)
        requires
            self.spec_target_texture() is Some,
        ensures
            Some(r) == self.spec_target_texture(),
    {
        match self.location {
            RenderTaskLocation::Dynamic { texture_id, .. } => texture_id,
            RenderTaskLocation::Static {
                surface: StaticRenderTaskSurface::TextureCache { texture, .. },
                ..
            } => texture,
            _ => CacheTextureId(INVALID_CACHE_TEXTURE),
        }
    }

    /// What a draw call that reads the task binds.
    pub open spec fn spec_texture_source(self) -> Option<TextureSource> {
        match self.location {
            RenderTaskLocation::Dynamic { texture_id, .. } => if texture_id.0
                != INVALID_CACHE_TEXTURE {
                Some(TextureSource::TextureCache(texture_id, Swizzle::Rgba))
            } else {
                None
            },
            RenderTaskLocation::Static {
                surface: StaticRenderTaskSurface::ReadOnly { source },
                ..
            } => Some(source),
            RenderTaskLocation::Static {
                surface: StaticRenderTaskSurface::TextureCache { texture, .. },
                ..
            } => Some(TextureSource::TextureCache(texture, Swizzle::Rgba)),
            _ => None,
        }
    }

    pub fn get_texture_source(&self) -> (r: TextureSource)
        requires
            self.spec_texture_source() is Some,
        ensures
            Some(r) == self.spec_texture_source(),
    {
        match self.location {
            RenderTaskLocation::Dynamic { texture_id, .. } => {
                TextureSource::TextureCache(texture_id, Swizzle::Rgba)
            },
            RenderTaskLocation::Static {
                surface: StaticRenderTaskSurface::ReadOnly { source },
                ..
            } => source,
            RenderTaskLocation::Static {
                surface: StaticRenderTaskSurface::TextureCache { texture, .. },
                ..
            } => TextureSource::TextureCache(texture, Swizzle::Rgba),
            _ => TextureSource::Invalid,
        }
    }

    pub fn get_target_rect(&self) -> (r: DeviceIntRect)
        requires
            self.location.spec_rect() is Some,
        ensures
            Some(r) == self.location.spec_rect(),
    {
        match self.location {
            RenderTaskLocation::Dynamic { rect, .. } => rect,
            RenderTaskLocation::Static { rect, .. } => rect,
            _ => DeviceIntRect::from_size(DeviceIntSize::new(0, 0)),
        }
    }

    pub fn get_target_size(&self) -> (r: DeviceIntSize)
        requires
            self.location.wf(),
        ensures
            r == self.location.spec_size(),
    {
        self.location.size()
    }

    pub fn target_kind(&self) -> (r: RenderTargetKind)
        ensures
            r == self.kind.spec_target_kind(),
    {
        self.kind.target_kind()
    }

    /// Notes that the render task cache looks after the task.
    pub fn mark_cached(&mut self, handle: u64)
        ensures
            final(self)@ == (RenderTaskView { cache_handle: Some(handle), ..old(self)@ }),
            final(self).kind == old(self).kind,
    {
        self.cache_handle = Some(handle);
    }
}

} // verus!
