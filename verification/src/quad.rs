//! Quads: how a rectangle with a pattern and clips is drawn.
//!
//! A quad without a mask is drawn where it belongs. One with a mask is drawn to a
//! target of its own, masked there, and copied; a large one is split, so that only
//! the parts that a mask touches take the detour.

pub mod batch;
pub mod clips;
pub mod draw;
pub mod drawn;
pub mod prepare;
pub mod reading;
pub mod split;
pub mod tiles;

use crate::float_bits::{FloatBits, ONE_BITS};
use crate::internal_types::{EdgeMask, FloatPoint, QuadFlags, SpatialNodeIndex};
use crate::quad::tiles::ClipMode;
use crate::render_task::FloatRect;
use vstd::prelude::*;

verus! {

/// The bits of 4: a quad that is not larger has no separate edges.
pub const MIN_AA_SEGMENTS_SIZE: u32 = 0x4080_0000;

/// The bits of 256: a quad that is not larger is not split.
pub const MIN_SPLIT_SIZE: u32 = 0x4380_0000;

/// The bits of 16, 64, 1024 and 1024 times 1024.
pub const FEW_REPETITIONS: u32 = 0x4180_0000;

pub const MANY_REPETITIONS: u32 = 0x4280_0000;

pub const LARGE_SIDE: u32 = 0x4480_0000;

pub const LARGE_AREA: u32 = 0x4980_0000;

/// The node that stands for "not set".
pub const INVALID_SPATIAL_NODE: u32 = 0xFFFF_FFFF;

/// The greatest number of clips, without it, of a quad that is cached.
pub const CACHE_MAX_CLIPS: usize = 3;

/// A scale followed by an offset.
#[derive(Clone, Copy, Debug, PartialEq, Eq, Structural)]
pub struct ScaleOffset {
    pub scale: FloatPoint,
    pub offset: FloatPoint,
}

impl ScaleOffset {
    pub open spec fn spec_identity() -> Self {
        ScaleOffset {
            scale: FloatPoint { x: FloatBits(ONE_BITS), y: FloatBits(ONE_BITS) },
            offset: FloatPoint { x: FloatBits(0), y: FloatBits(0) },
        }
    }

    #[verifier::when_used_as_spec(spec_identity)]
    pub fn identity() -> (r: Self)
        ensures
            r == Self::spec_identity(),
    {
        ScaleOffset {
            scale: FloatPoint { x: FloatBits(ONE_BITS), y: FloatBits(ONE_BITS) },
            offset: FloatPoint { x: FloatBits(0), y: FloatBits(0) },
        }
    }
}

/// What identifies a quad that is kept from frame to frame.
#[derive(Clone, Copy, Debug, PartialEq, Eq)]
pub struct QuadCacheKey {
    pub prim: u64,
    pub clips: [u64; 3],
    pub transform: [u32; 4],
}

/// The transform from one coordinate system to another, in device pixels.
#[derive(Clone, Copy, Debug, PartialEq, Eq, Structural)]
pub struct RelativeTransform {
    /// The transform as a scale and an offset, where it is one.
    pub scale_offset: Option<ScaleOffset>,
    /// Axis-aligned rectangles stay axis-aligned.
    pub axis_aligned: bool,
    /// The scale along each axis.
    pub scale_factors: FloatPoint,
}

/// The transform of the primitives of a cluster.
#[derive(Clone, Copy, Debug, PartialEq, Eq, Structural)]
pub struct QuadTransformState {
    as_scale_offset: Option<ScaleOffset>,
    axis_aligned: bool,
    factors: FloatPoint,
    prim_spatial_node: SpatialNodeIndex,
    raster_spatial_node: SpatialNodeIndex,
    pixel_scale: FloatBits,
}

/// The state as a mathematical value.
pub struct QuadTransformStateView {
    pub scale_offset: Option<ScaleOffset>,
    pub axis_aligned: bool,
    pub scale_factors: FloatPoint,
    pub prim_node: SpatialNodeIndex,
    pub raster_node: SpatialNodeIndex,
    pub pixel_scale: FloatBits,
}

impl QuadTransformState {
    pub closed spec fn view(self) -> QuadTransformStateView {
        QuadTransformStateView {
            scale_offset: self.as_scale_offset,
            axis_aligned: self.axis_aligned,
            scale_factors: self.factors,
            prim_node: self.prim_spatial_node,
            raster_node: self.raster_spatial_node,
            pixel_scale: self.pixel_scale,
        }
    }

    /// A scale and offset is axis-aligned.
    pub open spec fn wf(self) -> bool {
        self@.scale_offset is Some ==> self@.axis_aligned
    }

    pub fn new() -> (r: Self)
        ensures
            r.wf(),
            r@ == (QuadTransformStateView {
                scale_offset: Some(ScaleOffset::spec_identity()),
                axis_aligned: true,
                scale_factors: FloatPoint { x: FloatBits(ONE_BITS), y: FloatBits(ONE_BITS) },
                prim_node: SpatialNodeIndex(INVALID_SPATIAL_NODE),
                raster_node: SpatialNodeIndex(INVALID_SPATIAL_NODE),
                pixel_scale: FloatBits(ONE_BITS),
            }),
    {
        QuadTransformState {
            as_scale_offset: Some(ScaleOffset::identity()),
            axis_aligned: true,
            factors: FloatPoint { x: FloatBits(ONE_BITS), y: FloatBits(ONE_BITS) },
            prim_spatial_node: SpatialNodeIndex(INVALID_SPATIAL_NODE),
            raster_spatial_node: SpatialNodeIndex(INVALID_SPATIAL_NODE),
            pixel_scale: FloatBits(ONE_BITS),
        }
    }

    /// Sets the transform from one node to another. For the nodes that are set
    /// already, everything stays as it is, the scale included.
    pub fn set(
        &mut self,
        src_node: SpatialNodeIndex,
        dst_node: SpatialNodeIndex,
        transform: &RelativeTransform,
        scale: FloatBits,
    )
        requires
            old(self).wf(),
        ensures
            final(self).wf(),
            final(self)@ == if old(self)@.prim_node == src_node && old(self)@.raster_node
                == dst_node {
                old(self)@
            } else {
                QuadTransformStateView {
                    scale_offset: transform.scale_offset,
                    axis_aligned: transform.scale_offset is Some || transform.axis_aligned,
                    scale_factors: transform.scale_factors,
                    prim_node: src_node,
                    raster_node: dst_node,
                    pixel_scale: scale,
                }
            },
    {
        if self.prim_spatial_node == src_node && self.raster_spatial_node == dst_node {
            return;
        }
        self.as_scale_offset = transform.scale_offset;
        self.axis_aligned = transform.scale_offset.is_some() || transform.axis_aligned;
        self.factors = transform.scale_factors;
        self.prim_spatial_node = src_node;
        self.raster_spatial_node = dst_node;
        self.pixel_scale = scale;
    }

    pub fn is_2d_scale_offset(&self) -> (r: bool)
        ensures
            r == (self@.scale_offset is Some),
    {
        self.as_scale_offset.is_some()
    }

    pub fn is_2d_axis_aligned(&self) -> (r: bool)
        ensures
            r == self@.axis_aligned,
    {
        self.axis_aligned
    }

    pub fn as_2d_scale_offset(&self) -> (r: Option<ScaleOffset>)
        ensures
            r == self@.scale_offset,
    {
        self.as_scale_offset
    }

    pub fn scale_factors(&self) -> (r: FloatPoint)
        ensures
            r == self@.scale_factors,
    {
        self.factors
    }

    pub fn prim_spatial_node_index(&self) -> (r: SpatialNodeIndex)
        ensures
            r == self@.prim_node,
    {
        self.prim_spatial_node
    }

    pub fn raster_spatial_node_index(&self) -> (r: SpatialNodeIndex)
        ensures
            r == self@.raster_node,
    {
        self.raster_spatial_node
    }

    pub fn device_pixel_scale(&self) -> (r: FloatBits)
        ensures
            r == self@.pixel_scale,
    {
        self.pixel_scale
    }
}

/// How clipping affects the drawing of a quad.
#[derive(Clone, Copy, Debug, PartialEq, Eq, Structural)]
pub enum QuadRenderStrategy {
    /// No mask: the quad is drawn where it belongs.
    Direct,
    /// The whole quad is drawn and masked elsewhere, and copied.
    Indirect,
    /// A rounded rectangle clips the quad, and only its corners take the detour.
    NinePatch { radius: FloatPoint, clip_rect: FloatRect },
    /// The quad is split into tiles, some of which take the detour.
    Tiled,
}

/// The four radii of a rounded rectangle, no larger than the rectangle.
#[derive(Clone, Copy, Debug, PartialEq, Eq, Structural)]
pub struct BorderRadius {
    pub top_left: FloatPoint,
    pub top_right: FloatPoint,
    pub bottom_left: FloatPoint,
    pub bottom_right: FloatPoint,
}

impl BorderRadius {
    pub open spec fn spec_max_width(self) -> FloatBits {
        self.top_left.x.spec_max(self.bottom_left.x).spec_max(self.top_right.x).spec_max(
            self.bottom_right.x,
        )
    }

    pub open spec fn spec_max_height(self) -> FloatBits {
        self.top_left.y.spec_max(self.bottom_left.y).spec_max(self.top_right.y).spec_max(
            self.bottom_right.y,
        )
    }
}

/// What the choice of a strategy looks at in the only clip of a quad.
#[derive(Clone, Copy, Debug, PartialEq, Eq)]
pub struct SingleClip {
    /// The radii of a rounded rectangle, and what it keeps.
    pub rounded: Option<(BorderRadius, ClipMode)>,
    /// The width and height of the clip.
    pub size: FloatPoint,
    /// The clip and the quad share a coordinate system.
    pub matches_prim: bool,
    /// The clip in the space of the quad, where it can be mapped.
    pub rect_in_prim_space: Option<FloatRect>,
}

/// What the choice of a strategy looks at in the clips of a quad.
#[derive(Clone, Copy, Debug, PartialEq, Eq)]
pub struct ClipSummary {
    pub needs_mask: bool,
    /// The width and height of what is visible of the quad.
    pub coverage_size: FloatPoint,
    pub count: u32,
    /// The clip, where there is only one.
    pub single: Option<SingleClip>,
}

/// The quad has a side that is worth splitting.
pub open spec fn worth_splitting(size: FloatPoint) -> bool {
    size.x.spec_gt(FloatBits(MIN_SPLIT_SIZE)) || size.y.spec_gt(FloatBits(MIN_SPLIT_SIZE))
}

/// The nine-patch of a single rounded clip whose corners leave a middle.
pub open spec fn nine_patch_of(clip: SingleClip) -> Option<QuadRenderStrategy> {
    match clip.rounded {
        Some((radius, ClipMode::Clip)) => if radius.spec_max_width().spec_le(
            clip.size.x.spec_half(),
        ) && radius.spec_max_height().spec_le(clip.size.y.spec_half()) && clip.matches_prim
            && clip.rect_in_prim_space is Some {
            Some(
                QuadRenderStrategy::NinePatch {
                    radius: FloatPoint { x: radius.spec_max_width(), y: radius.spec_max_height() },
                    clip_rect: clip.rect_in_prim_space->0,
                },
            )
        } else {
            None
        },
        _ => None,
    }
}

/// Without a mask a quad is drawn directly. A small one, or one that is not merely
/// scaled and moved, takes the detour as a whole. A nine-patch is made for a single
/// rounded clip that leaves a middle, and tiles for everything else.
pub open spec fn spec_strategy(clips: ClipSummary, prim_is_scale_offset: bool) -> QuadRenderStrategy {
    if !clips.needs_mask {
        QuadRenderStrategy::Direct
    } else if !prim_is_scale_offset || !worth_splitting(clips.coverage_size) {
        QuadRenderStrategy::Indirect
    } else if clips.count == 1 && clips.single is Some && nine_patch_of(clips.single->0) is Some {
        nine_patch_of(clips.single->0)->0
    } else {
        QuadRenderStrategy::Tiled
    }
}

pub fn get_prim_render_strategy(
    clips: &ClipSummary,
    prim_is_scale_offset: bool,
) -> (r: QuadRenderStrategy)
    ensures
        r == spec_strategy(*clips, prim_is_scale_offset),
{
    if !clips.needs_mask {
        return QuadRenderStrategy::Direct;
    }
    let try_split_prim: bool = prim_is_scale_offset && (clips.coverage_size.x.gt(
        FloatBits(MIN_SPLIT_SIZE),
    ) || clips.coverage_size.y.gt(FloatBits(MIN_SPLIT_SIZE)));
    if !try_split_prim {
        return QuadRenderStrategy::Indirect;
    }
    if clips.count == 1 {
        if let Some(clip) = clips.single {
            if let Some((radius, ClipMode::Clip)) = clip.rounded {
                let max_corner_width = radius.top_left.x.max(radius.bottom_left.x).max(
                    radius.top_right.x,
                ).max(radius.bottom_right.x);
                let max_corner_height = radius.top_left.y.max(radius.bottom_left.y).max(
                    radius.top_right.y,
                ).max(radius.bottom_right.y);
                if max_corner_width.le(clip.size.x.half()) && max_corner_height.le(
                    clip.size.y.half(),
                ) && clip.matches_prim {
                    if let Some(rect) = clip.rect_in_prim_space {
                        return QuadRenderStrategy::NinePatch {
                            radius: FloatPoint { x: max_corner_width, y: max_corner_height },
                            clip_rect: rect,
                        };
                    }
                }
            }
        }
    }
    QuadRenderStrategy::Tiled
}

/// A quad that is cached takes the detour, whatever its clips are.
pub open spec fn spec_quad_strategy(
    is_cached: bool,
    clips: ClipSummary,
    prim_is_scale_offset: bool,
) -> QuadRenderStrategy {
    if is_cached {
        QuadRenderStrategy::Indirect
    } else {
        spec_strategy(clips, prim_is_scale_offset)
    }
}

pub fn quad_strategy(
    is_cached: bool,
    clips: &ClipSummary,
    prim_is_scale_offset: bool,
) -> (r: QuadRenderStrategy)
    ensures
        r == spec_quad_strategy(is_cached, *clips, prim_is_scale_offset),
{
    if is_cached {
        QuadRenderStrategy::Indirect
    } else {
        get_prim_render_strategy(clips, prim_is_scale_offset)
    }
}

/// A clip as the cache knows it.
#[derive(Clone, Copy, Debug, PartialEq, Eq, Structural)]
pub struct CachedClip {
    pub uid: u64,
    pub spatial_node: SpatialNodeIndex,
}

/// The identity of the `i`-th clip, or the mark of an unused place.
pub open spec fn clip_uid(clips: Seq<CachedClip>, i: int) -> u64 {
    if i < clips.len() {
        clips[i].uid
    } else {
        u64::MAX
    }
}

/// A quad can be cached when it has few clips, all in its own space, and is merely
/// scaled and moved.
pub open spec fn can_be_cached(transform: QuadTransformStateView, clips: Seq<CachedClip>) -> bool {
    &&& clips.len() < CACHE_MAX_CLIPS
    &&& transform.scale_offset is Some
    &&& forall|i: int| 0 <= i < clips.len() ==> (#[trigger] clips[i]).spatial_node
        == transform.prim_node
}

/// The key under which a quad is cached, where it can be.
pub fn cache_key(
    prim_uid: u64,
    transform: &QuadTransformState,
    clips: &Vec<CachedClip>,
) -> (r: Option<QuadCacheKey>)
    ensures
        r is Some <==> can_be_cached(transform@, clips@),
        r matches Some(key) ==> {
            let t = transform@.scale_offset->0;
            &&& key.prim == prim_uid
            &&& key.clips@ == seq![clip_uid(clips@, 0), clip_uid(clips@, 1), clip_uid(clips@, 2)]
            &&& key.transform@ == seq![t.scale.x.0, t.scale.y.0, t.offset.x.0, t.offset.y.0]
        },
{
    if clips.len() >= CACHE_MAX_CLIPS {
        return None;
    }
    let prim_node = transform.prim_spatial_node_index();
    match transform.as_2d_scale_offset() {
        None => None,
        Some(t) => {
            let mut clip_uids: [u64; 3] = [u64::MAX, u64::MAX, u64::MAX];
            let mut i: usize = 0;
            while i < clips.len()
                invariant
                    i <= clips@.len() < 3,
                    prim_node == transform@.prim_node,
                    clip_uids@.len() == 3,
                    forall|k: int| 0 <= k < i ==> clip_uids@[k] == (#[trigger] clips@[k]).uid,
                    forall|k: int| i <= k < 3 ==> #[trigger] clip_uids@[k] == u64::MAX,
                    forall|k: int| 0 <= k < i ==> (#[trigger] clips@[k]).spatial_node == prim_node,
                decreases clips@.len() - i,
            {
                clip_uids[i] = clips[i].uid;
                if clips[i].spatial_node != prim_node {
                    return None;
                }
                i = i + 1;
            }
            assert(clip_uids@ =~= seq![
                clip_uid(clips@, 0),
                clip_uid(clips@, 1),
                clip_uid(clips@, 2),
            ]);
            Some(
                QuadCacheKey {
                    prim: prim_uid,
                    clips: clip_uids,
                    transform: [t.scale.x.0, t.scale.y.0, t.offset.x.0, t.offset.y.0],
                },
            )
        },
    }
}

/// Two quads with one key have the same primitive, the same transform and the same
/// clips, as long as no clip carries the mark of an unused place.
pub proof fn cache_keys_tell_quads_apart(
    t1: QuadTransformStateView,
    t2: QuadTransformStateView,
    c1: Seq<CachedClip>,
    c2: Seq<CachedClip>,
)
    requires
        can_be_cached(t1, c1),
        can_be_cached(t2, c2),
        forall|i: int| 0 <= i < c1.len() ==> (#[trigger] c1[i]).uid != u64::MAX,
        forall|i: int| 0 <= i < c2.len() ==> (#[trigger] c2[i]).uid != u64::MAX,
        forall|i: int| 0 <= i < 3 ==> #[trigger] clip_uid(c1, i) == clip_uid(c2, i),
    ensures
        c1.len() == c2.len(),
        forall|i: int| 0 <= i < c1.len() ==> (#[trigger] c1[i]).uid == c2[i].uid,
{
    assert(clip_uid(c1, 0) == clip_uid(c2, 0));
    assert(clip_uid(c1, 1) == clip_uid(c2, 1));
    assert(clip_uid(c1, 2) == clip_uid(c2, 2));
    if c1.len() < c2.len() {
        assert(c2[c1.len() as int].uid != u64::MAX);
        assert(clip_uid(c1, c1.len() as int) == clip_uid(c2, c1.len() as int));
    }
    if c2.len() < c1.len() {
        assert(c1[c2.len() as int].uid != u64::MAX);
        assert(clip_uid(c1, c2.len() as int) == clip_uid(c2, c2.len() as int));
    }
    assert forall|i: int| 0 <= i < c1.len() implies (#[trigger] c1[i]).uid == c2[i].uid by {
        assert(clip_uid(c1, i) == clip_uid(c2, i));
    }
}

/// How a pattern that is smaller than its quad is repeated.
#[derive(Clone, Copy, Debug, PartialEq, Eq, Structural)]
pub enum RepetitionStrategy {
    /// The pattern fills the quad.
    Single,
    /// A shader repeats the texels of a task.
    RepeatTask,
    /// The pattern is drawn to a task first, whose texels a shader repeats.
    RepeatPattern,
    /// Each repetition is a quad of its own.
    Duplicate,
}

/// The measures by which a repetition is chosen.
#[derive(Clone, Copy, Debug, PartialEq, Eq, Structural)]
pub struct RepetitionMeasures {
    /// The size of the pattern and of the quad.
    pub stretch_size: FloatPoint,
    pub prim_size: FloatPoint,
    /// The pattern is a task that can be read as it is.
    pub pattern_is_task: bool,
    /// The area of the quad over that of the pattern.
    pub repetitions: FloatBits,
    /// The size and the area of the pattern in device pixels.
    pub surface_size: FloatPoint,
    pub surface_area: FloatBits,
}

pub open spec fn needs_repetition(m: RepetitionMeasures) -> bool {
    m.prim_size.x.spec_gt(m.stretch_size.x) || m.prim_size.y.spec_gt(m.stretch_size.y)
}

/// Enough repetitions of a pattern small enough make it worth a task.
pub open spec fn worth_a_task(m: RepetitionMeasures) -> bool {
    ||| m.repetitions.spec_gt(FloatBits(FEW_REPETITIONS)) && FloatBits(LARGE_SIDE).spec_gt(
        m.surface_size.x,
    ) && FloatBits(LARGE_SIDE).spec_gt(m.surface_size.y)
    ||| m.repetitions.spec_gt(FloatBits(MANY_REPETITIONS)) && FloatBits(LARGE_AREA).spec_gt(
        m.surface_area,
    )
}

pub open spec fn spec_repetition(m: RepetitionMeasures) -> RepetitionStrategy {
    if !needs_repetition(m) {
        RepetitionStrategy::Single
    } else if m.pattern_is_task {
        RepetitionStrategy::RepeatTask
    } else if worth_a_task(m) {
        RepetitionStrategy::RepeatPattern
    } else {
        RepetitionStrategy::Duplicate
    }
}

pub fn repetition_strategy(m: &RepetitionMeasures) -> (r: RepetitionStrategy)
    ensures
        r == spec_repetition(*m),
{
    if !(m.prim_size.x.gt(m.stretch_size.x) || m.prim_size.y.gt(m.stretch_size.y)) {
        return RepetitionStrategy::Single;
    }
    if m.pattern_is_task {
        return RepetitionStrategy::RepeatTask;
    }
    if (m.repetitions.gt(FloatBits(FEW_REPETITIONS)) && FloatBits(LARGE_SIDE).gt(m.surface_size.x)
        && FloatBits(LARGE_SIDE).gt(m.surface_size.y)) || (m.repetitions.gt(
        FloatBits(MANY_REPETITIONS),
    ) && FloatBits(LARGE_AREA).gt(m.surface_area)) {
        RepetitionStrategy::RepeatPattern
    } else {
        RepetitionStrategy::Duplicate
    }
}

/// The flags of a quad: separate edges for one that is large enough, and the clip of
/// the task applied by the shader unless a scissor does it.
pub open spec fn spec_quad_flags(prim_size: FloatPoint, is_scale_offset: bool) -> QuadFlags {
    QuadFlags {
        is_opaque: false,
        apply_render_task_clip: is_scale_offset,
        use_aa_segments: prim_size.x.spec_gt(FloatBits(MIN_AA_SEGMENTS_SIZE))
            && prim_size.y.spec_gt(FloatBits(MIN_AA_SEGMENTS_SIZE)),
        is_mask: false,
    }
}

pub fn quad_flags(prim_size: FloatPoint, is_scale_offset: bool) -> (r: QuadFlags)
    ensures
        r == spec_quad_flags(prim_size, is_scale_offset),
{
    let mut flags = QuadFlags::empty();
    if prim_size.x.gt(FloatBits(MIN_AA_SEGMENTS_SIZE)) && prim_size.y.gt(
        FloatBits(MIN_AA_SEGMENTS_SIZE),
    ) {
        flags.use_aa_segments = true;
    }
    if is_scale_offset {
        flags.apply_render_task_clip = true;
    }
    flags
}

/// The edges that are smoothed: one set for quads that stay axis-aligned, another
/// for the rest. The other edges are rounded to whole pixels.
pub fn aa_edges(
    transform: &QuadTransformState,
    aligned_aa_edges: EdgeMask,
    transformed_aa_edges: EdgeMask,
) -> (r: EdgeMask)
    ensures
        r == if transform@.axis_aligned {
            aligned_aa_edges
        } else {
            transformed_aa_edges
        },
{
    if transform.is_2d_axis_aligned() {
        aligned_aa_edges
    } else {
        transformed_aa_edges
    }
}

/// The greatest of four numbers: none is greater, and it is one of them.
pub open spec fn is_greatest(
    m: FloatBits,
    a: FloatBits,
    b: FloatBits,
    c: FloatBits,
    d: FloatBits,
) -> bool {
    &&& m == a || m == b || m == c || m == d
    &&& !a.spec_gt(m)
    &&& !b.spec_gt(m)
    &&& !c.spec_gt(m)
    &&& !d.spec_gt(m)
}

/// A single rounded clip that keeps what is inside, in the space of the quad, none of
/// whose corners takes up more than half of a side.
pub open spec fn leaves_a_middle(clips: ClipSummary, w: FloatBits, h: FloatBits) -> bool {
    clips.count == 1 && (clips.single matches Some(clip) && (clip.rounded matches Some(
        (r, ClipMode::Clip),
    ) && {
        &&& is_greatest(w, r.top_left.x, r.top_right.x, r.bottom_left.x, r.bottom_right.x)
        &&& is_greatest(h, r.top_left.y, r.top_right.y, r.bottom_left.y, r.bottom_right.y)
        &&& w.spec_le(clip.size.x.spec_half())
        &&& h.spec_le(clip.size.y.spec_half())
        &&& clip.matches_prim
        &&& clip.rect_in_prim_space is Some
    }))
}

/// How a quad is drawn. One that is cached takes the detour; else one without a mask is drawn
/// where it belongs. A quad is split exactly where it is scaled and moved and has a side
/// of more than 256 pixels: as a nine-patch where its only clip leaves a middle, whose
/// corners are then as large as the largest corner of the clip, and else in tiles.
pub proof fn strategies_suit_their_quads(is_cached: bool, clips: ClipSummary, scale_offset: bool)
    ensures
        ({
            let s = spec_quad_strategy(is_cached, clips, scale_offset);
            let large = clips.coverage_size.x.spec_gt(FloatBits(0x4380_0000))
                || clips.coverage_size.y.spec_gt(FloatBits(0x4380_0000));
            let split = !is_cached && clips.needs_mask && scale_offset && large;
            &&& s is Direct <==> !is_cached && !clips.needs_mask
            &&& s is Indirect <==> is_cached || (clips.needs_mask && !split)
            &&& s is NinePatch || s is Tiled <==> split
            &&& s matches QuadRenderStrategy::NinePatch { radius, clip_rect } ==> leaves_a_middle(
                clips,
                radius.x,
                radius.y,
            ) && clips.single->0.rect_in_prim_space == Some(clip_rect)
            &&& s is Tiled ==> forall|w: FloatBits, h: FloatBits|
                !#[trigger] leaves_a_middle(clips, w, h)
        }),
{
    let s = spec_quad_strategy(is_cached, clips, scale_offset);
    if let Some(clip) = clips.single {
        if let Some((r, _)) = clip.rounded {
            let w = r.spec_max_width();
            let h = r.spec_max_height();
            assert forall|x: FloatBits, y: FloatBits| s is Tiled implies !#[trigger] leaves_a_middle(
                clips,
                x,
                y,
            ) by {
                if leaves_a_middle(clips, x, y) {
                    assert(x.order() == w.order() && y.order() == h.order());
                }
            }
        }
    }
}

/// How a pattern is repeated. One that is as large as its quad is drawn once. A smaller one
/// that is a task already is repeated by a shader; any other one is first drawn to a task
/// where it is repeated more than 16 times with both sides below 1024 pixels, or more
/// than 64 times with an area below 1024 times 1024; and else it is drawn as often as needed.
pub proof fn repetitions_suit_their_patterns(m: RepetitionMeasures)
    ensures
        ({
            let s = spec_repetition(m);
            let smaller = m.prim_size.x.spec_gt(m.stretch_size.x) || m.prim_size.y.spec_gt(
                m.stretch_size.y,
            );
            let few = m.repetitions.spec_gt(FloatBits(0x4180_0000)) && FloatBits(
                0x4480_0000,
            ).spec_gt(m.surface_size.x) && FloatBits(0x4480_0000).spec_gt(m.surface_size.y);
            let many = m.repetitions.spec_gt(FloatBits(0x4280_0000)) && FloatBits(
                0x4980_0000,
            ).spec_gt(m.surface_area);
            &&& s is Single <==> !smaller
            &&& s is RepeatTask <==> smaller && m.pattern_is_task
            &&& s is RepeatPattern <==> smaller && !m.pattern_is_task && (few || many)
            &&& s is Duplicate <==> smaller && !m.pattern_is_task && !few && !many
        }),
{
}

} // verus!
