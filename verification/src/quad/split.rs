//! Quads that are drawn in parts: nine-patches and tiles.

use crate::internal_types::{
    EdgeMask, GpuTransformId, QuadFlags, RenderTaskId, MAX_RENDER_TASK_SIZE,
};
use crate::quad::batch::{QuadPrimitive, QuadSegment};
use crate::quad::clips::{clips_work, ClipForTask};
use crate::quad::prepare::{
    add_composite_prim, add_pattern_prim, add_render_task_with_mask, composite_command,
    composite_quad, opaque_if, pattern_command, plain_quad_address, rect_size, with_plain_quad,
    with_quad_task, with_segmented_quad, Pattern, QuadFrame, QuadFrameView, QuadTask,
};
use crate::quad::tiles::{
    classified, first_drawn, lemma_first_drawn, lemma_run_end, run_end, runs, tile_count, ClipMode,
    QuadTileClassifier, QuadTileInfo, QuadTileIterator, QuadTileKind, RegionCall, TileRegions,
    MAX_TILES_PER_QUAD_X, MAX_TILES_PER_QUAD_Y,
};
use crate::render_task::gpu_data::{float_rect, to_float_rect};
use crate::render_task::FloatRect;
use crate::renderer::gpu_buffer::GpuBufferAddress;
use crate::units::{DeviceIntPoint, DeviceIntRect};
use vstd::prelude::*;

verus! {

/// A quad that is drawn in parts.
pub struct SplitQuad {
    pub pattern: Pattern,
    pub prim_instance_index: u32,
    pub transform_id: GpuTransformId,
    pub is_scale_offset: bool,
    pub aa_flags: EdgeMask,
    pub quad_flags: QuadFlags,
    pub clips: Vec<ClipForTask>,
    pub coverage_rect: FloatRect,
    /// The quad as its tasks draw it.
    pub task_prim: QuadPrimitive,
    /// The quad as its direct parts draw it.
    pub direct_prim: QuadPrimitive,
    /// The pixels that the copied parts are clipped to.
    pub composite_rect: FloatRect,
}

/// A split quad on its way: the frame, the parts that are drawn where they belong
/// and those that are copied.
#[verifier::ext_equal]
pub struct SplitState {
    pub frame: QuadFrameView,
    pub direct: Seq<QuadSegment>,
    pub indirect: Seq<QuadSegment>,
}

/// The task of a part of the quad.
pub open spec fn part_task(q: SplitQuad, address: GpuBufferAddress, scissor: bool) -> QuadTask {
    QuadTask {
        pattern: q.pattern,
        prim_address: address,
        transform_id: q.transform_id,
        aa_flags: q.aa_flags,
        quad_flags: opaque_if(q.quad_flags, q.pattern.is_opaque),
        needs_scissor_rect: scissor,
        coverage_rect: q.coverage_rect,
    }
}

/// One part more, drawn to a task or not.
pub open spec fn with_part(
    s: SplitState,
    q: SplitQuad,
    address: GpuBufferAddress,
    scissor: bool,
    rect: DeviceIntRect,
    masked: bool,
) -> SplitState {
    if masked {
        let id = RenderTaskId { index: s.frame.graph.len() as u32 };
        SplitState {
            frame: with_quad_task(s.frame, part_task(q, address, scissor), rect, q.clips@),
            indirect: s.indirect.push(QuadSegment { rect: float_rect(rect), task_id: id }),
            ..s
        }
    } else {
        SplitState {
            direct: s.direct.push(
                QuadSegment { rect: float_rect(rect), task_id: q.pattern.texture_input },
            ),
            ..s
        }
    }
}

/// The commands for the parts: first those that are drawn where they belong.
pub open spec fn split_finished(s: SplitState, q: SplitQuad) -> QuadFrameView {
    let f = if s.direct.len() == 0 {
        s.frame
    } else {
        with_segmented_quad(
            s.frame,
            q.direct_prim,
            s.direct,
            pattern_command(q.pattern, q.prim_instance_index),
        )
    };
    if s.indirect.len() == 0 {
        f
    } else {
        with_segmented_quad(
            f,
            composite_quad(q.pattern.base_color, q.composite_rect),
            s.indirect,
            composite_command(q.prim_instance_index),
        )
    }
}

fn finish_split(
    q: &SplitQuad,
    direct: Vec<QuadSegment>,
    indirect: Vec<QuadSegment>,
    frame: &mut QuadFrame,
)
    requires
        direct@.len() <= 100,
        indirect@.len() <= 100,
        old(frame).room(2),
    ensures
        final(frame)@ == split_finished(
            (SplitState { frame: old(frame)@, direct: direct@, indirect: indirect@ }),
            *q,
        ),
        final(frame).used(*old(frame), 2),
{
    if direct.len() > 0 {
        add_pattern_prim(&q.pattern, q.prim_instance_index, &q.direct_prim, direct, frame);
    }
    if indirect.len() > 0 {
        add_composite_prim(
            q.pattern.base_color,
            q.prim_instance_index,
            q.composite_rect,
            indirect,
            frame,
        );
    }
}

fn task_of_part(q: &SplitQuad, address: GpuBufferAddress, scissor: bool) -> (r: QuadTask)
    ensures
        r == part_task(*q, address, scissor),
{
    let mut quad_flags = q.quad_flags;
    if q.pattern.is_opaque {
        quad_flags.is_opaque = true;
    }
    QuadTask {
        pattern: q.pattern,
        prim_address: address,
        transform_id: q.transform_id,
        aa_flags: q.aa_flags,
        quad_flags,
        needs_scissor_rect: scissor,
        coverage_rect: q.coverage_rect,
    }
}

/// The lesser and the greater of two positions.
pub open spec fn ordered(a: i32, b: i32) -> (i32, i32) {
    if b < a {
        (b, a)
    } else {
        (a, b)
    }
}

/// Four positions in ascending order.
pub open spec fn sorted_four(v: (i32, i32, i32, i32)) -> Seq<i32> {
    let (a, b) = ordered(v.0, v.1);
    let (c, d) = ordered(v.2, v.3);
    let (a, c) = ordered(a, c);
    let (b, d) = ordered(b, d);
    let (b, c) = ordered(b, c);
    seq![a, b, c, d]
}

/// The four positions are ascending afterwards, and the same four as before.
pub proof fn four_are_sorted(v: (i32, i32, i32, i32))
    ensures
        forall|i: int, j: int|
            0 <= i <= j < 4 ==> #[trigger] sorted_four(v)[i] <= #[trigger] sorted_four(v)[j],
        sorted_four(v).to_multiset() =~= seq![v.0, v.1, v.2, v.3].to_multiset(),
{
    let s = sorted_four(v);
    let t = seq![v.0, v.1, v.2, v.3];
    lemma_multiset_of_four(s[0], s[1], s[2], s[3]);
    lemma_multiset_of_four(v.0, v.1, v.2, v.3);
    assert(s =~= seq![s[0], s[1], s[2], s[3]]);
    assert forall|x: i32| s.to_multiset().count(x) == t.to_multiset().count(x) by {}
}

proof fn lemma_multiset_of_four(a: i32, b: i32, c: i32, d: i32)
    ensures
        seq![a, b, c, d].to_multiset() =~= vstd::multiset::Multiset::empty().insert(a).insert(b).insert(c).insert(d),
{
    broadcast use vstd::seq_lib::group_to_multiset_ensures;

    let s0 = Seq::<i32>::empty();
    assert(s0.push(a).push(b).push(c).push(d) =~= seq![a, b, c, d]);
    assert(s0.to_multiset() =~= vstd::multiset::Multiset::empty());
}

fn sort_pair(a: i32, b: i32) -> (r: (i32, i32))
    ensures
        r == ordered(a, b),
{
    if b < a {
        (b, a)
    } else {
        (a, b)
    }
}

fn sort_four(v: (i32, i32, i32, i32)) -> (r: [i32; 4])
    ensures
        r@ == sorted_four(v),
{
    let (a, b) = sort_pair(v.0, v.1);
    let (c, d) = sort_pair(v.2, v.3);
    let (a, c) = sort_pair(a, c);
    let (b, d) = sort_pair(b, d);
    let (b, c) = sort_pair(b, c);
    let r: [i32; 4] = [a, b, c, d];
    assert(r@ =~= sorted_four(v));
    r
}

/// Where a nine-patch is cut: the outer and inner edges of its corners, in no
/// particular order, and the pixels that it can touch.
#[derive(Clone, Copy, Debug)]
pub struct NinePatchCuts {
    pub x: (i32, i32, i32, i32),
    pub y: (i32, i32, i32, i32),
    pub clip: DeviceIntRect,
}

/// The pixels of a part of the patch, where it has any.
pub open spec fn nine_patch_part(cuts: NinePatchCuts, k: int) -> Option<DeviceIntRect> {
    let x = sorted_four(cuts.x);
    let y = sorted_four(cuts.y);
    let c = k % 3;
    let r = k / 3;
    let rect = DeviceIntRect {
        min: DeviceIntPoint {
            x: if x[c] > cuts.clip.min.x { x[c] } else { cuts.clip.min.x },
            y: if y[r] > cuts.clip.min.y { y[r] } else { cuts.clip.min.y },
        },
        max: DeviceIntPoint {
            x: if x[c + 1] < cuts.clip.max.x { x[c + 1] } else { cuts.clip.max.x },
            y: if y[r + 1] < cuts.clip.max.y { y[r + 1] } else { cuts.clip.max.y },
        },
    };
    if rect.spec_is_empty() {
        None
    } else {
        Some(rect)
    }
}

/// The part is a corner.
pub open spec fn is_corner(k: int) -> bool {
    k % 3 != 1 && k / 3 != 1
}

/// The parts before the `k`-th, row by row; the corners are drawn to tasks.
pub open spec fn nine_patch_state(
    f: QuadFrameView,
    q: SplitQuad,
    cuts: NinePatchCuts,
    address: GpuBufferAddress,
    k: int,
) -> SplitState
    decreases k,
{
    if k <= 0 {
        SplitState { frame: f, direct: Seq::empty(), indirect: Seq::empty() }
    } else {
        let s = nine_patch_state(f, q, cuts, address, k - 1);
        match nine_patch_part(cuts, k - 1) {
            None => s,
            Some(rect) => with_part(s, q, address, false, rect, is_corner(k - 1)),
        }
    }
}

/// The frame with a nine-patch.
pub open spec fn with_nine_patch(
    f: QuadFrameView,
    q: SplitQuad,
    cuts: NinePatchCuts,
) -> QuadFrameView {
    split_finished(
        nine_patch_state(
            with_plain_quad(f, q.task_prim),
            q,
            cuts,
            plain_quad_address(f),
            9,
        ),
        q,
    )
}

/// The corners can be tasks.
pub open spec fn corners_ok(cuts: NinePatchCuts) -> bool {
    forall|k: int|
        #![trigger is_corner(k)]
        0 <= k < 9 && is_corner(k) ==> (nine_patch_part(cuts, k) matches Some(rect) ==> {
            &&& rect.spec_width() <= MAX_RENDER_TASK_SIZE
            &&& rect.spec_height() <= MAX_RENDER_TASK_SIZE
        })
}

fn part_of_nine_patch(
    x: &[i32; 4],
    y: &[i32; 4],
    cuts: &NinePatchCuts,
    k: usize,
) -> (r: Option<DeviceIntRect>)
    requires
        k < 9,
        x@ == sorted_four(cuts.x),
        y@ == sorted_four(cuts.y),
    ensures
        r == nine_patch_part(*cuts, k as int),
{
    let c: usize = k % 3;
    let r: usize = k / 3;
    let clip = cuts.clip;
    let rect = DeviceIntRect {
        min: DeviceIntPoint {
            x: if x[c] > clip.min.x { x[c] } else { clip.min.x },
            y: if y[r] > clip.min.y { y[r] } else { clip.min.y },
        },
        max: DeviceIntPoint {
            x: if x[c + 1] < clip.max.x { x[c + 1] } else { clip.max.x },
            y: if y[r + 1] < clip.max.y { y[r + 1] } else { clip.max.y },
        },
    };
    if rect.is_empty() {
        None
    } else {
        Some(rect)
    }
}

/// Draws a quad as a nine-patch: the corners by way of tasks, the rest directly.
#[verifier::spinoff_prover]
#[verifier::rlimit(60)]
pub fn prepare_nine_patch(q: &SplitQuad, cuts: &NinePatchCuts, frame: &mut QuadFrame)
    requires
        corners_ok(*cuts),
        old(frame).room((4 * (clips_work(q.clips@) + 1) + 3) as int),
    ensures
        final(frame)@ == with_nine_patch(old(frame)@, *q, *cuts),
        final(frame).used(*old(frame), (4 * (clips_work(q.clips@) + 1) + 3) as int),
{
    let x: [i32; 4] = sort_four(cuts.x);
    let y: [i32; 4] = sort_four(cuts.y);
    let address = crate::quad::prepare::add_plain_quad(&q.task_prim, frame);
    let mut direct: Vec<QuadSegment> = Vec::new();
    let mut indirect: Vec<QuadSegment> = Vec::new();
    let ghost start = frame@;
    let ghost work = clips_work(q.clips@) + 1;
    let ghost mut corners: nat = 0;
    let mut k: usize = 0;
    while k < 9
        invariant
            k <= 9,
            x@ == sorted_four(cuts.x),
            y@ == sorted_four(cuts.y),
            corners_ok(*cuts),
            start == with_plain_quad(old(frame)@, q.task_prim),
            address == plain_quad_address(old(frame)@),
            work == clips_work(q.clips@) + 1,
            old(frame).room((4 * work + 3) as int),
            corners == corners_before(k as int),
            frame.used(*old(frame), (corners * work + 1) as int),
            direct@.len() <= k,
            indirect@.len() <= k,
            nine_patch_state(start, *q, *cuts, address, k as int) == (SplitState {
                frame: frame@,
                direct: direct@,
                indirect: indirect@,
            }),
        decreases 9 - k,
    {
        proof {
            lemma_corners(k as int);
            lemma_work(corners, work);
        }
        match part_of_nine_patch(&x, &y, cuts, k) {
            Some(rect) => {
                if k % 3 != 1 && k / 3 != 1 {
                    assert(is_corner(k as int));
                    let t = task_of_part(q, address, false);
                    let id = add_render_task_with_mask(&t, rect, &q.clips, frame);
                    indirect.push(QuadSegment { rect: to_float_rect(rect), task_id: id });
                } else {
                    direct.push(
                        QuadSegment { rect: to_float_rect(rect), task_id: q.pattern.texture_input },
                    );
                }
            },
            None => {},
        }
        proof {
            if is_corner(k as int) {
                corners = corners + 1;
            }
        }
        k = k + 1;
    }
    proof {
        lemma_corners(8);
        lemma_work(corners, work);
    }
    finish_split(q, direct, indirect, frame);
}

/// The number of corners among the first `k` parts.
pub open spec fn corners_before(k: int) -> nat
    decreases k,
{
    if k <= 0 {
        0
    } else {
        corners_before(k - 1) + (if is_corner(k - 1) {
            1nat
        } else {
            0nat
        })
    }
}

proof fn lemma_corners(k: int)
    requires
        0 <= k < 9,
    ensures
        corners_before(k) <= 4,
        is_corner(k) ==> corners_before(k) <= 3,
        corners_before(9) == 4,
{
    reveal_with_fuel(corners_before, 10);
}

proof fn lemma_work(corners: nat, work: nat)
    ensures
        (corners + 1) * work == corners * work + work,
        corners <= 4 ==> corners * work <= 4 * work,
        corners <= 3 ==> (corners + 1) * work <= 4 * work,
{
    assert((corners + 1) * work == corners * work + work) by (nonlinear_arith);
    assert(corners <= 4 ==> corners * work <= 4 * work) by (nonlinear_arith);
    assert(corners <= 3 ==> (corners + 1) * work <= 4 * work) by (nonlinear_arith);
}

/// What a clip means for the tiles of a quad, in whole device pixels: regions that
/// keep or mask are rounded outwards, regions that drop are rounded inwards.
#[derive(Clone, Copy, Debug, PartialEq, Eq, Structural)]
pub enum TileClip {
    /// The clip is turned against the target: everything may be touched by it.
    Unaligned,
    Rectangle { rect: DeviceIntRect, mode: ClipMode },
    /// The pixels inside a rounded rectangle are kept; its corners need a mask.
    Rounded {
        rect: DeviceIntRect,
        top_left: DeviceIntRect,
        top_right: DeviceIntRect,
        bottom_right: DeviceIntRect,
        bottom_left: DeviceIntRect,
    },
    /// The pixels inside a rounded rectangle are dropped: those in its inner rectangle
    /// surely, or where it has none, those of its bounds with a mask.
    RoundedOut { inner: Option<DeviceIntRect>, rect: DeviceIntRect },
}

/// The regions with one clip more, for a quad that covers `quad`.
pub open spec fn with_tile_clip(r: TileRegions, clip: TileClip, quad: DeviceIntRect) -> TileRegions {
    match clip {
        TileClip::Unaligned => r.with_mask(quad),
        TileClip::Rectangle { rect, mode } => r.with(quad, RegionCall::Clip { rect, mode }),
        TileClip::Rounded { rect, top_left, top_right, bottom_right, bottom_left } => r.with(
            quad,
            RegionCall::Clip { rect, mode: ClipMode::Clip },
        ).with_mask(top_left).with_mask(top_right).with_mask(bottom_right).with_mask(bottom_left),
        TileClip::RoundedOut { inner: Some(inner), .. } => r.with(
            quad,
            RegionCall::Clip { rect: inner, mode: ClipMode::ClipOut },
        ),
        TileClip::RoundedOut { inner: None, rect } => r.with_mask(rect),
    }
}

/// The regions of all clips.
pub open spec fn tile_regions(clips: Seq<TileClip>, quad: DeviceIntRect) -> TileRegions
    decreases clips.len(),
{
    if clips.len() == 0 {
        TileRegions::empty()
    } else {
        with_tile_clip(tile_regions(clips.drop_last(), quad), clips.last(), quad)
    }
}

/// The tiles of a quad with its clips.
pub open spec fn quad_tiles(
    quad: DeviceIntRect,
    force_masks: bool,
    clips: Seq<TileClip>,
) -> Seq<QuadTileInfo> {
    let r = tile_regions(clips, quad);
    classified(
        quad,
        tile_count(quad.spec_width(), MAX_TILES_PER_QUAD_X as int),
        tile_count(quad.spec_width(), MAX_TILES_PER_QUAD_Y as int),
        force_masks,
        r.clips_in,
        r.clips_out,
        r.masks,
    )
}

/// A tile that is handed out, drawn to a task where it is masked. One without pixels
/// is not drawn.
pub open spec fn with_tile(
    s: SplitState,
    q: SplitQuad,
    address: GpuBufferAddress,
    tile: QuadTileInfo,
) -> SplitState {
    if rect_size(tile.rect).spec_is_empty() || tile.kind is Clipped {
        s
    } else {
        with_part(
            s,
            q,
            address,
            !q.is_scale_offset,
            tile.rect,
            tile.kind == (QuadTileKind::Pattern { has_mask: true }),
        )
    }
}

/// The first of the tiles that are handed out.
pub open spec fn tiles_state(
    f: QuadFrameView,
    q: SplitQuad,
    address: GpuBufferAddress,
    tiles: Seq<QuadTileInfo>,
) -> SplitState
    decreases tiles.len(),
{
    if tiles.len() == 0 {
        SplitState { frame: f, direct: Seq::empty(), indirect: Seq::empty() }
    } else {
        with_tile(tiles_state(f, q, address, tiles.drop_last()), q, address, tiles.last())
    }
}

/// The frame with a quad drawn as tiles.
pub open spec fn with_tiles(
    f: QuadFrameView,
    q: SplitQuad,
    quad: DeviceIntRect,
    clips: Seq<TileClip>,
) -> QuadFrameView {
    split_finished(
        tiles_state(
            with_plain_quad(f, q.task_prim),
            q,
            plain_quad_address(f),
            runs(quad_tiles(quad, !q.is_scale_offset, clips), 0),
        ),
        q,
    )
}

fn add_tile_clip(classifier: &mut QuadTileClassifier, clip: &TileClip, quad: DeviceIntRect)
    requires
        old(classifier).wf(),
        old(classifier).quad() == quad,
    ensures
        final(classifier).wf(),
        final(classifier).same_grid(*old(classifier)),
        regions_of(*final(classifier)) == with_tile_clip(regions_of(*old(classifier)), *clip, quad),
{
    match *clip {
        TileClip::Unaligned => {
            classifier.add_mask_region(quad);
        },
        TileClip::Rectangle { rect, mode } => {
            classifier.add_clip_rect(rect, mode);
        },
        TileClip::Rounded { rect, top_left, top_right, bottom_right, bottom_left } => {
            classifier.add_clip_rect(rect, ClipMode::Clip);
            classifier.add_mask_region(top_left);
            classifier.add_mask_region(top_right);
            classifier.add_mask_region(bottom_right);
            classifier.add_mask_region(bottom_left);
        },
        TileClip::RoundedOut { inner, rect } => {
            match inner {
                Some(inner) => {
                    classifier.add_clip_rect(inner, ClipMode::ClipOut);
                },
                None => {
                    classifier.add_mask_region(rect);
                },
            }
        },
    }
}

/// The regions that a classifier holds.
pub open spec fn regions_of(classifier: QuadTileClassifier) -> TileRegions {
    TileRegions {
        clips_in: classifier.clips_in(),
        clips_out: classifier.clips_out(),
        masks: classifier.masks(),
    }
}

/// Sorts the tiles of a quad with its clips.
fn classify_quad(
    classifier: &mut QuadTileClassifier,
    quad: DeviceIntRect,
    force_masks: bool,
    clips: &Vec<TileClip>,
) -> (r: QuadTileIterator)
    requires
        quad.sized(),
        quad.min.x <= quad.max.x,
        quad.min.y <= quad.max.y,
    ensures
        final(classifier).wf(),
        r.tiles@ == quad_tiles(quad, force_masks, clips@),
        r.position == 0,
{
    classifier.reset(quad, force_masks);
    let mut i: usize = 0;
    assert(clips@.take(0) =~= Seq::<TileClip>::empty());
    assert(regions_of(*classifier) =~= tile_regions(clips@.take(0), quad));
    while i < clips.len()
        invariant
            i <= clips@.len(),
            classifier.wf(),
            classifier.quad() == quad,
            classifier.forced() == force_masks,
            classifier.columns() == tile_count(quad.spec_width(), MAX_TILES_PER_QUAD_X as int),
            classifier.rows() == tile_count(quad.spec_width(), MAX_TILES_PER_QUAD_Y as int),
            regions_of(*classifier) == tile_regions(clips@.take(i as int), quad),
        decreases clips@.len() - i,
    {
        add_tile_clip(classifier, &clips[i], quad);
        assert(clips@.take(i + 1).drop_last() =~= clips@.take(i as int));
        i = i + 1;
    }
    assert(clips@.take(i as int) =~= clips@);
    classifier.classify()
}

/// The greatest number of tiles.
pub const MAX_TILES: usize = 32;

/// The masked tiles can be tasks: what is joined is no wider than a masked tile may
/// be, so this speaks of single tiles.
pub open spec fn tiles_ok(tiles: Seq<QuadTileInfo>) -> bool {
    forall|k: int|
        0 <= k < tiles.len() && (#[trigger] tiles[k]).kind == (QuadTileKind::Pattern {
            has_mask: true,
        }) ==> {
            &&& tiles[k].rect.spec_width() <= MAX_RENDER_TASK_SIZE
            &&& tiles[k].rect.spec_height() <= MAX_RENDER_TASK_SIZE
        }
}

/// All tiles are such that their sides, and the sides of joined tiles, fit.
pub open spec fn tiles_sized(tiles: Seq<QuadTileInfo>, quad: DeviceIntRect) -> bool {
    forall|k: int|
        0 <= k < tiles.len() ==> {
            &&& quad.min.x <= (#[trigger] tiles[k]).rect.min.x <= quad.max.x
            &&& quad.min.x <= tiles[k].rect.max.x <= quad.max.x
            &&& quad.min.y <= tiles[k].rect.min.y <= quad.max.y
            &&& quad.min.y <= tiles[k].rect.max.y <= quad.max.y
        }
}

/// There are not too many tiles, and they lie in the quad.
pub proof fn lemma_quad_tiles(quad: DeviceIntRect, force_masks: bool, clips: Seq<TileClip>)
    requires
        quad.sized(),
        quad.min.x <= quad.max.x,
        quad.min.y <= quad.max.y,
    ensures
        quad_tiles(quad, force_masks, clips).len() <= MAX_TILES,
        tiles_sized(quad_tiles(quad, force_masks, clips), quad),
{
    let nx = tile_count(quad.spec_width(), MAX_TILES_PER_QUAD_X as int);
    let ny = tile_count(quad.spec_width(), MAX_TILES_PER_QUAD_Y as int);
    assert(1 <= nx * ny <= 32) by (nonlinear_arith)
        requires
            1 <= nx <= 8,
            1 <= ny <= 4,
    ;
    let tiles = quad_tiles(quad, force_masks, clips);
    assert forall|k: int| 0 <= k < tiles.len() implies {
        &&& quad.min.x <= (#[trigger] tiles[k]).rect.min.x <= quad.max.x
        &&& quad.min.x <= tiles[k].rect.max.x <= quad.max.x
        &&& quad.min.y <= tiles[k].rect.min.y <= quad.max.y
        &&& quad.min.y <= tiles[k].rect.max.y <= quad.max.y
    } by {
        crate::quad::tiles::lemma_grid_rect(quad, nx, ny, k);
        crate::quad::tiles::lemma_grid_place(nx, ny, k);
        let (x0, x1) = (quad.min.x as int, quad.max.x as int);
        let (y0, y1) = (quad.min.y as int, quad.max.y as int);
        crate::quad::tiles::tile_edges_are_ordered(x0, x1, nx, k % nx, k % nx + 1);
        crate::quad::tiles::tile_edges_are_ordered(x0, x1, nx, k % nx + 1, nx);
        crate::quad::tiles::tile_edges_are_ordered(y0, y1, ny, k / nx, k / nx + 1);
        crate::quad::tiles::tile_edges_are_ordered(y0, y1, ny, k / nx + 1, ny);
    }
}

/// Draws a quad as tiles: the masked ones by way of tasks, the rest directly.
pub fn prepare_tiles(
    q: &SplitQuad,
    quad: DeviceIntRect,
    clips: &Vec<TileClip>,
    classifier: &mut QuadTileClassifier,
    frame: &mut QuadFrame,
)
    requires
        quad.sized(),
        quad.min.x <= quad.max.x,
        quad.min.y <= quad.max.y,
        tiles_ok(quad_tiles(quad, !q.is_scale_offset, clips@)),
        old(frame).room((MAX_TILES * (clips_work(q.clips@) + 1) + 3) as int),
    ensures
        final(classifier).wf(),
        final(frame)@ == with_tiles(old(frame)@, *q, quad, clips@),
        final(frame).used(*old(frame), (MAX_TILES * (clips_work(q.clips@) + 1) + 3) as int),
{
    let mut tiles = classify_quad(classifier, quad, !q.is_scale_offset, clips);
    let ghost all = tiles.tiles@;
    let ghost handed = runs(all, 0);
    proof {
        lemma_quad_tiles(quad, !q.is_scale_offset, clips@);
    }
    let address = crate::quad::prepare::add_plain_quad(&q.task_prim, frame);
    let mut direct: Vec<QuadSegment> = Vec::new();
    let mut indirect: Vec<QuadSegment> = Vec::new();
    let ghost start = frame@;
    let ghost work = clips_work(q.clips@) + 1;
    let ghost mut count: nat = 0;
    assert(handed.take(0) =~= Seq::<QuadTileInfo>::empty());
    loop
        invariant_except_break
            tiles.tiles@ == all,
            tiles.position <= all.len(),
            quad.sized(),
            all.len() <= MAX_TILES,
            tiles_ok(all),
            tiles_sized(all, quad),
            handed == runs(all, 0),
            count <= tiles.position,
            count <= handed.len(),
            handed == handed.take(count as int) + runs(all, tiles.position as int),
            start == with_plain_quad(old(frame)@, q.task_prim),
            address == plain_quad_address(old(frame)@),
            work == clips_work(q.clips@) + 1,
            old(frame).room((MAX_TILES * work + 3) as int),
            frame.used(*old(frame), (count * work + 1) as int),
            direct@.len() <= count,
            indirect@.len() <= count,
            tiles_state(start, *q, address, handed.take(count as int)) == (SplitState {
                frame: frame@,
                direct: direct@,
                indirect: indirect@,
            }),
        ensures
            tiles_state(start, *q, address, handed) == (SplitState {
                frame: frame@,
                direct: direct@,
                indirect: indirect@,
            }),
            frame.used(*old(frame), (MAX_TILES * work + 1) as int),
            direct@.len() <= MAX_TILES,
            indirect@.len() <= MAX_TILES,
        decreases all.len() - tiles.position,
    {
        let ghost position = tiles.position as int;
        proof {
            lemma_first_drawn(all, position);
            let i = first_drawn(all, position);
            if i < all.len() {
                lemma_run_end(all, i, i + 1);
            }
            lemma_tile_work(count, work);
        }
        match tiles.next() {
            None => {
                assert(handed.take(count as int) =~= handed);
                break;
            },
            Some(tile) => {
                let ghost i = first_drawn(all, position);
                let ghost end = run_end(all, i, i + 1);
                proof {
                    assert(runs(all, position) =~= seq![tile] + runs(all, end));
                    assert(handed[count as int] == tile);
                    assert(handed.take((count + 1) as int).drop_last() =~= handed.take(count as int));
                    assert(handed.take((count + 1) as int).last() == tile);
                    assert(handed =~= handed.take((count + 1) as int) + runs(all, end));
                    assert(all[i].rect.min.x >= quad.min.x);
                    assert(all[end - 1].rect.max.x <= quad.max.x);
                    if end > i + 1 {
                        assert(crate::quad::tiles::joins(all, i, end - 1));
                    }
                }
                if !tile.rect.size().is_empty() {
                    match tile.kind {
                        QuadTileKind::Clipped => {},
                        QuadTileKind::Pattern { has_mask } => {
                            if has_mask {
                                let t = task_of_part(q, address, !q.is_scale_offset);
                                let id = add_render_task_with_mask(&t, tile.rect, &q.clips, frame);
                                indirect.push(
                                    QuadSegment { rect: to_float_rect(tile.rect), task_id: id },
                                );
                            } else {
                                direct.push(
                                    QuadSegment {
                                        rect: to_float_rect(tile.rect),
                                        task_id: q.pattern.texture_input,
                                    },
                                );
                            }
                        },
                    }
                }
                proof {
                    count = count + 1;
                }
            },
        }
    }
    finish_split(q, direct, indirect, frame);
}

proof fn lemma_tile_work(count: nat, work: nat)
    ensures
        (count + 1) * work == count * work + work,
        count <= MAX_TILES ==> count * work <= MAX_TILES * work,
        count < MAX_TILES ==> (count + 1) * work <= MAX_TILES * work,
{
    assert((count + 1) * work == count * work + work) by (nonlinear_arith);
    assert(count <= MAX_TILES ==> count * work <= MAX_TILES * work) by (nonlinear_arith);
    assert(count < MAX_TILES ==> (count + 1) * work <= MAX_TILES * work) by (nonlinear_arith);
}

} // verus!
