//! The tiles of a large quad.
//!
//! A quad that is partly masked is split into a coarse grid. Tiles that lie
//! outside of the clips are dropped, and only those that touch a masked region
//! are drawn by way of a mask. Neighbours of one kind in a row are drawn together.

use crate::units::{DeviceIntPoint, DeviceIntRect};
use vstd::prelude::*;

verus! {

/// A quad is not split into tiles smaller than this.
pub const MIN_QUAD_SPLIT_SIZE: i64 = 256;

pub const MAX_TILES_PER_QUAD_X: i64 = 8;

pub const MAX_TILES_PER_QUAD_Y: i64 = 4;

/// A masked tile is not made wider than this by joining it with its neighbours.
pub const MAX_MASKED_TILE_WIDTH: i64 = 1024;

/// Which pixels a clip keeps: those inside of it, or those outside.
#[derive(Clone, Copy, Debug, PartialEq, Eq, Structural)]
pub enum ClipMode {
    Clip,
    ClipOut,
}

/// How a tile is drawn.
#[derive(Clone, Copy, Debug, PartialEq, Eq, Structural)]
pub enum QuadTileKind {
    /// Not at all.
    Clipped,
    /// With the pattern, and with a mask or without.
    Pattern { has_mask: bool },
}

#[derive(Clone, Copy, Debug, PartialEq, Eq, Structural)]
pub struct QuadTileInfo {
    pub rect: DeviceIntRect,
    pub kind: QuadTileKind,
}

impl Default for QuadTileInfo {
    fn default() -> (r: Self)
        ensures
            r == (QuadTileInfo {
                rect: DeviceIntRect {
                    min: DeviceIntPoint { x: 0, y: 0 },
                    max: DeviceIntPoint { x: 0, y: 0 },
                },
                kind: QuadTileKind::Pattern { has_mask: false },
            }),
    {
        QuadTileInfo {
            rect: DeviceIntRect {
                min: DeviceIntPoint { x: 0, y: 0 },
                max: DeviceIntPoint { x: 0, y: 0 },
            },
            kind: QuadTileKind::Pattern { has_mask: false },
        }
    }
}

/// The number of tiles along a side: one for each split size, between one and `most`.
pub open spec fn tile_count(width: int, most: int) -> int {
    if width <= MIN_QUAD_SPLIT_SIZE {
        1
    } else if width >= most * MIN_QUAD_SPLIT_SIZE {
        most
    } else {
        (width + MIN_QUAD_SPLIT_SIZE - 1) / (MIN_QUAD_SPLIT_SIZE as int)
    }
}

/// `a / n` rounded to the nearest integer, a tie going away from zero.
pub open spec fn round_away(a: int, n: int) -> int {
    if a >= 0 {
        (2 * a + n) / (2 * n)
    } else {
        -((2 * (-a) + n) / (2 * n))
    }
}

/// The position of the `i`-th of the `n + 1` edges between `min` and `max`.
pub open spec fn tile_edge(min: int, max: int, n: int, i: int) -> int {
    round_away(min * n + i * (max - min), n)
}

/// The tile in column `x` and row `y` of the grid.
pub open spec fn tile_rect(rect: DeviceIntRect, nx: int, ny: int, x: int, y: int) -> DeviceIntRect {
    DeviceIntRect {
        min: DeviceIntPoint {
            x: tile_edge(rect.min.x as int, rect.max.x as int, nx, x) as i32,
            y: tile_edge(rect.min.y as int, rect.max.y as int, ny, y) as i32,
        },
        max: DeviceIntPoint {
            x: tile_edge(rect.min.x as int, rect.max.x as int, nx, x + 1) as i32,
            y: tile_edge(rect.min.y as int, rect.max.y as int, ny, y + 1) as i32,
        },
    }
}

/// The `k`-th tile of the grid, counted row by row.
pub open spec fn grid_rect(rect: DeviceIntRect, nx: int, ny: int, k: int) -> DeviceIntRect {
    tile_rect(rect, nx, ny, k % nx, k / nx)
}

/// The tiles of a quad in their order, each with how it is drawn.
pub open spec fn classified(
    rect: DeviceIntRect,
    nx: int,
    ny: int,
    force_masks: bool,
    clip_in: Seq<DeviceIntRect>,
    clip_out: Seq<DeviceIntRect>,
    masks: Seq<DeviceIntRect>,
) -> Seq<QuadTileInfo> {
    Seq::new(
        (nx * ny) as nat,
        |k: int|
            QuadTileInfo {
                rect: grid_rect(rect, nx, ny, k),
                kind: spec_tile_kind(
                    grid_rect(rect, nx, ny, k),
                    force_masks,
                    clip_in,
                    clip_out,
                    masks,
                ),
            },
    )
}

/// Some clip leaves nothing of the tile.
pub open spec fn is_clipped(
    tile: DeviceIntRect,
    clip_in: Seq<DeviceIntRect>,
    clip_out: Seq<DeviceIntRect>,
) -> bool {
    ||| exists|i: int| 0 <= i < clip_in.len() && !(#[trigger] clip_in[i]).spec_intersects(tile)
    ||| exists|i: int| 0 <= i < clip_out.len() && (#[trigger] clip_out[i]).spec_contains_box(tile)
}

/// Some masked region touches the tile.
pub open spec fn is_masked(tile: DeviceIntRect, masks: Seq<DeviceIntRect>) -> bool {
    exists|i: int| 0 <= i < masks.len() && (#[trigger] masks[i]).spec_intersects(tile)
}

/// How a tile is drawn, given the regions.
pub open spec fn spec_tile_kind(
    tile: DeviceIntRect,
    force_masks: bool,
    clip_in: Seq<DeviceIntRect>,
    clip_out: Seq<DeviceIntRect>,
    masks: Seq<DeviceIntRect>,
) -> QuadTileKind {
    if is_clipped(tile, clip_in, clip_out) {
        QuadTileKind::Clipped
    } else {
        QuadTileKind::Pattern { has_mask: force_masks || is_masked(tile, masks) }
    }
}

proof fn lemma_round_away_multiple(k: int, n: int)
    requires
        n >= 1,
    ensures
        round_away(k * n, n) == k,
{
    assert(k >= 0 ==> k * n >= 0 && (2 * (k * n) + n) / (2 * n) == k) by (nonlinear_arith)
        requires
            n >= 1,
    ;
    assert(k < 0 ==> k * n < 0 && (2 * (-(k * n)) + n) / (2 * n) == -k) by (nonlinear_arith)
        requires
            n >= 1,
    ;
}

proof fn lemma_round_away_ordered(a: int, b: int, n: int)
    requires
        n >= 1,
        a <= b,
    ensures
        round_away(a, n) <= round_away(b, n),
{
    if a >= 0 {
        vstd::arithmetic::div_mod::lemma_div_is_ordered(2 * a + n, 2 * b + n, 2 * n);
    } else if b < 0 {
        vstd::arithmetic::div_mod::lemma_div_is_ordered(2 * (-b) + n, 2 * (-a) + n, 2 * n);
    } else {
        vstd::arithmetic::div_mod::lemma_div_pos_is_pos(2 * (-a) + n, 2 * n);
        vstd::arithmetic::div_mod::lemma_div_pos_is_pos(2 * b + n, 2 * n);
    }
}

/// The edges of the grid go from one side to the other without turning back.
pub proof fn tile_edges_are_ordered(min: int, max: int, n: int, i: int, j: int)
    requires
        n >= 1,
        min <= max,
        0 <= i <= j <= n,
    ensures
        tile_edge(min, max, n, 0) == min,
        tile_edge(min, max, n, n) == max,
        tile_edge(min, max, n, i) <= tile_edge(min, max, n, j),
        min <= tile_edge(min, max, n, i) <= max,
{
    let w = max - min;
    lemma_round_away_multiple(min, n);
    lemma_round_away_multiple(max, n);
    assert(min * n + 0 * w == min * n) by (nonlinear_arith);
    assert(min * n + n * w == max * n) by (nonlinear_arith)
        requires
            w == max - min,
    ;
    assert(0 <= i * w <= j * w <= n * w) by (nonlinear_arith)
        requires
            0 <= i <= j <= n,
            w >= 0,
    ;
    lemma_round_away_ordered(min * n + i * w, min * n + j * w, n);
    lemma_round_away_ordered(min * n, min * n + i * w, n);
    lemma_round_away_ordered(min * n + i * w, max * n, n);
}

/// Every position between the two sides lies between two edges of the grid, and
/// only in one place.
pub proof fn position_lies_in_one_column(min: int, max: int, n: int, p: int)
    requires
        n >= 1,
        min <= p < max,
    ensures
        exists|i: int|
            0 <= i < n && #[trigger] tile_edge(min, max, n, i) <= p < tile_edge(
                min,
                max,
                n,
                i + 1,
            ),
        forall|i: int, j: int|
            0 <= i < n && 0 <= j < n && #[trigger] tile_edge(min, max, n, i) <= p < tile_edge(
                min,
                max,
                n,
                i + 1,
            ) && #[trigger] tile_edge(min, max, n, j) <= p < tile_edge(min, max, n, j + 1) ==> i
                == j,
{
    tile_edges_are_ordered(min, max, n, 0, n);
    lemma_find_column(min, max, n, p, 0);
    assert forall|i: int, j: int|
        0 <= i < n && 0 <= j < n && #[trigger] tile_edge(min, max, n, i) <= p < tile_edge(
            min,
            max,
            n,
            i + 1,
        ) && #[trigger] tile_edge(min, max, n, j) <= p < tile_edge(min, max, n, j + 1) implies i
        == j by {
        if i < j {
            tile_edges_are_ordered(min, max, n, i + 1, j);
        } else if j < i {
            tile_edges_are_ordered(min, max, n, j + 1, i);
        }
    }
}

proof fn lemma_find_column(min: int, max: int, n: int, p: int, from: int)
    requires
        n >= 1,
        min <= p < max,
        0 <= from < n,
        tile_edge(min, max, n, from) <= p,
        tile_edge(min, max, n, n) == max,
    ensures
        exists|i: int|
            0 <= i < n && #[trigger] tile_edge(min, max, n, i) <= p < tile_edge(
                min,
                max,
                n,
                i + 1,
            ),
    decreases n - from,
{
    if p < tile_edge(min, max, n, from + 1) {
    } else {
        lemma_find_column(min, max, n, p, from + 1);
    }
}

/// An edge lies between the two sides, whichever of them comes first.
proof fn lemma_edge_between(min: int, max: int, n: int, i: int)
    requires
        n >= 1,
        0 <= i <= n,
    ensures
        min <= tile_edge(min, max, n, i) <= max || max <= tile_edge(min, max, n, i) <= min,
{
    let w = max - min;
    lemma_round_away_multiple(min, n);
    lemma_round_away_multiple(max, n);
    assert(min * n + n * w == max * n) by (nonlinear_arith)
        requires
            w == max - min,
    ;
    if w >= 0 {
        tile_edges_are_ordered(min, max, n, i, i);
    } else {
        assert(n * w <= i * w <= 0) by (nonlinear_arith)
            requires
                0 <= i <= n,
                w < 0,
        ;
        lemma_round_away_ordered(max * n, min * n + i * w, n);
        lemma_round_away_ordered(min * n + i * w, min * n, n);
    }
}

fn edge(min: i32, max: i32, n: i64, i: i64) -> (r: i32)
    requires
        1 <= n <= 8,
        0 <= i <= n,
    ensures
        r == tile_edge(min as int, max as int, n as int, i as int),
{
    let w: i64 = max as i64 - min as i64;
    proof {
        lemma_edge_between(min as int, max as int, n as int, i as int);
    }
    assert(-0x8000_0000 * 8 <= min * n <= 0x8000_0000 * 8) by (nonlinear_arith)
        requires
            1 <= n <= 8,
            -0x8000_0000 <= min <= 0x8000_0000,
    ;
    assert(-8 * 0x1_0000_0000 <= i * w <= 8 * 0x1_0000_0000) by (nonlinear_arith)
        requires
            0 <= i <= 8,
            -0x1_0000_0000 <= w <= 0x1_0000_0000,
    ;
    let a: i64 = min as i64 * n + i * w;
    if a >= 0 {
        ((2 * a + n) / (2 * n)) as i32
    } else {
        (-((2 * (-a) + n) / (2 * n))) as i32
    }
}

/// The regions that decide how tiles are drawn.
#[verifier::ext_equal]
pub struct TileRegions {
    pub masks: Seq<DeviceIntRect>,
    pub clips_in: Seq<DeviceIntRect>,
    pub clips_out: Seq<DeviceIntRect>,
}

/// A region that is added.
#[verifier::ext_equal]
pub enum RegionCall {
    Mask { region: DeviceIntRect },
    Clip { rect: DeviceIntRect, mode: ClipMode },
}

impl TileRegions {
    pub open spec fn empty() -> Self {
        TileRegions { masks: Seq::empty(), clips_in: Seq::empty(), clips_out: Seq::empty() }
    }

    /// The regions with one more that needs a mask; an empty one changes nothing.
    pub open spec fn with_mask(self, region: DeviceIntRect) -> Self {
        if region.spec_is_empty() {
            self
        } else {
            TileRegions { masks: self.masks.push(region), ..self }
        }
    }

    /// The regions of a quad with one more. A clip that keeps what lies outside of it puts a
    /// mask on the whole quad.
    pub open spec fn with(self, quad: DeviceIntRect, call: RegionCall) -> Self {
        match call {
            RegionCall::Mask { region } => self.with_mask(region),
            RegionCall::Clip { rect, mode: ClipMode::Clip } => TileRegions {
                clips_in: self.clips_in.push(rect),
                ..self
            },
            RegionCall::Clip { rect, mode: ClipMode::ClipOut } => TileRegions {
                clips_out: self.clips_out.push(rect),
                ..self
            }.with_mask(quad),
        }
    }

    /// The regions with several more, one after the other.
    pub open spec fn with_all(self, quad: DeviceIntRect, calls: Seq<RegionCall>) -> Self
        decreases calls.len(),
    {
        if calls.len() == 0 {
            self
        } else {
            self.with_all(quad, calls.drop_last()).with(quad, calls.last())
        }
    }

    /// The tiles of a quad in their order, as these regions have them drawn.
    pub open spec fn tiles(
        self,
        rect: DeviceIntRect,
        nx: int,
        ny: int,
        force_masks: bool,
    ) -> Seq<QuadTileInfo> {
        classified(rect, nx, ny, force_masks, self.clips_in, self.clips_out, self.masks)
    }
}

/// Sorts the tiles of a quad by how they are drawn.
pub struct QuadTileClassifier {
    tiles: Vec<QuadTileInfo>,
    mask_regions: Vec<DeviceIntRect>,
    clip_in_regions: Vec<DeviceIntRect>,
    clip_out_regions: Vec<DeviceIntRect>,
    rect: DeviceIntRect,
    x_tiles: usize,
    y_tiles: usize,
    force_masks: bool,
}

impl QuadTileClassifier {
    /// The rectangle of the quad.
    pub closed spec fn quad(self) -> DeviceIntRect {
        self.rect
    }

    /// All tiles count as masked.
    pub closed spec fn forced(self) -> bool {
        self.force_masks
    }

    pub closed spec fn masks(self) -> Seq<DeviceIntRect> {
        self.mask_regions@
    }

    pub closed spec fn clips_in(self) -> Seq<DeviceIntRect> {
        self.clip_in_regions@
    }

    pub closed spec fn clips_out(self) -> Seq<DeviceIntRect> {
        self.clip_out_regions@
    }

    /// All regions.
    pub open spec fn regions(self) -> TileRegions {
        TileRegions {
            masks: self.masks(),
            clips_in: self.clips_in(),
            clips_out: self.clips_out(),
        }
    }

    /// The number of columns; zero where there is nothing to classify.
    pub closed spec fn columns(self) -> int {
        self.x_tiles as int
    }

    pub closed spec fn rows(self) -> int {
        self.y_tiles as int
    }

    /// The grid is that of the rectangle, or there is none.
    pub closed spec fn wf(self) -> bool {
        &&& self.x_tiles <= 8
        &&& self.y_tiles <= 4
        &&& (self.x_tiles != 0 ==> {
            &&& self.tiles@.len() == self.x_tiles * self.y_tiles
            &&& forall|k: int|
                0 <= k < self.tiles@.len() ==> #[trigger] self.tiles@[k] == (QuadTileInfo {
                    rect: grid_rect(self.rect, self.x_tiles as int, self.y_tiles as int, k),
                    kind: QuadTileKind::Pattern { has_mask: self.force_masks },
                })
        })
    }

    pub fn new() -> (r: Self)
        ensures
            r.wf(),
            r.quad() == (DeviceIntRect {
                min: DeviceIntPoint { x: 0, y: 0 },
                max: DeviceIntPoint { x: 0, y: 0 },
            }),
            !r.forced(),
            r.columns() == 0,
            r.rows() == 0,
            r.masks() == Seq::<DeviceIntRect>::empty(),
            r.clips_in() == Seq::<DeviceIntRect>::empty(),
            r.clips_out() == Seq::<DeviceIntRect>::empty(),
    {
        QuadTileClassifier {
            tiles: Vec::new(),
            mask_regions: Vec::new(),
            clip_in_regions: Vec::new(),
            clip_out_regions: Vec::new(),
            rect: DeviceIntRect {
                min: DeviceIntPoint { x: 0, y: 0 },
                max: DeviceIntPoint { x: 0, y: 0 },
            },
            x_tiles: 0,
            y_tiles: 0,
            force_masks: false,
        }
    }

    /// Starts over with the grid of a rectangle. The rows are counted by the width,
    /// as the columns are. Of a rectangle that is turned round, the tiles are too.
    pub fn reset(&mut self, rect: DeviceIntRect, force_masks: bool)
        requires
            rect.sized(),
        ensures
            final(self).wf(),
            final(self).quad() == rect,
            final(self).forced() == force_masks,
            final(self).columns() == tile_count(rect.spec_width(), MAX_TILES_PER_QUAD_X as int),
            final(self).rows() == tile_count(rect.spec_width(), MAX_TILES_PER_QUAD_Y as int),
            final(self).regions() == TileRegions::empty(),
            final(self).masks() == Seq::<DeviceIntRect>::empty(),
            final(self).clips_in() == Seq::<DeviceIntRect>::empty(),
            final(self).clips_out() == Seq::<DeviceIntRect>::empty(),
    {
        let nx: i64 = count_tiles(rect.width(), MAX_TILES_PER_QUAD_X);
        let ny: i64 = count_tiles(rect.width(), MAX_TILES_PER_QUAD_Y);
        assert(1 <= nx * ny <= 32) by (nonlinear_arith)
            requires
                1 <= nx <= 8,
                1 <= ny <= 4,
        ;
        let total: i64 = nx * ny;
        let mut tiles: Vec<QuadTileInfo> = Vec::new();
        let mut k: i64 = 0;
        while k < total
            invariant
                0 <= k <= total,
                total == nx * ny,
                1 <= nx <= 8,
                1 <= ny <= 4,
                tiles@.len() == k,
                forall|j: int|
                    0 <= j < k ==> #[trigger] tiles@[j] == (QuadTileInfo {
                        rect: grid_rect(rect, nx as int, ny as int, j),
                        kind: QuadTileKind::Pattern { has_mask: force_masks },
                    }),
            decreases total - k,
        {
            let x: i64 = k % nx;
            let y: i64 = k / nx;
            assert(0 <= y < ny) by (nonlinear_arith)
                requires
                    y == k / nx,
                    0 <= k < nx * ny,
                    nx >= 1,
            ;
            let tile = DeviceIntRect {
                min: DeviceIntPoint {
                    x: edge(rect.min.x, rect.max.x, nx, x),
                    y: edge(rect.min.y, rect.max.y, ny, y),
                },
                max: DeviceIntPoint {
                    x: edge(rect.min.x, rect.max.x, nx, x + 1),
                    y: edge(rect.min.y, rect.max.y, ny, y + 1),
                },
            };
            tiles.push(
                QuadTileInfo { rect: tile, kind: QuadTileKind::Pattern { has_mask: force_masks } },
            );
            k = k + 1;
        }
        self.tiles = tiles;
        self.x_tiles = nx as usize;
        self.y_tiles = ny as usize;
        self.rect = rect;
        self.force_masks = force_masks;
        self.mask_regions.clear();
        self.clip_in_regions.clear();
        self.clip_out_regions.clear();
    }

    /// Adds a region that needs a mask; an empty one changes nothing.
    pub fn add_mask_region(&mut self, mask_region: DeviceIntRect)
        requires
            old(self).wf(),
        ensures
            final(self).wf(),
            final(self).same_grid(*old(self)),
            final(self).regions() == old(self).regions().with(
                old(self).quad(),
                RegionCall::Mask { region: mask_region },
            ),
            final(self).clips_in() == old(self).clips_in(),
            final(self).clips_out() == old(self).clips_out(),
            final(self).masks() == if mask_region.spec_is_empty() {
                old(self).masks()
            } else {
                old(self).masks().push(mask_region)
            },
    {
        if !mask_region.is_empty() {
            self.mask_regions.push(mask_region);
        }
    }

    /// The same rectangle, split in the same way.
    pub open spec fn same_grid(self, other: Self) -> bool {
        &&& self.quad() == other.quad()
        &&& self.forced() == other.forced()
        &&& self.columns() == other.columns()
        &&& self.rows() == other.rows()
    }

    /// Adds a clip. Where it keeps what lies outside of it, the whole quad needs a
    /// mask, but for the tiles inside of it.
    pub fn add_clip_rect(&mut self, clip_rect: DeviceIntRect, clip_mode: ClipMode)
        requires
            old(self).wf(),
        ensures
            final(self).wf(),
            final(self).same_grid(*old(self)),
            final(self).regions() == old(self).regions().with(
                old(self).quad(),
                RegionCall::Clip { rect: clip_rect, mode: clip_mode },
            ),
            match clip_mode {
                ClipMode::Clip => {
                    &&& final(self).clips_in() == old(self).clips_in().push(clip_rect)
                    &&& final(self).clips_out() == old(self).clips_out()
                    &&& final(self).masks() == old(self).masks()
                },
                ClipMode::ClipOut => {
                    &&& final(self).clips_in() == old(self).clips_in()
                    &&& final(self).clips_out() == old(self).clips_out().push(clip_rect)
                    &&& final(self).masks() == if old(self).quad().spec_is_empty() {
                        old(self).masks()
                    } else {
                        old(self).masks().push(old(self).quad())
                    }
                },
            },
    {
        match clip_mode {
            ClipMode::Clip => {
                self.clip_in_regions.push(clip_rect);
            },
            ClipMode::ClipOut => {
                self.clip_out_regions.push(clip_rect);
                let rect = self.rect;
                self.add_mask_region(rect);
            },
        }
    }

    /// Decides how each tile is drawn. After that the classifier has no grid until
    /// it is reset.
    pub fn classify(&mut self) -> (r: QuadTileIterator)
        requires
            old(self).wf(),
            old(self).columns() != 0,
            old(self).rows() != 0,
        ensures
            final(self).wf(),
            final(self).columns() == 0,
            final(self).rows() == 0,
            r.position == 0,
            r.tiles@ == classified(
                old(self).quad(),
                old(self).columns(),
                old(self).rows(),
                old(self).forced(),
                old(self).clips_in(),
                old(self).clips_out(),
                old(self).masks(),
            ),
            r.tiles@ == old(self).regions().tiles(
                old(self).quad(),
                old(self).columns(),
                old(self).rows(),
                old(self).forced(),
            ),
    {
        let mut result: Vec<QuadTileInfo> = Vec::new();
        let mut k: usize = 0;
        while k < self.tiles.len()
            invariant
                *self == *old(self),
                self.wf(),
                self.x_tiles != 0,
                k <= self.tiles@.len(),
                result@.len() == k,
                forall|j: int|
                    0 <= j < k ==> {
                        let rect = grid_rect(
                            self.rect,
                            self.x_tiles as int,
                            self.y_tiles as int,
                            j,
                        );
                        #[trigger] result@[j] == (QuadTileInfo {
                            rect,
                            kind: spec_tile_kind(
                                rect,
                                self.force_masks,
                                self.clip_in_regions@,
                                self.clip_out_regions@,
                                self.mask_regions@,
                            ),
                        })
                    },
            decreases self.tiles@.len() - k,
        {
            let tile = self.tiles[k];
            let kind = self.kind_of(tile.rect);
            result.push(QuadTileInfo { rect: tile.rect, kind });
            k = k + 1;
        }
        self.x_tiles = 0;
        self.y_tiles = 0;
        assert(result@ =~= classified(
            old(self).quad(),
            old(self).columns(),
            old(self).rows(),
            old(self).forced(),
            old(self).clips_in(),
            old(self).clips_out(),
            old(self).masks(),
        ));
        QuadTileIterator { tiles: result, position: 0 }
    }

    fn kind_of(&self, tile: DeviceIntRect) -> (r: QuadTileKind)
        ensures
            r == spec_tile_kind(
                tile,
                self.force_masks,
                self.clip_in_regions@,
                self.clip_out_regions@,
                self.mask_regions@,
            ),
    {
        let mut i: usize = 0;
        while i < self.clip_in_regions.len()
            invariant
                i <= self.clip_in_regions@.len(),
                forall|j: int|
                    0 <= j < i ==> (#[trigger] self.clip_in_regions@[j]).spec_intersects(tile),
            decreases self.clip_in_regions@.len() - i,
        {
            if !self.clip_in_regions[i].intersects(&tile) {
                return QuadTileKind::Clipped;
            }
            i = i + 1;
        }
        i = 0;
        while i < self.clip_out_regions.len()
            invariant
                i <= self.clip_out_regions@.len(),
                forall|j: int|
                    0 <= j < self.clip_in_regions@.len() ==> (
                    #[trigger] self.clip_in_regions@[j]).spec_intersects(tile),
                forall|j: int|
                    0 <= j < i ==> !(#[trigger] self.clip_out_regions@[j]).spec_contains_box(tile),
            decreases self.clip_out_regions@.len() - i,
        {
            if self.clip_out_regions[i].contains_box(&tile) {
                return QuadTileKind::Clipped;
            }
            i = i + 1;
        }
        let mut has_mask: bool = self.force_masks;
        i = 0;
        while i < self.mask_regions.len()
            invariant
                i <= self.mask_regions@.len(),
                has_mask == (self.force_masks || exists|j: int|
                    0 <= j < i && (#[trigger] self.mask_regions@[j]).spec_intersects(tile)),
            decreases self.mask_regions@.len() - i,
        {
            if !has_mask && self.mask_regions[i].intersects(&tile) {
                has_mask = true;
            }
            i = i + 1;
        }
        QuadTileKind::Pattern { has_mask }
    }
}

fn count_tiles(width: i32, most: i64) -> (r: i64)
    requires
        1 <= most <= 8,
    ensures
        r == tile_count(width as int, most as int),
        1 <= r <= most,
{
    let w: i64 = width as i64;
    if w <= MIN_QUAD_SPLIT_SIZE {
        1
    } else if w >= most * MIN_QUAD_SPLIT_SIZE {
        most
    } else {
        (w + MIN_QUAD_SPLIT_SIZE - 1) / MIN_QUAD_SPLIT_SIZE
    }
}

/// Hands out the tiles that are drawn, neighbours of one kind joined.
pub struct QuadTileIterator {
    pub tiles: Vec<QuadTileInfo>,
    pub position: usize,
}

/// The place, from `i` on, of the first tile that is drawn, or the end.
pub open spec fn first_drawn(tiles: Seq<QuadTileInfo>, i: int) -> int
    decreases tiles.len() - i,
{
    if 0 <= i < tiles.len() && tiles[i].kind is Clipped {
        first_drawn(tiles, i + 1)
    } else {
        i
    }
}

/// The tile at `k` can be joined to one that starts as the tile at `i` does.
pub open spec fn joins(tiles: Seq<QuadTileInfo>, i: int, k: int) -> bool {
    &&& tiles[k].rect.min.y == tiles[i].rect.min.y
    &&& tiles[k].kind == tiles[i].kind
    &&& !(tiles[k].kind is Clipped)
    &&& (tiles[k].kind == (QuadTileKind::Pattern { has_mask: true }) ==> tiles[k].rect.max.x
        - tiles[i].rect.min.x <= MAX_MASKED_TILE_WIDTH)
}

/// The end of the run of tiles, from `k` on, that join the tile at `i`.
pub open spec fn run_end(tiles: Seq<QuadTileInfo>, i: int, k: int) -> int
    decreases tiles.len() - k,
{
    if 0 <= k < tiles.len() && joins(tiles, i, k) {
        run_end(tiles, i, k + 1)
    } else {
        k
    }
}

/// The tiles from `i` up to but without `end`, as one.
pub open spec fn joined(tiles: Seq<QuadTileInfo>, i: int, end: int) -> QuadTileInfo {
    QuadTileInfo {
        rect: DeviceIntRect {
            min: tiles[i].rect.min,
            max: DeviceIntPoint { x: tiles[end - 1].rect.max.x, y: tiles[i].rect.max.y },
        },
        kind: tiles[i].kind,
    }
}

impl QuadTileIterator {
    /// The next tile that is drawn, together with the neighbours that join it.
    pub fn next(&mut self) -> (r: Option<QuadTileInfo>)
        requires
            old(self).position <= old(self).tiles@.len(),
        ensures
            final(self).tiles == old(self).tiles,
            final(self).position <= final(self).tiles@.len(),
            ({
                let tiles = old(self).tiles@;
                let i = first_drawn(tiles, old(self).position as int);
                let end = run_end(tiles, i, i + 1);
                if i < tiles.len() {
                    &&& r == Some(joined(tiles, i, end))
                    &&& final(self).position == end
                } else {
                    &&& r is None
                    &&& final(self).position == tiles.len()
                }
            }),
    {
        let ghost start = self.position as int;
        while self.position < self.tiles.len() && self.clipped(self.position)
            invariant
                self.tiles == old(self).tiles,
                self.position <= self.tiles@.len(),
                first_drawn(self.tiles@, start) == first_drawn(
                    self.tiles@,
                    self.position as int,
                ),
            decreases self.tiles@.len() - self.position,
        {
            self.position = self.position + 1;
        }
        if self.position == self.tiles.len() {
            return None;
        }
        let ghost i = self.position as int;
        let mut tile = self.tiles[self.position];
        self.position = self.position + 1;
        while self.position < self.tiles.len()
            invariant
                self.tiles == old(self).tiles,
                0 <= i < self.position <= self.tiles@.len(),
                tile == joined(self.tiles@, i, self.position as int),
                run_end(self.tiles@, i, i + 1) == run_end(
                    self.tiles@,
                    i,
                    self.position as int,
                ),
            ensures
                self.position as int == run_end(self.tiles@, i, i + 1),
            decreases self.tiles@.len() - self.position,
        {
            let info = self.tiles[self.position];
            if tile.rect.min.y != info.rect.min.y || tile.kind != info.kind {
                break;
            }
            let too_wide: bool = match info.kind {
                QuadTileKind::Pattern { has_mask: true } => {
                    info.rect.max.x as i64 - tile.rect.min.x as i64 > MAX_MASKED_TILE_WIDTH
                },
                QuadTileKind::Pattern { has_mask: false } => false,
                QuadTileKind::Clipped => true,
            };
            if too_wide {
                break;
            }
            tile.rect.max.x = info.rect.max.x;
            self.position = self.position + 1;
        }
        Some(tile)
    }

    fn clipped(&self, i: usize) -> (r: bool)
        requires
            i < self.tiles@.len(),
        ensures
            r == (self.tiles@[i as int].kind is Clipped),
    {
        match self.tiles[i].kind {
            QuadTileKind::Clipped => true,
            _ => false,
        }
    }
}

/// A row of the grid over a rectangle holds pixels, or lies below all of them.
pub open spec fn row_is_in_place(rect: DeviceIntRect, ny: int, y: int) -> bool {
    let top = tile_edge(rect.min.y as int, rect.max.y as int, ny, y);
    let bottom = tile_edge(rect.min.y as int, rect.max.y as int, ny, y + 1);
    top < bottom || top == rect.max.y
}

/// The rows without pixels are the last ones.
pub open spec fn empty_rows_are_last(rect: DeviceIntRect, ny: int) -> bool {
    forall|y: int| 0 <= y < ny ==> #[trigger] row_is_in_place(rect, ny, y)
}

/// Where each row has a pixel at least, none is empty.
pub proof fn high_rectangles_have_full_rows(rect: DeviceIntRect, ny: int)
    requires
        1 <= ny,
        rect.spec_height() >= ny,
    ensures
        empty_rows_are_last(rect, ny),
{
    assert forall|y: int| 0 <= y < ny implies #[trigger] row_is_in_place(rect, ny, y) by {
        lemma_edges_strict(rect.min.y as int, rect.max.y as int, ny, y, y + 1);
    }
}

/// The tiles are those of a grid over the rectangle, whose empty rows are the last ones.
pub open spec fn is_grid(tiles: Seq<QuadTileInfo>, rect: DeviceIntRect, nx: int, ny: int) -> bool {
    &&& 1 <= nx <= 8
    &&& 1 <= ny <= 8
    &&& rect.min.x <= rect.max.x
    &&& rect.min.y <= rect.max.y
    &&& empty_rows_are_last(rect, ny)
    &&& tiles.len() == nx * ny
    &&& forall|k: int|
        0 <= k < tiles.len() ==> (#[trigger] tiles[k]).rect == grid_rect(rect, nx, ny, k)
}

/// All tiles before the first one that is drawn are clipped away.
pub proof fn lemma_first_drawn(tiles: Seq<QuadTileInfo>, i: int)
    requires
        0 <= i <= tiles.len(),
    ensures
        i <= first_drawn(tiles, i) <= tiles.len(),
        first_drawn(tiles, i) < tiles.len() ==> !(tiles[first_drawn(tiles, i)].kind is Clipped),
        forall|k: int| i <= k < first_drawn(tiles, i) ==> (#[trigger] tiles[k]).kind is Clipped,
    decreases tiles.len() - i,
{
    if i < tiles.len() && tiles[i].kind is Clipped {
        lemma_first_drawn(tiles, i + 1);
    }
}

/// A run ends after the last tile that joins it.
pub proof fn lemma_run_end(tiles: Seq<QuadTileInfo>, i: int, k: int)
    requires
        0 <= k <= tiles.len(),
    ensures
        k <= run_end(tiles, i, k) <= tiles.len(),
        forall|j: int| k <= j < run_end(tiles, i, k) ==> #[trigger] joins(tiles, i, j),
        run_end(tiles, i, k) < tiles.len() ==> !joins(tiles, i, run_end(tiles, i, k)),
    decreases tiles.len() - k,
{
    if k < tiles.len() && joins(tiles, i, k) {
        lemma_run_end(tiles, i, k + 1);
    }
}

/// Everything that is handed out from a position on.
pub open spec fn runs(tiles: Seq<QuadTileInfo>, position: int) -> Seq<QuadTileInfo>
    decreases tiles.len() - position,
{
    if 0 <= position <= tiles.len() {
        let i = first_drawn(tiles, position);
        let end = run_end(tiles, i, i + 1);
        proof {
            lemma_first_drawn(tiles, position);
            if i < tiles.len() {
                lemma_run_end(tiles, i, i + 1);
            }
        }
        if i < tiles.len() {
            seq![joined(tiles, i, end)] + runs(tiles, end)
        } else {
            Seq::empty()
        }
    } else {
        Seq::empty()
    }
}

/// Rows of at least a pixel each start at different heights.
proof fn lemma_edges_strict(min: int, max: int, n: int, i: int, j: int)
    requires
        n >= 1,
        max - min >= n,
        0 <= i < j <= n,
    ensures
        tile_edge(min, max, n, i) < tile_edge(min, max, n, j),
{
    let w = max - min;
    let a = min * n + i * w;
    let b = min * n + j * w;
    assert(b >= a + n) by (nonlinear_arith)
        requires
            a == min * n + i * w,
            b == min * n + j * w,
            i + 1 <= j,
            w >= n,
            n >= 1,
    ;
    lemma_round_away_ordered(a + n, b, n);
    assert(round_away(a + n, n) >= round_away(a, n) + 1) by {
        if a >= 0 {
            assert((2 * (a + n) + n) / (2 * n) == (2 * a + n) / (2 * n) + 1) by (nonlinear_arith)
                requires
                    n >= 1,
            ;
        } else if a + n >= 0 {
            assert((2 * (a + n) + n) / (2 * n) >= 0) by (nonlinear_arith)
                requires
                    n >= 1,
                    a + n >= 0,
            ;
            assert((2 * (-a) + n) / (2 * n) >= 0) by (nonlinear_arith)
                requires
                    n >= 1,
                    a < 0,
            ;
            if 2 * (-a) >= n {
                assert((2 * (-a) + n) / (2 * n) >= 1) by (nonlinear_arith)
                    requires
                        n >= 1,
                        2 * (-a) >= n,
                ;
            } else {
                assert((2 * (a + n) + n) / (2 * n) >= 1) by (nonlinear_arith)
                    requires
                        n >= 1,
                        2 * (-a) < n,
                ;
            }
        } else {
            assert((2 * (-a) + n) / (2 * n) == (2 * (-(a + n)) + n) / (2 * n) + 1)
                by (nonlinear_arith)
                requires
                    n >= 1,
                    a + n < 0,
            ;
        }
    }
}

/// A column between two others holds each position between their edges.
proof fn lemma_find_column_between(min: int, max: int, n: int, p: int, c: int, d: int)
    requires
        n >= 1,
        min <= max,
        0 <= c < d <= n,
        tile_edge(min, max, n, c) <= p < tile_edge(min, max, n, d),
    ensures
        exists|i: int|
            c <= i < d && #[trigger] tile_edge(min, max, n, i) <= p < tile_edge(
                min,
                max,
                n,
                i + 1,
            ),
    decreases d - c,
{
    if p < tile_edge(min, max, n, c + 1) {
    } else {
        if c + 1 == d {
        } else {
            lemma_find_column_between(min, max, n, p, c + 1, d);
        }
    }
}

/// The row and the column of a place in the grid.
pub proof fn lemma_grid_place(nx: int, ny: int, k: int)
    requires
        1 <= nx,
        1 <= ny,
        0 <= k < nx * ny,
    ensures
        0 <= k % nx < nx,
        0 <= k / nx < ny,
        k == (k / nx) * nx + k % nx,
{
    vstd::arithmetic::div_mod::lemma_fundamental_div_mod(k, nx);
    assert(nx * (k / nx) == (k / nx) * nx) by (nonlinear_arith);
    assert(0 <= k / nx < ny) by (nonlinear_arith)
        requires
            0 <= k < nx * ny,
            nx >= 1,
    ;
    assert(0 <= k % nx < nx) by (nonlinear_arith)
        requires
            nx >= 1,
    ;
}

/// The coordinates of a tile of the grid are its edges.
pub proof fn lemma_grid_rect(rect: DeviceIntRect, nx: int, ny: int, k: int)
    requires
        1 <= nx,
        1 <= ny,
        0 <= k < nx * ny,
        rect.min.x <= rect.max.x,
        rect.min.y <= rect.max.y,
    ensures
        ({
            let t = grid_rect(rect, nx, ny, k);
            let x = k % nx;
            let y = k / nx;
            &&& t.min.x == tile_edge(rect.min.x as int, rect.max.x as int, nx, x)
            &&& t.max.x == tile_edge(rect.min.x as int, rect.max.x as int, nx, x + 1)
            &&& t.min.y == tile_edge(rect.min.y as int, rect.max.y as int, ny, y)
            &&& t.max.y == tile_edge(rect.min.y as int, rect.max.y as int, ny, y + 1)
        }),
{
    lemma_grid_place(nx, ny, k);
    tile_edges_are_ordered(rect.min.x as int, rect.max.x as int, nx, k % nx, k % nx + 1);
    tile_edges_are_ordered(rect.min.x as int, rect.max.x as int, nx, k % nx + 1, nx);
    tile_edges_are_ordered(rect.min.y as int, rect.max.y as int, ny, k / nx, k / nx + 1);
    tile_edges_are_ordered(rect.min.y as int, rect.max.y as int, ny, k / nx + 1, ny);
}

/// Tiles that start at one height lie in one row, or below all pixels.
proof fn lemma_same_row(
    tiles: Seq<QuadTileInfo>,
    rect: DeviceIntRect,
    nx: int,
    ny: int,
    i: int,
    k: int,
)
    requires
        is_grid(tiles, rect, nx, ny),
        0 <= i < tiles.len(),
        0 <= k < tiles.len(),
        tiles[k].rect.min.y == tiles[i].rect.min.y,
    ensures
        k / nx == i / nx || (tiles[i].rect.min.y == rect.max.y && tiles[i].rect.max.y
            == rect.max.y),
{
    lemma_grid_rect(rect, nx, ny, i);
    lemma_grid_rect(rect, nx, ny, k);
    lemma_grid_place(nx, ny, i);
    lemma_grid_place(nx, ny, k);
    lemma_row_bottom(tiles, rect, nx, ny, i);
    let (y0, y1) = (rect.min.y as int, rect.max.y as int);
    if k / nx < i / nx {
        assert(row_is_in_place(rect, ny, k / nx));
        tile_edges_are_ordered(y0, y1, ny, k / nx + 1, i / nx);
    } else if i / nx < k / nx {
        assert(row_is_in_place(rect, ny, i / nx));
        tile_edges_are_ordered(y0, y1, ny, i / nx + 1, k / nx);
    }
}

/// A tile ends within the rectangle, and not above where it starts.
proof fn lemma_row_bottom(
    tiles: Seq<QuadTileInfo>,
    rect: DeviceIntRect,
    nx: int,
    ny: int,
    i: int,
)
    requires
        is_grid(tiles, rect, nx, ny),
        0 <= i < tiles.len(),
    ensures
        tiles[i].rect.min.y <= tiles[i].rect.max.y <= rect.max.y,
{
    lemma_grid_rect(rect, nx, ny, i);
    lemma_grid_place(nx, ny, i);
    let (y0, y1) = (rect.min.y as int, rect.max.y as int);
    tile_edges_are_ordered(y0, y1, ny, i / nx, i / nx + 1);
    tile_edges_are_ordered(y0, y1, ny, i / nx + 1, ny);
}

/// Joined tiles cover the pixels that they cover one by one.
pub proof fn joining_keeps_pixels(
    tiles: Seq<QuadTileInfo>,
    rect: DeviceIntRect,
    nx: int,
    ny: int,
    i: int,
    end: int,
    px: int,
    py: int,
)
    requires
        is_grid(tiles, rect, nx, ny),
        0 <= i < end <= tiles.len(),
        forall|k: int| i < k < end ==> #[trigger] joins(tiles, i, k),
    ensures
        joined(tiles, i, end).rect.has(px, py) <==> exists|k: int|
            i <= k < end && #[trigger] tiles[k].rect.has(px, py),
{
    let minx = rect.min.x as int;
    let maxx = rect.max.x as int;
    let last = end - 1;
    lemma_grid_rect(rect, nx, ny, i);
    lemma_grid_rect(rect, nx, ny, last);
    lemma_grid_place(nx, ny, i);
    lemma_grid_place(nx, ny, last);
    if last > i {
        assert(joins(tiles, i, last));
    }
    lemma_same_row(tiles, rect, nx, ny, i, last);
    if tiles[i].rect.min.y == rect.max.y {
        lemma_row_bottom(tiles, rect, nx, ny, i);
        assert forall|k: int| i <= k < end implies !#[trigger] tiles[k].rect.has(px, py) by {
            if k > i {
                assert(joins(tiles, i, k));
            }
            lemma_row_bottom(tiles, rect, nx, ny, k);
        }
    } else {
        let row = i / nx;
        let c = i % nx;
        let d = last % nx;
        assert(c <= d);
        if joined(tiles, i, end).rect.has(px, py) {
            lemma_find_column_between(minx, maxx, nx, px, c, d + 1);
            let col = choose|col: int|
                c <= col < d + 1 && #[trigger] tile_edge(minx, maxx, nx, col) <= px < tile_edge(
                    minx,
                    maxx,
                    nx,
                    col + 1,
                );
            let k = row * nx + col;
            assert(i <= k < end);
            lemma_place_of(nx, row, col);
            lemma_grid_rect(rect, nx, ny, k);
            assert(tiles[k].rect.has(px, py));
        }
        if exists|k: int| i <= k < end && #[trigger] tiles[k].rect.has(px, py) {
            let k = choose|k: int| i <= k < end && #[trigger] tiles[k].rect.has(px, py);
            if k > i {
                assert(joins(tiles, i, k));
            }
            lemma_same_row(tiles, rect, nx, ny, i, k);
            lemma_grid_rect(rect, nx, ny, k);
            lemma_grid_place(nx, ny, k);
            tile_edges_are_ordered(minx, maxx, nx, c, k % nx);
            tile_edges_are_ordered(minx, maxx, nx, k % nx + 1, d + 1);
        }
    }
}

proof fn lemma_place_of(nx: int, row: int, col: int)
    requires
        nx >= 1,
        0 <= col < nx,
        0 <= row,
    ensures
        (row * nx + col) / nx == row,
        (row * nx + col) % nx == col,
{
    vstd::arithmetic::div_mod::lemma_fundamental_div_mod_converse(row * nx + col, nx, row, col);
}

/// What is handed out covers the pixels of the tiles that are drawn, each with the
/// kind of its tile, and no others.
pub proof fn runs_cover_drawn_tiles(
    tiles: Seq<QuadTileInfo>,
    rect: DeviceIntRect,
    nx: int,
    ny: int,
    position: int,
    px: int,
    py: int,
    kind: QuadTileKind,
)
    requires
        is_grid(tiles, rect, nx, ny),
        0 <= position <= tiles.len(),
    ensures
        (exists|r: int|
            0 <= r < runs(tiles, position).len() && (#[trigger] runs(tiles, position)[r]).rect.has(
                px,
                py,
            ) && runs(tiles, position)[r].kind == kind) <==> (exists|k: int|
            position <= k < tiles.len() && (#[trigger] tiles[k]).rect.has(px, py)
                && tiles[k].kind == kind && !(kind is Clipped)),
    decreases tiles.len() - position,
{
    let all = runs(tiles, position);
    let i = first_drawn(tiles, position);
    lemma_first_drawn(tiles, position);
    if i < tiles.len() {
        let end = run_end(tiles, i, i + 1);
        lemma_run_end(tiles, i, i + 1);
        let rest = runs(tiles, end);
        let head = joined(tiles, i, end);
        assert(all =~= seq![head] + rest);
        runs_cover_drawn_tiles(tiles, rect, nx, ny, end, px, py, kind);
        joining_keeps_pixels(tiles, rect, nx, ny, i, end, px, py);
        if exists|r: int| 0 <= r < all.len() && (#[trigger] all[r]).rect.has(px, py) && all[r].kind
            == kind {
            let r = choose|r: int|
                0 <= r < all.len() && (#[trigger] all[r]).rect.has(px, py) && all[r].kind == kind;
            if r == 0 {
                let k = choose|k: int| i <= k < end && #[trigger] tiles[k].rect.has(px, py);
                if k > i {
                    assert(joins(tiles, i, k));
                }
                assert(tiles[k].kind == kind);
            } else {
                assert(rest[r - 1] == all[r]);
                let k = choose|k: int|
                    end <= k < tiles.len() && (#[trigger] tiles[k]).rect.has(px, py)
                        && tiles[k].kind == kind && !(kind is Clipped);
                assert(tiles[k].rect.has(px, py));
            }
        }
        if exists|k: int|
            position <= k < tiles.len() && (#[trigger] tiles[k]).rect.has(px, py) && tiles[k].kind
                == kind && !(kind is Clipped) {
            let k = choose|k: int|
                position <= k < tiles.len() && (#[trigger] tiles[k]).rect.has(px, py)
                    && tiles[k].kind == kind && !(kind is Clipped);
            if k < i {
                assert(tiles[k].kind is Clipped);
            } else if k < end {
                if k > i {
                    assert(joins(tiles, i, k));
                }
                assert(tiles[k].rect.has(px, py));
                assert(all[0] == head);
            } else {
                assert(tiles[k].rect.has(px, py));
                let r = choose|r: int|
                    0 <= r < rest.len() && (#[trigger] rest[r]).rect.has(px, py) && rest[r].kind
                        == kind;
                assert(all[r + 1] == rest[r]);
            }
        }
    } else {
        assert(all.len() == 0);
    }
}

/// Each pixel of a quad lies in one tile of its grid, and in no other.
pub proof fn pixel_lies_in_one_tile(
    tiles: Seq<QuadTileInfo>,
    rect: DeviceIntRect,
    nx: int,
    ny: int,
    px: int,
    py: int,
)
    requires
        is_grid(tiles, rect, nx, ny),
        rect.has(px, py),
    ensures
        exists|k: int| 0 <= k < tiles.len() && #[trigger] tiles[k].rect.has(px, py),
        forall|j: int, k: int|
            0 <= j < tiles.len() && 0 <= k < tiles.len() && #[trigger] tiles[j].rect.has(px, py)
                && #[trigger] tiles[k].rect.has(px, py) ==> j == k,
{
    let (x0, x1) = (rect.min.x as int, rect.max.x as int);
    let (y0, y1) = (rect.min.y as int, rect.max.y as int);
    position_lies_in_one_column(x0, x1, nx, px);
    position_lies_in_one_column(y0, y1, ny, py);
    let col = choose|col: int|
        0 <= col < nx && #[trigger] tile_edge(x0, x1, nx, col) <= px < tile_edge(
            x0,
            x1,
            nx,
            col + 1,
        );
    let row = choose|row: int|
        0 <= row < ny && #[trigger] tile_edge(y0, y1, ny, row) <= py < tile_edge(
            y0,
            y1,
            ny,
            row + 1,
        );
    let k = row * nx + col;
    assert(0 <= k < nx * ny) by (nonlinear_arith)
        requires
            0 <= col < nx,
            0 <= row < ny,
            k == row * nx + col,
    ;
    lemma_place_of(nx, row, col);
    lemma_grid_rect(rect, nx, ny, k);
    assert(tiles[k].rect.has(px, py));
    assert forall|j: int, k: int|
        0 <= j < tiles.len() && 0 <= k < tiles.len() && #[trigger] tiles[j].rect.has(px, py)
            && #[trigger] tiles[k].rect.has(px, py) implies j == k by {
        lemma_grid_rect(rect, nx, ny, j);
        lemma_grid_rect(rect, nx, ny, k);
        lemma_grid_place(nx, ny, j);
        lemma_grid_place(nx, ny, k);
        assert(tile_edge(x0, x1, nx, j % nx) <= px);
        assert(tile_edge(x0, x1, nx, k % nx) <= px);
        assert(tile_edge(y0, y1, ny, j / nx) <= py);
        assert(tile_edge(y0, y1, ny, k / nx) <= py);
        assert(j % nx == k % nx);
        assert(j / nx == k / nx);
    }
}

/// A masked tile that is handed out is either a single tile of the grid or at most
/// as wide as joined masked tiles may be.
pub proof fn masked_runs_stay_narrow(tiles: Seq<QuadTileInfo>, i: int)
    requires
        0 <= i < tiles.len(),
        tiles[i].kind == (QuadTileKind::Pattern { has_mask: true }),
    ensures
        ({
            let end = run_end(tiles, i, i + 1);
            end == i + 1 || joined(tiles, i, end).rect.spec_width() <= MAX_MASKED_TILE_WIDTH
        }),
{
    lemma_run_end(tiles, i, i + 1);
    let end = run_end(tiles, i, i + 1);
    if end > i + 1 {
        assert(joins(tiles, i, end - 1));
    }
}

/// A tile that is handed out is a run of tiles of the grid.
pub open spec fn is_run(tiles: Seq<QuadTileInfo>, info: QuadTileInfo, i: int, end: int) -> bool {
    &&& 0 <= i < end <= tiles.len()
    &&& info == joined(tiles, i, end)
    &&& !(tiles[i].kind is Clipped)
    &&& forall|k: int| i < k < end ==> #[trigger] joins(tiles, i, k)
}

/// What is handed out from a position on is made of tiles from there on.
proof fn lemma_runs_from(tiles: Seq<QuadTileInfo>, position: int, r: int)
    requires
        0 <= position <= tiles.len(),
        0 <= r < runs(tiles, position).len(),
    ensures
        exists|i: int, end: int|
            position <= i && #[trigger] is_run(tiles, runs(tiles, position)[r], i, end),
    decreases tiles.len() - position,
{
    let all = runs(tiles, position);
    let i = first_drawn(tiles, position);
    lemma_first_drawn(tiles, position);
    assert(i < tiles.len());
    let end = run_end(tiles, i, i + 1);
    lemma_run_end(tiles, i, i + 1);
    let rest = runs(tiles, end);
    assert(all =~= seq![joined(tiles, i, end)] + rest);
    if r == 0 {
        assert(is_run(tiles, all[0], i, end));
    } else {
        lemma_runs_from(tiles, end, r - 1);
        let (j, e) = choose|j: int, e: int|
            end <= j && #[trigger] is_run(tiles, rest[r - 1], j, e);
        assert(is_run(tiles, all[r], j, e));
    }
}

/// One rectangle comes before the other: it lies above it, or to the left of it in the same
/// row.
pub open spec fn comes_before(a: DeviceIntRect, b: DeviceIntRect) -> bool {
    a.max.y <= b.min.y || (a.min.y == b.min.y && a.max.x <= b.min.x)
}

/// Of two runs of the grid, the one that ends before the other begins comes first.
proof fn lemma_run_before(
    tiles: Seq<QuadTileInfo>,
    rect: DeviceIntRect,
    nx: int,
    ny: int,
    a: QuadTileInfo,
    i: int,
    end: int,
    b: QuadTileInfo,
    j: int,
    e: int,
)
    requires
        is_grid(tiles, rect, nx, ny),
        is_run(tiles, a, i, end),
        is_run(tiles, b, j, e),
        end <= j,
    ensures
        comes_before(a.rect, b.rect),
{
    let last = end - 1;
    if last > i {
        assert(joins(tiles, i, last));
    }
    lemma_same_row(tiles, rect, nx, ny, i, last);
    lemma_grid_rect(rect, nx, ny, i);
    lemma_grid_rect(rect, nx, ny, last);
    lemma_grid_rect(rect, nx, ny, j);
    lemma_grid_place(nx, ny, i);
    lemma_grid_place(nx, ny, last);
    lemma_grid_place(nx, ny, j);
    let row = last / nx;
    let other = j / nx;
    assert(row <= other) by (nonlinear_arith)
        requires
            last < j,
            last == row * nx + last % nx,
            j == other * nx + j % nx,
            0 <= last % nx < nx,
            0 <= j % nx < nx,
    ;
    if tiles[i].rect.min.y == rect.max.y {
        lemma_row_bottom(tiles, rect, nx, ny, i);
        lemma_row_bottom(tiles, rect, nx, ny, j);
        assert(i / nx <= other) by (nonlinear_arith)
            requires
                i < j,
                i == (i / nx) * nx + i % nx,
                j == other * nx + j % nx,
                0 <= i % nx < nx,
                0 <= j % nx < nx,
        ;
        tile_edges_are_ordered(rect.min.y as int, rect.max.y as int, ny, i / nx, other);
    } else if row == other {
        tile_edges_are_ordered(
            rect.min.x as int,
            rect.max.x as int,
            nx,
            last % nx + 1,
            j % nx,
        );
    } else {
        tile_edges_are_ordered(rect.min.y as int, rect.max.y as int, ny, row + 1, other);
    }
}

/// Tiles are handed out row by row, and from left to right in each row.
pub proof fn runs_come_in_order(
    tiles: Seq<QuadTileInfo>,
    rect: DeviceIntRect,
    nx: int,
    ny: int,
    position: int,
    r: int,
    s: int,
)
    requires
        is_grid(tiles, rect, nx, ny),
        0 <= position <= tiles.len(),
        0 <= r < s < runs(tiles, position).len(),
    ensures
        comes_before(runs(tiles, position)[r].rect, runs(tiles, position)[s].rect),
    decreases tiles.len() - position,
{
    let all = runs(tiles, position);
    let i = first_drawn(tiles, position);
    lemma_first_drawn(tiles, position);
    let end = run_end(tiles, i, i + 1);
    lemma_run_end(tiles, i, i + 1);
    let rest = runs(tiles, end);
    assert(all =~= seq![joined(tiles, i, end)] + rest);
    if r == 0 {
        lemma_runs_from(tiles, end, s - 1);
        let (j, e) = choose|j: int, e: int|
            end <= j && #[trigger] is_run(tiles, rest[s - 1], j, e);
        assert(is_run(tiles, all[0], i, end));
        lemma_run_before(tiles, rect, nx, ny, all[0], i, end, all[s], j, e);
    } else {
        runs_come_in_order(tiles, rect, nx, ny, end, r - 1, s - 1);
    }
}

/// The next of what is handed out, where it touches the one before it in one row, begins at
/// the tile of the grid at which the one before it ended.
proof fn lemma_next_run(
    tiles: Seq<QuadTileInfo>,
    rect: DeviceIntRect,
    nx: int,
    ny: int,
    i: int,
    end: int,
    j: int,
)
    requires
        is_grid(tiles, rect, nx, ny),
        rect.spec_width() >= nx,
        rect.spec_height() >= ny,
        0 <= i < end <= j < tiles.len(),
        forall|k: int| i < k < end ==> #[trigger] joins(tiles, i, k),
        tiles[j].rect.min.y == tiles[i].rect.min.y,
        tiles[j].rect.min.x == tiles[end - 1].rect.max.x,
    ensures
        j == end,
{
    let last = end - 1;
    if last > i {
        assert(joins(tiles, i, last));
    }
    lemma_same_row(tiles, rect, nx, ny, i, last);
    lemma_same_row(tiles, rect, nx, ny, i, j);
    lemma_grid_rect(rect, nx, ny, last);
    lemma_grid_rect(rect, nx, ny, j);
    lemma_grid_place(nx, ny, last);
    lemma_grid_place(nx, ny, j);
    lemma_grid_rect(rect, nx, ny, i);
    lemma_grid_place(nx, ny, i);
    lemma_edges_strict(rect.min.y as int, rect.max.y as int, ny, i / nx, ny);
    tile_edges_are_ordered(rect.min.y as int, rect.max.y as int, ny, 0, ny);
    if last % nx + 1 < j % nx {
        lemma_edges_strict(
            rect.min.x as int,
            rect.max.x as int,
            nx,
            last % nx + 1,
            j % nx,
        );
    }
}

/// Neighbours are joined as far as they can be. Nothing that is handed out is clipped away.
/// A masked tile is wider than joined ones may be only where it is a single tile of the grid.
/// Two tiles that follow each other, touch in one row and are of one kind are both masked,
/// and the first would have been too wide together with the next tile of the grid.
pub proof fn merging_is_maximal(
    tiles: Seq<QuadTileInfo>,
    rect: DeviceIntRect,
    nx: int,
    ny: int,
    position: int,
    r: int,
)
    requires
        is_grid(tiles, rect, nx, ny),
        rect.spec_width() >= nx,
        rect.spec_height() >= ny,
        0 <= position <= tiles.len(),
        0 <= r < runs(tiles, position).len(),
    ensures
        ({
            let a = runs(tiles, position)[r];
            let b = runs(tiles, position)[r + 1];
            let masked = QuadTileKind::Pattern { has_mask: true };
            &&& !(a.kind is Clipped)
            &&& a.kind == masked && a.rect.spec_width() > MAX_MASKED_TILE_WIDTH ==> exists|k: int|
                0 <= k < tiles.len() && #[trigger] tiles[k] == a
            &&& r + 1 < runs(tiles, position).len() && a.rect.min.y == b.rect.min.y
                && a.rect.max.x == b.rect.min.x && a.kind == b.kind ==> {
                &&& a.kind == masked
                &&& exists|k: int|
                    0 <= k < tiles.len() && (#[trigger] tiles[k]).rect.min == b.rect.min
                        && tiles[k].rect.max.x - a.rect.min.x > MAX_MASKED_TILE_WIDTH
            }
        }),
    decreases tiles.len() - position,
{
    let all = runs(tiles, position);
    let i = first_drawn(tiles, position);
    lemma_first_drawn(tiles, position);
    let end = run_end(tiles, i, i + 1);
    lemma_run_end(tiles, i, i + 1);
    let rest = runs(tiles, end);
    assert(all =~= seq![joined(tiles, i, end)] + rest);
    if r > 0 {
        merging_is_maximal(tiles, rect, nx, ny, end, r - 1);
    } else {
        let a = all[0];
        if a.kind == (QuadTileKind::Pattern { has_mask: true }) {
            masked_runs_stay_narrow(tiles, i);
            if end == i + 1 {
                assert(tiles[i] == a);
            }
        }
        if all.len() > 1 {
            let b = all[1];
            assert(b == rest[0]);
            let j = first_drawn(tiles, end);
            lemma_first_drawn(tiles, end);
            assert(b == joined(tiles, j, run_end(tiles, j, j + 1)));
            if a.rect.min.y == b.rect.min.y && a.rect.max.x == b.rect.min.x && a.kind == b.kind {
                lemma_next_run(tiles, rect, nx, ny, i, end, j);
                assert(!joins(tiles, i, end));
                assert(tiles[end].rect.min == b.rect.min);
            }
        }
    }
}

/// The rectangle has pixels, and no row of its grid without pixels lies above one with some:
/// such a row would be joined with the next one, whose pixels would be lost.
pub open spec fn has_rows(rect: DeviceIntRect) -> bool {
    &&& rect.sized()
    &&& rect.min.x < rect.max.x
    &&& rect.min.y < rect.max.y
    &&& empty_rows_are_last(rect, tile_count(rect.spec_width(), MAX_TILES_PER_QUAD_Y as int))
}

/// What a classifier hands out for a rectangle without any region.
pub open spec fn plain_tiles(rect: DeviceIntRect, force_masks: bool) -> Seq<QuadTileInfo> {
    TileRegions::empty().tiles(
        rect,
        tile_count(rect.spec_width(), MAX_TILES_PER_QUAD_X as int),
        tile_count(rect.spec_width(), MAX_TILES_PER_QUAD_Y as int),
        force_masks,
    )
}

proof fn lemma_plain_grid(rect: DeviceIntRect, force_masks: bool)
    requires
        has_rows(rect),
    ensures
        ({
            let nx = tile_count(rect.spec_width(), MAX_TILES_PER_QUAD_X as int);
            let ny = tile_count(rect.spec_width(), MAX_TILES_PER_QUAD_Y as int);
            &&& is_grid(plain_tiles(rect, force_masks), rect, nx, ny)
            &&& 1 <= ny <= 4
            &&& rect.spec_width() >= nx
            &&& forall|k: int|
                0 <= k < plain_tiles(rect, force_masks).len() ==> (#[trigger] plain_tiles(
                    rect,
                    force_masks,
                )[k]).kind == (QuadTileKind::Pattern { has_mask: force_masks })
        }),
{
    let nx = tile_count(rect.spec_width(), MAX_TILES_PER_QUAD_X as int);
    let ny = tile_count(rect.spec_width(), MAX_TILES_PER_QUAD_Y as int);
    assert(nx * ny >= 0) by (nonlinear_arith)
        requires
            nx >= 1,
            ny >= 1,
    ;
}

/// There are no more tiles handed out than tiles of the grid.
proof fn lemma_runs_count(tiles: Seq<QuadTileInfo>, position: int)
    requires
        0 <= position <= tiles.len(),
    ensures
        runs(tiles, position).len() <= tiles.len() - position,
    decreases tiles.len() - position,
{
    let i = first_drawn(tiles, position);
    lemma_first_drawn(tiles, position);
    if i < tiles.len() {
        let end = run_end(tiles, i, i + 1);
        lemma_run_end(tiles, i, i + 1);
        lemma_runs_count(tiles, end);
    }
}

/// The tiles of a quad on which there is no region cover the quad and nothing else. They are
/// disjoint, come row by row and from left to right, and are all of one kind. There are at
/// most four rows, and at most eight tiles in each.
pub proof fn tiles_cover_the_quad(rect: DeviceIntRect, force_masks: bool)
    requires
        has_rows(rect),
    ensures
        ({
            let all = runs(plain_tiles(rect, force_masks), 0);
            let nx = tile_count(rect.spec_width(), MAX_TILES_PER_QUAD_X as int);
            let ny = tile_count(rect.spec_width(), MAX_TILES_PER_QUAD_Y as int);
            &&& 1 <= nx <= 8
            &&& 1 <= ny <= 4
            &&& all.len() <= nx * ny
            &&& forall|r: int|
                0 <= r < all.len() ==> (#[trigger] all[r]).kind == (QuadTileKind::Pattern {
                    has_mask: force_masks,
                })
            &&& forall|px: int, py: int|
                #![trigger rect.has(px, py)]
                rect.has(px, py) <==> exists|r: int|
                    0 <= r < all.len() && (#[trigger] all[r]).rect.has(px, py)
            &&& forall|r: int, s: int|
                0 <= r < s < all.len() ==> comes_before(
                    (#[trigger] all[r]).rect,
                    (#[trigger] all[s]).rect,
                )
            &&& forall|r: int, s: int, px: int, py: int|
                0 <= r < all.len() && 0 <= s < all.len() && #[trigger] all[r].rect.has(px, py)
                    && #[trigger] all[s].rect.has(px, py) ==> r == s
        }),
{
    let tiles = plain_tiles(rect, force_masks);
    let nx = tile_count(rect.spec_width(), MAX_TILES_PER_QUAD_X as int);
    let ny = tile_count(rect.spec_width(), MAX_TILES_PER_QUAD_Y as int);
    let all = runs(tiles, 0);
    let kind = QuadTileKind::Pattern { has_mask: force_masks };
    lemma_plain_grid(rect, force_masks);
    lemma_runs_count(tiles, 0);
    assert forall|r: int| 0 <= r < all.len() implies (#[trigger] all[r]).kind == kind by {
        lemma_runs_from(tiles, 0, r);
        let (i, end) = choose|i: int, end: int| 0 <= i && #[trigger] is_run(tiles, all[r], i, end);
        assert(tiles[i].kind == kind);
    }
    assert forall|px: int, py: int| #![trigger rect.has(px, py)]
        rect.has(px, py) <==> exists|r: int|
            0 <= r < all.len() && (#[trigger] all[r]).rect.has(px, py) by {
        runs_cover_drawn_tiles(tiles, rect, nx, ny, 0, px, py, kind);
        if rect.has(px, py) {
            pixel_lies_in_one_tile(tiles, rect, nx, ny, px, py);
            let k = choose|k: int| 0 <= k < tiles.len() && #[trigger] tiles[k].rect.has(px, py);
            assert(tiles[k].rect.has(px, py) && tiles[k].kind == kind);
            let r = choose|r: int|
                0 <= r < all.len() && (#[trigger] all[r]).rect.has(px, py) && all[r].kind == kind;
            assert(all[r].rect.has(px, py));
        }
        if exists|r: int| 0 <= r < all.len() && (#[trigger] all[r]).rect.has(px, py) {
            let r = choose|r: int| 0 <= r < all.len() && (#[trigger] all[r]).rect.has(px, py);
            assert(all[r].kind == kind);
            let k = choose|k: int|
                0 <= k < tiles.len() && (#[trigger] tiles[k]).rect.has(px, py) && tiles[k].kind
                    == kind && !(kind is Clipped);
            lemma_grid_rect(rect, nx, ny, k);
            lemma_grid_place(nx, ny, k);
            let (x, y) = (k % nx, k / nx);
            tile_edges_are_ordered(rect.min.x as int, rect.max.x as int, nx, x, x + 1);
            tile_edges_are_ordered(rect.min.y as int, rect.max.y as int, ny, y, y + 1);
            tile_edges_are_ordered(rect.min.x as int, rect.max.x as int, nx, x + 1, nx);
            tile_edges_are_ordered(rect.min.y as int, rect.max.y as int, ny, y + 1, ny);
        }
    }
    assert forall|r: int, s: int| 0 <= r < s < all.len() implies comes_before(
        (#[trigger] all[r]).rect,
        (#[trigger] all[s]).rect,
    ) by {
        runs_come_in_order(tiles, rect, nx, ny, 0, r, s);
    }
    assert forall|r: int, s: int, px: int, py: int|
        0 <= r < all.len() && 0 <= s < all.len() && #[trigger] all[r].rect.has(px, py)
            && #[trigger] all[s].rect.has(px, py) implies r == s by {
        if r < s {
            assert(comes_before(all[r].rect, all[s].rect));
        } else if s < r {
            assert(comes_before(all[s].rect, all[r].rect));
        }
    }
}

/// Below a row without pixels, above the end of the rectangle, there is a last such row, and
/// then one with pixels.
proof fn lemma_last_empty_row(y0: int, y1: int, n: int, y: int) -> (z: int)
    requires
        n >= 1,
        y0 <= y1,
        0 <= y < n,
        tile_edge(y0, y1, n, y) == tile_edge(y0, y1, n, y + 1),
        tile_edge(y0, y1, n, y) < y1,
    ensures
        y <= z < n - 1,
        tile_edge(y0, y1, n, z) == tile_edge(y0, y1, n, y),
        tile_edge(y0, y1, n, z + 1) == tile_edge(y0, y1, n, y),
        tile_edge(y0, y1, n, z + 2) > tile_edge(y0, y1, n, y),
    decreases n - y,
{
    tile_edges_are_ordered(y0, y1, n, y, n);
    assert(y + 1 < n);
    tile_edges_are_ordered(y0, y1, n, y + 1, y + 2);
    if tile_edge(y0, y1, n, y + 2) > tile_edge(y0, y1, n, y) {
        y
    } else {
        lemma_last_empty_row(y0, y1, n, y + 1)
    }
}

/// The first tile below a row without pixels is joined to that row, and begins no run.
proof fn lemma_swallowed(
    tiles: Seq<QuadTileInfo>,
    rect: DeviceIntRect,
    nx: int,
    ny: int,
    z: int,
    kind: QuadTileKind,
    position: int,
    r: int,
)
    requires
        2 <= nx <= 8,
        1 <= ny <= 8,
        rect.min.x <= rect.max.x,
        rect.min.y <= rect.max.y,
        !(kind is Clipped),
        tiles.len() == nx * ny,
        forall|k: int|
            0 <= k < tiles.len() ==> (#[trigger] tiles[k]).rect == grid_rect(rect, nx, ny, k)
                && tiles[k].kind == kind,
        0 <= z < ny - 1,
        tile_edge(rect.min.y as int, rect.max.y as int, ny, z) == tile_edge(
            rect.min.y as int,
            rect.max.y as int,
            ny,
            z + 1,
        ),
        0 <= position <= tiles.len(),
        position != (z + 1) * nx,
        0 <= r < runs(tiles, position).len(),
    ensures
        exists|i: int, end: int|
            i != (z + 1) * nx && #[trigger] is_run(tiles, runs(tiles, position)[r], i, end),
    decreases tiles.len() - position,
{
    let k0 = (z + 1) * nx;
    let all = runs(tiles, position);
    let i = first_drawn(tiles, position);
    lemma_first_drawn(tiles, position);
    if i > position {
        assert(tiles[position].kind is Clipped);
    }
    let end = run_end(tiles, i, i + 1);
    lemma_run_end(tiles, i, i + 1);
    let rest = runs(tiles, end);
    assert(all =~= seq![joined(tiles, i, end)] + rest);
    if r == 0 {
        assert(is_run(tiles, all[0], i, end));
    } else {
        if end == k0 {
            let (x0, x1) = (rect.min.x as int, rect.max.x as int);
            let last = z * nx + (nx - 1);
            assert(last == k0 - 1) by (nonlinear_arith)
                requires
                    last == z * nx + (nx - 1),
                    k0 == (z + 1) * nx,
            ;
            assert(0 <= k0 < nx * ny) by (nonlinear_arith)
                requires
                    k0 == (z + 1) * nx,
                    0 <= z < ny - 1,
                    nx >= 1,
            ;
            assert(k0 == (z + 1) * nx + 0);
            lemma_place_of(nx, z, nx - 1);
            lemma_place_of(nx, z + 1, 0);
            lemma_grid_rect(rect, nx, ny, last);
            lemma_grid_rect(rect, nx, ny, k0);
            lemma_grid_rect(rect, nx, ny, i);
            lemma_grid_place(nx, ny, i);
            if i < last {
                assert(joins(tiles, i, last));
            }
            if i % nx >= 1 {
                tile_edges_are_ordered(x0, x1, nx, 1, i % nx);
            } else {
                assert(i != last);
                tile_edges_are_ordered(x0, x1, nx, 1, nx);
            }
            assert(joins(tiles, i, k0));
        }
        lemma_swallowed(tiles, rect, nx, ny, z, kind, end, r - 1);
        let (j, e) = choose|j: int, e: int|
            j != k0 && #[trigger] is_run(tiles, rest[r - 1], j, e);
        assert(is_run(tiles, all[r], j, e));
    }
}

/// Where a row without pixels lies above one with some, the tiles do not cover the quad: the
/// first tile below that row is joined to it, and its pixels are lost.
pub proof fn empty_rows_swallow_pixels(rect: DeviceIntRect, force_masks: bool)
    requires
        rect.sized(),
        rect.min.x < rect.max.x,
        rect.min.y < rect.max.y,
        !empty_rows_are_last(rect, tile_count(rect.spec_width(), MAX_TILES_PER_QUAD_Y as int)),
    ensures
        ({
            let all = runs(plain_tiles(rect, force_masks), 0);
            exists|px: int, py: int| #[trigger]
                rect.has(px, py) && forall|r: int|
                    0 <= r < all.len() ==> !(#[trigger] all[r]).rect.has(px, py)
        }),
{
    let nx = tile_count(rect.spec_width(), MAX_TILES_PER_QUAD_X as int);
    let ny = tile_count(rect.spec_width(), MAX_TILES_PER_QUAD_Y as int);
    let (x0, x1) = (rect.min.x as int, rect.max.x as int);
    let (y0, y1) = (rect.min.y as int, rect.max.y as int);
    let tiles = plain_tiles(rect, force_masks);
    let all = runs(tiles, 0);
    let kind = QuadTileKind::Pattern { has_mask: force_masks };
    assert(nx * ny >= 0) by (nonlinear_arith)
        requires
            nx >= 1,
            ny >= 1,
    ;
    let y = choose|y: int| 0 <= y < ny && !#[trigger] row_is_in_place(rect, ny, y);
    tile_edges_are_ordered(y0, y1, ny, y, y + 1);
    tile_edges_are_ordered(y0, y1, ny, y, ny);
    let z = lemma_last_empty_row(y0, y1, ny, y);
    let top = tile_edge(y0, y1, ny, y);
    let k0 = (z + 1) * nx;
    assert(rect.has(x0, top));
    assert(k0 > 0) by (nonlinear_arith)
        requires
            k0 == (z + 1) * nx,
            z >= 0,
            nx >= 1,
    ;
    assert forall|r: int| 0 <= r < all.len() implies !(#[trigger] all[r]).rect.has(x0, top) by {
        lemma_swallowed(tiles, rect, nx, ny, z, kind, 0, r);
        let (i, end) = choose|i: int, end: int|
            i != k0 && #[trigger] is_run(tiles, all[r], i, end);
        if all[r].rect.has(x0, top) {
            lemma_grid_rect(rect, nx, ny, i);
            lemma_grid_place(nx, ny, i);
            position_lies_in_one_column(y0, y1, ny, top);
            assert(tile_edge(y0, y1, ny, i / nx) <= top < tile_edge(y0, y1, ny, i / nx + 1));
            assert(tile_edge(y0, y1, ny, z + 1) <= top < tile_edge(y0, y1, ny, z + 1 + 1));
            assert(i / nx == z + 1);
            tile_edges_are_ordered(x0, x1, nx, 0, nx);
            if i % nx > 0 {
                lemma_edges_strict(x0, x1, nx, 0, i % nx);
            }
        }
    }
}

/// Some clip keeps what lies outside of it.
pub open spec fn clips_something_out(calls: Seq<RegionCall>) -> bool {
    exists|rect: DeviceIntRect| #[trigger]
        calls.contains(RegionCall::Clip { rect, mode: ClipMode::ClipOut })
}

/// The regions that several calls lead to hold what some call adds, and nothing else.
proof fn lemma_region_members(quad: DeviceIntRect, calls: Seq<RegionCall>)
    ensures
        ({
            let regions = TileRegions::empty().with_all(quad, calls);
            &&& forall|rect: DeviceIntRect| #[trigger]
                regions.clips_in.contains(rect) <==> calls.contains(
                    RegionCall::Clip { rect, mode: ClipMode::Clip },
                )
            &&& forall|rect: DeviceIntRect| #[trigger]
                regions.clips_out.contains(rect) <==> calls.contains(
                    RegionCall::Clip { rect, mode: ClipMode::ClipOut },
                )
            &&& forall|region: DeviceIntRect| #[trigger]
                regions.masks.contains(region) <==> !region.spec_is_empty() && (calls.contains(
                    RegionCall::Mask { region },
                ) || (region == quad && clips_something_out(calls)))
        }),
    decreases calls.len(),
{
    if calls.len() > 0 {
        let before = TileRegions::empty().with_all(quad, calls.drop_last());
        let after = TileRegions::empty().with_all(quad, calls);
        let call = calls.last();
        lemma_region_members(quad, calls.drop_last());
        assert(calls =~= calls.drop_last().push(call));
        assert forall|other: RegionCall| #[trigger] calls.contains(other) <==> other == call
            || calls.drop_last().contains(other) by {
            lemma_push_contains(calls.drop_last(), call, other);
        }
        assert(clips_something_out(calls) <==> clips_something_out(calls.drop_last())
            || (call matches RegionCall::Clip { mode: ClipMode::ClipOut, .. })) by {
            if clips_something_out(calls) {
                let rect = choose|rect: DeviceIntRect| #[trigger]
                    calls.contains(RegionCall::Clip { rect, mode: ClipMode::ClipOut });
                assert(calls.contains(RegionCall::Clip { rect, mode: ClipMode::ClipOut }));
            }
            if clips_something_out(calls.drop_last()) {
                let rect = choose|rect: DeviceIntRect| #[trigger]
                    calls.drop_last().contains(
                        RegionCall::Clip { rect, mode: ClipMode::ClipOut },
                    );
                assert(calls.contains(RegionCall::Clip { rect, mode: ClipMode::ClipOut }));
            }
            assert(calls.contains(call));
        }
        assert forall|rect: DeviceIntRect| #[trigger]
            after.clips_in.contains(rect) <==> calls.contains(
                RegionCall::Clip { rect, mode: ClipMode::Clip },
            ) by {
            if let RegionCall::Clip { rect: added, mode: ClipMode::Clip } = call {
                lemma_push_contains(before.clips_in, added, rect);
            }
        }
        assert forall|rect: DeviceIntRect| #[trigger]
            after.clips_out.contains(rect) <==> calls.contains(
                RegionCall::Clip { rect, mode: ClipMode::ClipOut },
            ) by {
            if let RegionCall::Clip { rect: added, mode: ClipMode::ClipOut } = call {
                lemma_push_contains(before.clips_out, added, rect);
            }
        }
        assert forall|region: DeviceIntRect| #[trigger]
            after.masks.contains(region) <==> !region.spec_is_empty() && (calls.contains(
                RegionCall::Mask { region },
            ) || (region == quad && clips_something_out(calls))) by {
            match call {
                RegionCall::Mask { region: added } => {
                    lemma_push_contains(before.masks, added, region);
                },
                RegionCall::Clip { mode: ClipMode::ClipOut, .. } => {
                    lemma_push_contains(before.masks, quad, region);
                },
                RegionCall::Clip { mode: ClipMode::Clip, .. } => {},
            }
        }
    }
}

proof fn lemma_push_contains<A>(s: Seq<A>, added: A, item: A)
    ensures
        s.push(added).contains(item) <==> item == added || s.contains(item),
{
    let after = s.push(added);
    if after.contains(item) {
        let i = choose|i: int| 0 <= i < after.len() && after[i] == item;
        if i < s.len() {
            assert(s[i] == item);
        }
    }
    if item == added {
        assert(after[s.len() as int] == item);
    }
    if s.contains(item) {
        let i = choose|i: int| 0 <= i < s.len() && s[i] == item;
        assert(after[i] == item);
    }
}

/// How a tile is drawn depends on which regions there are, and not on their order.
proof fn lemma_kind_by_members(
    tile: DeviceIntRect,
    force_masks: bool,
    one: TileRegions,
    other: TileRegions,
)
    requires
        forall|rect: DeviceIntRect| #[trigger]
            one.clips_in.contains(rect) <==> other.clips_in.contains(rect),
        forall|rect: DeviceIntRect| #[trigger]
            one.clips_out.contains(rect) <==> other.clips_out.contains(rect),
        forall|rect: DeviceIntRect| #[trigger]
            one.masks.contains(rect) <==> other.masks.contains(rect),
    ensures
        spec_tile_kind(tile, force_masks, one.clips_in, one.clips_out, one.masks)
            == spec_tile_kind(tile, force_masks, other.clips_in, other.clips_out, other.masks),
{
    if is_clipped(tile, one.clips_in, one.clips_out) {
        if exists|i: int|
            0 <= i < one.clips_in.len() && !(#[trigger] one.clips_in[i]).spec_intersects(tile) {
            let i = choose|i: int|
                0 <= i < one.clips_in.len() && !(#[trigger] one.clips_in[i]).spec_intersects(tile);
            assert(one.clips_in.contains(one.clips_in[i]));
            assert(other.clips_in.contains(one.clips_in[i]));
        } else {
            let i = choose|i: int|
                0 <= i < one.clips_out.len() && (#[trigger] one.clips_out[i]).spec_contains_box(
                    tile,
                );
            assert(one.clips_out.contains(one.clips_out[i]));
            assert(other.clips_out.contains(one.clips_out[i]));
        }
        assert(is_clipped(tile, other.clips_in, other.clips_out));
    }
    if is_clipped(tile, other.clips_in, other.clips_out) {
        if exists|i: int|
            0 <= i < other.clips_in.len() && !(#[trigger] other.clips_in[i]).spec_intersects(
                tile,
            ) {
            let i = choose|i: int|
                0 <= i < other.clips_in.len() && !(#[trigger] other.clips_in[i]).spec_intersects(
                    tile,
                );
            assert(other.clips_in.contains(other.clips_in[i]));
            assert(one.clips_in.contains(other.clips_in[i]));
        } else {
            let i = choose|i: int|
                0 <= i < other.clips_out.len() && (#[trigger] other.clips_out[i]).spec_contains_box(
                    tile,
                );
            assert(other.clips_out.contains(other.clips_out[i]));
            assert(one.clips_out.contains(other.clips_out[i]));
        }
        assert(is_clipped(tile, one.clips_in, one.clips_out));
    }
    if is_masked(tile, one.masks) {
        let i = choose|i: int|
            0 <= i < one.masks.len() && (#[trigger] one.masks[i]).spec_intersects(tile);
        assert(one.masks.contains(one.masks[i]));
        assert(other.masks.contains(one.masks[i]));
        assert(is_masked(tile, other.masks));
    }
    if is_masked(tile, other.masks) {
        let i = choose|i: int|
            0 <= i < other.masks.len() && (#[trigger] other.masks[i]).spec_intersects(tile);
        assert(other.masks.contains(other.masks[i]));
        assert(one.masks.contains(other.masks[i]));
        assert(is_masked(tile, one.masks));
    }
}

/// The same masks and clips, added in another order, lead to the same tiles.
pub proof fn order_of_regions_does_not_matter(
    rect: DeviceIntRect,
    nx: int,
    ny: int,
    force_masks: bool,
    calls: Seq<RegionCall>,
    reordered: Seq<RegionCall>,
)
    requires
        calls.to_multiset() == reordered.to_multiset(),
    ensures
        TileRegions::empty().with_all(rect, calls).tiles(rect, nx, ny, force_masks)
            == TileRegions::empty().with_all(rect, reordered).tiles(rect, nx, ny, force_masks),
        runs(TileRegions::empty().with_all(rect, calls).tiles(rect, nx, ny, force_masks), 0)
            == runs(
            TileRegions::empty().with_all(rect, reordered).tiles(rect, nx, ny, force_masks),
            0,
        ),
{
    let one = TileRegions::empty().with_all(rect, calls);
    let other = TileRegions::empty().with_all(rect, reordered);
    calls.to_multiset_ensures();
    reordered.to_multiset_ensures();
    assert forall|call: RegionCall| #[trigger] calls.contains(call) <==> reordered.contains(
        call,
    ) by {
        assert(calls.contains(call) <==> calls.to_multiset().count(call) > 0);
        assert(reordered.contains(call) <==> reordered.to_multiset().count(call) > 0);
    }
    lemma_region_members(rect, calls);
    lemma_region_members(rect, reordered);
    if clips_something_out(calls) {
        let r = choose|r: DeviceIntRect| #[trigger]
            calls.contains(RegionCall::Clip { rect: r, mode: ClipMode::ClipOut });
        assert(reordered.contains(RegionCall::Clip { rect: r, mode: ClipMode::ClipOut }));
    }
    if clips_something_out(reordered) {
        let r = choose|r: DeviceIntRect| #[trigger]
            reordered.contains(RegionCall::Clip { rect: r, mode: ClipMode::ClipOut });
        assert(calls.contains(RegionCall::Clip { rect: r, mode: ClipMode::ClipOut }));
    }
    let a = one.tiles(rect, nx, ny, force_masks);
    let b = other.tiles(rect, nx, ny, force_masks);
    assert forall|k: int| 0 <= k < a.len() implies a[k] == b[k] by {
        lemma_kind_by_members(grid_rect(rect, nx, ny, k), force_masks, one, other);
    }
    assert(a =~= b);
}

} // verus!
