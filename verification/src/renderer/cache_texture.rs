//! The copy of the GPU cache that is kept in memory, and how it reaches the device.

use crate::internal_types::ImageFormat;
use crate::renderer::gpu_buffer::MAX_VERTEX_TEXTURE_WIDTH;
use vstd::prelude::*;

verus! {

/// One texel of the cache, as the bits of its four channels.
#[derive(Clone, Copy, Debug, PartialEq, Eq)]
pub struct GpuBlockData {
    pub data: [u32; 4],
}

impl GpuBlockData {
    pub open spec fn spec_empty() -> Self {
        GpuBlockData { data: [0, 0, 0, 0] }
    }

    #[verifier::when_used_as_spec(spec_empty)]
    pub fn empty() -> (r: Self)
        ensures
            r == Self::spec_empty(),
    {
        let r = GpuBlockData { data: [0, 0, 0, 0] };
        assert(r.data =~= Self::spec_empty().data);
        r
    }
}

/// A place in the cache: a column and a row.
#[derive(Clone, Copy, Debug, PartialEq, Eq, Structural)]
pub struct GpuCacheAddress {
    pub u: u16,
    pub v: u16,
}

/// Blocks that are copied into the cache.
#[derive(Clone, Copy, Debug, PartialEq, Eq, Structural)]
pub struct GpuCacheUpdate {
    /// The first of the blocks, in the list that comes with the update.
    pub block_index: usize,
    pub block_count: usize,
    pub address: GpuCacheAddress,
}

/// The updates of a frame.
pub struct GpuCacheUpdateList {
    /// The height that the texture needs.
    pub height: u32,
    pub updates: Vec<GpuCacheUpdate>,
    pub blocks: Vec<GpuBlockData>,
}

/// The state of one row.
#[derive(Clone, Copy, Debug, PartialEq, Eq, Structural)]
pub struct CacheRow {
    /// The row is not on the device as it is in memory.
    pub is_dirty: bool,
}

impl CacheRow {
    pub fn new() -> (r: CacheRow)
        ensures
            r == (CacheRow { is_dirty: false }),
    {
        CacheRow { is_dirty: false }
    }
}

/// What is asked of the device for the texture of the cache.
#[derive(Clone, Copy, Debug, PartialEq, Eq, Structural)]
pub enum CacheCommand {
    /// Storage for a texture of the width of a row; what it held is lost.
    Init { width: u32, height: u32, format: ImageFormat },
    BindBuffer,
    /// Hands the blocks of a row to the bound buffer.
    FillBuffer { first_block: usize },
    /// Copies the bound buffer to a row of the texture.
    CopyToRow { row: u32 },
    /// Gives up the storage of the bound buffer, which keeps its size.
    OrphanBuffer,
    UnbindBuffer,
}

/// The texture of the GPU cache.
pub struct CacheTexture {
    pub rows: Vec<CacheRow>,
    pub cpu_blocks: Vec<GpuBlockData>,
}

/// The cache as a mathematical value.
#[verifier::ext_equal]
pub struct CacheView {
    pub dirty: Seq<bool>,
    pub blocks: Seq<GpuBlockData>,
}

/// The blocks with empty rows up to a number of rows.
pub open spec fn grown(view: CacheView, rows: int) -> CacheView {
    if rows <= view.dirty.len() {
        view
    } else {
        CacheView {
            dirty: view.dirty + Seq::new((rows - view.dirty.len()) as nat, |i: int| false),
            blocks: view.blocks + Seq::new(
                (1024 * (rows - view.dirty.len())) as nat,
                |i: int| GpuBlockData::spec_empty(),
            ),
        }
    }
}

/// The place of an address in the list of blocks.
pub open spec fn block_offset(address: GpuCacheAddress) -> int {
    1024 * address.v + address.u
}

/// The sequence with others in place of some of its values.
pub open spec fn overwritten(
    s: Seq<GpuBlockData>,
    at: int,
    with: Seq<GpuBlockData>,
    from: int,
    count: int,
) -> Seq<GpuBlockData> {
    Seq::new(
        s.len(),
        |i: int|
            if at <= i < at + count {
                with[from + i - at]
            } else {
                s[i]
            },
    )
}

/// The cache after an update.
pub open spec fn patched(view: CacheView, update: GpuCacheUpdate, blocks: Seq<GpuBlockData>) -> CacheView {
    let g = grown(view, update.address.v + 1);
    CacheView {
        dirty: g.dirty.update(update.address.v as int, true),
        blocks: overwritten(
            g.blocks,
            block_offset(update.address),
            blocks,
            update.block_index as int,
            update.block_count as int,
        ),
    }
}

/// The update copies blocks that there are to places that there are.
pub open spec fn update_ok(view: CacheView, update: GpuCacheUpdate, blocks: Seq<GpuBlockData>) -> bool {
    &&& update.block_index + update.block_count <= blocks.len()
    &&& block_offset(update.address) + update.block_count <= grown(
        view,
        update.address.v + 1,
    ).blocks.len()
}

/// The cache after several updates.
pub open spec fn all_patched(
    view: CacheView,
    updates: Seq<GpuCacheUpdate>,
    blocks: Seq<GpuBlockData>,
) -> CacheView
    decreases updates.len(),
{
    if updates.len() == 0 {
        view
    } else {
        patched(all_patched(view, updates.drop_last(), blocks), updates.last(), blocks)
    }
}

pub open spec fn updates_ok(
    view: CacheView,
    updates: Seq<GpuCacheUpdate>,
    blocks: Seq<GpuBlockData>,
) -> bool {
    forall|i: int|
        0 <= i < updates.len() ==> #[trigger] update_ok(
            all_patched(view, updates.take(i), blocks),
            updates[i],
            blocks,
        )
}

/// The cache, all of whose rows are to be handed to the device again.
pub open spec fn all_dirty(view: CacheView) -> CacheView {
    CacheView { dirty: Seq::new(view.dirty.len(), |i: int| true), ..view }
}

/// What the device is told about one row.
pub open spec fn row_commands(row: int) -> Seq<CacheCommand> {
    seq![
        CacheCommand::FillBuffer { first_block: (1024 * row) as usize },
        CacheCommand::CopyToRow { row: row as u32 },
        CacheCommand::OrphanBuffer,
    ]
}

/// What the device is told about the dirty rows.
pub open spec fn dirty_commands(dirty: Seq<bool>) -> Seq<CacheCommand>
    decreases dirty.len(),
{
    if dirty.len() == 0 {
        Seq::empty()
    } else if dirty.last() {
        dirty_commands(dirty.drop_last()) + row_commands(dirty.len() - 1)
    } else {
        dirty_commands(dirty.drop_last())
    }
}

impl CacheTexture {
    pub open spec fn view(self) -> CacheView {
        CacheView {
            dirty: self.rows@.map_values(|r: CacheRow| r.is_dirty),
            blocks: self.cpu_blocks@,
        }
    }

    /// Every row has all its blocks.
    pub open spec fn wf(self) -> bool {
        &&& self.cpu_blocks@.len() == 1024 * self.rows@.len()
        &&& self.rows@.len() <= 0x1_0000
    }

    pub fn new() -> (r: Self)
        ensures
            r.wf(),
            r@ == (CacheView { dirty: Seq::empty(), blocks: Seq::empty() }),
    {
        let r = CacheTexture { rows: Vec::new(), cpu_blocks: Vec::new() };
        assert(r@.dirty =~= Seq::empty());
        r
    }

    fn add_row(&mut self)
        requires
            old(self).wf(),
            old(self).rows@.len() < 0x1_0000,
        ensures
            final(self).wf(),
            final(self)@ == grown(old(self)@, (old(self).rows@.len() + 1) as int),
            final(self).rows@.len() == old(self).rows@.len() + 1,
    {
        let ghost before = self.cpu_blocks@;
        self.rows.push(CacheRow::new());
        let mut i: usize = 0;
        while i < MAX_VERTEX_TEXTURE_WIDTH
            invariant
                i <= MAX_VERTEX_TEXTURE_WIDTH,
                self.rows@ == old(self).rows@.push(CacheRow { is_dirty: false }),
                self.cpu_blocks@ == before + Seq::new(
                    i as nat,
                    |j: int| GpuBlockData::spec_empty(),
                ),
            decreases MAX_VERTEX_TEXTURE_WIDTH - i,
        {
            self.cpu_blocks.push(GpuBlockData::empty());
            i = i + 1;
            assert(self.cpu_blocks@ =~= before + Seq::new(
                i as nat,
                |j: int| GpuBlockData::spec_empty(),
            ));
        }
        assert(self@.dirty =~= grown(old(self)@, (old(self).rows@.len() + 1) as int).dirty);
        assert(self@.blocks =~= grown(old(self)@, (old(self).rows@.len() + 1) as int).blocks);
    }

    /// Copies blocks into the cache, which is made high enough first, and marks their
    /// row.
    pub fn apply_patch(&mut self, update: &GpuCacheUpdate, blocks: &Vec<GpuBlockData>)
        requires
            old(self).wf(),
            update_ok(old(self)@, *update, blocks@),
        ensures
            final(self).wf(),
            final(self)@ == patched(old(self)@, *update, blocks@),
    {
        let row: usize = update.address.v as usize;
        while self.rows.len() <= row
            invariant
                self.wf(),
                row == update.address.v,
                self.rows@.len() <= row + 1 || self@ == old(self)@,
                self.rows@.len() >= old(self).rows@.len(),
                self@ == grown(old(self)@, self.rows@.len() as int),
            decreases row + 1 - self.rows@.len(),
        {
            let ghost n = self.rows@.len() as int;
            self.add_row();
            assert(grown(grown(old(self)@, n), n + 1).dirty =~= grown(old(self)@, n + 1).dirty);
            assert(grown(grown(old(self)@, n), n + 1).blocks =~= grown(old(self)@, n + 1).blocks);
        }
        let ghost g = grown(old(self)@, row + 1);
        assert(self@ == g);
        self.rows.set(row, CacheRow { is_dirty: true });
        let offset: usize = row * MAX_VERTEX_TEXTURE_WIDTH + update.address.u as usize;
        let mut i: usize = 0;
        let total: usize = blocks.len();
        let ghost start = self.cpu_blocks@;
        assert(start =~= overwritten(start, offset as int, blocks@, update.block_index as int, 0));
        while i < update.block_count
            invariant
                i <= update.block_count,
                self.wf(),
                self.rows@.map_values(|r: CacheRow| r.is_dirty) == g.dirty.update(row as int, true),
                update.block_index + update.block_count <= total == blocks@.len(),
                offset + update.block_count <= start.len(),
                self.cpu_blocks@ == overwritten(
                    start,
                    offset as int,
                    blocks@,
                    update.block_index as int,
                    i as int,
                ),
            decreases update.block_count - i,
        {
            self.cpu_blocks.set(offset + i, blocks[update.block_index + i]);
            i = i + 1;
            assert(self.cpu_blocks@ =~= overwritten(
                start,
                offset as int,
                blocks@,
                update.block_index as int,
                i as int,
            ));
        }
    }

    /// Takes over the updates of a frame. A texture that is too low is made anew, and
    /// then all rows that were there are handed to it again.
    pub fn update(&mut self, current_height: u32, updates: &GpuCacheUpdateList) -> (r: Option<
        CacheCommand,
    >)
        requires
            old(self).wf(),
            updates_ok(
                if updates.height > current_height && current_height > 0 {
                    all_dirty(old(self)@)
                } else {
                    old(self)@
                },
                updates.updates@,
                updates.blocks@,
            ),
        ensures
            final(self).wf(),
            r == (if updates.height > current_height {
                Some(
                    CacheCommand::Init {
                        width: 1024,
                        height: updates.height,
                        format: ImageFormat::RGBAF32,
                    },
                )
            } else {
                None
            }),
            final(self)@ == all_patched(
                if updates.height > current_height && current_height > 0 {
                    all_dirty(old(self)@)
                } else {
                    old(self)@
                },
                updates.updates@,
                updates.blocks@,
            ),
    {
        let mut r: Option<CacheCommand> = None;
        if updates.height > current_height {
            r = Some(
                CacheCommand::Init {
                    width: MAX_VERTEX_TEXTURE_WIDTH as u32,
                    height: updates.height,
                    format: ImageFormat::RGBAF32,
                },
            );
            if current_height > 0 {
                self.mark_all();
            }
        }
        let ghost start = self@;
        let mut i: usize = 0;
        assert(updates.updates@.take(0) =~= Seq::<GpuCacheUpdate>::empty());
        while i < updates.updates.len()
            invariant
                i <= updates.updates@.len(),
                self.wf(),
                self@ == all_patched(start, updates.updates@.take(i as int), updates.blocks@),
                updates_ok(start, updates.updates@, updates.blocks@),
            decreases updates.updates@.len() - i,
        {
            let ghost next = updates.updates@.take(i as int + 1);
            assert(next.drop_last() =~= updates.updates@.take(i as int));
            assert(update_ok(
                all_patched(start, updates.updates@.take(i as int), updates.blocks@),
                updates.updates@[i as int],
                updates.blocks@,
            ));
            self.apply_patch(&updates.updates[i], &updates.blocks);
            i = i + 1;
        }
        assert(updates.updates@.take(i as int) =~= updates.updates@);
        r
    }

    fn mark_all(&mut self)
        requires
            old(self).wf(),
        ensures
            final(self).wf(),
            final(self)@ == all_dirty(old(self)@),
    {
        let mut i: usize = 0;
        let ghost n = self.rows@.len();
        while i < self.rows.len()
            invariant
                i <= n,
                self.rows@.len() == n,
                n == old(self).rows@.len(),
                self.cpu_blocks@ == old(self).cpu_blocks@,
                forall|j: int| 0 <= j < i ==> (#[trigger] self.rows@[j]).is_dirty,
            decreases n - i,
        {
            self.rows.set(i, CacheRow { is_dirty: true });
            i = i + 1;
        }
        assert(self@.dirty =~= all_dirty(old(self)@).dirty);
    }

    /// Hands the dirty rows to the device.
    pub fn flush(&mut self) -> (r: Vec<CacheCommand>)
        requires
            old(self).wf(),
        ensures
            final(self).wf(),
            final(self)@ == (CacheView {
                dirty: Seq::new(old(self)@.dirty.len(), |i: int| false),
                ..old(self)@
            }),
            r@ == seq![CacheCommand::BindBuffer] + dirty_commands(old(self)@.dirty)
                + seq![CacheCommand::UnbindBuffer],
    {
        let mut r: Vec<CacheCommand> = Vec::new();
        r.push(CacheCommand::BindBuffer);
        let ghost dirty = self@.dirty;
        let ghost n = self.rows@.len();
        let mut i: usize = 0;
        assert(r@ =~= seq![CacheCommand::BindBuffer] + dirty_commands(dirty.take(0)));
        while i < self.rows.len()
            invariant
                i <= n,
                n <= 0x1_0000,
                dirty == old(self)@.dirty,
                self.rows@.len() == n == dirty.len(),
                self.cpu_blocks@ == old(self).cpu_blocks@,
                forall|j: int| 0 <= j < i ==> !(#[trigger] self.rows@[j]).is_dirty,
                forall|j: int| i <= j < n ==> (#[trigger] self.rows@[j]).is_dirty == dirty[j],
                r@ == seq![CacheCommand::BindBuffer] + dirty_commands(dirty.take(i as int)),
            decreases n - i,
        {
            let ghost next = dirty.take(i as int + 1);
            assert(next.drop_last() =~= dirty.take(i as int));
            assert(next.last() == dirty[i as int]);
            let ghost before = r@;
            if self.rows[i].is_dirty {
                r.push(CacheCommand::FillBuffer { first_block: i * MAX_VERTEX_TEXTURE_WIDTH });
                r.push(CacheCommand::CopyToRow { row: i as u32 });
                r.push(CacheCommand::OrphanBuffer);
                self.rows.set(i, CacheRow { is_dirty: false });
                assert(r@ =~= before + row_commands(i as int));
            }
            i = i + 1;
            assert(r@ =~= seq![CacheCommand::BindBuffer] + dirty_commands(dirty.take(i as int)));
        }
        assert(dirty.take(i as int) =~= dirty);
        r.push(CacheCommand::UnbindBuffer);
        assert(self@.dirty =~= Seq::new(old(self)@.dirty.len(), |i: int| false));
        r
    }
}

/// A row of the blocks.
pub open spec fn block_row(blocks: Seq<GpuBlockData>, row: int) -> Seq<GpuBlockData> {
    blocks.subrange(1024 * row, 1024 * (row + 1))
}

/// The texture holds every row that is not dirty.
pub open spec fn in_step(texture: Seq<Seq<GpuBlockData>>, view: CacheView) -> bool {
    forall|row: int|
        0 <= row < view.dirty.len() && !(#[trigger] view.dirty[row]) ==> row < texture.len()
            && texture[row] == block_row(view.blocks, row)
}

/// The texture after commands of the cache, which says what the blocks are.
pub open spec fn executed(
    texture: Seq<Seq<GpuBlockData>>,
    commands: Seq<CacheCommand>,
    blocks: Seq<GpuBlockData>,
) -> Seq<Seq<GpuBlockData>>
    decreases commands.len(),
{
    if commands.len() == 0 {
        texture
    } else {
        let before = executed(texture, commands.drop_last(), blocks);
        match commands.last() {
            CacheCommand::CopyToRow { row } => before.update(
                row as int,
                block_row(blocks, row as int),
            ),
            _ => before,
        }
    }
}

/// What was copied into the cache is read back from it, and nothing else has changed.
pub proof fn patch_is_read_back(
    view: CacheView,
    update: GpuCacheUpdate,
    blocks: Seq<GpuBlockData>,
    place: int,
)
    requires
        view.blocks.len() == 1024 * view.dirty.len(),
        update_ok(view, update, blocks),
        0 <= place < patched(view, update, blocks).blocks.len(),
    ensures
        ({
            let after = patched(view, update, blocks);
            let at = block_offset(update.address);
            &&& at <= place < at + update.block_count ==> after.blocks[place]
                == blocks[update.block_index + place - at]
            &&& !(at <= place < at + update.block_count) && place < view.blocks.len()
                ==> after.blocks[place] == view.blocks[place]
            &&& !(at <= place < at + update.block_count) && place >= view.blocks.len()
                ==> after.blocks[place] == GpuBlockData::spec_empty()
            &&& after.dirty[update.address.v as int]
        }),
{
}

/// An update that stays in its row leaves the texture in step with the cache: what is
/// new is marked. New rows are only in step once they are handed over.
pub proof fn patch_keeps_in_step(
    texture: Seq<Seq<GpuBlockData>>,
    view: CacheView,
    update: GpuCacheUpdate,
    blocks: Seq<GpuBlockData>,
)
    requires
        view.blocks.len() == 1024 * view.dirty.len(),
        update_ok(view, update, blocks),
        update.address.u + update.block_count <= 1024,
        update.address.v < view.dirty.len(),
        in_step(texture, view),
    ensures
        in_step(texture, patched(view, update, blocks)),
{
    let after = patched(view, update, blocks);
    let v = update.address.v as int;
    assert forall|row: int| 0 <= row < after.dirty.len() && !(#[trigger] after.dirty[row]) implies row
        < texture.len() && texture[row] == block_row(after.blocks, row) by {
        assert(row != v);
        assert(!view.dirty[row]);
        assert(block_row(after.blocks, row) =~= block_row(view.blocks, row)) by {
            assert forall|i: int| 0 <= i < 1024 implies #[trigger] block_row(after.blocks, row)[i]
                == block_row(view.blocks, row)[i] by {
                if row < v {
                    assert(1024 * row + i < 1024 * v);
                } else {
                    assert(1024 * row + i >= 1024 * (v + 1));
                }
            }
        }
    }
}

/// What copying the dirty rows makes of the texture.
pub proof fn lemma_dirty_rows(
    texture: Seq<Seq<GpuBlockData>>,
    dirty: Seq<bool>,
    blocks: Seq<GpuBlockData>,
)
    requires
        dirty.len() <= texture.len(),
        dirty.len() <= 0x1_0000,
    ensures
        ({
            let after = executed(texture, dirty_commands(dirty), blocks);
            &&& after.len() == texture.len()
            &&& forall|row: int|
                0 <= row < texture.len() ==> #[trigger] after[row] == (if row < dirty.len()
                    && dirty[row] {
                    block_row(blocks, row)
                } else {
                    texture[row]
                })
        }),
    decreases dirty.len(),
{
    if dirty.len() > 0 {
        let rest = dirty.drop_last();
        lemma_dirty_rows(texture, rest, blocks);
        if dirty.last() {
            let row = dirty.len() - 1;
            let c = row_commands(row);
            let s = dirty_commands(rest);
            let all = s + c;
            assert(all.drop_last() =~= s.push(c[0]).push(c[1]));
            assert(all.drop_last().drop_last() =~= s.push(c[0]));
            assert(all.drop_last().drop_last().drop_last() =~= s);
            assert(executed(texture, s.push(c[0]), blocks) == executed(texture, s, blocks));
            assert(executed(texture, all, blocks) == executed(texture, all.drop_last(), blocks));
        }
    }
}

/// Once the dirty rows were handed over, the texture is the cache, row by row.
pub proof fn flush_brings_texture_up_to_date(
    texture: Seq<Seq<GpuBlockData>>,
    view: CacheView,
)
    requires
        view.blocks.len() == 1024 * view.dirty.len(),
        view.dirty.len() <= texture.len(),
        view.dirty.len() <= 0x1_0000,
        in_step(texture, view),
    ensures
        ({
            let commands = seq![CacheCommand::BindBuffer] + dirty_commands(view.dirty)
                + seq![CacheCommand::UnbindBuffer];
            let after = executed(texture, commands, view.blocks);
            forall|row: int|
                0 <= row < view.dirty.len() ==> #[trigger] after[row] == block_row(
                    view.blocks,
                    row,
                )
        }),
{
    let first = seq![CacheCommand::BindBuffer];
    let middle = dirty_commands(view.dirty);
    let commands = first + middle + seq![CacheCommand::UnbindBuffer];
    assert(commands.drop_last() =~= first + middle);
    lemma_bind_does_nothing(texture, middle, view.blocks);
    lemma_dirty_rows(texture, view.dirty, view.blocks);
    assert forall|row: int| 0 <= row < view.dirty.len() implies #[trigger] executed(
        texture,
        commands,
        view.blocks,
    )[row] == block_row(view.blocks, row) by {
        if !view.dirty[row] {
            assert(texture[row] == block_row(view.blocks, row));
        }
    }
}

proof fn lemma_bind_does_nothing(
    texture: Seq<Seq<GpuBlockData>>,
    commands: Seq<CacheCommand>,
    blocks: Seq<GpuBlockData>,
)
    ensures
        executed(texture, seq![CacheCommand::BindBuffer] + commands, blocks) == executed(
            texture,
            commands,
            blocks,
        ),
    decreases commands.len(),
{
    let all = seq![CacheCommand::BindBuffer] + commands;
    if commands.len() == 0 {
        assert(all.drop_last() =~= Seq::<CacheCommand>::empty());
        assert(executed(texture, all.drop_last(), blocks) == texture);
    } else {
        lemma_bind_does_nothing(texture, commands.drop_last(), blocks);
        assert(all.drop_last() =~= seq![CacheCommand::BindBuffer] + commands.drop_last());
    }
}

/// What is to be done for data that the vertex shaders read.
#[derive(Clone, Copy, Debug, PartialEq, Eq, Structural)]
pub struct VertexDataUpload {
    /// The texture is too low, and is made anew with this height.
    pub new_height: Option<u32>,
    pub width: u32,
    /// The rows that are copied.
    pub height: u32,
}

/// The number of items in a row of the texture.
pub open spec fn items_per_row(texels_per_item: int) -> int {
    1024int / texels_per_item
}

/// The least number of rows that hold the items.
pub open spec fn rows_for(len: int, texels_per_item: int) -> int {
    (len + items_per_row(texels_per_item) - 1) / items_per_row(texels_per_item)
}

pub open spec fn next_128(height: int) -> int {
    (height + 127) / 128 * 128
}

/// The items fill whole rows, none is lost, and no row is there in vain.
pub proof fn rows_hold_all_items(len: int, texels_per_item: int)
    requires
        0 < len,
        1 <= texels_per_item <= 1024,
    ensures
        rows_for(len, texels_per_item) * items_per_row(texels_per_item) >= len,
        (rows_for(len, texels_per_item) - 1) * items_per_row(texels_per_item) < len,
        items_per_row(texels_per_item) * texels_per_item <= 1024 - 1024int % texels_per_item,
{
    let n = items_per_row(texels_per_item);
    let r = rows_for(len, texels_per_item);
    assert(n >= 1) by (nonlinear_arith)
        requires
            1 <= texels_per_item <= 1024,
            n == 1024int / texels_per_item,
    ;
    assert(r * n >= len && (r - 1) * n < len) by (nonlinear_arith)
        requires
            n >= 1,
            r == (len + n - 1) / n,
            len > 0,
    ;
    assert(n * texels_per_item <= 1024 - 1024int % texels_per_item) by (nonlinear_arith)
        requires
            1 <= texels_per_item,
            n == 1024int / texels_per_item,
    ;
}

/// Fills up the data to whole rows, and says what is to be copied to a texture of the
/// current height. Nothing is done for no data.
pub fn update_vertex_data<T: Copy>(
    data: &mut Vec<T>,
    filler: T,
    texels_per_item: usize,
    texture_height: u32,
) -> (r: Option<VertexDataUpload>)
    requires
        1 <= texels_per_item <= 1024,
        old(data)@.len() <= 0x7FFF_0000,
    ensures
        ({
            let rows = rows_for(old(data)@.len() as int, texels_per_item as int);
            if old(data)@.len() == 0 {
                r is None && final(data)@ == old(data)@
            } else {
                &&& final(data)@ == old(data)@ + Seq::new(
                    (rows * items_per_row(texels_per_item as int) - old(data)@.len()) as nat,
                    |i: int| filler,
                )
                &&& r == Some(
                    VertexDataUpload {
                        new_height: if rows > texture_height {
                            Some(next_128(rows) as u32)
                        } else {
                            None
                        },
                        width: (1024 - 1024int % (texels_per_item as int)) as u32,
                        height: rows as u32,
                    },
                )
            }
        }),
{
    if data.len() == 0 {
        return None;
    }
    let ghost len = data@.len() as int;
    let ghost rows = rows_for(len, texels_per_item as int);
    let per_row: usize = MAX_VERTEX_TEXTURE_WIDTH / texels_per_item;
    proof {
        rows_hold_all_items(len, texels_per_item as int);
    }
    assert(1 <= per_row <= 1024) by (nonlinear_arith)
        requires
            1 <= texels_per_item <= 1024,
            per_row == 1024int / (texels_per_item as int),
    ;
    assert(1 <= rows && rows * per_row < len + per_row) by (nonlinear_arith)
        requires
            (rows - 1) * per_row < len,
            rows * per_row >= len,
            len > 0,
            per_row >= 1,
    ;
    assert(rows <= len) by (nonlinear_arith)
        requires
            (rows - 1) * per_row < len,
            per_row >= 1,
            rows >= 1,
    ;
    while data.len() % per_row != 0
        invariant
            1 <= per_row <= 1024,
            per_row == items_per_row(texels_per_item as int),
            len == old(data)@.len(),
            rows == rows_for(len, texels_per_item as int),
            len <= data@.len() <= rows * per_row,
            rows * per_row < len + per_row,
            len <= 0x7FFF_0000,
            data@ == old(data)@ + Seq::new((data@.len() - len) as nat, |i: int| filler),
        decreases rows * per_row - data@.len(),
    {
        assert((rows * per_row) % (per_row as int) == 0) by (nonlinear_arith)
            requires
                per_row >= 1,
        ;
        assert(data@.len() < rows * per_row);
        data.push(filler);
        assert(data@ =~= old(data)@ + Seq::new((data@.len() - len) as nat, |i: int| filler));
    }
    let height: u32 = (data.len() / per_row) as u32;
    assert(data@.len() == rows * per_row) by {
        let d = data@.len() as int;
        let p = per_row as int;
        assert(d % p == 0);
        assert(d == rows * p) by (nonlinear_arith)
            requires
                d % p == 0,
                (rows - 1) * p < d <= rows * p,
                p >= 1,
        ;
    }
    assert((rows * per_row) / (per_row as int) == rows) by (nonlinear_arith)
        requires
            per_row >= 1,
    ;
    let width: u32 = (MAX_VERTEX_TEXTURE_WIDTH - MAX_VERTEX_TEXTURE_WIDTH % texels_per_item) as u32;
    let new_height: Option<u32> = if height > texture_height {
        Some((height + 127) / 128 * 128)
    } else {
        None
    };
    Some(VertexDataUpload { new_height, width, height })
}

} // verus!
