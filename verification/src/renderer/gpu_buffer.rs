//! Typed GPU data, packed in rows of texels.
//!
//! A builder collects blocks of four channels each. A group of blocks that is
//! written together never crosses the end of a row, so that a shader can fetch it
//! with one address. Blocks that stand for a render task are patched with the
//! place of the task once that place is known.

use crate::float_bits::f32_bits;
use crate::internal_types::{FrameId, ImageFormat, RenderTaskId};
use crate::render_task_graph::{PlacedUv, TaskPlacements};
use crate::units::{DeviceIntPoint, DeviceIntRect, DeviceIntSize};
use vstd::prelude::*;

verus! {

/// The number of texels in a row of a vertex texture.
pub const MAX_VERTEX_TEXTURE_WIDTH: usize = 1024;

/// The leading eight bits of a handle hold the epoch of its frame.
pub const EPOCH_MASK: u32 = 0xFF00_0000;

/// The number of frames after which an epoch is used again.
pub const EPOCH_COUNT: u64 = 255;

/// The addresses below this fit into a handle beside the epoch.
pub const MAX_HANDLE_ADDRESS: usize = 0x0100_0000;

/// The bits of the invalid handle and of the invalid address.
pub const INVALID_BITS: u32 = 0xFFFF_FFFE;

/// One texel of an RGBAF32 texture: the bits of four single-precision numbers.
#[derive(Clone, Copy, Debug, PartialEq, Eq)]
pub struct GpuBufferBlockF {
    pub data: [u32; 4],
}

/// One texel of an RGBAI32 texture.
#[derive(Clone, Copy, Debug, PartialEq, Eq)]
pub struct GpuBufferBlockI {
    pub data: [i32; 4],
}

/// What a buffer can be made of.
pub trait Texel: Sized + Copy {
    /// The block that fills unused places.
    spec fn spec_empty() -> Self;

    spec fn spec_image_format() -> ImageFormat;

    /// The block that holds the corners of a rectangle.
    spec fn spec_from_rect(rect: DeviceIntRect) -> Self;

    fn empty() -> (r: Self)
        ensures
            r == Self::spec_empty(),
    ;

    fn image_format() -> (r: ImageFormat)
        ensures
            r == Self::spec_image_format(),
    ;

    fn from_rect(rect: DeviceIntRect) -> (r: Self)
        ensures
            r == Self::spec_from_rect(rect),
    ;
}

impl Texel for GpuBufferBlockF {
    open spec fn spec_empty() -> Self {
        GpuBufferBlockF { data: [0, 0, 0, 0] }
    }

    open spec fn spec_image_format() -> ImageFormat {
        ImageFormat::RGBAF32
    }

    open spec fn spec_from_rect(rect: DeviceIntRect) -> Self {
        GpuBufferBlockF {
            data: [
                crate::float_bits::spec_f32_bits(rect.min.x as int) as u32,
                crate::float_bits::spec_f32_bits(rect.min.y as int) as u32,
                crate::float_bits::spec_f32_bits(rect.max.x as int) as u32,
                crate::float_bits::spec_f32_bits(rect.max.y as int) as u32,
            ],
        }
    }

    fn empty() -> (r: Self) {
        GpuBufferBlockF { data: [0, 0, 0, 0] }
    }

    fn image_format() -> (r: ImageFormat) {
        ImageFormat::RGBAF32
    }

    fn from_rect(rect: DeviceIntRect) -> (r: Self) {
        GpuBufferBlockF {
            data: [
                f32_bits(rect.min.x),
                f32_bits(rect.min.y),
                f32_bits(rect.max.x),
                f32_bits(rect.max.y),
            ],
        }
    }
}

impl Texel for GpuBufferBlockI {
    open spec fn spec_empty() -> Self {
        GpuBufferBlockI { data: [0, 0, 0, 0] }
    }

    open spec fn spec_image_format() -> ImageFormat {
        ImageFormat::RGBAI32
    }

    open spec fn spec_from_rect(rect: DeviceIntRect) -> Self {
        GpuBufferBlockI { data: [rect.min.x, rect.min.y, rect.max.x, rect.max.y] }
    }

    fn empty() -> (r: Self) {
        GpuBufferBlockI { data: [0, 0, 0, 0] }
    }

    fn image_format() -> (r: ImageFormat) {
        ImageFormat::RGBAI32
    }

    fn from_rect(rect: DeviceIntRect) -> (r: Self) {
        GpuBufferBlockI { data: [rect.min.x, rect.min.y, rect.max.x, rect.max.y] }
    }
}

/// An address in a buffer together with the epoch of the frame that it belongs
/// to, so that a handle kept past its frame is noticed.
#[derive(Clone, Copy, Debug, PartialEq, Eq, Structural)]
pub struct GpuBufferHandle(pub u32);

impl GpuBufferHandle {
    /// The handle that stands for "nothing".
    pub open spec fn spec_invalid() -> Self {
        GpuBufferHandle(INVALID_BITS)
    }

    #[verifier::when_used_as_spec(spec_invalid)]
    pub fn invalid() -> (r: Self)
        ensures
            r == Self::spec_invalid(),
    {
        GpuBufferHandle(INVALID_BITS)
    }

    pub open spec fn spec_new(addr: u32, epoch: u32) -> Self {
        GpuBufferHandle(addr | epoch)
    }

    fn new(addr: u32, epoch: u32) -> (r: Self)
        ensures
            r == Self::spec_new(addr, epoch),
    {
        GpuBufferHandle(addr | epoch)
    }

    /// The address part of the handle.
    pub open spec fn address_bits(self) -> u32 {
        self.0 & !EPOCH_MASK
    }

    /// The epoch part of the handle.
    pub open spec fn epoch_bits(self) -> u32 {
        self.0 & EPOCH_MASK
    }

    pub fn address_unchecked(&self) -> (r: GpuBufferAddress)
        ensures
            r.0 == self.address_bits(),
    {
        GpuBufferAddress(self.0 & !EPOCH_MASK)
    }
}

/// The place of a block in a buffer, counted row by row.
#[derive(Clone, Copy, Debug, PartialEq, Eq, Structural)]
pub struct GpuBufferAddress(pub u32);

impl GpuBufferAddress {
    /// The address that stands for "nowhere".
    pub open spec fn spec_invalid() -> Self {
        GpuBufferAddress(INVALID_BITS)
    }

    #[verifier::when_used_as_spec(spec_invalid)]
    pub fn invalid() -> (r: Self)
        ensures
            r == Self::spec_invalid(),
    {
        GpuBufferAddress(INVALID_BITS)
    }

    /// The address of column `u` in row `v`.
    pub fn new(u: u16, v: u16) -> (r: Self)
        ensures
            r.0 == v * MAX_VERTEX_TEXTURE_WIDTH + u,
    {
        GpuBufferAddress(v as u32 * MAX_VERTEX_TEXTURE_WIDTH as u32 + u as u32)
    }

    pub fn is_valid(&self) -> (r: bool)
        ensures
            r == (*self != Self::spec_invalid()),
    {
        *self != Self::invalid()
    }

    pub fn as_u32(self) -> (r: u32)
        ensures
            r == self.0,
    {
        self.0
    }

    pub fn from_u32(val: u32) -> (r: Self)
        ensures
            r.0 == val,
    {
        GpuBufferAddress(val)
    }

    /// The address as a signed number of the same 32 bits.
    pub fn as_int(self) -> (r: i32)
        ensures
            r == (if self.0 < 0x8000_0000 { self.0 as int } else { self.0 - 0x1_0000_0000 }),
    {
        let bits: u32 = self.0;
        assert(bits < 0x8000_0000 ==> bits as i32 == bits) by (bit_vector);
        assert(bits >= 0x8000_0000 ==> bits as i32 == bits - 0x1_0000_0000) by (bit_vector);
        bits as i32
    }

    /// The column and the row of the address, each in its low 16 bits.
    pub open spec fn spec_uv(self) -> (int, int) {
        (
            (self.0 as int) % (MAX_VERTEX_TEXTURE_WIDTH as int),
            ((self.0 as int) / (MAX_VERTEX_TEXTURE_WIDTH as int)) % 0x1_0000,
        )
    }

    pub fn uv(self) -> (r: (u16, u16))
        ensures
            (r.0 as int, r.1 as int) == self.spec_uv(),
    {
        let row: usize = self.0 as usize / MAX_VERTEX_TEXTURE_WIDTH;
        let row32: u32 = row as u32;
        assert(row32 as u16 == row32 % 0x1_0000) by (bit_vector);
        ((self.0 as usize % MAX_VERTEX_TEXTURE_WIDTH) as u16, row32 as u16)
    }
}

/// A block to be patched with the place of a render task.
#[derive(Clone, Copy, Debug, PartialEq, Eq, Structural)]
pub struct DeferredBlock {
    pub task_id: RenderTaskId,
    pub index: usize,
}

/// The first length from `len` on at which a row is complete.
pub open spec fn row_end(len: int) -> int {
    ((len + MAX_VERTEX_TEXTURE_WIDTH - 1) / (MAX_VERTEX_TEXTURE_WIDTH as int))
        * MAX_VERTEX_TEXTURE_WIDTH
}

/// `data` with its last row filled up.
pub open spec fn with_row_finished<T: Texel>(data: Seq<T>) -> Seq<T> {
    data + Seq::new((row_end(data.len() as int) - data.len()) as nat, |i: int| T::spec_empty())
}

/// `data`, with its last row filled up where `cap` more blocks do not fit in it.
pub open spec fn with_row_capacity<T: Texel>(data: Seq<T>, cap: int) -> Seq<T> {
    if data.len() as int % MAX_VERTEX_TEXTURE_WIDTH as int + cap > MAX_VERTEX_TEXTURE_WIDTH {
        with_row_finished(data)
    } else {
        data
    }
}

/// The patches are in the order of their blocks and lie inside the data.
pub open spec fn patches_ok(len: int, deferred: Seq<DeferredBlock>) -> bool {
    &&& forall|i: int| 0 <= i < deferred.len() ==> (#[trigger] deferred[i]).index < len
    &&& forall|i: int, j: int|
        0 <= i < j < deferred.len() ==> (#[trigger] deferred[i]).index < (
        #[trigger] deferred[j]).index
}

/// Fills the last row up with empty blocks: to the least length of whole rows that holds all
/// blocks. Where the last row is full, nothing changes.
pub fn finish_row<T: Texel>(data: &mut Vec<T>)
    requires
        old(data)@.len() + MAX_VERTEX_TEXTURE_WIDTH - 1 <= usize::MAX,
    ensures
        final(data)@ == with_row_finished(old(data)@),
        whole_rows(final(data)@.len() as int),
        forall|len: int|
            old(data)@.len() <= len && #[trigger] whole_rows(len) ==> final(data)@.len() <= len,
        final(data)@.take(old(data)@.len() as int) == old(data)@,
        forall|i: int|
            old(data)@.len() <= i < final(data)@.len() ==> #[trigger] final(data)@[i]
                == T::spec_empty(),
        whole_rows(old(data)@.len() as int) ==> final(data)@ == old(data)@,
        with_row_finished(final(data)@) == final(data)@,
{
    let ghost before = data@;
    let required_len: usize = ((data.len() + (MAX_VERTEX_TEXTURE_WIDTH - 1))
        / MAX_VERTEX_TEXTURE_WIDTH) * MAX_VERTEX_TEXTURE_WIDTH;
    while data.len() < required_len
        invariant
            before.len() <= data@.len() <= required_len,
            required_len == row_end(before.len() as int),
            data@ == before + Seq::new(
                (data@.len() - before.len()) as nat,
                |i: int| T::spec_empty(),
            ),
        decreases required_len - data.len(),
    {
        data.push(T::empty());
    }
    proof {
        rows_are_finished_once(before);
        assert(data@.take(before.len() as int) =~= before);
    }
}

fn ensure_row_capacity<T: Texel>(data: &mut Vec<T>, cap: usize)
    requires
        old(data)@.len() + MAX_VERTEX_TEXTURE_WIDTH - 1 <= usize::MAX,
    ensures
        final(data)@ == with_row_capacity(old(data)@, cap as int),
{
    let used: usize = data.len() % MAX_VERTEX_TEXTURE_WIDTH;
    if cap > MAX_VERTEX_TEXTURE_WIDTH - used {
        finish_row(data);
    }
}

/// The epoch bits of a frame: one of 255 values, none of them that of the invalid handle.
pub open spec fn spec_epoch(frame_id: FrameId) -> u32 {
    ((frame_id.0 % EPOCH_COUNT) as u32) << 24u32
}

/// The bits are the epoch of some frame.
pub open spec fn is_epoch(bits: u32) -> bool {
    exists|frame_id: FrameId| bits == #[trigger] spec_epoch(frame_id)
}

/// A handle of this epoch, or the invalid handle.
pub open spec fn handle_usable(handle: GpuBufferHandle, epoch: u32) -> bool {
    handle == GpuBufferHandle::spec_invalid() || handle.epoch_bits() == epoch
}

/// The address that a usable handle stands for.
pub open spec fn spec_resolve(handle: GpuBufferHandle) -> GpuBufferAddress {
    if handle == GpuBufferHandle::spec_invalid() {
        GpuBufferAddress::spec_invalid()
    } else {
        GpuBufferAddress(handle.address_bits())
    }
}

/// The handle can be used in frames of the epoch, is not the invalid one, and stands for
/// the address.
pub open spec fn stands_for(handle: GpuBufferHandle, address: int, epoch: u32) -> bool {
    &&& handle != GpuBufferHandle::spec_invalid()
    &&& handle_usable(handle, epoch)
    &&& handle.address_bits() == address
    &&& spec_resolve(handle).0 == address
}

/// Writes one group of blocks into a builder.
pub struct GpuBufferWriter<'a, T> {
    pub buffer: &'a mut Vec<T>,
    pub deferred: &'a mut Vec<DeferredBlock>,
    pub index: usize,
    pub max_block_count: usize,
    pub epoch: u32,
}

impl<'a, T: Texel> GpuBufferWriter<'a, T> {
    /// The blocks of the whole buffer so far.
    pub open spec fn blocks(self) -> Seq<T> {
        (*self.buffer)@
    }

    /// The patches of the whole buffer so far.
    pub open spec fn patches(self) -> Seq<DeferredBlock> {
        (*self.deferred)@
    }

    /// The index of the group's first block.
    pub open spec fn start(self) -> usize {
        self.index
    }

    /// The greatest number of blocks in the group.
    pub open spec fn limit(self) -> usize {
        self.max_block_count
    }

    pub open spec fn epoch_bits(self) -> u32 {
        self.epoch
    }

    pub open spec fn wf(self) -> bool {
        &&& self.start() <= self.blocks().len() <= self.start() + self.limit()
        &&& self.start() + self.limit() <= usize::MAX
        &&& patches_ok(self.blocks().len() as int, self.patches())
        &&& is_epoch(self.epoch_bits())
    }

    /// What every operation of a writer leaves alone.
    pub open spec fn same_group(self, other: Self) -> bool {
        &&& self.start() == other.start()
        &&& self.limit() == other.limit()
        &&& self.epoch_bits() == other.epoch_bits()
    }

    fn new(
        buffer: &'a mut Vec<T>,
        deferred: &'a mut Vec<DeferredBlock>,
        index: usize,
        max_block_count: usize,
        epoch: u32,
    ) -> (r: Self)
        ensures
            r.blocks() == old(buffer)@,
            r.patches() == old(deferred)@,
            *final(r.buffer) == *final(buffer),
            *final(r.deferred) == *final(deferred),
            r.start() == index,
            r.limit() == max_block_count,
            r.epoch_bits() == epoch,
    {
        GpuBufferWriter { buffer, deferred, index, max_block_count, epoch }
    }

    /// Adds one block to the group.
    pub fn push_one(&mut self, block: T)
        requires
            old(self).wf(),
            old(self).blocks().len() < old(self).start() + old(self).limit(),
        ensures
            final(self).wf(),
            final(self).same_group(*old(self)),
            *final(final(self).buffer) == *final(old(self).buffer),
            *final(final(self).deferred) == *final(old(self).deferred),
            final(self).blocks() == old(self).blocks().push(block),
            final(self).patches() == old(self).patches(),
    {
        self.buffer.push(block);
    }

    /// Adds a block that stands for a render task. Once the place of the task is
    /// known the block is patched with it; a block for no task stays empty.
    pub fn push_render_task(&mut self, task_id: RenderTaskId)
        requires
            old(self).wf(),
            old(self).blocks().len() < old(self).start() + old(self).limit(),
        ensures
            final(self).wf(),
            final(self).same_group(*old(self)),
            *final(final(self).buffer) == *final(old(self).buffer),
            *final(final(self).deferred) == *final(old(self).deferred),
            final(self).blocks() == old(self).blocks().push(T::spec_empty()),
            final(self).patches() == if task_id == RenderTaskId::spec_invalid() {
                old(self).patches()
            } else {
                old(self).patches().push(
                    DeferredBlock { task_id, index: old(self).blocks().len() as usize },
                )
            },
    {
        if task_id != RenderTaskId::invalid() {
            let index: usize = self.buffer.len();
            self.deferred.push(DeferredBlock { task_id, index });
        }
        self.buffer.push(T::empty());
    }

    /// Closes the writer and gives the address of its group.
    pub fn finish(self) -> (r: GpuBufferAddress)
        requires
            self.wf(),
        ensures
            r.0 == self.start() as u32,
            final(self.buffer)@ == self.blocks(),
            final(self.deferred)@ == self.patches(),
    {
        GpuBufferAddress(self.index as u32)
    }

    /// Closes the writer and gives a handle to its group.
    pub fn finish_with_handle(self) -> (r: GpuBufferHandle)
        requires
            self.wf(),
            self.start() & (EPOCH_MASK as usize) == 0,
        ensures
            r == GpuBufferHandle::spec_new(self.start() as u32, self.epoch_bits()),
            self.start() < MAX_HANDLE_ADDRESS ==> stands_for(
                r,
                self.start() as int,
                self.epoch_bits(),
            ),
            final(self.buffer)@ == self.blocks(),
            final(self.deferred)@ == self.patches(),
    {
        proof {
            if self.start() < MAX_HANDLE_ADDRESS {
                lemma_stands_for(self.start() as u32, self.epoch_bits());
            }
        }
        GpuBufferHandle::new(self.index as u32, self.epoch)
    }
}

pub type GpuBufferWriterF<'l> = GpuBufferWriter<'l, GpuBufferBlockF>;

pub type GpuBufferWriterI<'l> = GpuBufferWriter<'l, GpuBufferBlockI>;

/// The patches of blocks that stand for tasks, for data that starts at `base`.
pub open spec fn placed_tasks(tasks: Seq<(int, RenderTaskId)>, base: int) -> Seq<DeferredBlock> {
    Seq::new(
        tasks.len(),
        |i: int| DeferredBlock { task_id: tasks[i].1, index: (base + tasks[i].0) as usize },
    )
}

/// Data that is written as a fixed number of floating-point blocks.
pub trait GpuBufferDataF: Sized {
    /// The blocks, in the order in which they are written.
    spec fn spec_blocks(&self) -> Seq<GpuBufferBlockF>;

    /// The render tasks that some of the blocks stand for, by the place of the block.
    spec fn spec_tasks(&self) -> Seq<(int, RenderTaskId)>;

    spec fn spec_num_blocks() -> usize;

    fn num_blocks() -> (r: usize)
        ensures
            r == Self::spec_num_blocks(),
    ;

    fn write<'l>(&self, writer: &mut GpuBufferWriter<'l, GpuBufferBlockF>)
        requires
            old(writer).wf(),
            old(writer).blocks().len() + Self::spec_num_blocks() <= old(writer).start() + old(
                writer,
            ).limit(),
        ensures
            final(writer).wf(),
            final(writer).same_group(*old(writer)),
            *final(final(writer).buffer) == *final(old(writer).buffer),
            *final(final(writer).deferred) == *final(old(writer).deferred),
            self.spec_blocks().len() == Self::spec_num_blocks(),
            final(writer).blocks() == old(writer).blocks() + self.spec_blocks(),
            final(writer).patches() == old(writer).patches() + placed_tasks(
                self.spec_tasks(),
                old(writer).blocks().len() as int,
            ),
    ;
}

/// Data that is written as a fixed number of integer blocks.
pub trait GpuBufferDataI: Sized {
    /// The blocks, in the order in which they are written.
    spec fn spec_blocks(&self) -> Seq<GpuBufferBlockI>;

    /// The render tasks that some of the blocks stand for, by the place of the block.
    spec fn spec_tasks(&self) -> Seq<(int, RenderTaskId)>;

    spec fn spec_num_blocks() -> usize;

    fn num_blocks() -> (r: usize)
        ensures
            r == Self::spec_num_blocks(),
    ;

    fn write<'l>(&self, writer: &mut GpuBufferWriter<'l, GpuBufferBlockI>)
        requires
            old(writer).wf(),
            old(writer).blocks().len() + Self::spec_num_blocks() <= old(writer).start() + old(
                writer,
            ).limit(),
        ensures
            final(writer).wf(),
            final(writer).same_group(*old(writer)),
            *final(final(writer).buffer) == *final(old(writer).buffer),
            *final(final(writer).deferred) == *final(old(writer).deferred),
            self.spec_blocks().len() == Self::spec_num_blocks(),
            final(writer).blocks() == old(writer).blocks() + self.spec_blocks(),
            final(writer).patches() == old(writer).patches() + placed_tasks(
                self.spec_tasks(),
                old(writer).blocks().len() as int,
            ),
    ;
}

impl GpuBufferDataF for [u32; 4] {
    open spec fn spec_blocks(&self) -> Seq<GpuBufferBlockF> {
        seq![GpuBufferBlockF { data: *self }]
    }

    open spec fn spec_tasks(&self) -> Seq<(int, RenderTaskId)> {
        Seq::empty()
    }

    open spec fn spec_num_blocks() -> usize {
        1
    }

    fn num_blocks() -> (r: usize) {
        1
    }

    fn write<'l>(&self, writer: &mut GpuBufferWriter<'l, GpuBufferBlockF>) {
        writer.push_one(GpuBufferBlockF { data: *self });
        assert(placed_tasks(self.spec_tasks(), 0) =~= Seq::<DeferredBlock>::empty());
    }
}

impl GpuBufferDataI for [i32; 4] {
    open spec fn spec_blocks(&self) -> Seq<GpuBufferBlockI> {
        seq![GpuBufferBlockI { data: *self }]
    }

    open spec fn spec_tasks(&self) -> Seq<(int, RenderTaskId)> {
        Seq::empty()
    }

    open spec fn spec_num_blocks() -> usize {
        1
    }

    fn num_blocks() -> (r: usize) {
        1
    }

    fn write<'l>(&self, writer: &mut GpuBufferWriter<'l, GpuBufferBlockI>) {
        writer.push_one(GpuBufferBlockI { data: *self });
    }
}

impl<'a> GpuBufferWriter<'a, GpuBufferBlockF> {
    /// Adds the blocks of `data` to the group.
    pub fn push<D: GpuBufferDataF>(&mut self, data: &D)
        requires
            old(self).wf(),
            old(self).blocks().len() + D::spec_num_blocks() <= old(self).start() + old(
                self,
            ).limit(),
        ensures
            final(self).wf(),
            final(self).same_group(*old(self)),
            *final(final(self).buffer) == *final(old(self).buffer),
            *final(final(self).deferred) == *final(old(self).deferred),
            data.spec_blocks().len() == D::spec_num_blocks(),
            final(self).blocks() == old(self).blocks() + data.spec_blocks(),
            final(self).patches() == old(self).patches() + placed_tasks(
                data.spec_tasks(),
                old(self).blocks().len() as int,
            ),
    {
        data.write(self);
    }
}

impl<'a> GpuBufferWriter<'a, GpuBufferBlockI> {
    /// Adds the blocks of `data` to the group.
    pub fn push<D: GpuBufferDataI>(&mut self, data: &D)
        requires
            old(self).wf(),
            old(self).blocks().len() + D::spec_num_blocks() <= old(self).start() + old(
                self,
            ).limit(),
        ensures
            final(self).wf(),
            final(self).same_group(*old(self)),
            *final(final(self).buffer) == *final(old(self).buffer),
            *final(final(self).deferred) == *final(old(self).deferred),
            data.spec_blocks().len() == D::spec_num_blocks(),
            final(self).blocks() == old(self).blocks() + data.spec_blocks(),
            final(self).patches() == old(self).patches() + placed_tasks(
                data.spec_tasks(),
                old(self).blocks().len() as int,
            ),
    {
        data.write(self);
    }
}

/// Collects the blocks of a frame.
pub struct GpuBufferBuilderImpl<T> {
    data: Vec<T>,
    deferred: Vec<DeferredBlock>,
    epoch: u32,
}

pub type GpuBufferBuilderF = GpuBufferBuilderImpl<GpuBufferBlockF>;

pub type GpuBufferBuilderI = GpuBufferBuilderImpl<GpuBufferBlockI>;

/// The two builders of a frame.
pub struct GpuBufferBuilder {
    pub integers: GpuBufferBuilderI,
    pub floats: GpuBufferBuilderF,
}

/// The blocks of a frame, complete and ready for upload.
pub struct GpuBuffer<T> {
    pub data: Vec<T>,
    pub size: DeviceIntSize,
    pub format: ImageFormat,
    pub epoch: u32,
}

pub type GpuBufferF = GpuBuffer<GpuBufferBlockF>;

pub type GpuBufferI = GpuBuffer<GpuBufferBlockI>;

/// The part of a texture that belongs to a placed task.
pub open spec fn uv_rect_of(target: DeviceIntRect, kind: PlacedUv) -> DeviceIntRect {
    match kind {
        PlacedUv::Rect => target,
        PlacedUv::Quad { top_left, bottom_right } => DeviceIntRect {
            min: DeviceIntPoint {
                x: (target.min.x + top_left.x) as i32,
                y: (target.min.y + top_left.y) as i32,
            },
            max: DeviceIntPoint {
                x: (target.min.x + bottom_right.x) as i32,
                y: (target.min.y + bottom_right.y) as i32,
            },
        },
    }
}

/// The corners of the part lie in the range of coordinates.
pub open spec fn uv_rect_fits(target: DeviceIntRect, kind: PlacedUv) -> bool {
    kind matches PlacedUv::Quad { top_left, bottom_right } ==> {
        &&& i32::MIN <= target.min.x + top_left.x <= i32::MAX
        &&& i32::MIN <= target.min.y + top_left.y <= i32::MAX
        &&& i32::MIN <= target.min.x + bottom_right.x <= i32::MAX
        &&& i32::MIN <= target.min.y + bottom_right.y <= i32::MAX
    }
}

fn uv_rect(target: DeviceIntRect, kind: PlacedUv) -> (r: DeviceIntRect)
    requires
        uv_rect_fits(target, kind),
    ensures
        r == uv_rect_of(target, kind),
{
    match kind {
        PlacedUv::Rect => target,
        PlacedUv::Quad { top_left, bottom_right } => DeviceIntRect::new(
            DeviceIntPoint::new(target.min.x + top_left.x, target.min.y + top_left.y),
            DeviceIntPoint::new(target.min.x + bottom_right.x, target.min.y + bottom_right.y),
        ),
    }
}

impl<T: Texel> GpuBufferBuilderImpl<T> {
    /// The blocks written so far, the padding between rows included.
    pub closed spec fn blocks(self) -> Seq<T> {
        self.data@
    }

    /// The blocks to be patched.
    pub closed spec fn patches(self) -> Seq<DeferredBlock> {
        self.deferred@
    }

    pub closed spec fn epoch_bits(self) -> u32 {
        self.epoch
    }

    /// The patches lie inside the data, and the epoch is that of a frame.
    pub open spec fn wf(self) -> bool {
        &&& patches_ok(self.blocks().len() as int, self.patches())
        &&& is_epoch(self.epoch_bits())
    }

    /// A builder for a frame, with room for `capacity` blocks to begin with.
    pub fn new(capacity: usize, frame_id: FrameId) -> (r: Self)
        ensures
            r.wf(),
            r.blocks() == Seq::<T>::empty(),
            r.patches() == Seq::<DeferredBlock>::empty(),
            r.epoch_bits() == spec_epoch(frame_id),
    {
        let epoch: u32 = ((frame_id.as_u64() % EPOCH_COUNT) as u32) << 24u32;
        assert(epoch == spec_epoch(frame_id));
        GpuBufferBuilderImpl { data: Vec::with_capacity(capacity), deferred: Vec::new(), epoch }
    }

    /// Adds a group of blocks, which starts a new row where it does not fit in the
    /// current one, and gives its index combined with the epoch.
    pub fn push_blocks(&mut self, blocks: &[T]) -> (r: GpuBufferAddress)
        requires
            old(self).wf(),
            blocks@.len() <= MAX_VERTEX_TEXTURE_WIDTH,
            old(self).blocks().len() + 2 * MAX_VERTEX_TEXTURE_WIDTH <= usize::MAX,
        ensures
            final(self).wf(),
            ({
                let start = with_row_capacity(old(self).blocks(), blocks@.len() as int);
                &&& final(self).blocks() == start + blocks@
                &&& r.0 == (start.len() as usize as u32) | old(self).epoch_bits()
            }),
            final(self).patches() == old(self).patches(),
            final(self).epoch_bits() == old(self).epoch_bits(),
    {
        ensure_row_capacity(&mut self.data, blocks.len());
        let index: usize = self.data.len();
        let ghost start = self.data@;
        let mut i: usize = 0;
        while i < blocks.len()
            invariant
                i <= blocks@.len(),
                self.data@ == start + blocks@.subrange(0, i as int),
                self.deferred == old(self).deferred,
                self.epoch == old(self).epoch,
            decreases blocks@.len() - i,
        {
            self.data.push(blocks[i]);
            i = i + 1;
        }
        assert(blocks@.subrange(0, i as int) == blocks@);
        GpuBufferAddress(index as u32 | self.epoch)
    }

    /// Starts a group of at most `max_block_count` blocks.
    pub fn write_blocks(&mut self, max_block_count: usize) -> (r: GpuBufferWriter<'_, T>)
        requires
            old(self).wf(),
            max_block_count <= MAX_VERTEX_TEXTURE_WIDTH,
            old(self).blocks().len() + 2 * MAX_VERTEX_TEXTURE_WIDTH <= usize::MAX,
        ensures
            r.wf(),
            r.blocks() == with_row_capacity(old(self).blocks(), max_block_count as int),
            r.patches() == old(self).patches(),
            r.start() == r.blocks().len(),
            r.limit() == max_block_count,
            r.epoch_bits() == old(self).epoch_bits(),
            final(self).blocks() == final(r.buffer)@,
            final(self).patches() == final(r.deferred)@,
            final(self).epoch_bits() == old(self).epoch_bits(),
    {
        ensure_row_capacity(&mut self.data, max_block_count);
        let index: usize = self.data.len();
        GpuBufferWriter::new(
            &mut self.data,
            &mut self.deferred,
            index,
            max_block_count,
            self.epoch,
        )
    }

    /// Leaves room for blocks that are filled in at drawing time.
    pub fn reserve_renderer_deferred_blocks(&mut self, block_count: usize) -> (r: GpuBufferHandle)
        requires
            old(self).wf(),
            old(self).blocks().len() + MAX_VERTEX_TEXTURE_WIDTH + block_count <= usize::MAX,
        ensures
            final(self).wf(),
            ({
                let start = with_row_capacity(old(self).blocks(), block_count as int);
                &&& final(self).blocks() == start + Seq::new(
                    block_count as nat,
                    |i: int| T::spec_empty(),
                )
                &&& r == GpuBufferHandle::spec_new(
                    start.len() as usize as u32,
                    old(self).epoch_bits(),
                )
                &&& start.len() < MAX_HANDLE_ADDRESS ==> stands_for(
                    r,
                    start.len() as int,
                    final(self).epoch_bits(),
                )
            }),
            final(self).patches() == old(self).patches(),
            final(self).epoch_bits() == old(self).epoch_bits(),
    {
        ensure_row_capacity(&mut self.data, block_count);
        let index: usize = self.data.len();
        let ghost start = self.data@;
        let mut i: usize = 0;
        while i < block_count
            invariant
                i <= block_count,
                self.data@ == start + Seq::new(i as nat, |k: int| T::spec_empty()),
                self.deferred == old(self).deferred,
                self.epoch == old(self).epoch,
            decreases block_count - i,
        {
            self.data.push(T::empty());
            i = i + 1;
        }
        proof {
            if start.len() < MAX_HANDLE_ADDRESS {
                lemma_stands_for(index as u32, self.epoch);
            }
        }
        GpuBufferHandle::new(index as u32, self.epoch)
    }

    /// Completes the last row and patches the blocks that stand for render tasks
    /// with the places of those tasks.
    pub fn finalize(self, render_tasks: &TaskPlacements) -> (r: GpuBuffer<T>)
        requires
            self.wf(),
            self.blocks().len() + MAX_VERTEX_TEXTURE_WIDTH - 1 <= usize::MAX,
            row_end(self.blocks().len() as int) / (MAX_VERTEX_TEXTURE_WIDTH as int) <= i32::MAX,
            forall|k: int|
                0 <= k < self.patches().len() ==> {
                    let id = (#[trigger] self.patches()[k]).task_id;
                    &&& id.index < render_tasks.placements@.len()
                    &&& uv_rect_fits(
                        render_tasks.placements@[id.index as int].target_rect,
                        render_tasks.placements@[id.index as int].uv,
                    )
                },
        ensures
            r.data@.len() == row_end(self.blocks().len() as int),
            forall|k: int|
                0 <= k < self.patches().len() ==> {
                    let patch = #[trigger] self.patches()[k];
                    let place = render_tasks.placements@[patch.task_id.index as int];
                    r.data@[patch.index as int] == T::spec_from_rect(
                        uv_rect_of(place.target_rect, place.uv),
                    )
                },
            forall|i: int|
                0 <= i < r.data@.len() && (forall|k: int|
                    0 <= k < self.patches().len() ==> (#[trigger] self.patches()[k]).index != i)
                    ==> (#[trigger] r.data@[i]) == with_row_finished(self.blocks())[i],
            r.size.width == MAX_VERTEX_TEXTURE_WIDTH,
            r.size.height * MAX_VERTEX_TEXTURE_WIDTH == r.data@.len(),
            r.format == T::spec_image_format(),
            r.epoch == self.epoch_bits(),
    {
        let mut data: Vec<T> = self.data;
        let deferred: Vec<DeferredBlock> = self.deferred;
        finish_row(&mut data);
        let len: usize = data.len();
        let ghost filled = data@;
        let mut n: usize = 0;
        while n < deferred.len()
            invariant
                n <= deferred@.len(),
                deferred@ == self.patches(),
                patches_ok(self.blocks().len() as int, deferred@),
                self.blocks().len() <= len,
                data@.len() == len,
                filled.len() == len,
                forall|k: int|
                    0 <= k < deferred@.len() ==> {
                        let id = (#[trigger] deferred@[k]).task_id;
                        &&& id.index < render_tasks.placements@.len()
                        &&& uv_rect_fits(
                            render_tasks.placements@[id.index as int].target_rect,
                            render_tasks.placements@[id.index as int].uv,
                        )
                    },
                forall|k: int|
                    0 <= k < n ==> {
                        let patch = #[trigger] deferred@[k];
                        let place = render_tasks.placements@[patch.task_id.index as int];
                        data@[patch.index as int] == T::spec_from_rect(
                            uv_rect_of(place.target_rect, place.uv),
                        )
                    },
                forall|i: int|
                    0 <= i < len && (forall|k: int|
                        0 <= k < n ==> (#[trigger] deferred@[k]).index != i)
                        ==> (#[trigger] data@[i]) == filled[i],
            decreases deferred@.len() - n,
        {
            let ghost before = data@;
            let block: DeferredBlock = deferred[n];
            let place = render_tasks.placements[block.task_id.index as usize];
            data.set(block.index, T::from_rect(uv_rect(place.target_rect, place.uv)));
            n = n + 1;
            assert forall|i: int|
                0 <= i < len && (forall|k: int|
                    0 <= k < n ==> (#[trigger] deferred@[k]).index != i) implies (
            #[trigger] data@[i]) == filled[i] by {
                assert(deferred@[n - 1].index != i);
                assert(data@[i] == before[i]);
            }
        }
        GpuBuffer {
            data,
            size: DeviceIntSize::new(
                MAX_VERTEX_TEXTURE_WIDTH as i32,
                (len / MAX_VERTEX_TEXTURE_WIDTH) as i32,
            ),
            format: T::image_format(),
            epoch: self.epoch,
        }
    }

    /// The address that a handle of this frame stands for.
    pub fn resolve_handle(&self, handle: GpuBufferHandle) -> (r: GpuBufferAddress)
        requires
            handle_usable(handle, self.epoch_bits()),
        ensures
            r == spec_resolve(handle),
    {
        if handle == GpuBufferHandle::invalid() {
            return GpuBufferAddress::invalid();
        }
        GpuBufferAddress(handle.0 & !EPOCH_MASK)
    }

    /// Whether the handle can be used in this frame.
    pub fn is_usable(&self, handle: GpuBufferHandle) -> (r: bool)
        ensures
            r == handle_usable(handle, self.epoch_bits()),
    {
        handle == GpuBufferHandle::invalid() || self.epoch == handle.0 & EPOCH_MASK
    }

    /// Confirms that the handle can be used in this frame, as it must be.
    pub fn check_handle(&self, handle: GpuBufferHandle) -> (r: bool)
        requires
            handle_usable(handle, self.epoch_bits()),
        ensures
            r == handle_usable(handle, self.epoch_bits()),
    {
        self.is_usable(handle)
    }
}

impl GpuBufferBuilderImpl<GpuBufferBlockF> {
    /// Writes `data` as a group of its own.
    pub fn push<D: GpuBufferDataF>(&mut self, data: &D) -> (r: GpuBufferAddress)
        requires
            old(self).wf(),
            D::spec_num_blocks() <= MAX_VERTEX_TEXTURE_WIDTH,
            old(self).blocks().len() + 2 * MAX_VERTEX_TEXTURE_WIDTH <= usize::MAX,
        ensures
            final(self).wf(),
            ({
                let start = with_row_capacity(old(self).blocks(), D::spec_num_blocks() as int);
                &&& final(self).blocks() == start + data.spec_blocks()
                &&& final(self).patches() == old(self).patches() + placed_tasks(
                    data.spec_tasks(),
                    start.len() as int,
                )
                &&& r.0 == start.len() as usize as u32
            }),
            final(self).epoch_bits() == old(self).epoch_bits(),
    {
        let mut writer = self.write_blocks(D::num_blocks());
        data.write(&mut writer);
        writer.finish()
    }
}

impl GpuBufferBuilderImpl<GpuBufferBlockI> {
    /// Writes `data` as a group of its own.
    pub fn push<D: GpuBufferDataI>(&mut self, data: &D) -> (r: GpuBufferAddress)
        requires
            old(self).wf(),
            D::spec_num_blocks() <= MAX_VERTEX_TEXTURE_WIDTH,
            old(self).blocks().len() + 2 * MAX_VERTEX_TEXTURE_WIDTH <= usize::MAX,
        ensures
            final(self).wf(),
            ({
                let start = with_row_capacity(old(self).blocks(), D::spec_num_blocks() as int);
                &&& final(self).blocks() == start + data.spec_blocks()
                &&& final(self).patches() == old(self).patches() + placed_tasks(
                    data.spec_tasks(),
                    start.len() as int,
                )
                &&& r.0 == start.len() as usize as u32
            }),
            final(self).epoch_bits() == old(self).epoch_bits(),
    {
        let mut writer = self.write_blocks(D::num_blocks());
        data.write(&mut writer);
        writer.finish()
    }
}

impl<T> GpuBuffer<T> {
    pub fn is_empty(&self) -> (r: bool)
        ensures
            r == (self.data@.len() == 0),
    {
        self.data.is_empty()
    }

    /// The address that a handle of this frame stands for.
    pub fn resolve_handle(&self, handle: GpuBufferHandle) -> (r: GpuBufferAddress)
        requires
            handle_usable(handle, self.epoch),
        ensures
            r == spec_resolve(handle),
    {
        if handle == GpuBufferHandle::invalid() {
            return GpuBufferAddress::invalid();
        }
        GpuBufferAddress(handle.0 & !EPOCH_MASK)
    }
}

/// The column and row that an address was made of can be read back from it, for
/// every column of a row.
pub proof fn address_keeps_column_and_row(u: u16, v: u16, addr: GpuBufferAddress)
    requires
        u < MAX_VERTEX_TEXTURE_WIDTH,
        addr.0 == v * MAX_VERTEX_TEXTURE_WIDTH + u,
    ensures
        addr.spec_uv() == (u as int, v as int),
{
}

/// A group of at most a row of blocks lies in a single row.
pub proof fn group_stays_in_one_row<T: Texel>(data: Seq<T>, count: int)
    requires
        0 < count <= MAX_VERTEX_TEXTURE_WIDTH,
    ensures
        ({
            let width = MAX_VERTEX_TEXTURE_WIDTH as int;
            let start = with_row_capacity(data, count).len() as int;
            start / width == (start + count - 1) / width
        }),
        with_row_capacity(data, count).subrange(0, data.len() as int) == data,
{
}

/// So many blocks fill their rows.
pub open spec fn whole_rows(len: int) -> bool {
    len % (MAX_VERTEX_TEXTURE_WIDTH as int) == 0
}

/// A row is filled up to the least multiple of its width with empty blocks, behind all
/// blocks that are there. A full row is left alone, so that this is done at most once.
pub proof fn rows_are_finished_once<T: Texel>(data: Seq<T>)
    ensures
        ({
            let width = MAX_VERTEX_TEXTURE_WIDTH as int;
            let finished = with_row_finished(data);
            &&& whole_rows(finished.len() as int)
            &&& data.len() <= finished.len() < data.len() + width
            &&& forall|len: int|
                data.len() <= len && #[trigger] whole_rows(len) ==> finished.len() <= len
            &&& finished.subrange(0, data.len() as int) == data
            &&& forall|i: int|
                data.len() <= i < finished.len() ==> #[trigger] finished[i] == T::spec_empty()
            &&& with_row_finished(finished) == finished
            &&& whole_rows(data.len() as int) ==> finished == data
        }),
{
    let n = data.len() as int;
    let finished = with_row_finished(data);
    lemma_row_end(n);
    assert(finished.len() == row_end(n));
    assert(finished.subrange(0, n) =~= data);
    assert(with_row_finished(finished) =~= finished);
    assert(whole_rows(n) ==> finished =~= data);
    assert forall|len: int| data.len() <= len && #[trigger] whole_rows(len) implies finished.len()
        <= len by {
        lemma_row_end_is_least(n, len);
    }
}

/// The end of a row is a number of whole rows, and none of them is left empty.
proof fn lemma_row_end(n: int)
    requires
        0 <= n,
    ensures
        whole_rows(row_end(n)),
        n <= row_end(n) < n + MAX_VERTEX_TEXTURE_WIDTH,
        row_end(row_end(n)) == row_end(n),
        whole_rows(n) ==> row_end(n) == n,
{
}

proof fn lemma_row_end_is_least(n: int, len: int)
    requires
        0 <= n <= len,
        whole_rows(len),
    ensures
        row_end(n) <= len,
{
}

/// What the bits of an address and of an epoch keep of each other.
proof fn lemma_handle_bits(address: u32, frame_id: FrameId)
    requires
        address < MAX_HANDLE_ADDRESS,
    ensures
        GpuBufferHandle::spec_new(address, spec_epoch(frame_id)).epoch_bits() == spec_epoch(
            frame_id,
        ),
        GpuBufferHandle::spec_new(address, spec_epoch(frame_id)).address_bits() == address,
        GpuBufferHandle::spec_new(address, spec_epoch(frame_id)) != GpuBufferHandle::spec_invalid(),
{
    let e: u32 = (frame_id.0 % EPOCH_COUNT) as u32;
    assert(((address | (e << 24u32)) & 0xFF00_0000 == e << 24u32) && ((address | (e << 24u32))
        & !0xFF00_0000u32 == address) && (address | (e << 24u32)) != 0xFFFF_FFFE) by (bit_vector)
        requires
            address < 0x0100_0000,
            e <= 254,
    ;
}

proof fn lemma_stands_for(address: u32, epoch: u32)
    requires
        address < MAX_HANDLE_ADDRESS,
        is_epoch(epoch),
    ensures
        stands_for(GpuBufferHandle::spec_new(address, epoch), address as int, epoch),
{
    let frame_id = choose|frame_id: FrameId| epoch == #[trigger] spec_epoch(frame_id);
    lemma_handle_bits(address, frame_id);
}

/// A handle resolves, in a frame of its own epoch, to the address that it was
/// made from; it is never the invalid handle.
pub proof fn handle_resolves_to_its_address(addr: u32, frame_id: FrameId)
    requires
        addr < MAX_HANDLE_ADDRESS,
    ensures
        handle_usable(GpuBufferHandle::spec_new(addr, spec_epoch(frame_id)), spec_epoch(frame_id)),
        GpuBufferHandle::spec_new(addr, spec_epoch(frame_id)) != GpuBufferHandle::spec_invalid(),
        spec_resolve(GpuBufferHandle::spec_new(addr, spec_epoch(frame_id)))
            == GpuBufferAddress(addr),
{
    lemma_handle_bits(addr, frame_id);
}

/// A handle is refused in each of the 254 frames after its own.
pub proof fn handle_is_refused_in_later_frames(addr: u32, made: FrameId, used: FrameId)
    requires
        addr < MAX_HANDLE_ADDRESS,
        0 < used.0 - made.0 < EPOCH_COUNT,
    ensures
        !handle_usable(GpuBufferHandle::spec_new(addr, spec_epoch(made)), spec_epoch(used)),
{
    lemma_handle_bits(addr, made);
    let e: u32 = (made.0 % EPOCH_COUNT) as u32;
    let f: u32 = (used.0 % EPOCH_COUNT) as u32;
    assert(e != f);
    assert(e << 24u32 != f << 24u32) by (bit_vector)
        requires
            e <= 254,
            f <= 254,
            e != f,
    ;
}

/// Blocks that are reserved in a builder get a handle that the builder resolves to the
/// first of them. They lie in one row, behind all blocks that were there.
pub proof fn reserved_blocks_are_found<T: Texel>(
    builder: GpuBufferBuilderImpl<T>,
    block_count: int,
)
    requires
        builder.wf(),
        0 <= block_count <= MAX_VERTEX_TEXTURE_WIDTH,
        builder.blocks().len() + 2 * MAX_VERTEX_TEXTURE_WIDTH < MAX_HANDLE_ADDRESS,
    ensures
        ({
            let n = builder.blocks().len() as int;
            let start = with_row_capacity(builder.blocks(), block_count);
            let s = start.len() as int;
            let after = start + Seq::new(block_count as nat, |i: int| T::spec_empty());
            let handle = GpuBufferHandle::spec_new(
                start.len() as usize as u32,
                builder.epoch_bits(),
            );
            &&& stands_for(handle, s, builder.epoch_bits())
            &&& n <= s
            &&& s % (MAX_VERTEX_TEXTURE_WIDTH as int) + block_count <= MAX_VERTEX_TEXTURE_WIDTH
            &&& after.len() == s + block_count
            &&& after.subrange(0, n) == builder.blocks()
            &&& forall|i: int| n <= i < after.len() ==> #[trigger] after[i] == T::spec_empty()
        }),
{
    let start = with_row_capacity(builder.blocks(), block_count);
    let n = builder.blocks().len() as int;
    rows_are_finished_once(builder.blocks());
    let after = start + Seq::new(block_count as nat, |i: int| T::spec_empty());
    assert(after.subrange(0, n) =~= builder.blocks());
    lemma_stands_for(start.len() as u32, builder.epoch_bits());
}

/// Where as many blocks are reserved behind as many others, the address in the handle is the
/// same, whatever the frames of the two builders are.
pub proof fn handle_addresses_ignore_the_frame<T: Texel>(
    one: GpuBufferBuilderImpl<T>,
    other: GpuBufferBuilderImpl<T>,
    block_count: int,
)
    requires
        one.wf(),
        other.wf(),
        one.blocks().len() == other.blocks().len(),
        0 <= block_count <= MAX_VERTEX_TEXTURE_WIDTH,
        one.blocks().len() + 2 * MAX_VERTEX_TEXTURE_WIDTH < MAX_HANDLE_ADDRESS,
    ensures
        ({
            let s = with_row_capacity(one.blocks(), block_count).len();
            let t = with_row_capacity(other.blocks(), block_count).len();
            let a = GpuBufferHandle::spec_new(s as usize as u32, one.epoch_bits());
            let b = GpuBufferHandle::spec_new(t as usize as u32, other.epoch_bits());
            &&& a.address_bits() == s
            &&& a.address_bits() == b.address_bits()
        }),
{
    reserved_blocks_are_found(one, block_count);
    reserved_blocks_are_found(other, block_count);
}

} // verus!
