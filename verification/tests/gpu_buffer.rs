use webrender::internal_types::FrameId;
use webrender::render_task_graph::TaskPlacements;
use webrender::renderer::gpu_buffer::{
    finish_row, GpuBufferAddress, GpuBufferBlockF, GpuBufferBuilderImpl, GpuBufferHandle, Texel,
    MAX_VERTEX_TEXTURE_WIDTH,
};

type BuilderF = GpuBufferBuilderImpl<GpuBufferBlockF>;

fn no_tasks() -> TaskPlacements {
    TaskPlacements { placements: Vec::new() }
}

#[test]
fn test_gpu_buffer_sizing_push() {
    let mut builder = BuilderF::new(0, FrameId::first());

    let row = vec![GpuBufferBlockF::empty(); MAX_VERTEX_TEXTURE_WIDTH];
    builder.push_blocks(&row);

    builder.push_blocks(&[GpuBufferBlockF::empty()]);
    builder.push_blocks(&[GpuBufferBlockF::empty()]);

    let buffer = builder.finalize(&no_tasks());
    assert_eq!(buffer.data.len(), MAX_VERTEX_TEXTURE_WIDTH * 2);
}

#[test]
fn test_gpu_buffer_sizing_writer() {
    let mut builder = BuilderF::new(0, FrameId::first());

    let mut writer = builder.write_blocks(MAX_VERTEX_TEXTURE_WIDTH);
    for _ in 0..MAX_VERTEX_TEXTURE_WIDTH {
        writer.push_one(GpuBufferBlockF::empty());
    }
    writer.finish();

    let mut writer = builder.write_blocks(1);
    writer.push_one(GpuBufferBlockF::empty());
    writer.finish();

    let mut writer = builder.write_blocks(1);
    writer.push_one(GpuBufferBlockF::empty());
    writer.finish();

    let buffer = builder.finalize(&no_tasks());
    assert_eq!(buffer.data.len(), MAX_VERTEX_TEXTURE_WIDTH * 2);
}

#[test]
fn groups_do_not_straddle_rows() {
    let mut builder = BuilderF::new(0, FrameId::first());
    let block = GpuBufferBlockF { data: [1, 2, 3, 4] };
    let first = builder.push_blocks(&[block; 1000]);
    let second = builder.push_blocks(&[block; 100]);
    // The address of such a group holds the epoch too.
    let place = |address: GpuBufferAddress| GpuBufferHandle(address.as_u32()).address_unchecked();
    assert_eq!(first.as_u32(), 1 << 24);
    assert_eq!(place(first).uv(), (0, 0));
    assert_eq!(place(second).uv(), (0, 1));
    let buffer = builder.finalize(&no_tasks());
    assert_eq!(buffer.data.len(), 2048);
    assert_eq!(buffer.data[999], block);
    assert_eq!(buffer.data[1000], GpuBufferBlockF::empty());
    assert_eq!(buffer.data[1024], block);
    assert_eq!((buffer.size.width, buffer.size.height), (1024, 2));
}

#[test]
fn addresses_keep_column_and_row() {
    let address = GpuBufferAddress::new(17, 5);
    assert_eq!(address.uv(), (17, 5));
    assert_eq!(address.as_u32(), 5 * 1024 + 17);
    assert!(address.is_valid());
    assert!(!GpuBufferAddress::invalid().is_valid());
}

#[test]
fn handles_are_refused_by_other_frames() {
    let mut old = BuilderF::new(0, FrameId(7));
    let mut writer = old.write_blocks(1);
    writer.push_one(GpuBufferBlockF::empty());
    let handle = writer.finish_with_handle();
    let old = old.finalize(&no_tasks());
    let new = BuilderF::new(0, FrameId(8)).finalize(&no_tasks());
    assert!(old.epoch != new.epoch);
    assert_eq!(old.epoch, 7 << 24);
    assert_eq!(old.resolve_handle(handle), GpuBufferAddress(0));
    for later in 8..262 {
        assert!(!BuilderF::new(0, FrameId(later)).is_usable(handle));
    }
    assert!(BuilderF::new(0, FrameId(262)).is_usable(handle));
    assert!(!BuilderF::new(0, FrameId(254)).is_usable(GpuBufferHandle(u32::MAX)));
    assert_eq!(handle.address_unchecked(), GpuBufferAddress(0));
    assert_eq!(GpuBufferHandle::invalid().0, u32::MAX - 1);
}

#[test]
fn an_empty_buffer_has_no_rows() {
    let buffer = BuilderF::new(0, FrameId::first()).finalize(&no_tasks());
    assert!(buffer.is_empty());
    assert_eq!(buffer.data.len(), 0);
}

#[test]
fn reserved_blocks_have_a_handle() {
    let mut builder = GpuBufferBuilderImpl::<GpuBufferBlockF>::new(0, FrameId::first());
    let handle = builder.reserve_renderer_deferred_blocks(3);
    assert!(builder.check_handle(handle));
    assert!(builder.check_handle(GpuBufferHandle::invalid()));
    assert_eq!(handle.address_unchecked(), GpuBufferAddress::from_u32(0));
    let next = builder.reserve_renderer_deferred_blocks(2);
    assert_eq!(next.address_unchecked(), GpuBufferAddress::from_u32(3));
}

#[test]
fn rows_are_filled_up_once() {
    let block = GpuBufferBlockF { data: [1, 2, 3, 4] };
    let mut data = vec![block; 1030];
    finish_row(&mut data);
    assert_eq!(data.len(), 2048);
    assert_eq!((data[1029], data[1030]), (block, GpuBufferBlockF::empty()));
    let before = data.clone();
    finish_row(&mut data);
    assert_eq!(data, before);
    let mut nothing: Vec<GpuBufferBlockF> = Vec::new();
    finish_row(&mut nothing);
    assert!(nothing.is_empty());
}
