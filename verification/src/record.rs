//! Recording what goes through the API: for each frame a file of records, each with its
//! length before it.

use crate::text::{decimal, numbered};
use byteorder::{LittleEndian, WriteBytesExt};
use vstd::prelude::*;

verus! {

/// The four bytes of a number, the lowest first.
pub open spec fn le_bytes(n: u32) -> Seq<u8> {
    seq![
        (n % 256) as u8,
        (n / 256 % 256) as u8,
        (n / 65536 % 256) as u8,
        (n / 16777216 % 256) as u8,
    ]
}

/// The number whose bytes these are.
pub open spec fn le_value(bytes: Seq<u8>) -> int {
    bytes[0] + 256 * bytes[1] + 65536 * bytes[2] + 16777216 * bytes[3]
}

/// `byteorder::WriteBytesExt::write_u32` with `LittleEndian`, on a vector: the four bytes
/// of the number are added at the end, the lowest first. Writing to a vector does not fail.
#[verifier::external_body]
fn write_u32(out: &mut Vec<u8>, n: u32)
    ensures
        final(out)@ == old(out)@ + le_bytes(n),
{
    out.write_u32::<LittleEndian>(n).ok();
}

/// A record: the length of the data in four bytes, and the data.
pub open spec fn record(data: Seq<u8>) -> Seq<u8> {
    le_bytes(data.len() as u32) + data
}

/// The name of the file with the records of a frame.
pub open spec fn file_text(frame: u32) -> Seq<char> {
    "record/frame_"@ + decimal(frame as nat) + ".bin"@
}

/// The name of the file with the records of a frame.
pub fn file_name(frame: u32) -> (r: String)
    ensures
        r@ == file_text(frame),
{
    let mut r = numbered("record/frame_", frame as u64);
    r.append(".bin");
    r
}

/// The bytes that are added to the file of a frame for some data. Of a length that takes
/// more than four bytes, the lowest four are written.
pub fn write_data(data: &Vec<u8>) -> (r: Vec<u8>)
    ensures
        r@ == record(data@),
{
    let mut out: Vec<u8> = Vec::new();
    write_u32(&mut out, data.len() as u32);
    let mut i: usize = 0;
    assert(out@ =~= le_bytes(data@.len() as u32) + data@.take(0));
    while i < data.len()
        invariant
            i <= data@.len(),
            out@ == le_bytes(data@.len() as u32) + data@.take(i as int),
        decreases data@.len() - i,
    {
        out.push(data[i]);
        i = i + 1;
        assert(out@ =~= le_bytes(data@.len() as u32) + data@.take(i as int));
    }
    assert(data@.take(i as int) =~= data@);
    out
}

/// The messages of the API, as far as recording tells them apart.
#[derive(Clone, Copy, Debug, PartialEq, Eq, Structural)]
pub enum ApiMsgKind {
    AddRawFont,
    AddNativeFont,
    AddImage,
    UpdateImage,
    DeleteImage,
    SetRootStackingContext,
    SetRootPipeline,
    Scroll,
    TickScrollingBounce,
    Other,
}

/// What is written for a message, whose bytes are given: a record where the message is of a
/// kind that changes what is drawn, nothing otherwise.
pub fn write_msg(kind: ApiMsgKind, data: &Vec<u8>) -> (r: Option<Vec<u8>>)
    ensures
        match r {
            Some(bytes) => kind !is Other && bytes@ == record(data@),
            None => kind is Other,
        },
{
    match kind {
        ApiMsgKind::AddRawFont
        | ApiMsgKind::AddNativeFont
        | ApiMsgKind::AddImage
        | ApiMsgKind::SetRootPipeline
        | ApiMsgKind::UpdateImage
        | ApiMsgKind::Scroll
        | ApiMsgKind::TickScrollingBounce
        | ApiMsgKind::DeleteImage
        | ApiMsgKind::SetRootStackingContext => Some(write_data(data)),
        ApiMsgKind::Other => None,
    }
}

/// The bytes of several records, one after the other.
pub open spec fn records(all: Seq<Seq<u8>>) -> Seq<u8>
    decreases all.len(),
{
    if all.len() == 0 {
        Seq::empty()
    } else {
        record(all[0]) + records(all.skip(1))
    }
}

proof fn lemma_le_bytes(n: u32)
    ensures
        le_value(le_bytes(n)) == n,
{
    let a = n % 256;
    let b = n / 256 % 256;
    let c = n / 65536 % 256;
    let d = n / 16777216 % 256;
    assert(n == a + 256 * (n / 256));
    assert(n / 256 == b + 256 * (n / 65536));
    assert(n / 65536 == c + 256 * (n / 16777216));
    assert(n / 16777216 == d);
}

/// The first record of a file is read back: the four bytes before it give its length, and
/// what follows is untouched. This takes a length that fits in four bytes.
pub proof fn records_are_read_back(all: Seq<Seq<u8>>)
    requires
        all.len() > 0,
        all[0].len() <= u32::MAX,
    ensures
        ({
            let file = records(all);
            let len = le_value(file.take(4));
            &&& len == all[0].len()
            &&& file.subrange(4, 4 + len) == all[0]
            &&& file.skip(4 + len) == records(all.skip(1))
        }),
{
    let file = records(all);
    lemma_le_bytes(all[0].len() as u32);
    assert(file.take(4) =~= le_bytes(all[0].len() as u32));
    let len = all[0].len() as int;
    assert(file.subrange(4, 4 + len) =~= all[0]);
    assert(file.skip(4 + len) =~= records(all.skip(1)));
}

} // verus!
