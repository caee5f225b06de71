//! Captures of single frames by RenderDoc, on demand. A request is kept until the next
//! frame, which is wrapped in a capture where RenderDoc is there.

use crate::text::{decimal, to_decimal};
use vstd::prelude::*;

verus! {

/// Captures all live resources, even those that the frame does not refer to.
pub const RENDERDOC_OPTION_REF_ALL_RESOURCES: u32 = 8;

/// The version of the interface that is asked for.
pub const RENDERDOC_API_VERSION_1_1_2: i32 = 10102;

/// A number in decimal notation, with its sign.
pub open spec fn signed_decimal(n: int) -> Seq<char> {
    if n < 0 {
        "-"@ + decimal((-n) as nat)
    } else {
        decimal(n as nat)
    }
}

fn to_signed_decimal(n: i32) -> (r: String)
    ensures
        r@ == signed_decimal(n as int),
{
    if n < 0 {
        let mut r = String::new();
        r.append("-");
        let size: u64 = (-(n as i64)) as u64;
        let digits = to_decimal(size);
        r.append(digits.as_str());
        assert(r@ =~= "-"@ + decimal((-n) as nat));
        r
    } else {
        to_decimal(n as u64)
    }
}

/// Whether the interface was handed out, or else why not. It was where the answer is one
/// and there is a table of functions.
pub fn check_api(ret: i32, has_table: bool) -> (r: Result<(), String>)
    ensures
        match r {
            Ok(_) => ret == 1 && has_table,
            Err(reason) => (ret != 1 || !has_table) && reason@ == "RENDERDOC_GetAPI returned "@
                + signed_decimal(ret as int),
        },
{
    if ret != 1 || !has_table {
        let mut reason = String::new();
        reason.append("RENDERDOC_GetAPI returned ");
        let number = to_signed_decimal(ret);
        reason.append(number.as_str());
        assert(reason@ =~= "RENDERDOC_GetAPI returned "@ + signed_decimal(ret as int));
        return Err(reason);
    }
    Ok(())
}

/// Captures of frames, as far as they were asked for and begun.
#[derive(Clone, Copy, Debug, PartialEq, Eq, Structural)]
pub struct RenderDocCapture {
    /// The interface was found.
    pub available: bool,
    /// The next frame is to be captured.
    pub capture_next: bool,
    /// How many captures there were when the current one began.
    pub captures_before: u32,
}

impl RenderDocCapture {
    pub fn new(available: bool) -> (r: Self)
        ensures
            r == (RenderDocCapture { available, capture_next: false, captures_before: 0 }),
    {
        RenderDocCapture { available, capture_next: false, captures_before: 0 }
    }

    /// Asks for a capture of the next frame.
    pub fn arm(&mut self)
        ensures
            *final(self) == (RenderDocCapture { capture_next: true, ..*old(self) }),
    {
        self.capture_next = true;
    }

    /// Captures can succeed.
    pub fn is_available(&self) -> (r: bool)
        ensures
            r == self.available,
    {
        self.available
    }

    /// Takes the request for a capture, if there is one. Gives whether the frame is to be
    /// captured.
    pub fn take_request(&mut self) -> (r: bool)
        ensures
            r == (old(self).capture_next && old(self).available),
            *final(self) == (RenderDocCapture { capture_next: false, ..*old(self) }),
    {
        let armed = self.capture_next && self.available;
        self.capture_next = false;
        armed
    }

    /// Begins a capture, given how many there are. Gives whether there is one to begin.
    pub fn start(&mut self, captures: u32) -> (r: bool)
        ensures
            r == old(self).available,
            *final(self) == (if old(self).available {
                RenderDocCapture { captures_before: captures, ..*old(self) }
            } else {
                *old(self)
            }),
    {
        if self.available {
            self.captures_before = captures;
        }
        self.available
    }

    /// The capture that was written, given how many there are now: the last one, where
    /// there are more than before.
    pub fn end(&self, captures: u32) -> (r: Option<u32>)
        ensures
            r == (if self.available && captures > self.captures_before {
                Some((captures - 1) as u32)
            } else {
                None
            }),
    {
        if !self.available || captures <= self.captures_before {
            return None;
        }
        Some(captures - 1)
    }
}

/// The path of a capture, given the length that was announced and whether the path was
/// handed out: the text up to the byte that ends it.
pub fn capture_path(len: u32, handed_out: bool, buffer: &Vec<u8>) -> (r: Option<Vec<u8>>)
    requires
        len > 0 && handed_out ==> buffer@.contains(0u8),
    ensures
        match r {
            None => len == 0 || !handed_out,
            Some(path) => {
                &&& len > 0 && handed_out
                &&& path@.len() < buffer@.len()
                &&& path@ == buffer@.take(path@.len() as int)
                &&& buffer@[path@.len() as int] == 0
                &&& !path@.contains(0u8)
            },
        },
{
    if len == 0 || !handed_out {
        return None;
    }
    let mut path: Vec<u8> = Vec::new();
    let mut i: usize = 0;
    let total: usize = buffer.len();
    assert(path@ =~= buffer@.take(0));
    while buffer[i] != 0
        invariant
            total == buffer@.len(),
            i < total,
            buffer@.contains(0u8),
            path@ == buffer@.take(i as int),
            forall|j: int| 0 <= j < i ==> buffer@[j] != 0,
        decreases total - i,
    {
        path.push(buffer[i]);
        i = i + 1;
        assert(path@ =~= buffer@.take(i as int));
    }
    Some(path)
}

/// A request leads to one capture at most, however many frames follow, and to none where
/// RenderDoc is not there.
pub proof fn requests_are_taken_once(capture: RenderDocCapture)
    ensures
        ({
            let armed = RenderDocCapture { capture_next: true, ..capture };
            let taken = RenderDocCapture { capture_next: false, ..armed };
            &&& (armed.capture_next && armed.available) == capture.available
            &&& !(taken.capture_next && taken.available)
        }),
{
}

} // verus!
