//! The clocks.

use vstd::prelude::*;

verus! {

/// `zeitstempel::now`: a number of nanoseconds on a clock of the machine. Nothing is said of
/// it, not even that a later call gives no smaller number.
#[verifier::external_body]
pub(crate) fn now() -> (r: u64) {
    zeitstempel::now()
}

/// `time::precise_time_ns`: a number of nanoseconds on a counter of the machine. Nothing is
/// said of it.
#[verifier::external_body]
pub(crate) fn precise_time_ns() -> (r: u64) {
    time::precise_time_ns()
}

/// Measures how long frames take, from the end of one to the end of the next.
#[derive(Clone, Copy, Debug, PartialEq, Eq, Structural)]
pub struct FrameClock {
    pub last_time: u64,
}

impl FrameClock {
    /// A frame ended. Gives how long it took, where the counter did not go back.
    pub fn frame_ended_at(&mut self, current_time: u64) -> (r: Option<u64>)
        ensures
            r == (if old(self).last_time <= current_time {
                Some((current_time - old(self).last_time) as u64)
            } else {
                None
            }),
            final(self).last_time == current_time,
    {
        let r = if self.last_time <= current_time {
            Some(current_time - self.last_time)
        } else {
            None
        };
        self.last_time = current_time;
        r
    }
}

} // verus!
