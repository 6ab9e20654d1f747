//! The render cadence: when the main loop wakes next.

use vstd::prelude::*;

verus! {

/// The time between the end of one render and the next scheduled wake-up, in
/// nanoseconds: a sixtieth of a second.
pub const FRAME_INTERVAL_NANOS: u64 = 16_666_667;

/// What the loop driver does once an iteration is over.
#[derive(Clone, Copy, Debug, PartialEq, Eq, Structural)]
pub enum Schedule {
    /// Sleep until `nanos_after_render` nanoseconds have passed since the render of
    /// this iteration ended, or until the next event arrives, whichever is first.
    WaitUntil { nanos_after_render: u64 },
    /// Leave the loop.
    Exit,
}

/// The schedule of an iteration that did or did not ask to leave the loop. There is
/// no catching up: a full interval is waited however long the render took.
pub open spec fn schedule_for(exit: bool) -> Schedule {
    if exit {
        Schedule::Exit
    } else {
        Schedule::WaitUntil { nanos_after_render: FRAME_INTERVAL_NANOS }
    }
}

/// Computes the schedule of an iteration.
pub fn schedule(exit: bool) -> (next: Schedule)
    ensures
        next == schedule_for(exit),
{
    if exit {
        Schedule::Exit
    } else {
        Schedule::WaitUntil { nanos_after_render: FRAME_INTERVAL_NANOS }
    }
}

} // verus!
