//! The pacing of the tick loop: one tick per frame at a fixed rate, with no
//! catching up after a frame that ran long.

use vstd::prelude::*;

verus! {

/// Ticks per second that the loop aims at.
pub const TARGET_FPS: u64 = 60;

/// Whole milliseconds in one frame at the target rate.
pub const TARGET_FRAME_MILLIS: u64 = 1000 / 60;

/// What the loop does once a frame's work is done.
#[derive(Debug, Clone, Copy, PartialEq, Eq, Structural)]
pub enum FramePacing {
    /// The frame finished early: block for this long, in the unit of the
    /// durations that were compared.
    Wait(u128),
    /// The frame used up its budget or more: report a dropped frame and go
    /// on with the next one at once.
    Dropped,
}

/// The pacing of a frame that took `elapsed` against a budget of `target`.
pub open spec fn pacing_of(elapsed: u128, target: u128) -> FramePacing {
    if elapsed < target {
        FramePacing::Wait((target - elapsed) as u128)
    } else {
        FramePacing::Dropped
    }
}

/// Decides how to end a frame that took `elapsed` of a budget of `target`:
/// wait for the rest of the budget, or report the frame as dropped.
pub fn pace_frame(elapsed: u128, target: u128) -> (pacing: FramePacing)
    ensures
        pacing == pacing_of(elapsed, target),
{
    if elapsed < target {
        FramePacing::Wait(target - elapsed)
    } else {
        FramePacing::Dropped
    }
}

} // verus!
