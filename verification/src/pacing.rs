//! The two ticks, and how long one round of the interactive loop may wait
//! for a key.

use vstd::prelude::*;

verus! {

/// The session pipe's tick, in nanoseconds: how long an inbound read may
/// hold up the outbound queue.
pub const PIPE_TICK_NANOS: u64 = 50_000_000;

/// The interactive loop's tick, in nanoseconds.
pub const UI_TICK_NANOS: u64 = 100_000_000;

/// What is left of a tick after `elapsed`: nothing once the tick is overdue.
pub open spec fn budget(tick: nat, elapsed: nat) -> nat {
    if elapsed >= tick {
        0
    } else {
        (tick - elapsed) as nat
    }
}

/// How long to wait for a key, at most, when `elapsed` nanoseconds have gone
/// by since the last tick boundary.
pub fn poll_budget(tick: u64, elapsed: u128) -> (left: u64)
    ensures
        left == budget(tick as nat, elapsed as nat),
{
    if elapsed >= tick as u128 {
        0
    } else {
        tick - (elapsed as u64)
    }
}

/// Whether a tick boundary has been reached, so that the next tick is
/// counted from now.
pub fn tick_due(tick: u64, elapsed: u128) -> (due: bool)
    ensures
        due == (elapsed >= tick),
{
    elapsed >= tick as u128
}

} // verus!
