//! The pace of the input loop: it waits for a key no longer than until the
//! next tick is due, so the screen is redrawn at least once per tick.

use vstd::prelude::*;

verus! {

/// The time between two ticks, in milliseconds.
pub const TICK_RATE_MILLIS: u64 = 200;

/// How long the input loop may wait for a key when `elapsed` has passed
/// since the last tick: what is left of `tick_rate`, and nothing once the
/// tick is due. Both times are in the same unit, and so is the result.
pub fn poll_timeout(tick_rate: u64, elapsed: u128) -> (wait: u64)
    ensures
        wait == if elapsed >= tick_rate {
            0
        } else {
            tick_rate - elapsed
        },
{
    if elapsed >= tick_rate as u128 {
        0
    } else {
        tick_rate - (elapsed as u64)
    }
}

/// Whether a tick is due when `elapsed` has passed since the last one.
pub fn tick_due(tick_rate: u64, elapsed: u128) -> (due: bool)
    ensures
        due == (elapsed >= tick_rate),
{
    elapsed >= tick_rate as u128
}

} // verus!
