//! Timing conversions for the hosting execution-context primitive.
//!
//! The scheduler hosting each actor's run loop counts time in ticks; the
//! actor core speaks in milliseconds (poll intervals, receive timeouts). The
//! tick rate is a platform constant handed in by the hosting layer.

use vstd::prelude::*;

verus! {

/// Converts a duration in milliseconds to scheduler ticks at `tick_rate_hz`
/// ticks per second, rounding down, truncated to the scheduler's 32-bit tick
/// type.
pub fn to_ticks(ms: u64, tick_rate_hz: u32) -> (r: u32)
    requires
        ms * tick_rate_hz <= u64::MAX,
    ensures
        r == (ms * tick_rate_hz / 1000) % 0x1_0000_0000,
{
    let ticks: u64 = (ms * (tick_rate_hz as u64)) / 1000;
    (ticks % 0x1_0000_0000) as u32
}

} // verus!
