//! The daily scheduler's decision: a once-a-minute tick fires the reset
//! exactly in the midnight minute of the configured time zone.

use vstd::prelude::*;

verus! {

/// Seconds between two scheduler ticks; with the firing window exactly one
/// minute wide, the reset fires once per calendar day.
pub const SCHEDULER_TICK_SECS: u64 = 60;

/// Whether a local wall-clock reading is the daily reset moment: both the
/// hour and the minute read zero.
pub open spec fn is_daily_reset_moment_spec(hour: u32, minute: u32) -> bool {
    hour == 0 && minute == 0
}

/// Decides, from the local wall-clock hour and minute, whether this tick
/// resets all statuses and starts the daily drain.
pub fn is_daily_reset_moment(hour: u32, minute: u32) -> (r: bool)
    ensures
        r == is_daily_reset_moment_spec(hour, minute),
{
    hour == 0 && minute == 0
}

} // verus!
