//! Durations in milliseconds and the arithmetic the monitor does on them.

use vstd::prelude::*;

verus! {

/// Milliseconds in one second.
pub const MILLIS_PER_SEC: u64 = 1000;

/// Length assumed for an advertisement where none is configured, in
/// milliseconds. The playback service does not report how long one lasts.
pub const DEFAULT_AD_LENGTH_MS: u64 = 30000;

/// Time left of a track, as a mathematical integer: the total duration less
/// the elapsed time, and zero where the elapsed time exceeds the total.
pub open spec fn spec_remaining(duration_ms: int, progress_ms: int) -> int {
    if progress_ms >= duration_ms {
        0
    } else {
        duration_ms - progress_ms
    }
}

/// Computes the time left of a track. Elapsed time beyond the total, as clock
/// or network skew may report it, leaves nothing rather than a negative span.
pub fn remaining_ms(duration_ms: u64, progress_ms: u64) -> (left: u64)
    ensures
        left == spec_remaining(duration_ms as int, progress_ms as int),
        progress_ms <= duration_ms ==> left == duration_ms - progress_ms,
        progress_ms > duration_ms ==> left == 0,
        left <= duration_ms,
{
    if progress_ms >= duration_ms {
        0
    } else {
        duration_ms - progress_ms
    }
}

/// Whole seconds in a span of milliseconds, the fraction dropped.
pub open spec fn spec_whole_seconds(millis: int) -> int {
    millis / 1000
}

/// Computes the whole seconds in a span of milliseconds, for display.
pub fn whole_seconds(millis: u64) -> (secs: u64)
    ensures
        secs == spec_whole_seconds(millis as int),
        secs * 1000 <= millis < secs * 1000 + 1000,
{
    millis / MILLIS_PER_SEC
}

} // verus!
