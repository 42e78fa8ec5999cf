//! Elapsed-time throttle that limits the expensive refresh work (sampling and
//! icon regeneration) to the configured interval.

use vstd::prelude::*;

verus! {

/// Stores the instant (in milliseconds on a monotonic clock) of the last
/// refresh; owned solely by the foreground thread.
#[derive(Clone, Copy, Debug, PartialEq, Eq, Structural)]
pub struct PeriodicRefreshScheduler {
    pub last_refresh_ms: u64,
}

/// The interval in milliseconds, saturated at `u64::MAX` so that an
/// arbitrarily large configured interval simply never comes due.
pub open spec fn interval_ms_spec(interval_seconds: u64) -> int {
    if interval_seconds * 1000 > u64::MAX {
        u64::MAX as int
    } else {
        interval_seconds * 1000
    }
}

/// A refresh is due exactly when the elapsed time since the last refresh has
/// reached the interval.
pub open spec fn due_spec(last_refresh_ms: u64, now_ms: u64, interval_seconds: u64) -> bool {
    now_ms - last_refresh_ms >= interval_ms_spec(interval_seconds)
}

impl PeriodicRefreshScheduler {
    /// A scheduler whose clock starts at `now_ms`: nothing is due before a
    /// full interval has passed.
    pub fn new(now_ms: u64) -> (s: PeriodicRefreshScheduler)
        ensures
            s.last_refresh_ms == now_ms,
    {
        PeriodicRefreshScheduler { last_refresh_ms: now_ms }
    }

    /// Whether the refresh work is due at `now_ms` under the given interval.
    /// `now_ms` comes from the same monotonic clock as the stored instant.
    pub fn is_due(&self, now_ms: u64, interval_seconds: u64) -> (r: bool)
        requires
            now_ms >= self.last_refresh_ms,
        ensures
            r == due_spec(self.last_refresh_ms, now_ms, interval_seconds),
    {
        let interval_ms: u64 = match interval_seconds.checked_mul(1000) {
            Some(ms) => ms,
            None => u64::MAX,
        };
        now_ms - self.last_refresh_ms >= interval_ms
    }

    /// Restarts the elapsed-time clock at `now_ms`.
    pub fn reset(&mut self, now_ms: u64)
        ensures
            final(self).last_refresh_ms == now_ms,
    {
        self.last_refresh_ms = now_ms;
    }
}

/// Once due, a refresh stays due: the due-check is monotone in the current
/// time, so it becomes true at the interval and never reverts before a reset.
pub proof fn lemma_due_monotonic(
    last_refresh_ms: u64,
    now_ms: u64,
    later_ms: u64,
    interval_seconds: u64,
)
    requires
        due_spec(last_refresh_ms, now_ms, interval_seconds),
        later_ms >= now_ms,
    ensures
        due_spec(last_refresh_ms, later_ms, interval_seconds),
{
}

} // verus!
