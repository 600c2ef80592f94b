use crate::record::{later, offset_instant};
use vstd::prelude::*;

verus! {

/// One check of a throttled timer whose next run is due at `next`: whether it
/// runs at `now`, and when it is next due.
pub open spec fn timer_step(next: i64, now: i64, interval: i64) -> (i64, bool) {
    if now >= next {
        (later(now, interval), true)
    } else {
        (next, false)
    }
}

/// The two maintenance timers: one for the memory tier, one for the backing store.
pub struct SweepScheduler {
    pub next_cache_sweep: i64,
    pub next_store_sweep: i64,
}

impl SweepScheduler {
    /// Both sweeps are due at once.
    pub fn new() -> (r: Self)
        ensures
            r.next_cache_sweep == i64::MIN,
            r.next_store_sweep == i64::MIN,
    {
        SweepScheduler { next_cache_sweep: i64::MIN, next_store_sweep: i64::MIN }
    }

    /// Whether the memory sweep is due at `now`; if so, the next one is put
    /// `interval` later.
    pub fn cache_sweep_due(&mut self, now: i64, interval: i64) -> (due: bool)
        ensures
            (final(self).next_cache_sweep, due) == timer_step(
                old(self).next_cache_sweep,
                now,
                interval,
            ),
            final(self).next_store_sweep == old(self).next_store_sweep,
    {
        if now >= self.next_cache_sweep {
            self.next_cache_sweep = offset_instant(now, interval);
            true
        } else {
            false
        }
    }

    /// Whether the backing-store sweep is due at `now`; if so, the next one is
    /// put `interval` later.
    pub fn store_sweep_due(&mut self, now: i64, interval: i64) -> (due: bool)
        ensures
            (final(self).next_store_sweep, due) == timer_step(
                old(self).next_store_sweep,
                now,
                interval,
            ),
            final(self).next_cache_sweep == old(self).next_cache_sweep,
    {
        if now >= self.next_store_sweep {
            self.next_store_sweep = offset_instant(now, interval);
            true
        } else {
            false
        }
    }
}

/// Two checks of a timer at `t1` and then at `t2`, with `t2` before the
/// interval that started at `t1` has run out, run the sweep at most once.
pub proof fn lemma_sweep_throttled(next: i64, t1: i64, t2: i64, interval: i64)
    requires
        t1 <= t2,
        t2 < later(t1, interval),
    ensures
        !(timer_step(next, t1, interval).1 && timer_step(
            timer_step(next, t1, interval).0,
            t2,
            interval,
        ).1),
{
}

} // verus!
