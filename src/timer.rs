use vstd::prelude::*;

verus! {

/// Fires at most once per interval.
#[derive(Debug, Default)]
pub struct Timer {
    /// Interval between firings, in ms.
    interval: i32,
    /// Time of the last firing, in ms.
    last_elapsed: i32,
}

impl Timer {
    pub closed spec fn interval_spec(&self) -> int {
        self.interval as int
    }

    pub closed spec fn last_spec(&self) -> int {
        self.last_elapsed as int
    }

    /// Whether the timer fires at `now`: a full interval has passed since the
    /// last firing, or time went backwards past it.
    pub open spec fn ready_at(&self, now: int) -> bool {
        now < self.last_spec() || self.last_spec() + self.interval_spec() <= now
    }

    pub fn new(interval: i32) -> (r: Self)
        ensures
            r.interval_spec() == interval,
            r.last_spec() == 0,
    {
        Self { interval, last_elapsed: 0 }
    }

    /// Fires when a full interval has passed since the last firing; after a
    /// rewind (time before the last firing) it fires at once, restarting the
    /// count.
    pub fn is_ready(&mut self, now_time: i32) -> (r: bool)
        ensures
            r == old(self).ready_at(now_time as int),
            final(self).interval_spec() == old(self).interval_spec(),
            final(self).last_spec() == if r { now_time as int } else { old(self).last_spec() },
    {
        if now_time < self.last_elapsed
            || (self.last_elapsed as i64) + (self.interval as i64) <= now_time as i64 {
            self.last_elapsed = now_time;
            true
        } else {
            false
        }
    }

    /// Forgets the last firing.
    pub fn reset(&mut self)
        ensures
            final(self).interval_spec() == old(self).interval_spec(),
            final(self).last_spec() == 0,
    {
        self.last_elapsed = 0;
    }
}

} // verus!
