//! The real-time-side record of one processing cycle's response traffic.

use vstd::prelude::*;

verus! {

/// One more event counted, held at the counter's ceiling rather than
/// wrapping.
pub open spec fn counted_one_more(count: u64) -> u64 {
    if count == u64::MAX {
        count
    } else {
        (count + 1) as u64
    }
}

/// Record of the cycle protocol as seen from the real-time side: how many
/// responses the current cycle has delivered so far, and how many cycles the
/// end-of-cycle barrier has closed. The host delivers all of a cycle's
/// responses before its barrier, so at the barrier the current count is that
/// cycle's final one; the barrier opens the next cycle with a count of zero.
pub struct CycleTracker {
    responses_delivered: u64,
    cycles_closed: u64,
}

impl CycleTracker {
    /// The responses delivered so far in the current cycle.
    pub closed spec fn responses_delivered_spec(self) -> u64 {
        self.responses_delivered
    }

    /// The cycles closed so far by a barrier signal.
    pub closed spec fn cycles_closed_spec(self) -> u64 {
        self.cycles_closed
    }

    /// A fresh record: no cycle closed yet, no response delivered yet.
    pub fn new() -> (tracker: CycleTracker)
        ensures
            tracker.responses_delivered_spec() == 0,
            tracker.cycles_closed_spec() == 0,
    {
        CycleTracker { responses_delivered: 0, cycles_closed: 0 }
    }

    /// The responses delivered so far in the current cycle.
    pub fn responses_delivered(&self) -> (count: u64)
        ensures
            count == self.responses_delivered_spec(),
    {
        self.responses_delivered
    }

    /// The cycles closed so far by a barrier signal.
    pub fn cycles_closed(&self) -> (count: u64)
        ensures
            count == self.cycles_closed_spec(),
    {
        self.cycles_closed
    }

    /// Count one response delivered to the consumer within the current
    /// cycle.
    pub fn count_response(&mut self)
        ensures
            final(self).responses_delivered_spec() == counted_one_more(
                old(self).responses_delivered_spec(),
            ),
            final(self).cycles_closed_spec() == old(self).cycles_closed_spec(),
    {
        if self.responses_delivered != u64::MAX {
            self.responses_delivered = self.responses_delivered + 1;
        }
    }

    /// Observe the end-of-cycle barrier: the current cycle is closed and the
    /// next one begins with no response delivered yet.
    pub fn close_cycle(&mut self)
        ensures
            final(self).cycles_closed_spec() == counted_one_more(old(self).cycles_closed_spec()),
            final(self).responses_delivered_spec() == 0,
    {
        if self.cycles_closed != u64::MAX {
            self.cycles_closed = self.cycles_closed + 1;
        }
        self.responses_delivered = 0;
    }
}

} // verus!
