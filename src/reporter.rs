use vstd::prelude::*;
use crate::ingest::MockSensorService;

verus! {

/// Interval between two samples of the shared counter, in nanoseconds.
pub const SAMPLE_INTERVAL_NS: u64 = 1_000_000_000;

/// Counter growth from sample `last` to sample `current`, taken modulo 2^64
/// so that a counter that wrapped still yields its growth.
pub open spec fn growth(last: u64, current: u64) -> int {
    if current >= last {
        current - last
    } else {
        current - last + 0x1_0000_0000_0000_0000int
    }
}

/// Derives a rate from successive samples of the shared counter.
pub struct ThroughputReporter {
    /// The previous sample; zero before the first.
    pub last: u64,
}

impl ThroughputReporter {
    /// A reporter whose baseline is zero.
    pub fn new() -> (r: ThroughputReporter)
        ensures
            r.last == 0,
    {
        ThroughputReporter { last: 0 }
    }

    /// Takes sample `current` and returns the growth since the previous one,
    /// which `current` then replaces.
    pub fn sample(&mut self, current: u64) -> (rate: u64)
        ensures
            rate as int == growth(old(self).last, current),
            final(self).last == current,
    {
        let rate: u64 = current.wrapping_sub(self.last);
        self.last = current;
        rate
    }

    /// Samples the service's shared counter and returns the growth since
    /// the previous sample.
    pub fn tick(&mut self, service: &MockSensorService) -> (rate: u64)
        ensures
            rate as int == growth(old(self).last, final(self).last),
    {
        let current: u64 = service.total();
        self.sample(current)
    }
}

} // verus!
