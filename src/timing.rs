//! Sample timing: the interval over which each received sample is integrated.
//!
//! Samples carry a monotonic reception time in nanoseconds. The clock keeps
//! the time of the last sample and turns each new time into the interval the
//! filter integrates over; the first sample, and any interval that is not
//! strictly between zero and one second, is rejected.
use vstd::prelude::*;

verus! {

/// One second in nanoseconds: the exclusive upper bound of an accepted interval.
pub const MAX_INTERVAL_NS: u64 = 1_000_000_000;

/// Whether an interval of `dt_ns` nanoseconds may be integrated over.
pub open spec fn interval_accepted(dt_ns: int) -> bool {
    0 < dt_ns < MAX_INTERVAL_NS
}

/// The interval a sample received at `stamp` is integrated over, given the
/// time of the previous sample, if any.
pub open spec fn spec_interval(last: Option<u64>, stamp: u64) -> Option<u64> {
    match last {
        None => None,
        Some(prev) => if interval_accepted(stamp - prev) {
            Some((stamp - prev) as u64)
        } else {
            None
        },
    }
}

/// Timing state of the filter: the reception time of the last sample.
pub struct SampleClock {
    last_update: Option<u64>,
}

impl View for SampleClock {
    type V = Option<u64>;

    closed spec fn view(&self) -> Option<u64> {
        self.last_update
    }
}

impl SampleClock {
    /// A clock that has seen no sample.
    pub fn new() -> (r: Self)
        ensures
            r@ is None,
    {
        SampleClock { last_update: None }
    }

    /// The reception time of the last sample, if any.
    pub fn last_update(&self) -> (r: Option<u64>)
        ensures
            r == self@,
    {
        self.last_update
    }

    /// Records a sample received at `stamp_ns` and returns the interval to
    /// integrate it over, or none when the sample is to be rejected.
    pub fn next_interval(&mut self, stamp_ns: u64) -> (r: Option<u64>)
        ensures
            r == spec_interval(old(self)@, stamp_ns),
            final(self)@ == Some(stamp_ns),
    {
        let r = match self.last_update {
            None => None,
            Some(prev) => {
                if prev < stamp_ns && stamp_ns - prev < MAX_INTERVAL_NS {
                    Some(stamp_ns - prev)
                } else {
                    None
                }
            },
        };
        self.last_update = Some(stamp_ns);
        r
    }

    /// Forgets the last sample, so that the next one starts afresh.
    pub fn reset(&mut self)
        ensures
            final(self)@ is None,
    {
        self.last_update = None;
    }
}

/// Whatever came before a reset, the first sample after it is rejected, and
/// the one after that is integrated over the interval from the first: no
/// earlier time takes part.
pub proof fn lemma_fresh_after_reset(first: u64, second: u64)
    ensures
        spec_interval(None, first) is None,
        spec_interval(Some(first), second) == (if interval_accepted(second - first) {
            Some((second - first) as u64)
        } else {
            None
        }),
{
}

/// A rejected interval never reaches the filter: whatever the interval
/// returned, it lies strictly between zero and one second.
pub proof fn lemma_interval_in_range(last: Option<u64>, stamp: u64)
    ensures
        spec_interval(last, stamp) matches Some(dt) ==> interval_accepted(dt as int),
{
}

} // verus!
