//! Time ranges with millisecond-precision instants.

use vstd::prelude::*;

verus! {

/// A half-open interval of time, `[start, end)`, in milliseconds since the
/// Unix epoch. Well-formed ranges satisfy `start <= end`.
#[derive(Clone, Copy, Debug, PartialEq, Eq, Structural)]
pub struct TimeRange {
    pub start: i64,
    pub end: i64,
}

impl TimeRange {
    /// A range is well-formed when its start does not lie after its end.
    pub open spec fn wf(self) -> bool {
        self.start <= self.end
    }

    /// Half-open inclusion: `t` lies in `[start, end)`.
    pub open spec fn spec_includes(self, t: int) -> bool {
        self.start <= t < self.end
    }

    pub fn new(start: i64, end: i64) -> (r: TimeRange)
        requires
            start <= end,
        ensures
            r.start == start,
            r.end == end,
            r.wf(),
    {
        TimeRange { start, end }
    }

    /// Whether the instant `t` lies inside the range, testing the start
    /// inclusively and the end exclusively.
    pub fn includes(&self, t: i64) -> (r: bool)
        ensures
            r == self.spec_includes(t as int),
    {
        self.start <= t && t < self.end
    }
}

/// Whether a millisecond count since the Unix epoch denotes a representable
/// calendar instant.
pub uninterp spec fn timestamp_millis_in_range(ms: i64) -> bool;

/// Relies on chrono::DateTime::<Utc>::from_timestamp_millis, which returns
/// `None` exactly on an out-of-range number of milliseconds.
#[verifier::external_body]
pub fn timestamp_millis_representable(ms: i64) -> (r: bool)
    ensures
        r == timestamp_millis_in_range(ms),
{
    chrono::DateTime::<chrono::Utc>::from_timestamp_millis(ms).is_some()
}

} // verus!
