//! Range reconciliation: partition a requested range into one-hour buckets
//! and keep the buckets whose start instant lies inside the availability
//! window.

use vstd::prelude::*;
use crate::time::TimeRange;
use crate::HOUR_MS;

verus! {

/// The bucket that starts at `cur`: the half-open hour `[cur, cur + HOUR_MS)`.
pub open spec fn bucket_at(cur: i64) -> TimeRange {
    TimeRange { start: cur, end: (cur + HOUR_MS) as i64 }
}

/// The buckets kept while walking from `cur` to `end` in steps of one hour:
/// a bucket is kept exactly when its start instant lies inside `avail`.
pub open spec fn spec_reconcile(cur: i64, end: i64, avail: TimeRange) -> Seq<TimeRange>
    decreases end - cur + HOUR_MS,
{
    if cur >= end || cur > i64::MAX - HOUR_MS {
        Seq::empty()
    } else if avail.spec_includes(cur as int) {
        seq![bucket_at(cur)] + spec_reconcile((cur + HOUR_MS) as i64, end, avail)
    } else {
        spec_reconcile((cur + HOUR_MS) as i64, end, avail)
    }
}

/// How many buckets the walk generates, kept or not.
pub open spec fn spec_bucket_count(cur: i64, end: i64) -> int
    decreases end - cur + HOUR_MS,
{
    if cur >= end || cur > i64::MAX - HOUR_MS {
        0
    } else {
        1 + spec_bucket_count((cur + HOUR_MS) as i64, end)
    }
}

/// Every kept bucket starts at or after `cur`, strictly before `end`, and its
/// start instant lies inside the availability window.
pub proof fn lemma_reconcile_in_range(cur: i64, end: i64, avail: TimeRange)
    ensures
        forall|i: int| 0 <= i < spec_reconcile(cur, end, avail).len() ==> {
            let b = #[trigger] spec_reconcile(cur, end, avail)[i];
            &&& cur <= b.start < end
            &&& avail.spec_includes(b.start as int)
        },
    decreases end - cur + HOUR_MS,
{
    if cur >= end || cur > i64::MAX - HOUR_MS {
    } else {
        let next = (cur + HOUR_MS) as i64;
        lemma_reconcile_in_range(next, end, avail);
        assert forall|i: int| 0 <= i < spec_reconcile(cur, end, avail).len() implies {
            let b = #[trigger] spec_reconcile(cur, end, avail)[i];
            &&& cur <= b.start < end
            &&& avail.spec_includes(b.start as int)
        } by {
            let b = spec_reconcile(cur, end, avail)[i];
            if avail.spec_includes(cur as int) && i == 0 {
                assert(b == bucket_at(cur));
            } else {
                let k: int = if avail.spec_includes(cur as int) {
                    i - 1
                } else {
                    i
                };
                assert(b == spec_reconcile(next, end, avail)[k]);
            }
        }
    }
}

/// Every kept bucket is exactly one hour wide, bucket starts are strictly
/// increasing (by at least one hour), and each start lies on the hour grid
/// anchored at `cur`.
pub proof fn lemma_reconcile_hour_grid(cur: i64, end: i64, avail: TimeRange)
    requires
        end <= i64::MAX - HOUR_MS,
    ensures
        forall|i: int| 0 <= i < spec_reconcile(cur, end, avail).len() ==> {
            let b = #[trigger] spec_reconcile(cur, end, avail)[i];
            &&& b.end == b.start + HOUR_MS
            &&& (b.start - cur) % (HOUR_MS as int) == 0
        },
        forall|i: int, j: int|
            0 <= i < j < spec_reconcile(cur, end, avail).len()
                ==> #[trigger] spec_reconcile(cur, end, avail)[i].start + HOUR_MS
                <= #[trigger] spec_reconcile(cur, end, avail)[j].start,
    decreases end - cur + HOUR_MS,
{
    if cur >= end || cur > i64::MAX - HOUR_MS {
    } else {
        let next = (cur + HOUR_MS) as i64;
        lemma_reconcile_hour_grid(next, end, avail);
        lemma_reconcile_in_range(next, end, avail);
        assert forall|i: int| 0 <= i < spec_reconcile(cur, end, avail).len() implies {
            let b = #[trigger] spec_reconcile(cur, end, avail)[i];
            &&& b.end == b.start + HOUR_MS
            &&& (b.start - cur) % (HOUR_MS as int) == 0
        } by {
            let b = spec_reconcile(cur, end, avail)[i];
            if avail.spec_includes(cur as int) && i == 0 {
                assert(b == bucket_at(cur));
            } else {
                let k: int = if avail.spec_includes(cur as int) {
                    i - 1
                } else {
                    i
                };
                assert(b == spec_reconcile(next, end, avail)[k]);
                assert((b.start - next) % (HOUR_MS as int) == 0);
                vstd::arithmetic::div_mod::lemma_add_mod_noop(
                    b.start - next,
                    HOUR_MS as int,
                    HOUR_MS as int,
                );
                vstd::arithmetic::div_mod::lemma_mod_self_0(HOUR_MS as int);
                vstd::arithmetic::div_mod::lemma_small_mod(0, HOUR_MS as nat);
            }
        }
    }
}

/// An empty requested range yields no buckets at all.
pub proof fn lemma_reconcile_empty_range(cur: i64, avail: TimeRange)
    ensures
        spec_reconcile(cur, cur, avail).len() == 0,
{
}

/// When the availability window fully contains the walked range, every
/// generated bucket is kept: the result has one bucket per hour step, and the
/// buckets are contiguous from `cur` on.
pub proof fn lemma_reconcile_full_window(cur: i64, end: i64, avail: TimeRange)
    requires
        end <= i64::MAX - HOUR_MS,
        avail.start <= cur,
        end <= avail.end,
    ensures
        spec_reconcile(cur, end, avail).len() == spec_bucket_count(cur, end),
        forall|i: int| 0 <= i < spec_reconcile(cur, end, avail).len() ==> {
            let b = #[trigger] spec_reconcile(cur, end, avail)[i];
            b.start == cur + i * HOUR_MS && b.end == b.start + HOUR_MS
        },
    decreases end - cur + HOUR_MS,
{
    if cur >= end || cur > i64::MAX - HOUR_MS {
    } else {
        let next = (cur + HOUR_MS) as i64;
        lemma_reconcile_full_window(next, end, avail);
        assert forall|i: int| 0 <= i < spec_reconcile(cur, end, avail).len() implies {
            let b = #[trigger] spec_reconcile(cur, end, avail)[i];
            b.start == cur + i * HOUR_MS && b.end == b.start + HOUR_MS
        } by {
            let b = spec_reconcile(cur, end, avail)[i];
            if i == 0 {
                assert(b == bucket_at(cur));
            } else {
                assert(b == spec_reconcile(next, end, avail)[i - 1]);
                assert(b.start == next + (i - 1) * HOUR_MS);
                assert((i - 1) * HOUR_MS == i * HOUR_MS - HOUR_MS) by (nonlinear_arith);
            }
        }
    }
}

/// The walk generates one bucket per started hour of the span: exactly the
/// ceiling of the span over one hour.
pub proof fn lemma_bucket_count_ceiling(cur: i64, end: i64)
    requires
        cur <= end,
        end <= i64::MAX - HOUR_MS,
    ensures
        spec_bucket_count(cur, end) == (end - cur + HOUR_MS - 1) / (HOUR_MS as int),
    decreases end - cur + HOUR_MS,
{
    let h = HOUR_MS as int;
    if cur >= end {
        vstd::arithmetic::div_mod::lemma_basic_div(h - 1, h);
    } else if cur + HOUR_MS >= end {
        let d = end - cur + h - 1;
        vstd::arithmetic::div_mod::lemma_hoist_over_denominator(d - h, 1, HOUR_MS as nat);
        vstd::arithmetic::div_mod::lemma_basic_div(d - h, h);
        assert(spec_bucket_count((cur + HOUR_MS) as i64, end) == 0);
        assert(spec_bucket_count(cur, end) == 1);
    } else {
        let next = (cur + HOUR_MS) as i64;
        lemma_bucket_count_ceiling(next, end);
        vstd::arithmetic::div_mod::lemma_hoist_over_denominator(
            end - next + h - 1,
            1,
            HOUR_MS as nat,
        );
    }
}

/// When the availability window is disjoint from the walked range, no bucket
/// is kept, even though the walk still covers the whole range.
pub proof fn lemma_reconcile_disjoint(cur: i64, end: i64, avail: TimeRange)
    requires
        avail.end <= cur || end <= avail.start,
    ensures
        spec_reconcile(cur, end, avail).len() == 0,
    decreases end - cur + HOUR_MS,
{
    if cur >= end || cur > i64::MAX - HOUR_MS {
    } else {
        lemma_reconcile_disjoint((cur + HOUR_MS) as i64, end, avail);
    }
}

/// Produces the kept buckets of the requested range, in ascending order of
/// start time: each candidate bucket `[t, t + 1h)` with `t` walking from
/// `requested.start` in one-hour steps is kept exactly when `t` lies inside
/// `availability` (half-open). The final bucket may extend past
/// `requested.end`.
pub fn reconcile(requested: &TimeRange, availability: &TimeRange) -> (r: Vec<TimeRange>)
    requires
        requested.wf(),
        requested.end <= i64::MAX - HOUR_MS,
    ensures
        r@ == spec_reconcile(requested.start, requested.end, *availability),
{
    let mut result: Vec<TimeRange> = Vec::new();
    let mut current: i64 = requested.start;
    while current < requested.end
        invariant
            requested.wf(),
            requested.end <= i64::MAX - HOUR_MS,
            requested.start <= current,
            spec_reconcile(requested.start, requested.end, *availability) =~= result@
                + spec_reconcile(current, requested.end, *availability),
        decreases requested.end - current + HOUR_MS,
    {
        let new_current = current + HOUR_MS;
        if availability.includes(current) {
            result.push(TimeRange { start: current, end: new_current });
            proof {
                assert(spec_reconcile(current, requested.end, *availability) =~= seq![
                    bucket_at(current),
                ] + spec_reconcile(new_current, requested.end, *availability));
            }
        }
        current = new_current;
    }
    result
}

} // verus!
