//! Policies that a control plane sets for outbound traffic.

use crate::time::Duration;
use vstd::prelude::*;

verus! {

/// A schedule of waits that grow from `min` to `max`. Each wait may be stretched at random by up
/// to `jitter_percent` of itself.
#[derive(Clone, Copy, Debug, PartialEq, Eq, Hash, Structural)]
pub struct ExponentialBackoff {
    pub min: Duration,
    pub max: Duration,
    pub jitter_percent: u32,
}

/// A success ratio in hundredths of a percent.
#[derive(Clone, Copy, Debug, PartialEq, Eq, Hash, Structural)]
pub struct SuccessRateThreshold {
    pub basis_points: u32,
}

/// Breaks the circuit after a run of failures.
#[derive(Clone, Copy, Debug, PartialEq, Eq, Hash, Structural)]
pub struct ConsecutiveFailures {
    pub max_failures: usize,
    pub backoff: ExponentialBackoff,
    pub respect_retry_after_hint: bool,
}

/// Breaks the circuit after a run of failures, or when too few of the recent responses succeeded.
#[derive(Clone, Copy, Debug, PartialEq, Eq, Hash, Structural)]
pub struct Unified {
    pub threshold: SuccessRateThreshold,
    pub window: Duration,
    pub min_requests: u32,
    pub max_consecutive_failures: usize,
    pub backoff: ExponentialBackoff,
    pub respect_retry_after_hint: bool,
}

/// When to stop sending traffic to an endpoint.
#[derive(Clone, Copy, Debug, PartialEq, Eq, Hash, Structural)]
pub enum FailureAccrual {
    Consecutive(ConsecutiveFailures),
    Unified(Unified),
}

/// The HTTP statuses that a policy speaks of, as ranges that include both ends.
#[derive(Clone, Debug)]
pub struct StatusRanges(pub Vec<(u16, u16)>);

/// Whether a status lies in one of the ranges.
pub open spec fn in_ranges(ranges: Seq<(u16, u16)>, status: u16) -> bool {
    exists|i: int| 0 <= i < ranges.len() && (#[trigger] ranges[i]).0 <= status <= ranges[i].1
}

impl StatusRanges {
    pub fn contains(&self, status: u16) -> (b: bool)
        ensures
            b == in_ranges(self.0@, status),
    {
        let mut i: usize = 0;
        while i < self.0.len()
            invariant
                i <= self.0@.len(),
                forall|j: int|
                    0 <= j < i ==> !((#[trigger] self.0@[j]).0 <= status <= self.0@[j].1),
            decreases self.0@.len() - i,
        {
            let (from, to) = self.0[i];
            if from <= status && status <= to {
                proof {
                    assert(self.0@[i as int].0 <= status <= self.0@[i as int].1);
                }
                return true;
            }
            i = i + 1;
        }
        false
    }

    /// A copy with the same ranges.
    pub fn copy(&self) -> (r: StatusRanges)
        ensures
            r.0@ == self.0@,
    {
        let mut ranges: Vec<(u16, u16)> = Vec::new();
        let mut i: usize = 0;
        while i < self.0.len()
            invariant
                i <= self.0@.len(),
                ranges@ =~= self.0@.take(i as int),
            decreases self.0@.len() - i,
        {
            ranges.push(self.0[i]);
            i = i + 1;
        }
        StatusRanges(ranges)
    }
}

impl Default for StatusRanges {
    /// All server errors.
    fn default() -> (r: StatusRanges)
        ensures
            r.0@ == seq![(500u16, 599u16)],
    {
        let mut ranges: Vec<(u16, u16)> = Vec::new();
        ranges.push((500, 599));
        proof {
            assert(ranges@ =~= seq![(500u16, 599u16)]);
        }
        StatusRanges(ranges)
    }
}

/// The gRPC codes that a policy speaks of, by number.
#[derive(Clone, Debug)]
pub struct Codes(pub std::collections::BTreeSet<u16>);

impl Codes {
    pub fn new() -> (c: Codes)
        ensures
            c.0@ == Set::<u16>::empty(),
    {
        Codes(std::collections::BTreeSet::new())
    }

    pub fn insert(&mut self, code: u16)
        ensures
            final(self).0@ == old(self).0@.insert(code),
    {
        broadcast use {vstd::std_specs::btree::group_btree_axioms, vstd::laws_cmp::group_laws_cmp};

        self.0.insert(code);
    }

    pub fn contains(&self, code: u16) -> (b: bool)
        ensures
            b == self.0@.contains(code),
    {
        broadcast use {vstd::std_specs::btree::group_btree_axioms, vstd::laws_cmp::group_laws_cmp};

        self.0.contains(&code)
    }
}

/// The limits on time that a policy sets for a request.
#[derive(Clone, Copy, Debug)]
pub struct Timeouts {
    /// From the end of the request to the end of the response.
    pub response: Option<Duration>,
    /// From the start of the request to the end of the response.
    pub request: Option<Duration>,
    /// Without any progress.
    pub idle: Option<Duration>,
}

/// A status lies in a policy's ranges exactly if it is between the ends of one of them, whatever
/// the other ranges are. Both ends belong to a range.
pub proof fn ranges_hold_what_is_between_their_ends(
    ranges: Seq<(u16, u16)>,
    more: Seq<(u16, u16)>,
    from: u16,
    to: u16,
    status: u16,
)
    ensures
        !in_ranges(Seq::empty(), status),
        in_ranges(seq![(from, to)], status) <==> from <= status <= to,
        in_ranges(ranges + more, status) <==> in_ranges(ranges, status) || in_ranges(more, status),
        forall|i: int|
            0 <= i < ranges.len() && (#[trigger] ranges[i]).0 <= status <= ranges[i].1 ==> in_ranges(
                ranges,
                status,
            ),
        from <= to ==> in_ranges(seq![(from, to)], from) && in_ranges(seq![(from, to)], to),
{
    let one = seq![(from, to)];
    assert(one[0] == (from, to));
    let all = ranges + more;
    if in_ranges(ranges, status) {
        let i = choose|i: int|
            0 <= i < ranges.len() && (#[trigger] ranges[i]).0 <= status <= ranges[i].1;
        assert(all[i] == ranges[i]);
    }
    if in_ranges(more, status) {
        let i = choose|i: int|
            0 <= i < more.len() && (#[trigger] more[i]).0 <= status <= more[i].1;
        assert(all[ranges.len() + i] == more[i]);
    }
    if in_ranges(all, status) {
        let i = choose|i: int| 0 <= i < all.len() && (#[trigger] all[i]).0 <= status <= all[i].1;
        if i < ranges.len() {
            assert(ranges[i] == all[i]);
        } else {
            assert(more[i - ranges.len()] == all[i]);
        }
    }
}

} // verus!
