//! The per-fragment reply deadline.  A run computes an absolute deadline
//! when it transmits its request, and computes a fresh one from the arrival
//! time of every accepted, non-final fragment: a slow but progressing
//! multi-fragment read never times out globally, while each single fragment
//! must arrive within the configured window.

use vstd::prelude::*;

verus! {

/// A deadline check fires exactly when the current instant has reached the
/// deadline.
pub open spec fn expired_spec(deadline: int, now: int) -> bool {
    now >= deadline
}

/// An absolute instant, in milliseconds of some monotonic clock, by which
/// the next fragment must arrive.
#[derive(Copy, Clone, PartialEq, Eq, Structural, Debug)]
pub struct Deadline {
    at_ms: u64,
}

impl Deadline {
    /// The instant the deadline falls on.
    pub closed spec fn at_spec(self) -> int {
        self.at_ms as int
    }

    /// The deadline one timeout window after `now_ms`.
    pub fn after(now_ms: u64, timeout_ms: u64) -> (r: Self)
        requires
            now_ms + timeout_ms <= u64::MAX,
        ensures
            r.at_spec() == now_ms + timeout_ms,
    {
        Deadline { at_ms: now_ms + timeout_ms }
    }

    /// Recomputes the deadline from a fragment's arrival time: one fresh
    /// timeout window from `now_ms`.
    pub fn restart(&mut self, now_ms: u64, timeout_ms: u64)
        requires
            now_ms + timeout_ms <= u64::MAX,
        ensures
            final(self).at_spec() == now_ms + timeout_ms,
    {
        self.at_ms = now_ms + timeout_ms;
    }

    /// True when the deadline has been reached.
    pub fn expired(&self, now_ms: u64) -> (r: bool)
        ensures
            r == expired_spec(self.at_spec(), now_ms as int),
    {
        now_ms >= self.at_ms
    }

    /// The instant the deadline falls on, in milliseconds.
    pub fn at_ms(&self) -> (r: u64)
        ensures
            r as int == self.at_spec(),
    {
        self.at_ms
    }
}

/// The deadline in force when the `i`-th fragment arrives: one timeout
/// window after the start of the exchange for the first fragment, and one
/// window after the previous fragment's arrival for every later one.
pub open spec fn deadline_before(start: int, timeout: int, arrivals: Seq<int>, i: int) -> int {
    if i == 0 {
        start + timeout
    } else {
        arrivals[i - 1] + timeout
    }
}

/// Law: when every fragment arrives strictly before the deadline in force at
/// its arrival — each recomputed from the previous fragment's arrival, not
/// from the start of the exchange — no deadline check fires, and yet the
/// `i`-th fragment may arrive as late as `i + 1` whole timeout windows after
/// the start: the total elapsed time of a progressing multi-fragment
/// exchange may exceed the single-fragment timeout without failure.
pub proof fn lemma_no_timeout_with_progress(start: int, timeout: int, arrivals: Seq<int>)
    requires
        timeout >= 0,
        forall|i: int|
            0 <= i < arrivals.len() ==> arrivals[i] < deadline_before(start, timeout, arrivals, i),
    ensures
        forall|i: int|
            0 <= i < arrivals.len() ==> !expired_spec(
                deadline_before(start, timeout, arrivals, i),
                arrivals[i],
            ),
        forall|i: int| 0 <= i < arrivals.len() ==> arrivals[i] < start + (i + 1) * timeout,
    decreases arrivals.len(),
{
    if arrivals.len() > 0 {
        let prefix = arrivals.take(arrivals.len() as int - 1);
        assert forall|i: int| 0 <= i < prefix.len() implies prefix[i] < deadline_before(
            start,
            timeout,
            prefix,
            i,
        ) by {
            assert(arrivals[i] < deadline_before(start, timeout, arrivals, i));
        }
        lemma_no_timeout_with_progress(start, timeout, prefix);
        let last = arrivals.len() as int - 1;
        assert forall|i: int| 0 <= i < arrivals.len() implies arrivals[i] < start + (i + 1)
            * timeout by {
            if i < last {
                assert(prefix[i] == arrivals[i]);
                assert(prefix[i] < start + (i + 1) * timeout);
            } else {
                assert(i == last);
                if last == 0 {
                    assert(arrivals[i] < start + timeout);
                    assert(start + timeout == start + (i + 1) * timeout) by (nonlinear_arith)
                        requires
                            i == 0,
                    ;
                } else {
                    assert(prefix[last - 1] == arrivals[last - 1]);
                    assert(prefix[last - 1] < start + ((last - 1) + 1) * timeout);
                    assert(arrivals[last] < arrivals[last - 1] + timeout);
                    assert(start + ((last - 1) + 1) * timeout + timeout == start + (last + 1)
                        * timeout) by (nonlinear_arith);
                }
            }
        }
    }
}

} // verus!
