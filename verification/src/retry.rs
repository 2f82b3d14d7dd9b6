//! The retry discipline of task submission: exponential back-off under a
//! total elapsed-time budget. The policy only decides; the driver performs
//! the attempts, measures elapsed time, and sleeps for the granted delays.

use vstd::prelude::*;

verus! {

/// The delay before the first retry, in milliseconds.
pub const INITIAL_INTERVAL_MS: u64 = 500;

/// The largest single delay between two attempts, in milliseconds.
pub const MAX_INTERVAL_MS: u64 = 60000;

/// The total elapsed-time budget: once it is spent, the next failure is
/// surfaced to the caller instead of being retried.
pub const MAX_ELAPSED_MS: u64 = 60000;

/// What to do after a failed attempt: sleep for the given delay and try
/// again, or give up and surface the failure.
#[derive(Clone, Copy, Debug, PartialEq, Eq)]
pub enum RetryDecision {
    RetryAfter(u64),
    GiveUp,
}

/// The policy's whole state: the delay the next retry would get.
#[derive(Clone, Copy, Debug)]
pub struct RetryPolicy {
    pub next_interval_ms: u64,
}

/// The next delay grows half again as long, up to the largest single delay.
pub open spec fn spec_grow(interval: int) -> int {
    if interval + interval / 2 > MAX_INTERVAL_MS {
        MAX_INTERVAL_MS as int
    } else {
        interval + interval / 2
    }
}

/// One consultation of the policy after a failure observed `elapsed` ms into
/// the run: retry with the pending delay while it still fits the budget,
/// else give up with the policy unchanged.
pub open spec fn spec_step(p: RetryPolicy, elapsed: int) -> (RetryDecision, RetryPolicy) {
    if elapsed + p.next_interval_ms > MAX_ELAPSED_MS {
        (RetryDecision::GiveUp, p)
    } else {
        (
            RetryDecision::RetryAfter(p.next_interval_ms),
            RetryPolicy { next_interval_ms: spec_grow(p.next_interval_ms as int) as u64 },
        )
    }
}

/// The decisions of a whole run: failures observed at the given elapsed
/// instants, each consulting the policy left by the one before.
pub open spec fn spec_decisions(p: RetryPolicy, elapsed: Seq<int>) -> Seq<RetryDecision>
    decreases elapsed.len(),
{
    if elapsed.len() == 0 {
        Seq::empty()
    } else {
        let (d, q) = spec_step(p, elapsed[0]);
        seq![d] + spec_decisions(q, elapsed.drop_first())
    }
}

impl RetryPolicy {
    /// The delay never collapses to nothing and never passes the cap.
    pub open spec fn wf(self) -> bool {
        1 <= self.next_interval_ms <= MAX_INTERVAL_MS
    }

    /// A fresh policy: the first retry would wait half a second.
    pub fn new() -> (p: Self)
        ensures
            p.wf(),
            p.next_interval_ms == INITIAL_INTERVAL_MS,
    {
        RetryPolicy { next_interval_ms: INITIAL_INTERVAL_MS }
    }

    /// Consults the policy after a failed attempt, `elapsed_ms` milliseconds
    /// after the first attempt began.
    pub fn on_failure(&mut self, elapsed_ms: u64) -> (d: RetryDecision)
        requires
            old(self).wf(),
        ensures
            final(self).wf(),
            (d, *final(self)) == spec_step(*old(self), elapsed_ms as int),
    {
        if elapsed_ms >= MAX_ELAPSED_MS || self.next_interval_ms > MAX_ELAPSED_MS - elapsed_ms {
            RetryDecision::GiveUp
        } else {
            let w = self.next_interval_ms;
            let grown = if w + w / 2 > MAX_INTERVAL_MS {
                MAX_INTERVAL_MS
            } else {
                w + w / 2
            };
            self.next_interval_ms = grown;
            RetryDecision::RetryAfter(w)
        }
    }
}

/// Growing the delay keeps it within its bounds.
proof fn lemma_grow_wf(p: RetryPolicy, elapsed: int)
    requires
        p.wf(),
    ensures
        spec_step(p, elapsed).1.wf(),
{
}

/// The budget law of the retry discipline, for any run of failures: the
/// driver makes the first attempt before ever consulting the policy, so a
/// run attempts at least once; every granted sleep finishes within the
/// sixty-second budget; and a failure observed at or past the budget is
/// never retried but surfaced at once as terminal.
pub proof fn lemma_retry_budget(p: RetryPolicy, elapsed: Seq<int>)
    requires
        p.wf(),
    ensures
        spec_decisions(p, elapsed).len() == elapsed.len(),
        forall|i: int|
            0 <= i < elapsed.len() ==> (#[trigger] spec_decisions(p, elapsed)[i] matches
            RetryDecision::RetryAfter(w) ==> elapsed[i] + w <= MAX_ELAPSED_MS),
        forall|i: int|
            0 <= i < elapsed.len() && elapsed[i] >= MAX_ELAPSED_MS ==> #[trigger] spec_decisions(
                p,
                elapsed,
            )[i] == RetryDecision::GiveUp,
    decreases elapsed.len(),
{
    if elapsed.len() > 0 {
        let (d, q) = spec_step(p, elapsed[0]);
        lemma_grow_wf(p, elapsed[0]);
        lemma_retry_budget(q, elapsed.drop_first());
        let ds = spec_decisions(p, elapsed);
        let rest = spec_decisions(q, elapsed.drop_first());
        assert forall|i: int| 0 <= i < elapsed.len() implies (#[trigger] ds[i] matches
            RetryDecision::RetryAfter(w) ==> elapsed[i] + w <= MAX_ELAPSED_MS) by {
            if i > 0 {
                assert(ds[i] == rest[i - 1]);
                assert(elapsed.drop_first()[i - 1] == elapsed[i]);
            }
        }
        assert forall|i: int| 0 <= i < elapsed.len() && elapsed[i] >= MAX_ELAPSED_MS implies #[trigger] ds[i]
            == RetryDecision::GiveUp by {
            if i > 0 {
                assert(ds[i] == rest[i - 1]);
                assert(elapsed.drop_first()[i - 1] == elapsed[i]);
            }
        }
    }
}

} // verus!
