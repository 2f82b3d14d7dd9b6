//! A token-bucket rate limiter with a quota of one permit per second. The
//! limiter itself never fails: it only tells the caller how long to wait
//! before dispatching, and the caller performs the wait.

use vstd::prelude::*;

verus! {

/// The least spacing between two granted permits, in milliseconds.
pub const PERMIT_INTERVAL_MS: u64 = 1000;

/// The limiter's whole state: the earliest instant (in milliseconds on the
/// caller's clock) at which the next permit may be granted.
#[derive(Debug, Clone)]
pub struct RateLimiterState {
    pub next_free_ms: u64,
}

/// The instant at which a permit asked for at `now` is granted, given the
/// earliest allowed instant `next_free`.
pub open spec fn spec_grant(next_free: int, now: int) -> int {
    if now < next_free {
        next_free
    } else {
        now
    }
}

/// The grant instants of a run of permit requests made at the instants
/// `nows`, starting from the earliest allowed instant `next_free`: each
/// grant reserves the following second.
pub open spec fn spec_grants(next_free: int, nows: Seq<int>) -> Seq<int>
    decreases nows.len(),
{
    if nows.len() == 0 {
        Seq::empty()
    } else {
        let g = spec_grant(next_free, nows[0]);
        seq![g] + spec_grants(g + PERMIT_INTERVAL_MS, nows.drop_first())
    }
}

impl RateLimiterState {
    /// A fresh limiter grants its first permit at once.
    pub fn new() -> (s: Self)
        ensures
            s.next_free_ms == 0,
    {
        RateLimiterState { next_free_ms: 0 }
    }

    /// Asks for one permit at instant `now_ms`. Returns how long the caller
    /// must wait before dispatching; the grant instant `now_ms + wait_ms`
    /// reserves the following second.
    pub fn acquire(&mut self, now_ms: u64) -> (wait_ms: u64)
        requires
            old(self).next_free_ms + PERMIT_INTERVAL_MS <= u64::MAX,
            now_ms + PERMIT_INTERVAL_MS <= u64::MAX,
        ensures
            now_ms + wait_ms == spec_grant(old(self).next_free_ms as int, now_ms as int),
            final(self).next_free_ms == spec_grant(old(self).next_free_ms as int, now_ms as int)
                + PERMIT_INTERVAL_MS,
    {
        let grant: u64 = if now_ms < self.next_free_ms {
            self.next_free_ms
        } else {
            now_ms
        };
        let wait = grant - now_ms;
        self.next_free_ms = grant + PERMIT_INTERVAL_MS;
        wait
    }
}

/// A run of requests is granted permit for permit: one grant each.
proof fn lemma_grants_len(next_free: int, nows: Seq<int>)
    ensures
        spec_grants(next_free, nows).len() == nows.len(),
    decreases nows.len(),
{
    if nows.len() > 0 {
        let g = spec_grant(next_free, nows[0]);
        lemma_grants_len(g + PERMIT_INTERVAL_MS, nows.drop_first());
    }
}

/// No grant of a run happens before the earliest allowed instant.
proof fn lemma_grants_not_early(next_free: int, nows: Seq<int>)
    ensures
        forall|i: int|
            0 <= i < nows.len() ==> #[trigger] spec_grants(next_free, nows)[i] >= next_free,
    decreases nows.len(),
{
    if nows.len() > 0 {
        let g = spec_grant(next_free, nows[0]);
        lemma_grants_len(g + PERMIT_INTERVAL_MS, nows.drop_first());
        lemma_grants_not_early(g + PERMIT_INTERVAL_MS, nows.drop_first());
        assert forall|i: int| 0 <= i < nows.len() implies #[trigger] spec_grants(next_free, nows)[i]
            >= next_free by {
            if i > 0 {
                assert(spec_grants(next_free, nows)[i] == spec_grants(
                    g + PERMIT_INTERVAL_MS,
                    nows.drop_first(),
                )[i - 1]);
            }
        }
    }
}

/// The pacing law: over any run of permit requests, grants lie at least one
/// second apart, so no window of one second sees more than one dispatch,
/// however many requests are made and whenever they arrive.
pub proof fn lemma_grants_spaced(next_free: int, nows: Seq<int>)
    ensures
        forall|i: int, j: int|
            0 <= i < j < nows.len() ==> #[trigger] spec_grants(next_free, nows)[j]
                - #[trigger] spec_grants(next_free, nows)[i] >= PERMIT_INTERVAL_MS * (j - i),
    decreases nows.len(),
{
    if nows.len() > 0 {
        let g = spec_grant(next_free, nows[0]);
        let rest = nows.drop_first();
        lemma_grants_len(g + PERMIT_INTERVAL_MS, rest);
        lemma_grants_spaced(g + PERMIT_INTERVAL_MS, rest);
        lemma_grants_not_early(g + PERMIT_INTERVAL_MS, rest);
        assert forall|i: int, j: int| 0 <= i < j < nows.len() implies #[trigger] spec_grants(
            next_free,
            nows,
        )[j] - #[trigger] spec_grants(next_free, nows)[i] >= PERMIT_INTERVAL_MS * (j - i) by {
            let gs = spec_grants(next_free, nows);
            let grest = spec_grants(g + PERMIT_INTERVAL_MS, rest);
            assert(gs[j] == grest[j - 1]);
            if i == 0 {
                assert(gs[i] == g);
                if j == 1 {
                    assert(grest[0] >= g + PERMIT_INTERVAL_MS);
                } else {
                    assert(grest[j - 1] - grest[0] >= PERMIT_INTERVAL_MS * (j - 1));
                    assert(grest[0] >= g + PERMIT_INTERVAL_MS);
                    assert(PERMIT_INTERVAL_MS * (j - 1) + PERMIT_INTERVAL_MS == PERMIT_INTERVAL_MS
                        * j) by (nonlinear_arith);
                }
            } else {
                assert(gs[i] == grest[i - 1]);
                assert(grest[j - 1] - grest[i - 1] >= PERMIT_INTERVAL_MS * ((j - 1) - (i - 1)));
            }
        }
    }
}

} // verus!
