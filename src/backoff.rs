use vstd::prelude::*;

verus! {

/// Delay handed out first, and again after every reset.
pub const INITIAL_DELAY_SECS: u64 = 1;

/// Upper bound on any delay handed out.
pub const MAX_DELAY_SECS: u64 = 60;

/// The delay that follows `d`: doubled, then capped at the maximum.
pub open spec fn advance(d: nat) -> nat {
    if 2 * d >= MAX_DELAY_SECS {
        MAX_DELAY_SECS as nat
    } else {
        2 * d
    }
}

/// Reconnection delays: a doubling sequence of seconds that saturates at
/// `MAX_DELAY_SECS`, restarted by `reset` whenever the connection is healthy.
pub struct RetrySec {
    sec: u64,
}

impl RetrySec {
    /// The delay that the next call of `next` returns.
    pub closed spec fn current(&self) -> nat {
        self.sec as nat
    }

    pub closed spec fn wf(&self) -> bool {
        INITIAL_DELAY_SECS <= self.sec <= MAX_DELAY_SECS
    }

    pub fn new() -> (r: RetrySec)
        ensures
            r.wf(),
            r.current() == INITIAL_DELAY_SECS,
    {
        RetrySec { sec: INITIAL_DELAY_SECS }
    }

    /// Starts the sequence over from the initial delay.
    pub fn reset(&mut self)
        ensures
            final(self).wf(),
            final(self).current() == INITIAL_DELAY_SECS,
    {
        self.sec = INITIAL_DELAY_SECS;
    }

    /// Returns the current delay and moves on to the following one.
    pub fn next(&mut self) -> (r: u64)
        requires
            old(self).wf(),
        ensures
            final(self).wf(),
            r == old(self).current(),
            INITIAL_DELAY_SECS <= r <= MAX_DELAY_SECS,
            final(self).current() == advance(old(self).current()),
    {
        let r = self.sec;
        if self.sec >= MAX_DELAY_SECS / 2 {
            self.sec = MAX_DELAY_SECS;
        } else {
            self.sec = self.sec * 2;
        }
        r
    }
}

/// A well-formed policy's current delay lies between the initial and the maximum one.
pub proof fn lemma_current_in_range(p: RetrySec)
    requires
        p.wf(),
    ensures
        INITIAL_DELAY_SECS <= p.current() <= MAX_DELAY_SECS,
{
}

/// Advancing never shrinks a delay in range, nor takes it past the maximum.
pub proof fn lemma_advance_in_range(d: nat)
    requires
        INITIAL_DELAY_SECS <= d <= MAX_DELAY_SECS,
    ensures
        d <= advance(d) <= MAX_DELAY_SECS,
{
}

/// The delays returned by `n` calls of `next` in a row, starting from delay `d`.
pub open spec fn delays_from(d: nat, n: nat) -> Seq<nat>
    decreases n,
{
    if n == 0 {
        Seq::empty()
    } else {
        seq![d].add(delays_from(advance(d), (n - 1) as nat))
    }
}

/// Between two resets the delays never shrink, and none exceeds the maximum:
/// every run of `next` calls from a well-formed state returns a non-decreasing
/// sequence bounded by `MAX_DELAY_SECS`.
pub proof fn lemma_delays_monotone_bounded(p: RetrySec, n: nat)
    requires
        p.wf(),
    ensures
        forall|i: int, j: int|
            0 <= i <= j < n ==> #[trigger] delays_from(p.current(), n)[i] <= #[trigger] delays_from(
                p.current(),
                n,
            )[j],
        forall|i: int| 0 <= i < n ==> #[trigger] delays_from(p.current(), n)[i] <= MAX_DELAY_SECS,
        delays_from(p.current(), n).len() == n,
{
    lemma_delays_from(p.current(), n);
}

proof fn lemma_delays_from(d: nat, n: nat)
    requires
        INITIAL_DELAY_SECS <= d <= MAX_DELAY_SECS,
    ensures
        delays_from(d, n).len() == n,
        forall|i: int| 0 <= i < n ==> d <= #[trigger] delays_from(d, n)[i] <= MAX_DELAY_SECS,
        forall|i: int, j: int|
            0 <= i <= j < n ==> #[trigger] delays_from(d, n)[i] <= #[trigger] delays_from(d, n)[j],
    decreases n,
{
    if n > 0 {
        let rest = delays_from(advance(d), (n - 1) as nat);
        lemma_delays_from(advance(d), (n - 1) as nat);
        assert(delays_from(d, n) == seq![d].add(rest));
        assert forall|i: int| 0 <= i < n implies d <= #[trigger] delays_from(d, n)[i]
            <= MAX_DELAY_SECS by {
            if i > 0 {
                assert(delays_from(d, n)[i] == rest[i - 1]);
            }
        }
        assert forall|i: int, j: int|
            0 <= i <= j < n implies #[trigger] delays_from(d, n)[i] <= #[trigger] delays_from(
            d,
            n,
        )[j] by {
            if i > 0 {
                assert(delays_from(d, n)[i] == rest[i - 1]);
                assert(delays_from(d, n)[j] == rest[j - 1]);
            } else {
                if j > 0 {
                    assert(delays_from(d, n)[j] == rest[j - 1]);
                }
            }
        }
    }
}

/// The sequence follows `next` step by step: from a well-formed state,
/// one call returns the head of `delays_from` and leaves its tail.
pub proof fn lemma_next_follows_delays(p: RetrySec, q: RetrySec, r: u64, n: nat)
    requires
        p.wf(),
        n > 0,
        r == p.current(),
        q.current() == advance(p.current()),
    ensures
        delays_from(p.current(), n) == seq![r as nat].add(delays_from(q.current(), (n - 1) as nat)),
{
}

/// After a reset, the next delay is the initial one, whatever came before:
/// any run of `next` calls that starts from a reset state begins with it.
pub proof fn lemma_reset_then_next(p: RetrySec, n: nat)
    requires
        p.current() == INITIAL_DELAY_SECS,
        n > 0,
    ensures
        delays_from(p.current(), n)[0] == INITIAL_DELAY_SECS,
{
    let rest = delays_from(advance(p.current()), (n - 1) as nat);
    assert(delays_from(p.current(), n) == seq![p.current()].add(rest));
}

} // verus!
