//! The listener's accept-retry policy: exponential backoff on transient
//! accept errors.
//!
//! Each attempt to accept a connection starts a fresh backoff at one time
//! unit. After every failure the loop sleeps for the current backoff and
//! doubles it; once the backoff exceeds the ceiling the listener gives up
//! and surfaces a fatal error instead of retrying forever. The total delay
//! wasted on one persistently failing accept is therefore bounded by one
//! ceiling-worth of doublings: `2 * BACKOFF_CEILING - 1` time units.

use vstd::prelude::*;

verus! {

/// The initial retry delay, in time units.
pub const BACKOFF_START: u64 = 1;

/// The retry loop gives up once the next delay would exceed this many time
/// units.
pub const BACKOFF_CEILING: u64 = 64;

/// The retry state of one accept attempt: the delay the next failure will
/// cost.
pub struct AcceptBackoff {
    pub backoff: u64,
}

/// What the driver must do after a failed accept.
pub enum AcceptDecision {
    /// Transient: sleep for `delay` time units, then try again.
    Retry { delay: u64 },
    /// Persistent: surface a fatal error; the listener is unusable.
    GiveUp,
}

/// How one failure moves the backoff state: beyond the ceiling it is left
/// as it is (the loop has given up); otherwise the delay doubles.
pub open spec fn failure_step(b: AcceptBackoff) -> AcceptBackoff {
    if b.backoff > BACKOFF_CEILING {
        b
    } else {
        AcceptBackoff { backoff: (2 * b.backoff) as u64 }
    }
}

/// The backoff state after `n` consecutive failures of a fresh attempt.
pub open spec fn backoff_after(n: nat) -> AcceptBackoff
    decreases n,
{
    if n == 0 {
        AcceptBackoff { backoff: BACKOFF_START }
    } else {
        failure_step(backoff_after((n - 1) as nat))
    }
}

/// The total delay slept over `n` consecutive failures of a fresh attempt;
/// a failure past the ceiling sleeps nothing, since the loop has given up.
pub open spec fn total_retry_delay(n: nat) -> int
    decreases n,
{
    if n == 0 {
        0
    } else {
        total_retry_delay((n - 1) as nat) + (if backoff_after((n - 1) as nat).backoff
            <= BACKOFF_CEILING {
            backoff_after((n - 1) as nat).backoff as int
        } else {
            0
        })
    }
}

impl AcceptBackoff {
    /// The backoff never leaves `[BACKOFF_START, 2 * BACKOFF_CEILING]`: it
    /// doubles only while at most the ceiling.
    pub open spec fn wf(self) -> bool {
        BACKOFF_START <= self.backoff <= 2 * BACKOFF_CEILING
    }

    /// A fresh accept attempt starts at the initial delay.
    pub fn new() -> (b: AcceptBackoff)
        ensures
            b.wf(),
            b.backoff == BACKOFF_START,
    {
        AcceptBackoff { backoff: BACKOFF_START }
    }

    /// React to one failed accept. While the backoff is within the ceiling
    /// the decision is to sleep for the current delay and double it; once
    /// it has grown past the ceiling the decision is to give up, and the
    /// state no longer changes.
    pub fn on_failure(&mut self) -> (decision: AcceptDecision)
        requires
            old(self).wf(),
        ensures
            final(self).wf(),
            *final(self) == failure_step(*old(self)),
            old(self).backoff > BACKOFF_CEILING ==> decision is GiveUp && *final(self) == *old(
                self,
            ),
            old(self).backoff <= BACKOFF_CEILING ==> (decision matches AcceptDecision::Retry {
                delay,
            } && delay == old(self).backoff && final(self).backoff == 2 * old(self).backoff),
    {
        if self.backoff > BACKOFF_CEILING {
            AcceptDecision::GiveUp
        } else {
            let delay: u64 = self.backoff;
            self.backoff = 2 * self.backoff;
            AcceptDecision::Retry { delay }
        }
    }
}

/// Once the backoff has passed the ceiling it stays there, and no further
/// delay accumulates: from the seventh failure on, the state is saturated
/// at twice the ceiling and the total slept delay stands at
/// `2 * BACKOFF_CEILING - 1`.
pub proof fn lemma_backoff_saturates(n: nat)
    requires
        n >= 7,
    ensures
        backoff_after(n).backoff == 2 * BACKOFF_CEILING,
        total_retry_delay(n) == 2 * BACKOFF_CEILING - 1,
    decreases n,
{
    if n == 7 {
        assert(backoff_after(0).backoff == 1);
        assert(backoff_after(1).backoff == 2);
        assert(backoff_after(2).backoff == 4);
        assert(backoff_after(3).backoff == 8);
        assert(backoff_after(4).backoff == 16);
        assert(backoff_after(5).backoff == 32);
        assert(backoff_after(6).backoff == 64);
        assert(backoff_after(7).backoff == 128);
        assert(total_retry_delay(0) == 0);
        assert(total_retry_delay(1) == 1);
        assert(total_retry_delay(2) == 3);
        assert(total_retry_delay(3) == 7);
        assert(total_retry_delay(4) == 15);
        assert(total_retry_delay(5) == 31);
        assert(total_retry_delay(6) == 63);
        assert(total_retry_delay(7) == 127);
    } else {
        lemma_backoff_saturates((n - 1) as nat);
    }
}

/// Backoff bound: under persistent accept failure the retry loop does not
/// retry forever. The seventh failure is the last one slept on; by then the
/// backoff has grown past the ceiling, the next failure is answered with
/// `GiveUp`, and the total delay spent retrying never exceeds
/// `2 * BACKOFF_CEILING - 1` time units, however long the failures go on.
pub proof fn lemma_backoff_bound(n: nat)
    ensures
        backoff_after(7).backoff > BACKOFF_CEILING,
        total_retry_delay(7) == 2 * BACKOFF_CEILING - 1,
        total_retry_delay(n) <= 2 * BACKOFF_CEILING - 1,
    decreases n,
{
    lemma_backoff_saturates(7);
    if n >= 7 {
        lemma_backoff_saturates(n);
    } else if n > 0 {
        lemma_backoff_bound((n - 1) as nat);
        if backoff_after((n - 1) as nat).backoff <= BACKOFF_CEILING {
            lemma_delay_tracks_backoff((n - 1) as nat);
        }
    }
}

/// While the backoff is still within the ceiling, the delay already slept
/// is exactly one less than the next delay: the sum `1 + 2 + ... + b/2`
/// is `b - 1`.
proof fn lemma_delay_tracks_backoff(n: nat)
    requires
        backoff_after(n).backoff <= BACKOFF_CEILING,
    ensures
        total_retry_delay(n) == backoff_after(n).backoff - 1,
    decreases n,
{
    if n > 0 {
        assert(backoff_after((n - 1) as nat).backoff <= BACKOFF_CEILING) by {
            if backoff_after((n - 1) as nat).backoff > BACKOFF_CEILING {
                assert(backoff_after(n) == backoff_after((n - 1) as nat));
            }
        }
        lemma_delay_tracks_backoff((n - 1) as nat);
    }
}

} // verus!
