//! The readiness signal: a coalesced, broadcast-style wake notification.
//!
//! `signal` announces "new data exists" to all waiting consumers. If any
//! consumers are parked, one call wakes every one of them; if none are, the
//! call records that the next waiter should proceed immediately. Signals
//! are not queued: any number of calls with no intervening wait collapse
//! into a single pending wake.

use vstd::prelude::*;

verus! {

/// The signal's state: whether a wake is pending for the next waiter, and
/// how many consumers are currently parked on the signal.
pub struct ReadinessSignal {
    pub pending: bool,
    pub parked: u64,
}

/// What one waiter observes when it waits.
pub enum WaitOutcome {
    /// A signal had occurred since the waiter last resumed: proceed at once.
    Woken,
    /// No signal is pending: the waiter parks until the next signal.
    Parked,
}

/// What signalling does: every parked consumer wakes; with nobody parked,
/// the wake is recorded for the next waiter. Nothing is counted or queued.
pub open spec fn signal_spec(s: ReadinessSignal) -> ReadinessSignal {
    if s.parked > 0 {
        ReadinessSignal { pending: s.pending, parked: 0 }
    } else {
        ReadinessSignal { pending: true, parked: 0 }
    }
}

/// What waiting does: a pending wake is consumed and the waiter proceeds;
/// otherwise the waiter parks.
pub open spec fn wait_spec(s: ReadinessSignal) -> (WaitOutcome, ReadinessSignal) {
    if s.pending {
        (WaitOutcome::Woken, ReadinessSignal { pending: false, parked: s.parked })
    } else {
        (WaitOutcome::Parked, ReadinessSignal { pending: false, parked: (s.parked + 1) as u64 })
    }
}

/// The state after `n` successive signals with no intervening wait.
pub open spec fn after_signals(s: ReadinessSignal, n: nat) -> ReadinessSignal
    decreases n,
{
    if n == 0 {
        s
    } else {
        signal_spec(after_signals(s, (n - 1) as nat))
    }
}

impl ReadinessSignal {
    /// A fresh signal: no wake pending, nobody parked.
    pub fn new() -> (s: ReadinessSignal)
        ensures
            !s.pending,
            s.parked == 0,
    {
        ReadinessSignal { pending: false, parked: 0 }
    }

    /// Announce readiness. Returns how many parked consumers this call
    /// woke; when none were parked, the wake stays pending for the next
    /// waiter instead.
    pub fn signal(&mut self) -> (woken: u64)
        ensures
            *final(self) == signal_spec(*old(self)),
            woken == old(self).parked,
    {
        let woken: u64 = self.parked;
        if self.parked > 0 {
            self.parked = 0;
        } else {
            self.pending = true;
        }
        woken
    }

    /// Wait for readiness. The caller proceeds exactly when a signal has
    /// occurred since it last resumed; otherwise it parks, to be woken by
    /// the next signal.
    pub fn wait(&mut self) -> (outcome: WaitOutcome)
        requires
            old(self).parked < u64::MAX,
        ensures
            outcome == wait_spec(*old(self)).0,
            *final(self) == wait_spec(*old(self)).1,
    {
        if self.pending {
            self.pending = false;
            WaitOutcome::Woken
        } else {
            self.parked = self.parked + 1;
            WaitOutcome::Parked
        }
    }
}

/// Broadcast coalescing: any number of successive signals with no
/// intervening wait leave the signal exactly as one signal does, and a
/// consumer that then waits is woken exactly once — its first wait
/// proceeds, and a second wait parks rather than consuming another wake.
pub proof fn lemma_signal_coalescing(s: ReadinessSignal, n: nat)
    requires
        s.parked == 0,
        n >= 1,
    ensures
        after_signals(s, n) == signal_spec(s),
        after_signals(s, n).pending,
        wait_spec(after_signals(s, n)).0 is Woken,
        wait_spec(wait_spec(after_signals(s, n)).1).0 is Parked,
    decreases n,
{
    if n == 1 {
        assert(after_signals(s, 0) == s);
        assert(after_signals(s, 1) == signal_spec(s));
    } else {
        lemma_signal_coalescing(s, (n - 1) as nat);
        assert(after_signals(s, n) == signal_spec(after_signals(s, (n - 1) as nat)));
    }
}

} // verus!
