//! The per-connection handler state machine.
//!
//! A handler owns one admitted connection. It idles until the readiness
//! signal wakes it, then races a write attempt, a read attempt and the
//! shutdown watch; exactly one of the three completes per iteration. The
//! loop continues while writes complete and reads return data; it closes on
//! end-of-stream, on an I/O error, or on the shutdown signal. Closing is
//! terminal: the admission permit is released and the completion-channel
//! clone is dropped, each exactly once, whatever the exit path was.

use vstd::prelude::*;

verus! {

/// The handler's phase: waiting for a readiness wake, racing the three
/// attempts after a wake, or terminated.
pub enum HandlerPhase {
    Idle,
    Racing,
    Closing,
}

/// Which of the raced attempts completed first in one iteration. The other
/// two are abandoned for that iteration and re-issued on the next wake.
pub enum RaceOutcome {
    /// The write attempt completed: the current shared payload was re-sent.
    WriteCompleted,
    /// The read attempt completed with `bytes` bytes; zero bytes means the
    /// peer closed its end of the stream.
    ReadCompleted { bytes: usize },
    /// The read or the write attempt reported an I/O error.
    IoFailed,
    /// The shutdown broadcast was observed.
    ShutdownSignaled,
}

/// Why a handler terminated; local to the handler, never propagated to the
/// listener or to other handlers.
pub enum ExitReason {
    /// Clean peer disconnect: the read returned zero bytes. Not an error.
    PeerClosed,
    /// A read or write failed; logged, nothing retried.
    IoError,
    /// The process-wide shutdown broadcast fired.
    ShutdownRequested,
}

/// What the driver owes after one race iteration. On a transition into
/// `Closing` the admission permit is released and the completion-channel
/// clone is dropped, both exactly once; otherwise the loop goes on.
pub struct StepEffects {
    pub release_permit: bool,
    pub drop_completion: bool,
    pub keep_running: bool,
    pub exit_reason: Option<ExitReason>,
}

/// Where one race outcome sends a racing handler: writes and non-empty
/// reads lead back to `Idle`; end-of-stream, I/O errors and the shutdown
/// signal are terminal.
pub open spec fn race_step(outcome: RaceOutcome) -> HandlerPhase {
    match outcome {
        RaceOutcome::WriteCompleted => HandlerPhase::Idle,
        RaceOutcome::ReadCompleted { bytes } => if bytes == 0 {
            HandlerPhase::Closing
        } else {
            HandlerPhase::Idle
        },
        RaceOutcome::IoFailed => HandlerPhase::Closing,
        RaceOutcome::ShutdownSignaled => HandlerPhase::Closing,
    }
}

/// The reason a terminal outcome carries; continuing outcomes carry none.
pub open spec fn exit_reason_of(outcome: RaceOutcome) -> Option<ExitReason> {
    match outcome {
        RaceOutcome::WriteCompleted => None,
        RaceOutcome::ReadCompleted { bytes } => if bytes == 0 {
            Some(ExitReason::PeerClosed)
        } else {
            None
        },
        RaceOutcome::IoFailed => Some(ExitReason::IoError),
        RaceOutcome::ShutdownSignaled => Some(ExitReason::ShutdownRequested),
    }
}

/// One full iteration seen from any phase: a closed handler stays closed
/// and races no more; an idle handler is woken and then races the outcome.
pub open spec fn iter_step(phase: HandlerPhase, outcome: RaceOutcome) -> HandlerPhase {
    match phase {
        HandlerPhase::Closing => HandlerPhase::Closing,
        _ => race_step(outcome),
    }
}

/// The phase a fresh handler is in after the given sequence of race
/// outcomes, one per wake.
pub open spec fn phase_after(trace: Seq<RaceOutcome>) -> HandlerPhase
    decreases trace.len(),
{
    if trace.len() == 0 {
        HandlerPhase::Idle
    } else {
        iter_step(phase_after(trace.drop_last()), trace.last())
    }
}

/// Whether one iteration releases the permit: exactly the iterations that
/// move the handler into `Closing`.
pub open spec fn releases_in_step(phase: HandlerPhase, outcome: RaceOutcome) -> nat {
    if phase is Closing {
        0
    } else if race_step(outcome) is Closing {
        1
    } else {
        0
    }
}

/// How many permit releases a fresh handler performs over the given
/// sequence of race outcomes.
pub open spec fn releases_after(trace: Seq<RaceOutcome>) -> nat
    decreases trace.len(),
{
    if trace.len() == 0 {
        0
    } else {
        releases_after(trace.drop_last()) + releases_in_step(
            phase_after(trace.drop_last()),
            trace.last(),
        )
    }
}

/// The per-connection handler: the verified control state of one admitted
/// connection's task, together with the run that brought it here.
pub struct ConnHandler {
    pub phase: HandlerPhase,
    pub trace: Ghost<Seq<RaceOutcome>>,
}

impl ConnHandler {
    /// The handler's phase is the one its run prescribes; while it races,
    /// the current iteration's outcome is still in flight.
    pub open spec fn wf(self) -> bool {
        if self.phase is Racing {
            phase_after(self.trace@) is Idle
        } else {
            self.phase == phase_after(self.trace@)
        }
    }

    /// A freshly spawned handler waits for its first readiness wake.
    pub fn new() -> (h: ConnHandler)
        ensures
            h.wf(),
            h.phase is Idle,
            h.trace@ == Seq::<RaceOutcome>::empty(),
    {
        ConnHandler { phase: HandlerPhase::Idle, trace: Ghost(Seq::empty()) }
    }

    /// A readiness wake moves an idle handler into the race.
    pub fn wake(&mut self)
        requires
            old(self).wf(),
            old(self).phase is Idle,
        ensures
            final(self).wf(),
            final(self).phase is Racing,
            final(self).trace@ == old(self).trace@,
    {
        self.phase = HandlerPhase::Racing;
    }

    /// React to the one raced attempt that completed this iteration. The
    /// returned effects tell the driver whether to loop again or to tear
    /// the connection down; the permit release and the completion-clone
    /// drop are owed exactly on the transition into `Closing`.
    pub fn on_race(&mut self, outcome: RaceOutcome) -> (effects: StepEffects)
        requires
            old(self).wf(),
            old(self).phase is Racing,
        ensures
            final(self).wf(),
            final(self).trace@ == old(self).trace@.push(outcome),
            final(self).phase == race_step(outcome),
            effects.release_permit <==> race_step(outcome) is Closing,
            effects.drop_completion <==> race_step(outcome) is Closing,
            effects.keep_running <==> race_step(outcome) is Idle,
            effects.exit_reason == exit_reason_of(outcome),
            effects.release_permit ==> releases_after(final(self).trace@) == releases_after(
                old(self).trace@,
            ) + 1,
            !effects.release_permit ==> releases_after(final(self).trace@) == releases_after(
                old(self).trace@,
            ),
    {
        proof {
            lemma_phase_after_push(self.trace@, outcome);
        }
        self.trace = Ghost(self.trace@.push(outcome));
        let closing: bool = match outcome {
            RaceOutcome::WriteCompleted => false,
            RaceOutcome::ReadCompleted { bytes } => bytes == 0,
            RaceOutcome::IoFailed => true,
            RaceOutcome::ShutdownSignaled => true,
        };
        let reason: Option<ExitReason> = match outcome {
            RaceOutcome::WriteCompleted => None,
            RaceOutcome::ReadCompleted { bytes } => if bytes == 0 {
                Some(ExitReason::PeerClosed)
            } else {
                None
            },
            RaceOutcome::IoFailed => Some(ExitReason::IoError),
            RaceOutcome::ShutdownSignaled => Some(ExitReason::ShutdownRequested),
        };
        if closing {
            self.phase = HandlerPhase::Closing;
        } else {
            self.phase = HandlerPhase::Idle;
        }
        StepEffects {
            release_permit: closing,
            drop_completion: closing,
            keep_running: !closing,
            exit_reason: reason,
        }
    }
}

/// Extending a run by one iteration steps the phase once.
pub proof fn lemma_phase_after_push(trace: Seq<RaceOutcome>, outcome: RaceOutcome)
    ensures
        phase_after(trace.push(outcome)) == iter_step(phase_after(trace), outcome),
        releases_after(trace.push(outcome)) == releases_after(trace) + releases_in_step(
            phase_after(trace),
            outcome,
        ),
{
    assert(trace.push(outcome).drop_last() =~= trace);
    assert(trace.push(outcome).last() == outcome);
}

/// Permit release happens exactly once per connection: over every possible
/// run of a handler, the permit is released exactly once if the run has
/// terminated — whether by peer close, by I/O error or by shutdown — and
/// not at all while the handler still runs. A permit is never leaked and
/// never given back twice.
pub proof fn lemma_single_release(trace: Seq<RaceOutcome>)
    ensures
        phase_after(trace) is Closing ==> releases_after(trace) == 1,
        !(phase_after(trace) is Closing) ==> releases_after(trace) == 0,
    decreases trace.len(),
{
    if trace.len() > 0 {
        lemma_single_release(trace.drop_last());
    }
}

/// The same, of the executable handler: a handler that has reached
/// `Closing` performed exactly one permit release over its whole run, and
/// one that is still live performed none.
pub proof fn lemma_handler_releases_once(h: ConnHandler)
    requires
        h.wf(),
    ensures
        h.phase is Closing ==> releases_after(h.trace@) == 1,
        h.phase is Idle ==> releases_after(h.trace@) == 0,
{
    lemma_single_release(h.trace@);
}

} // verus!
