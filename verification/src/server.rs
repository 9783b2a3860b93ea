//! The server's lifecycle model: admission accounting and the two-phase
//! coordinated shutdown.
//!
//! While the server runs, the listener admits a connection by drawing a
//! permit and handing the new handler a clone of the completion-channel
//! sender; a handler's exit gives the permit back and drops its clone.
//! Shutdown is two-phased: whichever of the listener and the external
//! trigger finishes first starts the drain, which drops the coordinator's
//! own sender clone and then waits until the completion channel reports
//! closed — which happens exactly when every handler has exited.

use crate::admission::{acquire_spec, release_spec, AdmissionPool};
use vstd::prelude::*;

verus! {

/// The lifecycle phase of the server as a whole.
pub enum ServerPhase {
    /// Phase one: the listener loop races the external shutdown trigger.
    Running,
    /// Phase two: the shutdown broadcast has fired; waiting for handlers.
    Draining,
    /// Terminal: every handler has exited and the stop call has returned.
    Stopped,
}

/// The verified lifecycle state: the permit pool, the count of live
/// handler tasks, and the count of live completion-channel sender clones
/// (one per live handler, plus the coordinator's own while running).
pub struct ServerModel {
    pub pool: AdmissionPool,
    pub live_handlers: u64,
    pub completion_senders: u64,
    pub phase: ServerPhase,
}

impl ServerModel {
    /// The lifecycle invariant. Each live handler holds exactly one
    /// admission permit and one completion-sender clone; the coordinator
    /// holds one more clone until the drain begins; a stopped server has
    /// no live handler left.
    pub open spec fn wf(self) -> bool {
        &&& self.pool.wf()
        &&& self.pool.capacity <= u16::MAX
        &&& self.pool.outstanding() == self.live_handlers
        &&& self.completion_senders == self.live_handlers + (if self.phase is Running {
            1int
        } else {
            0int
        })
        &&& (self.phase is Stopped ==> self.live_handlers == 0)
    }

    /// A freshly started server: a full pool of the configured size, no
    /// handlers yet, and the coordinator's own completion-sender clone.
    pub fn new(max_clients: u16) -> (server: ServerModel)
        ensures
            server.wf(),
            server.phase is Running,
            server.pool.capacity == max_clients,
            server.live_handlers == 0,
            server.completion_senders == 1,
    {
        ServerModel {
            pool: AdmissionPool::new(max_clients),
            live_handlers: 0,
            completion_senders: 1,
            phase: ServerPhase::Running,
        }
    }

    /// Admit one accepted connection: draw a permit and spawn its handler.
    /// Admission succeeds exactly when a permit is available — when fewer
    /// than `capacity` handlers are live; otherwise nothing changes and
    /// the listener waits for a release before accepting more work.
    pub fn try_admit(&mut self) -> (granted: bool)
        requires
            old(self).wf(),
            old(self).phase is Running,
        ensures
            final(self).wf(),
            final(self).phase is Running,
            final(self).pool.capacity == old(self).pool.capacity,
            granted <==> old(self).live_handlers < old(self).pool.capacity,
            granted ==> final(self).live_handlers == old(self).live_handlers + 1
                && final(self).completion_senders == old(self).completion_senders + 1,
            !granted ==> *final(self) == *old(self),
            *final(self) == event_step(*old(self), ServerEvent::Admit),
    {
        let granted: bool = self.pool.try_acquire();
        if granted {
            self.live_handlers = self.live_handlers + 1;
            self.completion_senders = self.completion_senders + 1;
        }
        granted
    }

    /// One handler has terminated — by peer close, by I/O error or by the
    /// shutdown signal alike: its permit returns to the pool and its
    /// completion-sender clone is dropped, each exactly once.
    pub fn handler_exit(&mut self)
        requires
            old(self).wf(),
            old(self).live_handlers > 0,
        ensures
            final(self).wf(),
            final(self).phase == old(self).phase,
            final(self).pool.capacity == old(self).pool.capacity,
            final(self).live_handlers == old(self).live_handlers - 1,
            final(self).completion_senders == old(self).completion_senders - 1,
            *final(self) == event_step(*old(self), ServerEvent::HandlerExit),
    {
        self.pool.release();
        self.live_handlers = self.live_handlers - 1;
        self.completion_senders = self.completion_senders - 1;
    }

    /// Phase one has ended: the listener loop finished (normally or with a
    /// fatal accept error) or the external shutdown trigger fired. The
    /// coordinator broadcasts the shutdown notice to every live handler
    /// and drops its own completion-sender clone, so that the channel can
    /// close once the handlers are gone.
    pub fn begin_drain(&mut self)
        requires
            old(self).wf(),
            old(self).phase is Running,
        ensures
            final(self).wf(),
            final(self).phase is Draining,
            final(self).pool == old(self).pool,
            final(self).live_handlers == old(self).live_handlers,
            final(self).completion_senders == old(self).completion_senders - 1,
            *final(self) == event_step(*old(self), ServerEvent::BeginDrain),
    {
        self.phase = ServerPhase::Draining;
        self.completion_senders = self.completion_senders - 1;
    }

    /// Poll the completion channel during the drain. It reports closed —
    /// and the server stops — exactly when no sender clone is left, which
    /// is exactly when every handler has exited; until then the stop call
    /// keeps blocking.
    pub fn try_finish(&mut self) -> (stopped: bool)
        requires
            old(self).wf(),
            old(self).phase is Draining,
        ensures
            final(self).wf(),
            stopped <==> old(self).completion_senders == 0,
            stopped <==> old(self).live_handlers == 0,
            stopped ==> final(self).phase is Stopped,
            !stopped ==> *final(self) == *old(self),
            stopped ==> *final(self) == event_step(*old(self), ServerEvent::Finish),
            final(self).pool == old(self).pool,
            final(self).live_handlers == old(self).live_handlers,
            final(self).completion_senders == old(self).completion_senders,
    {
        if self.completion_senders == 0 {
            self.phase = ServerPhase::Stopped;
            true
        } else {
            false
        }
    }

    /// How many handler tasks are currently live.
    pub fn handlers_live(&self) -> (n: u64)
        ensures
            n == self.live_handlers,
    {
        self.live_handlers
    }
}

/// The lifecycle events a run of the server is made of.
pub enum ServerEvent {
    /// The listener admits one accepted connection (or is turned away when
    /// the pool is exhausted).
    Admit,
    /// One live handler terminates, on any of its exit paths.
    HandlerExit,
    /// Phase one ends: the listener finished or the trigger fired.
    BeginDrain,
    /// The completion channel reports closed and the stop call returns.
    Finish,
}

/// When an event can occur.
pub open spec fn event_enabled(s: ServerModel, event: ServerEvent) -> bool {
    match event {
        ServerEvent::Admit => s.phase is Running,
        ServerEvent::HandlerExit => s.live_handlers > 0,
        ServerEvent::BeginDrain => s.phase is Running,
        ServerEvent::Finish => s.phase is Draining && s.completion_senders == 0,
    }
}

/// What an event does to the lifecycle state; exactly what the exec
/// methods do.
pub open spec fn event_step(s: ServerModel, event: ServerEvent) -> ServerModel {
    match event {
        ServerEvent::Admit => if acquire_spec(s.pool).0 {
            ServerModel {
                pool: acquire_spec(s.pool).1,
                live_handlers: (s.live_handlers + 1) as u64,
                completion_senders: (s.completion_senders + 1) as u64,
                phase: s.phase,
            }
        } else {
            s
        },
        ServerEvent::HandlerExit => ServerModel {
            pool: release_spec(s.pool),
            live_handlers: (s.live_handlers - 1) as u64,
            completion_senders: (s.completion_senders - 1) as u64,
            phase: s.phase,
        },
        ServerEvent::BeginDrain => ServerModel {
            pool: s.pool,
            live_handlers: s.live_handlers,
            completion_senders: (s.completion_senders - 1) as u64,
            phase: ServerPhase::Draining,
        },
        ServerEvent::Finish => ServerModel {
            pool: s.pool,
            live_handlers: s.live_handlers,
            completion_senders: s.completion_senders,
            phase: ServerPhase::Stopped,
        },
    }
}

/// The state after a run: the given events applied in order.
pub open spec fn run_steps(s: ServerModel, trace: Seq<ServerEvent>) -> ServerModel
    decreases trace.len(),
{
    if trace.len() == 0 {
        s
    } else {
        event_step(run_steps(s, trace.drop_last()), trace.last())
    }
}

/// Whether every event of the trace is enabled in the state it meets.
pub open spec fn trace_enabled(s: ServerModel, trace: Seq<ServerEvent>) -> bool
    decreases trace.len(),
{
    if trace.len() == 0 {
        true
    } else {
        trace_enabled(s, trace.drop_last()) && event_enabled(
            run_steps(s, trace.drop_last()),
            trace.last(),
        )
    }
}

/// Every enabled event preserves the lifecycle invariant and the pool's
/// capacity.
pub proof fn lemma_step_preserves_wf(s: ServerModel, event: ServerEvent)
    requires
        s.wf(),
        event_enabled(s, event),
    ensures
        event_step(s, event).wf(),
        event_step(s, event).pool.capacity == s.pool.capacity,
{
}

/// Every state reachable by a run of enabled events from a well-formed
/// state is well-formed, with the pool's capacity unchanged.
pub proof fn lemma_run_preserves_wf(s: ServerModel, trace: Seq<ServerEvent>)
    requires
        s.wf(),
        trace_enabled(s, trace),
    ensures
        run_steps(s, trace).wf(),
        run_steps(s, trace).pool.capacity == s.pool.capacity,
    decreases trace.len(),
{
    if trace.len() > 0 {
        lemma_run_preserves_wf(s, trace.drop_last());
        lemma_step_preserves_wf(run_steps(s, trace.drop_last()), trace.last());
    }
}

/// Admission bound over whole runs: starting from a fresh server, however
/// admissions, handler exits and the shutdown steps interleave, at no
/// point of the run are more handler tasks live than the configured
/// capacity — every prefix of a run is itself a run.
pub proof fn lemma_admission_bound_over_runs(s: ServerModel, trace: Seq<ServerEvent>)
    requires
        s.wf(),
        trace_enabled(s, trace),
    ensures
        run_steps(s, trace).live_handlers <= s.pool.capacity,
{
    lemma_run_preserves_wf(s, trace);
}

/// Drain completeness over whole runs: no run of enabled events brings a
/// well-formed server to `Stopped` while a handler task is still live.
pub proof fn lemma_drain_completeness_over_runs(s: ServerModel, trace: Seq<ServerEvent>)
    requires
        s.wf(),
        trace_enabled(s, trace),
    ensures
        run_steps(s, trace).phase is Stopped ==> run_steps(s, trace).live_handlers == 0,
{
    lemma_run_preserves_wf(s, trace);
}

/// Admission bound: in every well-formed lifecycle state — and
/// construction establishes well-formedness, every operation preserves it —
/// no more handler tasks are live than the pool's capacity, however the
/// accepts, exits and shutdown steps interleave.
pub proof fn lemma_admission_bound(server: ServerModel)
    requires
        server.wf(),
    ensures
        server.live_handlers <= server.pool.capacity,
{
}

/// Drain completeness: during the drain the completion channel reports
/// closed exactly when every handler has exited, so the top-level stop
/// call cannot return while a handler task is still live.
pub proof fn lemma_drain_completeness(server: ServerModel)
    requires
        server.wf(),
        !(server.phase is Running),
    ensures
        server.completion_senders == 0 <==> server.live_handlers == 0,
        server.phase is Stopped ==> server.live_handlers == 0,
{
}

} // verus!
