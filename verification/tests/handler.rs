use tcp_server::handler::{ConnHandler, ExitReason, HandlerPhase, RaceOutcome};

#[test]
fn write_completion_continues_the_loop() {
    let mut h = ConnHandler::new();
    h.wake();
    let fx = h.on_race(RaceOutcome::WriteCompleted);
    assert!(fx.keep_running);
    assert!(!fx.release_permit);
    assert!(!fx.drop_completion);
    assert!(fx.exit_reason.is_none());
    assert!(matches!(h.phase, HandlerPhase::Idle));
}

#[test]
fn read_with_data_continues_the_loop() {
    let mut h = ConnHandler::new();
    h.wake();
    let fx = h.on_race(RaceOutcome::ReadCompleted { bytes: 42 });
    assert!(fx.keep_running);
    assert!(!fx.release_permit);
    assert!(matches!(h.phase, HandlerPhase::Idle));
}

#[test]
fn end_of_stream_closes_and_releases_once() {
    let mut h = ConnHandler::new();
    h.wake();
    let fx = h.on_race(RaceOutcome::ReadCompleted { bytes: 0 });
    assert!(!fx.keep_running);
    assert!(fx.release_permit);
    assert!(fx.drop_completion);
    assert!(matches!(fx.exit_reason, Some(ExitReason::PeerClosed)));
    assert!(matches!(h.phase, HandlerPhase::Closing));
}

#[test]
fn io_error_closes_and_releases_once() {
    let mut h = ConnHandler::new();
    h.wake();
    let fx = h.on_race(RaceOutcome::IoFailed);
    assert!(fx.release_permit);
    assert!(fx.drop_completion);
    assert!(!fx.keep_running);
    assert!(matches!(fx.exit_reason, Some(ExitReason::IoError)));
    assert!(matches!(h.phase, HandlerPhase::Closing));
}

#[test]
fn shutdown_signal_closes_and_releases_once() {
    let mut h = ConnHandler::new();
    h.wake();
    let fx = h.on_race(RaceOutcome::ShutdownSignaled);
    assert!(fx.release_permit);
    assert!(fx.drop_completion);
    assert!(!fx.keep_running);
    assert!(matches!(fx.exit_reason, Some(ExitReason::ShutdownRequested)));
    assert!(matches!(h.phase, HandlerPhase::Closing));
}

#[test]
fn handler_loops_until_a_terminal_outcome() {
    let mut h = ConnHandler::new();
    for _ in 0..3 {
        h.wake();
        let fx = h.on_race(RaceOutcome::WriteCompleted);
        assert!(fx.keep_running);
    }
    h.wake();
    let fx = h.on_race(RaceOutcome::ShutdownSignaled);
    assert!(fx.release_permit);
    assert!(matches!(h.phase, HandlerPhase::Closing));
}
