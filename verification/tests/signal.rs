use tcp_server::signal::{ReadinessSignal, WaitOutcome};

#[test]
fn coalesced_signals_wake_exactly_once() {
    let mut s = ReadinessSignal::new();
    for _ in 0..5 {
        let woken: u64 = s.signal();
        assert_eq!(woken, 0);
    }
    assert!(matches!(s.wait(), WaitOutcome::Woken));
    assert!(matches!(s.wait(), WaitOutcome::Parked));
}

#[test]
fn single_signal_wakes_next_waiter() {
    let mut s = ReadinessSignal::new();
    s.signal();
    assert!(matches!(s.wait(), WaitOutcome::Woken));
}

#[test]
fn waiter_parks_without_signal() {
    let mut s = ReadinessSignal::new();
    assert!(matches!(s.wait(), WaitOutcome::Parked));
    assert_eq!(s.parked, 1);
}

#[test]
fn signal_broadcasts_to_all_parked_waiters() {
    let mut s = ReadinessSignal::new();
    assert!(matches!(s.wait(), WaitOutcome::Parked));
    assert!(matches!(s.wait(), WaitOutcome::Parked));
    assert!(matches!(s.wait(), WaitOutcome::Parked));
    let woken: u64 = s.signal();
    assert_eq!(woken, 3);
    assert_eq!(s.parked, 0);
    assert!(!s.pending);
}
