use tcp_server::listener::{AcceptBackoff, AcceptDecision, BACKOFF_CEILING, BACKOFF_START};

#[test]
fn backoff_doubles_then_gives_up() {
    let mut b = AcceptBackoff::new();
    let mut delays: Vec<u64> = Vec::new();
    loop {
        match b.on_failure() {
            AcceptDecision::Retry { delay } => delays.push(delay),
            AcceptDecision::GiveUp => break,
        }
    }
    assert_eq!(delays, vec![1, 2, 4, 8, 16, 32, 64]);
    let total: u64 = delays.iter().sum();
    assert_eq!(total, 2 * BACKOFF_CEILING - 1);
}

#[test]
fn first_retry_uses_the_starting_delay() {
    let mut b = AcceptBackoff::new();
    match b.on_failure() {
        AcceptDecision::Retry { delay } => assert_eq!(delay, BACKOFF_START),
        AcceptDecision::GiveUp => panic!("gave up on the first failure"),
    }
}

#[test]
fn give_up_is_persistent() {
    let mut b = AcceptBackoff::new();
    for _ in 0..7 {
        assert!(matches!(b.on_failure(), AcceptDecision::Retry { .. }));
    }
    assert!(matches!(b.on_failure(), AcceptDecision::GiveUp));
    assert!(matches!(b.on_failure(), AcceptDecision::GiveUp));
}
