use tcp_server::server::{ServerModel, ServerPhase};

#[test]
fn third_client_blocks_until_one_disconnects() {
    let mut server = ServerModel::new(2);
    assert!(server.try_admit());
    assert!(server.try_admit());
    assert!(!server.try_admit());
    assert_eq!(server.handlers_live(), 2);
    server.handler_exit();
    assert!(server.try_admit());
    assert_eq!(server.handlers_live(), 2);
}

#[test]
fn admission_never_exceeds_capacity() {
    let mut server = ServerModel::new(4);
    let mut granted: u64 = 0;
    for _ in 0..10 {
        if server.try_admit() {
            granted += 1;
        }
        assert!(server.handlers_live() <= 4);
    }
    assert_eq!(granted, 4);
}

#[test]
fn drain_waits_for_every_handler() {
    let mut server = ServerModel::new(8);
    for _ in 0..3 {
        assert!(server.try_admit());
    }
    server.begin_drain();
    assert!(!server.try_finish());
    server.handler_exit();
    assert!(!server.try_finish());
    server.handler_exit();
    assert!(!server.try_finish());
    server.handler_exit();
    assert!(server.try_finish());
    assert!(matches!(server.phase, ServerPhase::Stopped));
}

#[test]
fn drain_with_no_handlers_stops_at_once() {
    let mut server = ServerModel::new(5);
    server.begin_drain();
    assert!(server.try_finish());
    assert!(matches!(server.phase, ServerPhase::Stopped));
}

#[test]
fn handler_exit_during_drain_frees_a_permit() {
    let mut server = ServerModel::new(1);
    assert!(server.try_admit());
    server.begin_drain();
    assert_eq!(server.handlers_live(), 1);
    server.handler_exit();
    assert_eq!(server.handlers_live(), 0);
    assert!(server.try_finish());
}
