use tcp_server::payload::PayloadCell;

#[test]
fn fresh_cell_holds_empty_buffer() {
    let cell = PayloadCell::new();
    assert_eq!(cell.current().len(), 0);
}

#[test]
fn publish_replaces_buffer_wholesale() {
    let mut cell = PayloadCell::new();
    cell.publish(vec![9, 8, 7]);
    assert_eq!(cell.current().as_slice(), &[9, 8, 7]);
}

#[test]
fn latest_wins_over_earlier_publication() {
    let mut cell = PayloadCell::new();
    cell.publish(vec![1, 1, 1]);
    cell.publish(vec![2, 2]);
    assert_eq!(cell.current().as_slice(), &[2, 2]);
    assert_eq!(cell.current().as_slice(), &[2, 2]);
}
