use socks_client::general::ConnectionTimeouts;
use socks_client::general::TransferEvent;

#[test]
fn timeouts_new_keeps_fields() {
    let t = ConnectionTimeouts::new(8000, 7000, 6000);
    assert_eq!(t.connecting_timeout, 8000);
    assert_eq!(t.write_timeout, 7000);
    assert_eq!(t.read_timeout, 6000);
}

#[test]
fn timeouts_clone_is_equal() {
    let t = ConnectionTimeouts::new(1, 2, 3);
    let u = t.clone();
    assert_eq!(t, u);
}

#[test]
fn transfer_event_carries_read_count() {
    let e = TransferEvent::Replied(8);
    assert!(matches!(e, TransferEvent::Replied(8)));
    assert!(matches!(TransferEvent::TimedOut, TransferEvent::TimedOut));
}
