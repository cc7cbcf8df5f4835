use ble_lock::channel::HandoffChannel;

#[test]
fn send_into_empty_channel_succeeds() {
    let mut ch = HandoffChannel::new();
    assert!(!ch.has_pending());
    assert_eq!(ch.try_send(b"45".to_vec()), Ok(()));
    assert!(ch.has_pending());
}

#[test]
fn send_into_full_channel_fails_without_overwriting() {
    let mut ch = HandoffChannel::new();
    assert_eq!(ch.try_send(b"45".to_vec()), Ok(()));
    // The second payload is handed back; the first stays untouched.
    assert_eq!(ch.try_send(b"90".to_vec()), Err(b"90".to_vec()));
    assert_eq!(ch.peek().as_slice(), b"45");
    assert_eq!(ch.take(), b"45".to_vec());
}

#[test]
fn taking_frees_the_slot() {
    let mut ch = HandoffChannel::new();
    assert_eq!(ch.try_send(b"45".to_vec()), Ok(()));
    assert_eq!(ch.take(), b"45".to_vec());
    assert!(!ch.has_pending());
    assert_eq!(ch.try_send(b"90".to_vec()), Ok(()));
    assert_eq!(ch.take(), b"90".to_vec());
}
