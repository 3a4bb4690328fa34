use ferrischat_ws::channel::{BoundedChannel, DIRECT_CHANNEL_CAPACITY, PushError, Received};
use ferrischat_ws::registry::ConnectionRegistry;

#[test]
fn push_beyond_capacity_fails_at_once() {
    let mut ch: BoundedChannel<u32> = BoundedChannel::direct();
    assert_eq!(ch.capacity(), 250);
    assert_eq!(DIRECT_CHANNEL_CAPACITY, 250);
    for i in 0..250u32 {
        assert!(ch.push(i).is_ok());
    }
    assert!(ch.is_full());
    match ch.push(250) {
        Err(PushError::Full(x)) => assert_eq!(x, 250),
        other => panic!("expected a full channel, got {:?}", other),
    }
    assert_eq!(ch.len(), 250);
}

#[test]
fn two_producers_overflow_slow_consumer() {
    let mut ch: BoundedChannel<(u8, u32)> = BoundedChannel::direct();
    let mut accepted = 0;
    let mut refused = 0;
    for i in 0..200u32 {
        for producer in 0..2u8 {
            match ch.push((producer, i)) {
                Ok(()) => accepted += 1,
                Err(PushError::Full(_)) => refused += 1,
                Err(PushError::Closed(_)) => panic!("channel closed"),
            }
        }
    }
    assert_eq!(accepted, 250);
    assert_eq!(refused, 150);
    match ch.pop() {
        Received::Item(x) => assert_eq!(x, (0, 0)),
        _ => panic!("expected an item"),
    }
    assert!(ch.push((9, 9)).is_ok());
    assert!(ch.push((9, 10)).is_err());
}

#[test]
fn items_come_out_in_order() {
    let mut ch: BoundedChannel<u32> = BoundedChannel::new(3);
    ch.push(1).unwrap();
    ch.push(2).unwrap();
    ch.push(3).unwrap();
    for expected in 1..=3 {
        match ch.pop() {
            Received::Item(x) => assert_eq!(x, expected),
            _ => panic!("expected an item"),
        }
    }
    assert!(matches!(ch.pop(), Received::Empty));
}

#[test]
fn torn_down_receiver_refuses_pushes() {
    let mut ch: BoundedChannel<u32> = BoundedChannel::new(2);
    ch.push(1).unwrap();
    ch.close_receiver();
    assert_eq!(ch.len(), 0);
    match ch.push(5) {
        Err(PushError::Closed(x)) => assert_eq!(x, 5),
        other => panic!("expected a closed channel, got {:?}", other),
    }
}

#[test]
fn owner_close_is_seen_after_drain() {
    let mut ch: BoundedChannel<u32> = BoundedChannel::new(2);
    ch.push(1).unwrap();
    ch.close_senders();
    assert!(matches!(ch.push(2), Err(PushError::Closed(2))));
    assert!(matches!(ch.pop(), Received::Item(1)));
    assert!(matches!(ch.pop(), Received::Closed));
}

#[test]
fn registry_register_lookup_unregister() {
    let mut r = ConnectionRegistry::new();
    assert_eq!(r.lookup(1), None);
    r.register(1, 10);
    r.register(2, 10);
    r.register(3, 30);
    assert_eq!(r.lookup(1), Some(10));
    assert_eq!(r.lookup(2), Some(10));
    assert_eq!(r.len(), 3);
    r.register(3, 31);
    assert_eq!(r.lookup(3), Some(31));
    r.unregister(1);
    assert_eq!(r.lookup(1), None);
    assert_eq!(r.lookup(2), Some(10));
    r.unregister(1);
    assert_eq!(r.len(), 2);
}
