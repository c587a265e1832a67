use ingress_proxy::fanout::{Fanout, RecvOutcome};

#[test]
fn publish_counts_every_subscriber_under_capacity() {
    // three subscribers, capacity 16: publishing fewer than 16 events with
    // nobody reading still reaches all three every time
    let mut fan = Fanout::new(16);
    let a = fan.subscribe();
    let b = fan.subscribe();
    let c = fan.subscribe();
    for i in 0..15 {
        let event = format!("event-{}", i);
        assert_eq!(fan.publish(&event), 3);
    }
    // each subscriber sees its own events in publish order
    for h in [a, b, c] {
        assert_eq!(fan.recv(h), RecvOutcome::Event("event-0".to_string()));
        assert_eq!(fan.recv(h), RecvOutcome::Event("event-1".to_string()));
    }
}

#[test]
fn publish_with_no_subscribers_delivers_zero() {
    let mut fan = Fanout::new(16);
    assert_eq!(fan.publish("nobody home"), 0);
}

#[test]
fn saturated_subscriber_lags_instead_of_blocking() {
    let mut fan = Fanout::new(2);
    let h = fan.subscribe();
    assert_eq!(fan.publish("one"), 1);
    assert_eq!(fan.publish("two"), 1);
    // the queue is full: this subscriber misses the next two events
    assert_eq!(fan.publish("three"), 0);
    assert_eq!(fan.publish("four"), 0);
    // the lag report comes before the events that did fit, and says how many were missed
    assert_eq!(fan.recv(h), RecvOutcome::Lagged(2));
    assert_eq!(fan.recv(h), RecvOutcome::Event("one".to_string()));
    assert_eq!(fan.recv(h), RecvOutcome::Event("two".to_string()));
    assert_eq!(fan.recv(h), RecvOutcome::Empty);
}

#[test]
fn count_follows_subscribers_that_have_not_lagged() {
    let mut fan = Fanout::new(1);
    let fast = fan.subscribe();
    let _slow = fan.subscribe();
    assert_eq!(fan.publish("a"), 2);
    // the fast subscriber reads, the slow one does not
    assert_eq!(fan.recv(fast), RecvOutcome::Event("a".to_string()));
    // now only the fast subscriber has room
    assert_eq!(fan.publish("b"), 1);
}

#[test]
fn unsubscribe_releases_the_slot() {
    let mut fan = Fanout::new(4);
    let a = fan.subscribe();
    let b = fan.subscribe();
    assert_eq!(fan.publish("x"), 2);
    fan.unsubscribe(a);
    assert_eq!(fan.publish("y"), 1);
    assert_eq!(fan.recv(a), RecvOutcome::Closed);
    assert_eq!(fan.recv(b), RecvOutcome::Event("x".to_string()));
    assert_eq!(fan.recv(b), RecvOutcome::Event("y".to_string()));
}
