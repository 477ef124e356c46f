use achat::bus::Bus;
use achat::bus::Received;
use achat::bus::Subscription;
use achat::session::Envelope;
use achat::session::PublishError;

fn env(text: &str, origin: &str) -> Envelope {
    Envelope {
        text: text.to_string(),
        origin: origin.to_string(),
    }
}

#[test]
fn every_live_subscriber_gets_every_publish() {
    let mut bus = Bus::new(16);
    let a = bus.subscribe();
    let b = bus.subscribe();

    assert_eq!(bus.publish(env("a: hello", "a")), Ok(2));

    for h in [a, b] {
        match bus.recv(h) {
            Received::Delivered(e) => {
                assert_eq!(e.text, "a: hello");
                assert_eq!(e.origin, "a");
            }
            other => panic!("expected a delivery, got {:?}", other),
        }
        assert_eq!(bus.recv(h), Received::Empty);
    }
}

#[test]
fn publish_fails_exactly_when_nobody_is_subscribed() {
    let mut bus = Bus::new(16);
    assert_eq!(bus.publish(env("x", "a")), Err(PublishError::NoSubscribers));

    let h = bus.subscribe();
    assert_eq!(bus.publish(env("x", "a")), Ok(1));

    bus.unsubscribe(h);
    assert_eq!(bus.publish(env("y", "a")), Err(PublishError::NoSubscribers));

    // A later subscriber makes publishing good again.
    let _h2 = bus.subscribe();
    assert_eq!(bus.publish(env("z", "a")), Ok(1));
}

#[test]
fn a_subscriber_only_sees_envelopes_published_after_subscribing() {
    let mut bus = Bus::new(16);
    let early = bus.subscribe();
    bus.publish(env("before", "a")).unwrap();
    let late = bus.subscribe();
    bus.publish(env("after", "a")).unwrap();

    match bus.recv(early) {
        Received::Delivered(e) => assert_eq!(e.text, "before"),
        other => panic!("expected a delivery, got {:?}", other),
    }
    match bus.recv(late) {
        Received::Delivered(e) => assert_eq!(e.text, "after"),
        other => panic!("expected a delivery, got {:?}", other),
    }
    assert_eq!(bus.recv(late), Received::Empty);
}

#[test]
fn a_lagging_subscriber_loses_only_its_oldest_entries() {
    let mut sub = Subscription::new(2);
    sub.push(env("one", "a"));
    sub.push(env("two", "a"));
    sub.push(env("three", "a"));

    // The oldest entry made room; the loss is reported once, distinct from
    // a delivery, and receiving then continues with what is left.
    assert_eq!(sub.recv(), Received::Lagged(1));
    match sub.recv() {
        Received::Delivered(e) => assert_eq!(e.text, "two"),
        other => panic!("expected a delivery, got {:?}", other),
    }
    match sub.recv() {
        Received::Delivered(e) => assert_eq!(e.text, "three"),
        other => panic!("expected a delivery, got {:?}", other),
    }
    assert_eq!(sub.recv(), Received::Empty);
}

#[test]
fn a_slow_subscriber_does_not_affect_the_others() {
    let mut bus = Bus::new(1);
    let slow = bus.subscribe();
    let fast = bus.subscribe();

    bus.publish(env("first", "a")).unwrap();
    match bus.recv(fast) {
        Received::Delivered(e) => assert_eq!(e.text, "first"),
        other => panic!("expected a delivery, got {:?}", other),
    }

    bus.publish(env("second", "a")).unwrap();
    // The slow subscriber lagged and lost "first"; the fast one never did.
    assert_eq!(bus.recv(slow), Received::Lagged(1));
    match bus.recv(slow) {
        Received::Delivered(e) => assert_eq!(e.text, "second"),
        other => panic!("expected a delivery, got {:?}", other),
    }
    match bus.recv(fast) {
        Received::Delivered(e) => assert_eq!(e.text, "second"),
        other => panic!("expected a delivery, got {:?}", other),
    }
}

#[test]
fn per_sender_order_is_kept() {
    let mut bus = Bus::new(16);
    let h = bus.subscribe();
    for text in ["x", "y", "z"] {
        bus.publish(env(text, "a")).unwrap();
    }
    let mut seen = Vec::new();
    while let Received::Delivered(e) = bus.recv(h) {
        seen.push(e.text);
    }
    assert_eq!(seen, vec!["x", "y", "z"]);
}
