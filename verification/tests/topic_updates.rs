use achat::topic::announce_tick;
use achat::topic::uptime_message;
use achat::topic::Topic;
use achat::topic::TopicClosed;
use achat::topic::TopicWatcher;
use tokio::sync::watch;

#[test]
fn announces_time() {
    assert_eq!(uptime_message(0, 1), "Up for 0s.");
    assert_eq!(uptime_message(1, 1), "Up for 1s.");
    assert_eq!(uptime_message(2, 1), "Up for 2s.");
}

#[test]
fn uptime_scales_with_the_period() {
    assert_eq!(uptime_message(0, 10), "Up for 0s.");
    assert_eq!(uptime_message(3, 10), "Up for 30s.");
    assert_eq!(uptime_message(12, 60), "Up for 720s.");
    assert_eq!(uptime_message(1, 1000000), "Up for 1000000s.");
}

#[test]
fn announce_tick_feeds_the_watch_channel() {
    let (tx, rx) = watch::channel("initial".to_string());
    let sent = announce_tick(&tx, 0, 1).unwrap();
    assert_eq!(sent, "Up for 0s.");
    assert_eq!(*rx.borrow(), "Up for 0s.");

    let sent = announce_tick(&tx, 1, 1).unwrap();
    assert_eq!(sent, "Up for 1s.");
    assert_eq!(*rx.borrow(), "Up for 1s.");
}

#[test]
fn announce_tick_stops_when_all_watchers_are_gone() {
    let (tx, rx) = watch::channel("initial".to_string());
    drop(rx);
    assert_eq!(announce_tick(&tx, 0, 1), Err(TopicClosed));
}

#[test]
fn updates_coalesce_to_the_latest_value() {
    // Setting "a" then "b" before the watcher checks in delivers only "b".
    let mut topic = Topic::new("initial".to_string());
    let mut watcher = TopicWatcher::new(&topic);
    topic.set("a".to_string());
    topic.set("b".to_string());
    assert_eq!(watcher.check(&topic), Some("b".to_string()));
    // The change is observed exactly once.
    assert_eq!(watcher.check(&topic), None);
}

#[test]
fn initial_topic_value_is_not_a_change() {
    let topic = Topic::new("Discarded initial topic".to_string());
    let mut watcher = TopicWatcher::new(&topic);
    assert_eq!(watcher.check(&topic), None);
}

#[test]
fn each_watcher_sees_its_own_changes() {
    let mut topic = Topic::new("initial".to_string());
    let mut w1 = TopicWatcher::new(&topic);
    topic.set("hello".to_string());
    let mut w2 = TopicWatcher::new(&topic);
    assert_eq!(w1.check(&topic), Some("hello".to_string()));
    assert_eq!(w2.check(&topic), None);
    topic.set("teapot".to_string());
    assert_eq!(w1.check(&topic), Some("teapot".to_string()));
    assert_eq!(w2.check(&topic), Some("teapot".to_string()));
}
