use achat::session::format_announcement;
use achat::session::format_chat_line;
use achat::session::perform_local;
use achat::session::Action;
use achat::session::Envelope;
use achat::session::Event;
use achat::session::Performed;
use achat::session::Phase;
use achat::session::PublishError;
use achat::session::Session;
use tokio::sync::broadcast;
use tokio_util::sync::CancellationToken;

#[test]
fn formats_chat_line() {
    assert_eq!(
        format_chat_line("127.0.0.3:8081", "hello"),
        "127.0.0.3:8081: hello"
    );
    assert_eq!(format_chat_line("a", "hi\r\n"), "a: hi\r\n");
}

#[test]
fn formats_announcement() {
    assert_eq!(format_announcement("hello"), "Announcement: hello\n");
    assert_eq!(format_announcement(""), "Announcement: \n");
}

#[test]
fn broadcasts_message() {
    let (tx, mut rx) = broadcast::channel(16);
    let token = CancellationToken::new();

    let mut session = Session::new("127.0.0.3:8081".to_string());
    let action = session.on_event(Event::Line("hello".to_string()));
    assert_eq!(session.phase, Phase::Active);
    let performed = perform_local(action, &tx, &token).unwrap();
    assert!(matches!(performed, Performed::Published(1)));

    let env = rx.try_recv().unwrap();
    assert_eq!(env.text, "127.0.0.3:8081: hello");
    assert_eq!(env.origin, "127.0.0.3:8081");
}

#[test]
fn receives_message() {
    let mut session = Session::new("127.0.0.3:8081".to_string());
    let action = session.on_event(Event::Delivery(Envelope {
        text: "how's it going".to_string(),
        origin: "127.0.0.1:1234".to_string(),
    }));
    assert_eq!(action, Action::Write("how's it going".to_string()));
    assert_eq!(session.phase, Phase::Active);
}

#[test]
fn never_receives_own_message_back() {
    // Two sessions on one bus: the publisher's own subscription carries the
    // envelope, but its session discards it; the other session writes it
    // out exactly once.
    let (tx, mut rx_a) = broadcast::channel(16);
    let mut rx_b = tx.subscribe();
    let token = CancellationToken::new();

    let mut a = Session::new("127.0.0.3:8081".to_string());
    let mut b = Session::new("127.0.0.1:1234".to_string());

    let action = a.on_event(Event::Line("hello".to_string()));
    perform_local(action, &tx, &token).unwrap();

    let env_for_b = rx_b.try_recv().unwrap();
    let action_b = b.on_event(Event::Delivery(env_for_b));
    assert_eq!(
        action_b,
        Action::Write("127.0.0.3:8081: hello".to_string())
    );
    assert!(rx_b.try_recv().is_err(), "delivered more than once");

    let env_for_a = rx_a.try_recv().unwrap();
    let action_a = a.on_event(Event::Delivery(env_for_a));
    assert_eq!(action_a, Action::Nothing);
    assert!(rx_a.try_recv().is_err());
}

#[test]
fn quit_terminates_only_the_sender() {
    let (tx, mut rx) = broadcast::channel(16);
    let token = CancellationToken::new();

    let mut a = Session::new("a".to_string());
    let mut b = Session::new("b".to_string());

    let action = a.on_event(Event::Line("quit\r\n".to_string()));
    assert_eq!(action, Action::Nothing);
    assert_eq!(a.phase, Phase::Terminated);
    assert!(!token.is_cancelled());

    // The other session keeps working after the quit.
    let action_b = b.on_event(Event::Line("still here".to_string()));
    perform_local(action_b, &tx, &token).unwrap();
    let env = rx.try_recv().unwrap();
    assert_eq!(env.text, "b: still here");
    assert_eq!(b.phase, Phase::Active);
}

#[test]
fn quit_with_bare_newline_terminates_too() {
    let mut s = Session::new("a".to_string());
    let action = s.on_event(Event::Line("quit\n".to_string()));
    assert_eq!(action, Action::Nothing);
    assert_eq!(s.phase, Phase::Terminated);
}

#[test]
fn stop_all_cancels_every_other_session() {
    let (tx, _rx) = broadcast::channel(16);
    let token = CancellationToken::new();

    let mut a = Session::new("a".to_string());
    let mut b = Session::new("b".to_string());
    let mut c = Session::new("c".to_string());

    let action = a.on_event(Event::Line("call it a day\r\n".to_string()));
    assert_eq!(action, Action::RaiseCancellation);
    // Raising does not, by itself, terminate the raising session.
    assert_eq!(a.phase, Phase::Active);
    let performed = perform_local(action, &tx, &token).unwrap();
    assert_eq!(performed, Performed::Raised);
    assert!(token.is_cancelled());

    // Every session observing the signal terminates cleanly.
    assert_eq!(b.on_event(Event::Cancelled), Action::Nothing);
    assert_eq!(c.on_event(Event::Cancelled), Action::Nothing);
    assert_eq!(b.phase, Phase::Terminated);
    assert_eq!(c.phase, Phase::Terminated);
}

#[test]
fn eof_terminates_cleanly() {
    let mut s = Session::new("a".to_string());
    assert_eq!(s.on_event(Event::Eof), Action::Nothing);
    assert_eq!(s.phase, Phase::Terminated);
}

#[test]
fn closed_sources_terminate_cleanly() {
    let mut s = Session::new("a".to_string());
    assert_eq!(s.on_event(Event::SourcesClosed), Action::Nothing);
    assert_eq!(s.phase, Phase::Terminated);
}

#[test]
fn lag_is_absorbed_and_the_session_recovers() {
    let mut s = Session::new("a".to_string());
    assert_eq!(s.on_event(Event::Lagged(3)), Action::Nothing);
    assert_eq!(s.phase, Phase::Active);
}

#[test]
fn topic_change_is_announced() {
    let mut s = Session::new("127.0.0.3:8081".to_string());
    let action = s.on_event(Event::TopicChanged("teapot".to_string()));
    assert_eq!(action, Action::Write("Announcement: teapot\n".to_string()));
    assert_eq!(s.phase, Phase::Active);
}

#[test]
fn publish_without_subscribers_fails_without_panicking() {
    let (tx, rx) = broadcast::channel(16);
    drop(rx);
    let token = CancellationToken::new();

    let mut s = Session::new("a".to_string());
    let action = s.on_event(Event::Line("hello".to_string()));
    let r = perform_local(action, &tx, &token);
    assert_eq!(r, Err(PublishError::NoSubscribers));
}

#[test]
fn relayed_text_is_byte_identical_after_the_prefix() {
    // Round trip: what one session reads is exactly what another writes,
    // after the documented "<origin>: " prefix.
    let line = "bytes \u{1F980} stay \t exact\r\n";
    let (tx, mut rx) = broadcast::channel(16);
    let token = CancellationToken::new();

    let mut a = Session::new("origin".to_string());
    let mut b = Session::new("other".to_string());
    let action = a.on_event(Event::Line(line.to_string()));
    perform_local(action, &tx, &token).unwrap();
    let env = rx.try_recv().unwrap();
    let written = match b.on_event(Event::Delivery(env)) {
        Action::Write(m) => m,
        other => panic!("expected a write, got {:?}", other),
    };
    assert_eq!(&written.as_bytes()[..8], b"origin: ");
    assert_eq!(&written.as_bytes()[8..], line.as_bytes());
}
