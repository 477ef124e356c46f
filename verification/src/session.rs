//! The per-connection session: the event-step machine that a connection
//! loop follows, together with line classification and display formatting.
//!
//! A session owns one connection and waits on four independent sources:
//! inbound lines, deliveries from the broadcast bus, topic changes, and the
//! shared cancellation signal.  Whichever source becomes ready first yields
//! an [`Event`]; [`Session::on_event`] decides the [`Action`] to perform and
//! whether the session keeps running.  The connection loop performs the
//! action (publish, write, raise cancellation) and hands back the next
//! event; it never decides anything itself.

use crate::channels::broadcast_send;
use crate::channels::token_cancel;
use crate::is_quit;
use crate::is_quit_line;
use tokio::sync::broadcast;
use tokio_util::sync::CancellationToken;
use vstd::prelude::*;
use vstd::string::StringExecFns;

verus! {

broadcast use vstd::string::group_string_axioms;

/// One published chat line, tagged with the identity of the connection that
/// produced it.  The origin is used by every receiving session to filter
/// out its own envelopes.
#[derive(Debug, PartialEq)]
pub struct Envelope {
    /// The display text relayed to every other session.
    pub text: String,
    /// The identity of the publishing connection.
    pub origin: String,
}

impl Clone for Envelope {
    /// A clone carries the same text and the same origin.
    fn clone(&self) -> (r: Envelope)
        ensures
            r == *self,
    {
        Envelope { text: self.text.clone(), origin: self.origin.clone() }
    }
}

/// The outcome of waiting on the session's four event sources: exactly one
/// of them became ready.
#[derive(Debug, PartialEq)]
pub enum Event {
    /// A complete line arrived on the inbound stream.
    Line(String),
    /// The inbound stream ended (a zero-length read).
    Eof,
    /// The bus delivered an envelope published by some session.
    Delivery(Envelope),
    /// The topic changed; the value is the latest one.
    TopicChanged(String),
    /// The bus dropped this many envelopes for this slow subscriber; later
    /// envelopes are still coming.
    Lagged(u64),
    /// The shared cancellation signal was observed.
    Cancelled,
    /// Every event source is closed; nothing further can arrive.
    SourcesClosed,
}

/// What the connection loop must do before waiting for the next event.
#[derive(Debug, PartialEq)]
pub enum Action {
    /// Nothing to perform.
    Nothing,
    /// Publish the envelope on the bus.
    Publish(Envelope),
    /// Write the text to the outbound stream.
    Write(String),
    /// Raise the shared cancellation signal.
    RaiseCancellation,
}

/// The lifecycle of a session: it is active until an event terminates it,
/// and a terminated session never re-enters the loop.
#[derive(Clone, Copy, Debug, PartialEq, Eq, Structural)]
pub enum Phase {
    /// The session is in its event loop.
    Active,
    /// The session has ended; the loop must flush the outbound stream and
    /// finish.
    Terminated,
}

/// The reserved line that raises the global cancellation signal.
///
/// A line matches with no terminator, a bare newline, or a
/// carriage-return-newline pair.
pub open spec fn is_stop_line(s: Seq<char>) -> bool {
    s == "call it a day"@ || s == "call it a day\n"@ || s == "call it a day\r\n"@
}

/// If the `line` is `"call it a day"` or `"call it a day\n"` or
/// `"call it a day\r\n"`, return `true`.
pub fn is_termination_message(line: &str) -> (r: bool)
    ensures
        r == is_stop_line(line@),
{
    let l = line.to_owned();
    l == String::from_str("call it a day") || l == String::from_str("call it a day\n") || l
        == String::from_str("call it a day\r\n")
}

/// The display form of a relayed line: the origin's identity, a colon and a
/// space, then the line exactly as it was read.
pub open spec fn chat_line(origin: Seq<char>, line: Seq<char>) -> Seq<char> {
    origin + ": "@ + line
}

/// Format a payload line for the bus: `"<origin>: <line>"`.
pub fn format_chat_line(origin: &str, line: &str) -> (r: String)
    ensures
        r@ == chat_line(origin@, line@),
{
    let mut out = origin.to_owned();
    out.append(": ");
    out.append(line);
    out
}

/// The display form of a topic announcement.
pub open spec fn announcement(value: Seq<char>) -> Seq<char> {
    "Announcement: "@ + value + "\n"@
}

/// Format a topic value for the outbound stream: `"Announcement: <value>\n"`.
pub fn format_announcement(value: &str) -> (r: String)
    ensures
        r@ == announcement(value@),
{
    let mut out = String::from_str("Announcement: ");
    out.append(value);
    out.append("\n");
    out
}

/// How a session reacts to one event: the phase it moves to and the action
/// the loop must perform.
///
/// - A quit line, the end of the inbound stream, an observed cancellation,
///   or the closing of all sources terminates the session with nothing to
///   perform.
/// - A stop-all line raises the cancellation signal and keeps the session
///   active; it is not published.
/// - Any other inbound line is published as an envelope carrying the
///   session's own identity and the formatted display line.
/// - A delivered envelope is written out unchanged unless the session
///   itself published it, in which case it is discarded.
/// - A topic change is written out in announcement form.
/// - A lag notice - the bus dropped envelopes for this slow session - is
///   absorbed: the session recovers by continuing to receive.
pub open spec fn step_rel(id: Seq<char>, event: Event, next: Phase, action: Action) -> bool {
    match event {
        Event::Line(l) => {
            if is_quit_line(l@) {
                next is Terminated && action is Nothing
            } else if is_stop_line(l@) {
                next is Active && action is RaiseCancellation
            } else {
                next is Active && (action matches Action::Publish(env) && env.origin@ == id
                    && env.text@ == chat_line(id, l@))
            }
        },
        Event::Eof => next is Terminated && action is Nothing,
        Event::Delivery(env) => next is Active && (if env.origin@ == id {
            action is Nothing
        } else {
            action matches Action::Write(m) && m@ == env.text@
        }),
        Event::TopicChanged(v) => next is Active && (action matches Action::Write(m) && m@
            == announcement(v@)),
        Event::Lagged(_) => next is Active && action is Nothing,
        Event::Cancelled => next is Terminated && action is Nothing,
        Event::SourcesClosed => next is Terminated && action is Nothing,
    }
}

/// One connection's session state: its identity on the bus and where it
/// stands in its lifecycle.
#[derive(Debug)]
pub struct Session {
    /// The identity under which this session publishes, unique for the
    /// connection's lifetime.
    pub id: String,
    /// Where the session stands in its lifecycle.
    pub phase: Phase,
}

impl Session {
    /// Start a session for a freshly accepted connection.
    pub fn new(id: String) -> (s: Session)
        ensures
            s.id == id,
            s.phase is Active,
    {
        Session { id, phase: Phase::Active }
    }

    /// React to one event: decide the action the loop must perform and move
    /// to the next phase.  The session's identity never changes, and a
    /// terminated session is never stepped again.
    pub fn on_event(&mut self, event: Event) -> (action: Action)
        requires
            old(self).phase is Active,
        ensures
            final(self).id == old(self).id,
            step_rel(old(self).id@, event, final(self).phase, action),
    {
        match event {
            Event::Line(l) => {
                if is_quit(l.as_str()) {
                    self.phase = Phase::Terminated;
                    Action::Nothing
                } else if is_termination_message(l.as_str()) {
                    Action::RaiseCancellation
                } else {
                    Action::Publish(
                        Envelope {
                            text: format_chat_line(self.id.as_str(), l.as_str()),
                            origin: self.id.clone(),
                        },
                    )
                }
            },
            Event::Eof => {
                self.phase = Phase::Terminated;
                Action::Nothing
            },
            Event::Delivery(env) => {
                if env.origin == self.id {
                    Action::Nothing
                } else {
                    Action::Write(env.text)
                }
            },
            Event::TopicChanged(v) => Action::Write(format_announcement(v.as_str())),
            Event::Lagged(_) => Action::Nothing,
            Event::Cancelled => {
                self.phase = Phase::Terminated;
                Action::Nothing
            },
            Event::SourcesClosed => {
                self.phase = Phase::Terminated;
                Action::Nothing
            },
        }
    }
}

/// Publishing can fail; nothing else a session performs locally can.
#[derive(Debug, PartialEq)]
pub enum PublishError {
    /// No subscriber remains on the bus, so the envelope reached nobody.
    /// Non-fatal for the bus: a later publish succeeds again once someone
    /// subscribes.
    NoSubscribers,
}

/// What performing an action accomplished locally.
#[derive(Debug, PartialEq)]
pub enum Performed {
    /// There was nothing to do.
    Nothing,
    /// The envelope was queued for this many subscribers.
    Published(usize),
    /// The text still has to be written to the outbound stream; writing is
    /// the connection loop's part.
    MustWrite(String),
    /// The cancellation signal is now raised.
    Raised,
}

/// Perform the synchronous part of an action: publish on the bus, or raise
/// the shared cancellation signal.  A write is handed back unchanged for the
/// connection loop to perform on its outbound stream, since only the loop
/// holds the stream.
pub fn perform_local(
    action: Action,
    tx: &broadcast::Sender<Envelope>,
    token: &CancellationToken,
) -> (r: Result<Performed, PublishError>)
    ensures
        action is Nothing ==> r == Ok::<Performed, PublishError>(Performed::Nothing),
        action is Publish ==> ((r matches Ok(p) && p matches Performed::Published(n) && n >= 1)
            || r == Err::<Performed, PublishError>(PublishError::NoSubscribers)),
        action matches Action::Write(m) ==> r == Ok::<Performed, PublishError>(Performed::MustWrite(m)),
        action is RaiseCancellation ==> r == Ok::<Performed, PublishError>(Performed::Raised),
{
    match action {
        Action::Nothing => Ok(Performed::Nothing),
        Action::Publish(env) => match broadcast_send(tx, env) {
            Ok(n) => Ok(Performed::Published(n)),
            Err(()) => Err(PublishError::NoSubscribers),
        },
        Action::Write(m) => Ok(Performed::MustWrite(m)),
        Action::RaiseCancellation => {
            token_cancel(token);
            Ok(Performed::Raised)
        },
    }
}

/// A session never receives its own envelope back: delivery of an envelope
/// whose origin is the session itself produces no write and leaves the
/// session active.
pub proof fn lemma_self_delivery_filtered(id: Seq<char>, env: Envelope, next: Phase, action: Action)
    requires
        env.origin@ == id,
        step_rel(id, Event::Delivery(env), next, action),
    ensures
        next is Active,
        action is Nothing,
{
}

/// A session never receives its own publication back at all: whatever
/// payload line it publishes, the envelope carries its own identity as
/// origin, so when that envelope comes back through the session's own bus
/// subscription it is discarded, never written.
pub proof fn lemma_no_self_echo(
    id: Seq<char>,
    l: String,
    env: Envelope,
    next1: Phase,
    next2: Phase,
    a2: Action,
)
    requires
        step_rel(id, Event::Line(l), next1, Action::Publish(env)),
        step_rel(id, Event::Delivery(env), next2, a2),
    ensures
        next2 is Active,
        a2 is Nothing,
{
}

/// A quit line - with no terminator, a bare newline, or a carriage-return-
/// newline pair - terminates the session that sent it, and only that
/// session: the step publishes nothing and raises no signal.
pub proof fn lemma_quit_is_local(id: Seq<char>, l: String, next: Phase, action: Action)
    requires
        is_quit_line(l@),
        step_rel(id, Event::Line(l), next, action),
    ensures
        next is Terminated,
        action is Nothing,
{
}

/// A stop-all line raises the shared cancellation signal; it is not
/// published and does not, by itself, terminate the sender's session.
pub proof fn lemma_stop_all_raises_cancellation(
    id: Seq<char>,
    l: String,
    next: Phase,
    action: Action,
)
    requires
        is_stop_line(l@),
        step_rel(id, Event::Line(l), next, action),
    ensures
        next is Active,
        action is RaiseCancellation,
{
    reveal_strlit("quit");
    reveal_strlit("quit\n");
    reveal_strlit("quit\r\n");
    reveal_strlit("call it a day");
    reveal_strlit("call it a day\n");
    reveal_strlit("call it a day\r\n");
    assert("quit"@.len() == 4 && "quit\n"@.len() == 5 && "quit\r\n"@.len() == 6);
    assert("call it a day"@.len() == 13 && "call it a day\n"@.len() == 14 && "call it a day\r\n"@.len()
        == 15);
    assert(!is_quit_line(l@));
}

/// Every session that observes the cancellation signal terminates cleanly,
/// with nothing further to publish or write.
pub proof fn lemma_cancellation_terminates(id: Seq<char>, next: Phase, action: Action)
    requires
        step_rel(id, Event::Cancelled, next, action),
    ensures
        next is Terminated,
        action is Nothing,
{
}

/// Relaying never transforms a line: when one session publishes a payload
/// line and another session receives the envelope, the text written out is
/// the published text itself, and its suffix after the `"<origin>: "`
/// prefix is character-for-character the line that was read.
pub proof fn lemma_relay_round_trip(
    id: Seq<char>,
    l: String,
    env: Envelope,
    other: Seq<char>,
    m: String,
    next1: Phase,
    next2: Phase,
)
    requires
        !is_quit_line(l@),
        !is_stop_line(l@),
        step_rel(id, Event::Line(l), next1, Action::Publish(env)),
        env.origin@ != other,
        step_rel(other, Event::Delivery(env), next2, Action::Write(m)),
    ensures
        m@ == chat_line(id, l@),
        m@.len() == id.len() + 2 + l@.len(),
        m@.subrange(id.len() + 2 as int, m@.len() as int) == l@,
{
    reveal_strlit(": ");
    assert(m@.subrange(id.len() + 2 as int, m@.len() as int) =~= l@);
}

} // verus!
