//! The shared topic: a single latest-wins value with change notification,
//! and the uptime announcer that feeds it.
//!
//! The topic retains no history: a watcher that checks in after several
//! rapid updates observes only the latest value, exactly once.  [`Topic`]
//! and [`TopicWatcher`] carry that discipline as verified state; the
//! process-wide channel that distributes the value between tasks is a watch
//! channel fed through [`announce_tick`].

use crate::channels::watch_send;
use tokio::sync::watch;
use vstd::prelude::*;
use vstd::string::StringExecFns;

verus! {

broadcast use vstd::string::group_string_axioms;

/// The current topic value, together with a version that advances on every
/// update so that watchers can tell whether they already observed it.
#[derive(Debug)]
pub struct Topic {
    /// The latest value; earlier values are gone.
    pub value: String,
    /// How many updates the topic has seen.
    pub version: u64,
}

/// One watcher's view of the topic: the version it last observed.
#[derive(Debug, PartialEq, Eq, Structural)]
pub struct TopicWatcher {
    /// The version this watcher last observed.
    pub seen: u64,
}

/// How an update changes the topic: the value is overwritten - not queued -
/// and the version advances by one.
pub open spec fn set_rel(t0: Topic, v: Seq<char>, t1: Topic) -> bool {
    t1.value@ == v && t1.version == t0.version + 1
}

/// How a watcher checks in: with nothing new it observes nothing, and
/// otherwise it observes the latest value - only that one - and remembers
/// the version it saw.
pub open spec fn observe_rel(t: Topic, w0: TopicWatcher, w1: TopicWatcher, r: Option<
    String,
>) -> bool {
    if w0.seen == t.version {
        r is None && w1 == w0
    } else {
        (r matches Some(x) && x@ == t.value@) && w1.seen == t.version
    }
}

impl Topic {
    /// Create a topic holding an initial value that no watcher has yet
    /// observed as a change.
    pub fn new(initial: String) -> (t: Topic)
        ensures
            t.value == initial,
            t.version == 0,
    {
        Topic { value: initial, version: 0 }
    }

    /// Overwrite the value and notify watchers by advancing the version.
    pub fn set(&mut self, value: String)
        requires
            old(self).version < u64::MAX,
        ensures
            set_rel(*old(self), value@, *final(self)),
    {
        self.value = value;
        self.version = self.version + 1;
    }
}

impl TopicWatcher {
    /// Start watching: the value already in the topic counts as observed,
    /// so only later updates are reported as changes.
    pub fn new(t: &Topic) -> (w: TopicWatcher)
        ensures
            w.seen == t.version,
    {
        TopicWatcher { seen: t.version }
    }

    /// Check the topic for a change: either nothing happened since this
    /// watcher last looked, or it observes the latest value exactly once.
    pub fn check(&mut self, t: &Topic) -> (r: Option<String>)
        ensures
            observe_rel(*t, *old(self), *final(self), r),
    {
        if self.seen == t.version {
            None
        } else {
            self.seen = t.version;
            Some(t.value.clone())
        }
    }
}

/// Rapid updates coalesce: when the topic is set to one value and then to a
/// second before a watcher checks in, that watcher observes only the second
/// value - the first is never delivered to it.
pub proof fn lemma_updates_coalesce(
    t0: Topic,
    t1: Topic,
    t2: Topic,
    first: Seq<char>,
    second: Seq<char>,
    w0: TopicWatcher,
    w1: TopicWatcher,
    r: Option<String>,
)
    requires
        w0.seen <= t0.version,
        set_rel(t0, first, t1),
        set_rel(t1, second, t2),
        observe_rel(t2, w0, w1, r),
    ensures
        r matches Some(v) && v@ == second,
{
}

/// The decimal digit characters of `n`, most significant first.
pub open spec fn dec_rep(n: nat) -> Seq<char>
    decreases n,
{
    if n < 10 {
        seq![digit_char(n as int)]
    } else {
        dec_rep(n / 10).push(digit_char((n % 10) as int))
    }
}

/// The character for one decimal digit.
pub open spec fn digit_char(d: int) -> char {
    (48 + d) as char
}

/// Append the decimal digits of `n` to `out`.
fn push_decimal(out: &mut String, n: u64)
    ensures
        final(out)@ == old(out)@ + dec_rep(n as nat),
    decreases n,
{
    if n >= 10 {
        push_decimal(out, n / 10);
    }
    let d: u64 = n % 10;
    let c = ((48 + d) as u8) as char;
    out.push(c);
    proof {
        assert(out@ =~= old(out)@ + dec_rep(n as nat));
    }
}

/// The uptime announcement for a total of `secs` seconds.
pub open spec fn uptime_text(secs: nat) -> Seq<char> {
    "Up for "@ + dec_rep(secs) + "s."@
}

/// Format the periodic uptime announcement, `"Up for <seconds>s."`, for the
/// given tick count and period.
pub fn uptime_message(ticks: u64, period_secs: u64) -> (r: String)
    requires
        ticks * period_secs <= u64::MAX,
    ensures
        r@ == uptime_text((ticks * period_secs) as nat),
{
    let total: u64 = ticks * period_secs;
    let mut out = String::from_str("Up for ");
    push_decimal(&mut out, total);
    out.append("s.");
    out
}

/// All watchers of the uptime topic are gone, so there is nobody left to
/// announce to.
#[derive(Debug, PartialEq, Eq, Structural)]
pub struct TopicClosed;

/// The topic producer's step: format the uptime announcement for this tick
/// and publish it on the watch channel, overwriting whatever value watchers
/// have not yet read.  Returns the text that was sent, or [`TopicClosed`]
/// when every watcher is gone and the producer should stop.
pub fn announce_tick(topic: &watch::Sender<String>, ticks: u64, period_secs: u64) -> (r: Result<
    String,
    TopicClosed,
>)
    requires
        ticks * period_secs <= u64::MAX,
    ensures
        r matches Ok(m) ==> m@ == uptime_text((ticks * period_secs) as nat),
{
    let m = uptime_message(ticks, period_secs);
    match watch_send(topic, m.clone()) {
        Ok(()) => Ok(m),
        Err(()) => Err(TopicClosed),
    }
}

} // verus!
