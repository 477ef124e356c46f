//! The fan-out bus discipline: every publish is delivered independently to
//! every live subscription, each subscription buffers a bounded number of
//! envelopes, and a subscription that falls behind loses only its own
//! oldest entries - publishing never blocks, and the other subscriptions
//! are unaffected.
//!
//! Between tasks the service distributes envelopes over a broadcast
//! channel; [`Bus`] and [`Subscription`] carry the same discipline as
//! verified state, so that the buffering, lag and fan-out rules the
//! sessions rely on are stated and proved rather than assumed.

use crate::session::Envelope;
use crate::session::PublishError;
use vstd::prelude::*;

verus! {

/// One subscriber's side of the bus: a bounded buffer of envelopes not yet
/// received, and a count of envelopes lost to lag.
#[derive(Debug)]
pub struct Subscription {
    /// Buffered envelopes, oldest first.
    pub queue: Vec<Envelope>,
    /// How many envelopes were dropped since the subscriber last received.
    pub missed: u64,
    /// The buffer bound.
    pub capacity: usize,
    /// Whether the subscriber is still there.
    pub live: bool,
}

/// What a subscription's buffer holds after one more envelope: the envelope
/// goes to the back, and when the buffer is full the oldest entry - and
/// only that one - makes room.
pub open spec fn pushed_queue(q: Seq<Envelope>, capacity: nat, env: Envelope) -> Seq<Envelope> {
    if q.len() < capacity {
        q.push(env)
    } else {
        q.drop_first().push(env)
    }
}

/// How the lag count moves when one more envelope arrives: it grows exactly
/// when the full buffer dropped its oldest entry.
pub open spec fn pushed_missed(q: Seq<Envelope>, capacity: nat, missed: u64) -> u64 {
    if q.len() < capacity {
        missed
    } else if missed == u64::MAX {
        missed
    } else {
        (missed + 1) as u64
    }
}

/// What one receive yields: first the news that envelopes were lost, then
/// the buffered envelopes in order, and otherwise nothing.
#[derive(Debug, PartialEq)]
pub enum Received {
    /// This many envelopes were dropped before the ones that follow; the
    /// subscription keeps receiving.
    Lagged(u64),
    /// The oldest buffered envelope.
    Delivered(Envelope),
    /// Nothing is buffered.
    Empty,
}

impl Subscription {
    /// A subscription is well-formed when its buffer respects its bound.
    pub open spec fn wf(&self) -> bool {
        1 <= self.capacity && self.queue@.len() <= self.capacity
    }

    /// A fresh, empty subscription with the given buffer bound.
    pub fn new(capacity: usize) -> (s: Subscription)
        requires
            capacity >= 1,
        ensures
            s.wf(),
            s.queue@ == Seq::<Envelope>::empty(),
            s.missed == 0,
            s.capacity == capacity,
            s.live,
    {
        Subscription { queue: Vec::new(), missed: 0, capacity, live: true }
    }

    /// Buffer one envelope: the newest entry joins at the back, and a full
    /// buffer drops its oldest entry and counts the loss.
    pub fn push(&mut self, env: Envelope)
        requires
            old(self).wf(),
        ensures
            final(self).wf(),
            final(self).queue@ == pushed_queue(old(self).queue@, old(self).capacity as nat, env),
            final(self).missed == pushed_missed(
                old(self).queue@,
                old(self).capacity as nat,
                old(self).missed,
            ),
            final(self).capacity == old(self).capacity,
            final(self).live == old(self).live,
    {
        if self.queue.len() == self.capacity {
            self.queue.remove(0);
            if self.missed < u64::MAX {
                self.missed = self.missed + 1;
            }
        }
        self.queue.push(env);
    }

    /// Receive: a lagging subscription first learns how much it missed -
    /// distinct from a delivery - and then recovers, receiving the
    /// envelopes still buffered, oldest first.
    pub fn recv(&mut self) -> (r: Received)
        requires
            old(self).wf(),
        ensures
            final(self).wf(),
            final(self).capacity == old(self).capacity,
            final(self).live == old(self).live,
            old(self).missed > 0 ==> r == Received::Lagged(old(self).missed) && final(self).missed
                == 0 && final(self).queue@ == old(self).queue@,
            old(self).missed == 0 && old(self).queue@.len() == 0 ==> r == Received::Empty && *final(self) == *old(self),
            old(self).missed == 0 && old(self).queue@.len() > 0 ==> r == Received::Delivered(
                old(self).queue@[0],
            ) && final(self).queue@ == old(self).queue@.drop_first() && final(self).missed == 0,
    {
        if self.missed > 0 {
            let n: u64 = self.missed;
            self.missed = 0;
            Received::Lagged(n)
        } else if self.queue.len() == 0 {
            Received::Empty
        } else {
            Received::Delivered(self.queue.remove(0))
        }
    }
}

/// How many of the subscriptions are still live.
pub open spec fn count_live(subs: Seq<Subscription>) -> nat
    decreases subs.len(),
{
    if subs.len() == 0 {
        0
    } else {
        count_live(subs.drop_last()) + if subs.last().live {
            1nat
        } else {
            0nat
        }
    }
}

/// The fan-out bus: every live subscription gets its own copy of every
/// envelope published after it subscribed.
#[derive(Debug)]
pub struct Bus {
    /// Every subscription ever taken, live or not; a handle is an index
    /// into this sequence.
    pub subs: Vec<Subscription>,
    /// The buffer bound every subscription is created with.
    pub capacity: usize,
}

impl Bus {
    /// A bus is well-formed when its bound is positive and every
    /// subscription respects that same bound.
    pub open spec fn wf(&self) -> bool {
        1 <= self.capacity && forall|i: int|
            0 <= i < self.subs@.len() ==> (#[trigger] self.subs@[i]).wf() && self.subs@[i].capacity
                == self.capacity
    }

    /// A bus with no subscribers yet and the given per-subscriber bound.
    pub fn new(capacity: usize) -> (b: Bus)
        requires
            capacity >= 1,
        ensures
            b.wf(),
            b.subs@.len() == 0,
            b.capacity == capacity,
    {
        Bus { subs: Vec::new(), capacity }
    }

    /// Take a new subscription; it sees only envelopes published after this
    /// call.  The handle indexes this subscription from now on.
    pub fn subscribe(&mut self) -> (h: usize)
        requires
            old(self).wf(),
        ensures
            final(self).wf(),
            h == old(self).subs@.len(),
            final(self).subs@.len() == old(self).subs@.len() + 1,
            forall|i: int| 0 <= i < h ==> final(self).subs@[i] == old(self).subs@[i],
            final(self).subs@[h as int].queue@ == Seq::<Envelope>::empty(),
            final(self).subs@[h as int].missed == 0,
            final(self).subs@[h as int].live,
            final(self).capacity == old(self).capacity,
    {
        let h: usize = self.subs.len();
        let s = Subscription::new(self.capacity);
        self.subs.push(s);
        h
    }

    /// Drop one subscription: it no longer counts as live and is no longer
    /// delivered to.  The other subscriptions are untouched.
    pub fn unsubscribe(&mut self, h: usize)
        requires
            old(self).wf(),
            h < old(self).subs@.len(),
        ensures
            final(self).wf(),
            final(self).subs@.len() == old(self).subs@.len(),
            !final(self).subs@[h as int].live,
            final(self).subs@[h as int].queue@ == old(self).subs@[h as int].queue@,
            forall|i: int|
                0 <= i < old(self).subs@.len() && i != h ==> final(self).subs@[i] == old(self).subs@[i],
            final(self).capacity == old(self).capacity,
    {
        let mut s = self.subs.remove(h);
        s.live = false;
        self.subs.insert(h, s);
    }

    /// Publish one envelope: every live subscription buffers its own copy,
    /// under its own lag policy, and the dead ones are untouched.  The call
    /// never blocks; it reports how many live subscriptions there were, and
    /// fails exactly when there were none - which later subscribers make
    /// good again.
    pub fn publish(&mut self, env: Envelope) -> (r: Result<usize, PublishError>)
        requires
            old(self).wf(),
        ensures
            final(self).wf(),
            final(self).capacity == old(self).capacity,
            final(self).subs@.len() == old(self).subs@.len(),
            forall|i: int|
                0 <= i < old(self).subs@.len() && old(self).subs@[i].live ==> (#[trigger] final(self).subs@[i]).queue@ == pushed_queue(
                    old(self).subs@[i].queue@,
                    old(self).capacity as nat,
                    env,
                ) && final(self).subs@[i].missed == pushed_missed(
                    old(self).subs@[i].queue@,
                    old(self).capacity as nat,
                    old(self).subs@[i].missed,
                ) && final(self).subs@[i].live,
            forall|i: int|
                0 <= i < old(self).subs@.len() && !old(self).subs@[i].live ==> #[trigger] final(self).subs@[i] == old(self).subs@[i],
            r matches Ok(n) ==> n == count_live(old(self).subs@) && n >= 1,
            r is Err <==> count_live(old(self).subs@) == 0,
    {
        let n: usize = self.subs.len();
        let mut i: usize = 0;
        let mut delivered: usize = 0;
        while i < n
            invariant
                old(self).wf(),
                n == self.subs@.len(),
                n == old(self).subs@.len(),
                self.capacity == old(self).capacity,
                0 <= i <= n,
                delivered == count_live(old(self).subs@.take(i as int)),
                delivered <= i,
                forall|j: int|
                    0 <= j < i && old(self).subs@[j].live ==> (#[trigger] self.subs@[j]).queue@
                        == pushed_queue(
                        old(self).subs@[j].queue@,
                        old(self).capacity as nat,
                        env,
                    ) && self.subs@[j].missed == pushed_missed(
                        old(self).subs@[j].queue@,
                        old(self).capacity as nat,
                        old(self).subs@[j].missed,
                    ) && self.subs@[j].live && self.subs@[j].wf() && self.subs@[j].capacity
                        == self.capacity,
                forall|j: int|
                    0 <= j < i && !old(self).subs@[j].live ==> #[trigger] self.subs@[j] == old(self).subs@[j],
                forall|j: int| i <= j < n ==> #[trigger] self.subs@[j] == old(self).subs@[j],
            decreases n - i,
        {
            proof {
                assert(old(self).subs@.take(i + 1).drop_last() =~= old(self).subs@.take(i as int));
                assert(old(self).subs@.take(i + 1).last() == old(self).subs@[i as int]);
            }
            if self.subs[i].live {
                let mut s = self.subs.remove(i);
                s.push(env.clone());
                self.subs.insert(i, s);
                delivered = delivered + 1;
            }
            i = i + 1;
        }
        proof {
            assert(old(self).subs@.take(n as int) =~= old(self).subs@);
        }
        if delivered == 0 {
            Err(PublishError::NoSubscribers)
        } else {
            Ok(delivered)
        }
    }

    /// Receive on one subscription: lag news first, then the buffered
    /// envelopes in order.  No other subscription moves.
    pub fn recv(&mut self, h: usize) -> (r: Received)
        requires
            old(self).wf(),
            h < old(self).subs@.len(),
        ensures
            final(self).wf(),
            final(self).capacity == old(self).capacity,
            final(self).subs@.len() == old(self).subs@.len(),
            forall|i: int|
                0 <= i < old(self).subs@.len() && i != h ==> #[trigger] final(self).subs@[i] == old(self).subs@[i],
            final(self).subs@[h as int].live == old(self).subs@[h as int].live,
            old(self).subs@[h as int].missed > 0 ==> r == Received::Lagged(
                old(self).subs@[h as int].missed,
            ) && final(self).subs@[h as int].missed == 0 && final(self).subs@[h as int].queue@
                == old(self).subs@[h as int].queue@,
            old(self).subs@[h as int].missed == 0 && old(self).subs@[h as int].queue@.len() == 0
                ==> r == Received::Empty && final(self).subs@[h as int] == old(self).subs@[h as int],
            old(self).subs@[h as int].missed == 0 && old(self).subs@[h as int].queue@.len() > 0
                ==> r == Received::Delivered(old(self).subs@[h as int].queue@[0]) && final(self).subs@[h as int].queue@ == old(self).subs@[h as int].queue@.drop_first() && final(self).subs@[h as int].missed == 0,
    {
        let mut s = self.subs.remove(h);
        let r = s.recv();
        self.subs.insert(h, s);
        r
    }
}

/// Publishing keeps per-sender order: of two envelopes published one after
/// the other into a buffer that can hold them both, the first stands
/// immediately before the second.
pub proof fn lemma_publish_order_kept(
    q: Seq<Envelope>,
    capacity: nat,
    e1: Envelope,
    e2: Envelope,
)
    requires
        capacity >= 2,
        q.len() <= capacity,
    ensures
        ({
            let q2 = pushed_queue(pushed_queue(q, capacity, e1), capacity, e2);
            q2[q2.len() - 2] == e1 && q2[q2.len() - 1] == e2
        }),
{
}

/// A subscriber that keeps up loses nothing: while the buffer has room, an
/// arriving envelope drops nothing and raises no lag.
pub proof fn lemma_no_loss_while_keeping_up(
    q: Seq<Envelope>,
    capacity: nat,
    missed: u64,
    env: Envelope,
)
    requires
        q.len() < capacity,
    ensures
        pushed_queue(q, capacity, env) == q.push(env),
        pushed_missed(q, capacity, missed) == missed,
{
}

/// A lagging subscriber loses only its own oldest entries: a full buffer
/// drops exactly its first element, keeps the rest in order, and counts
/// the loss.
pub proof fn lemma_lag_drops_only_the_oldest(
    q: Seq<Envelope>,
    capacity: nat,
    missed: u64,
    env: Envelope,
)
    requires
        q.len() == capacity,
        capacity >= 1,
        missed < u64::MAX,
    ensures
        pushed_queue(q, capacity, env) == q.drop_first().push(env),
        pushed_missed(q, capacity, missed) == missed + 1,
{
}

} // verus!
