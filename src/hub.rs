//! The broadcast hub: one producer, any number of independently paced
//! subscribers, and a bounded ring of the most recent events.
//!
//! Publishing never waits for a subscriber. A subscriber that falls more
//! than the ring's capacity behind skips forward to the oldest event still
//! held: delivery is at most once per event, and lossy under lag.

use vstd::prelude::*;

verus! {

/// The abstract state of a hub: the events still held, the sequence number
/// of the first of them, and how many it may hold.
pub struct HubModel<T> {
    pub first: nat,
    pub events: Seq<T>,
    pub capacity: nat,
}

impl<T> HubModel<T> {
    /// The sequence number that the next published event gets.
    pub open spec fn published(self) -> nat {
        self.first + self.events.len()
    }

    /// A ring that holds no more than its capacity.
    pub open spec fn wf(self) -> bool {
        self.capacity > 0 && self.events.len() <= self.capacity
    }

    /// The state after publishing `e`: it is appended, and the oldest event
    /// is dropped where the ring would otherwise exceed its capacity.
    pub open spec fn publish(self, e: T) -> HubModel<T> {
        let ev = self.events.push(e);
        if ev.len() > self.capacity {
            HubModel { first: self.first + 1, events: ev.drop_first(), capacity: self.capacity }
        } else {
            HubModel { first: self.first, events: ev, capacity: self.capacity }
        }
    }

    /// What a subscriber whose next sequence number is `next` receives, and
    /// its next sequence number afterwards. One that has fallen behind the
    /// ring first skips to its oldest event.
    pub open spec fn recv(self, next: nat) -> (Option<T>, nat) {
        let n = if next < self.first {
            self.first
        } else {
            next
        };
        if n < self.published() {
            (Some(self.events[n - self.first]), (n + 1) as nat)
        } else {
            (None, n)
        }
    }
}

/// The broadcast hub.
pub struct BroadcastHub<T> {
    events: Vec<T>,
    first_seq: u64,
    capacity: usize,
}

/// A subscriber's position in the stream: the sequence number of the next
/// event it is to receive.
#[derive(Clone, Copy, PartialEq, Eq, Debug, Structural)]
pub struct Subscription {
    next_seq: u64,
}

impl Subscription {
    /// The sequence number of the next event this subscriber is to receive.
    pub closed spec fn next(self) -> nat {
        self.next_seq as nat
    }
}

impl<T: Copy> View for BroadcastHub<T> {
    type V = HubModel<T>;

    closed spec fn view(&self) -> HubModel<T> {
        HubModel { first: self.first_seq as nat, events: self.events@, capacity: self.capacity as nat }
    }
}

impl<T: Copy> BroadcastHub<T> {
    /// The concrete hub is a well-formed ring whose sequence numbers fit in
    /// `u64`.
    pub open spec fn wf(&self) -> bool {
        self@.wf() && self@.published() <= u64::MAX
    }

    /// A hub holding no events yet, that keeps at most `capacity` of them.
    pub fn new(capacity: usize) -> (r: BroadcastHub<T>)
        requires
            capacity > 0,
        ensures
            r.wf(),
            r@ == (HubModel::<T> { first: 0, events: Seq::empty(), capacity: capacity as nat }),
    {
        BroadcastHub { events: Vec::new(), first_seq: 0, capacity }
    }

    /// How many events have been published so far.
    pub fn published_count(&self) -> (r: u64)
        requires
            self.wf(),
        ensures
            r == self@.published(),
    {
        self.first_seq + self.events.len() as u64
    }

    /// The capacity of the ring.
    pub fn capacity(&self) -> (r: usize)
        ensures
            r == self@.capacity,
    {
        self.capacity
    }

    /// Publishes one event to every current and future-reading subscriber.
    pub fn publish(&mut self, event: T)
        requires
            old(self).wf(),
            old(self)@.published() < u64::MAX,
        ensures
            final(self).wf(),
            final(self)@ == old(self)@.publish(event),
    {
        self.events.push(event);
        if self.events.len() > self.capacity {
            self.events.remove(0);
            self.first_seq = self.first_seq + 1;
            assert(self.events@ =~= old(self).events@.push(event).drop_first());
        }
    }

    /// A new subscriber, which receives only what is published from now on.
    pub fn subscribe(&self) -> (r: Subscription)
        requires
            self.wf(),
        ensures
            r.next() == self@.published(),
    {
        Subscription { next_seq: self.first_seq + self.events.len() as u64 }
    }

    /// Hands a subscriber its next event, if one has been published since it
    /// last received; a subscriber that has fallen behind skips forward.
    pub fn recv(&self, sub: &mut Subscription) -> (r: Option<T>)
        requires
            self.wf(),
        ensures
            (r, final(sub).next()) == self@.recv(old(sub).next()),
    {
        let n = if sub.next_seq < self.first_seq {
            self.first_seq
        } else {
            sub.next_seq
        };
        if n - self.first_seq < self.events.len() as u64 {
            sub.next_seq = n + 1;
            Some(self.events[(n - self.first_seq) as usize])
        } else {
            sub.next_seq = n;
            None
        }
    }
}

/// Publishing `a`, `b`, `c` to a hub that can hold three events delivers them
/// in that order to every subscriber that subscribed before, whatever the
/// hub held; one that subscribed after `a` and `b` receives `c` alone.
pub proof fn lemma_fan_out_in_order<T>(m: HubModel<T>, a: T, b: T, c: T, early1: nat, early2: nat, late: nat)
    requires
        m.wf(),
        m.capacity >= 3,
        early1 == m.published(),
        early2 == m.published(),
        late == m.publish(a).publish(b).published(),
    ensures
        ({
            let m3 = m.publish(a).publish(b).publish(c);
            &&& m3.recv(early1) == (Some(a), early1 + 1)
            &&& m3.recv(early1 + 1) == (Some(b), early1 + 2)
            &&& m3.recv(early1 + 2) == (Some(c), early1 + 3)
            &&& m3.recv(early1 + 3) == (None::<T>, early1 + 3)
            &&& m3.recv(early2) == (Some(a), early2 + 1)
            &&& m3.recv(early2 + 1) == (Some(b), early2 + 2)
            &&& m3.recv(early2 + 2) == (Some(c), early2 + 3)
            &&& m3.recv(early2 + 3) == (None::<T>, early2 + 3)
            &&& m3.recv(late) == (Some(c), late + 1)
            &&& m3.recv(late + 1) == (None::<T>, late + 1)
        }),
{
    let m1 = m.publish(a);
    let m2 = m1.publish(b);
    let m3 = m2.publish(c);
    let p = m.published();
    lemma_publish_keeps(m, a);
    lemma_publish_keeps(m1, b);
    lemma_publish_keeps(m2, c);
    assert(m3.published() == p + 3);
    assert(m3.events.len() >= 3);
    assert(m3.first <= p);
    assert(m3.events[p - m3.first] == a) by {
        assert(m1.events[p - m1.first] == a);
        assert(m2.events[p - m2.first] == a);
    }
    assert(m3.events[p + 1 - m3.first] == b) by {
        assert(m2.events[p + 1 - m2.first] == b);
    }
    assert(m3.events[p + 2 - m3.first] == c);
}

/// Publishing keeps the ring well formed, advances the sequence by one, puts
/// the event last, and keeps every other event that stays in the ring at its
/// sequence number.
pub proof fn lemma_publish_keeps<T>(m: HubModel<T>, e: T)
    requires
        m.wf(),
    ensures
        m.publish(e).wf(),
        m.publish(e).published() == m.published() + 1,
        m.publish(e).first >= m.first,
        m.publish(e).events[m.published() - m.publish(e).first] == e,
        m.publish(e).events.len() == if m.events.len() + 1 > m.capacity {
            m.capacity
        } else {
            m.events.len() + 1
        },
        forall|q: nat|
            m.publish(e).first <= q < m.published() ==> m.publish(e).events[q - m.publish(
                e,
            ).first] == #[trigger] m.events[q - m.first],
{
}

} // verus!
