//! The notification fan-out, modelled as data.
//!
//! One producer publishes "new message identifier" events; any number
//! of subscribers read them independently.  The model keeps the full
//! publish history in order; a subscription is a cursor into that
//! history, created at the current end, so a subscriber sees exactly
//! the events published after it subscribed, each one once, in publish
//! order.  Publishing never looks at the subscribers, so it can never
//! block on them, and with no subscriber an event is simply never read.

use vstd::prelude::*;

verus! {

/// The event history of the broadcast channel, in publish order.
pub struct Broadcaster {
    pub events: Vec<usize>,
}

/// One subscriber's position: the index of the next event it will
/// receive.
pub struct Subscription {
    pub next: usize,
}

impl Broadcaster {
    /// A fresh channel with no published events.
    pub fn new() -> (b: Broadcaster)
        ensures
            b.events@ == Seq::<usize>::empty(),
    {
        Broadcaster { events: Vec::new() }
    }

    /// Publish one event: it is appended to the history and nothing
    /// else changes, whatever the current subscribers are doing.
    pub fn publish(&mut self, id: usize)
        ensures
            final(self).events@ == old(self).events@.push(id),
    {
        self.events.push(id);
    }

    /// Subscribe: the new cursor stands at the current end of the
    /// history, so no event published before subscription is replayed.
    pub fn subscribe(&self) -> (s: Subscription)
        ensures
            s.next == self.events@.len(),
    {
        Subscription { next: self.events.len() }
    }

    /// Receive the next event for one subscription: the event at the
    /// cursor, advancing it; `None` when the subscriber has seen every
    /// published event.  Reading moves only the given cursor, so
    /// subscribers cannot interfere with each other.
    pub fn recv(&self, s: &mut Subscription) -> (r: Option<usize>)
        requires
            old(s).next <= self.events@.len(),
        ensures
            old(s).next < self.events@.len() ==> r == Some(self.events@[old(s).next as int])
                && final(s).next == old(s).next + 1,
            old(s).next == self.events@.len() ==> r is None && final(s).next == old(s).next,
    {
        if s.next < self.events.len() {
            let id = self.events[s.next];
            s.next = s.next + 1;
            Some(id)
        } else {
            None
        }
    }

    /// Receive everything outstanding for one subscription: exactly the
    /// events published since the cursor, in publish order.
    pub fn drain(&self, s: &mut Subscription) -> (r: Vec<usize>)
        requires
            old(s).next <= self.events@.len(),
        ensures
            r@ == self.events@.subrange(old(s).next as int, self.events@.len() as int),
            final(s).next == self.events@.len(),
    {
        let mut r: Vec<usize> = Vec::new();
        let ghost start = s.next as int;
        while s.next < self.events.len()
            invariant
                0 <= start,
                start <= s.next as int,
                s.next <= self.events@.len(),
                r@ == self.events@.subrange(start, s.next as int),
            decreases self.events@.len() - s.next,
        {
            let id = self.events[s.next];
            r.push(id);
            s.next = s.next + 1;
            proof {
                let n = s.next as int;
                assert(0 <= start);
                assert(start <= n - 1);
                assert(n <= self.events@.len());
                assert(self.events@.subrange(start, n) =~= self.events@.subrange(start, n - 1).push(
                    self.events@[n - 1],
                ));
            }
        }
        proof {
            assert(r@ =~= self.events@.subrange(start, self.events@.len() as int));
        }
        r
    }
}

/// Broadcast fan-out: a subscriber whose cursor stood at `start` when
/// it subscribed receives, as its `j`-th event, exactly the `j`-th
/// event published after its subscription — every later event, in
/// publish order — and none of the `start` events published before.
pub proof fn lemma_fanout_delivery(events: Seq<usize>, start: int, j: int)
    requires
        0 <= start <= events.len(),
        start <= j < events.len(),
    ensures
        events.subrange(start, events.len() as int).len() == events.len() - start,
        events.subrange(start, events.len() as int)[j - start] == events[j],
{
}

} // verus!
