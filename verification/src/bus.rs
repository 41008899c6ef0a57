//! The broadcast bus: many producers fan server events out to many
//! subscribers, each behind a bounded, lossy queue.
//!
//! `publish` never blocks and never fails: when a subscriber's queue is full
//! its oldest pending event is dropped (the lagging-consumer policy), so a
//! slow WebSocket client can never stall a runner. Events reach each
//! subscriber in publication order; a subscriber that never lags receives
//! every event published since it subscribed.
//!
//! The model keeps the full publication history and, per subscriber, a cursor
//! into it: the pending queue of a subscriber is exactly the history between
//! its cursor and the end, capped at the capacity. A ghost transcript of
//! everything a subscriber has received makes the ordering guarantee a
//! statement the verifier checks.
use crate::ws::ServerMessage;
use vstd::prelude::*;

verus! {

/// Capacity of each subscriber's pending queue.
pub const BUS_CAPACITY: usize = 100;

/// One subscriber's side of the bus.
pub struct Subscriber {
    /// Index into the history of the next event to deliver.
    pub cursor: usize,
    /// Where in the history this subscriber came in.
    pub start: Ghost<nat>,
    /// Everything this subscriber has received, in order.
    pub received: Ghost<Seq<ServerMessage>>,
    /// How many events were dropped on this subscriber for lagging.
    pub dropped: Ghost<nat>,
}

/// The bus: the full publication history and every live subscriber.
pub struct Bus {
    /// Every event ever published, in publication order.
    pub history: Vec<ServerMessage>,
    /// The live subscribers.
    pub subs: Vec<Subscriber>,
}

impl Bus {
    /// Each subscriber's cursor lies between its subscription point and the
    /// end of the history, at most the capacity behind; its receive count
    /// accounts for every event between subscription and cursor; and a
    /// subscriber that never lagged has received exactly the events since
    /// its subscription, in publication order.
    pub open spec fn wf(self) -> bool {
        forall|s: int|
            0 <= s < self.subs@.len() ==> {
                let sub = #[trigger] self.subs@[s];
                &&& sub.start@ <= sub.cursor <= self.history@.len()
                &&& self.history@.len() - sub.cursor <= BUS_CAPACITY
                &&& sub.start@ + sub.dropped@ + sub.received@.len() == sub.cursor
                &&& (sub.dropped@ == 0 ==> sub.received@ == self.history@.subrange(
                    sub.start@ as int,
                    sub.cursor as int,
                ))
            }
    }

    /// A fresh bus: no history, no subscribers.
    pub fn new() -> (r: Bus)
        ensures
            r.history@ =~= Seq::<ServerMessage>::empty(),
            r.subs@ =~= Seq::<Subscriber>::empty(),
            r.wf(),
    {
        Bus { history: Vec::new(), subs: Vec::new() }
    }

    /// Subscribe: a new receive end whose queue starts empty. Returns the
    /// subscriber's handle.
    pub fn subscribe(&mut self) -> (sid: usize)
        requires
            old(self).wf(),
        ensures
            final(self).wf(),
            sid == old(self).subs@.len(),
            final(self).history@ == old(self).history@,
            final(self).subs@.len() == old(self).subs@.len() + 1,
            forall|s: int|
                0 <= s < old(self).subs@.len() ==> final(self).subs@[s] == old(self).subs@[s],
            final(self).subs@[sid as int].cursor == old(self).history@.len(),
            final(self).subs@[sid as int].dropped@ == 0,
            final(self).subs@[sid as int].received@ =~= Seq::<ServerMessage>::empty(),
    {
        let sid = self.subs.len();
        let cursor = self.history.len();
        self.subs.push(
            Subscriber {
                cursor,
                start: Ghost(cursor as nat),
                received: Ghost(Seq::empty()),
                dropped: Ghost(0),
            },
        );
        proof {
            assert(self.subs@[sid as int].received@ =~= self.history@.subrange(
                cursor as int,
                cursor as int,
            ));
        }
        sid
    }

    /// Publish an event: it is appended to the history and becomes pending
    /// for every subscriber; a subscriber already a full queue behind has its
    /// oldest pending event dropped instead. The publisher never blocks and
    /// no subscriber's received transcript changes.
    pub fn publish(&mut self, event: ServerMessage)
        requires
            old(self).wf(),
        ensures
            final(self).wf(),
            final(self).history@ == old(self).history@.push(event),
            final(self).subs@.len() == old(self).subs@.len(),
            forall|s: int|
                0 <= s < old(self).subs@.len() ==> {
                    let pre = old(self).subs@[s];
                    let post = #[trigger] final(self).subs@[s];
                    &&& post.received@ == pre.received@
                    &&& post.start@ == pre.start@
                    &&& (if old(self).history@.len() - pre.cursor < BUS_CAPACITY {
                        post.cursor == pre.cursor && post.dropped@ == pre.dropped@
                    } else {
                        post.cursor == pre.cursor + 1 && post.dropped@ == pre.dropped@ + 1
                    })
                },
    {
        self.history.push(event);
        let new_len = self.history.len();
        let n = self.subs.len();
        let mut i: usize = 0;
        while i < n
            invariant
                n == self.subs@.len() == old(self).subs@.len(),
                new_len == self.history@.len() == old(self).history@.len() + 1,
                self.history@ == old(self).history@.push(event),
                i <= n,
                forall|s: int| i <= s < n ==> #[trigger] self.subs@[s] == old(self).subs@[s],
                forall|s: int|
                    0 <= s < i ==> {
                        let pre = old(self).subs@[s];
                        let post = #[trigger] self.subs@[s];
                        &&& post.received@ == pre.received@
                        &&& post.start@ == pre.start@
                        &&& (if old(self).history@.len() - pre.cursor < BUS_CAPACITY {
                            post.cursor == pre.cursor && post.dropped@ == pre.dropped@
                        } else {
                            post.cursor == pre.cursor + 1 && post.dropped@ == pre.dropped@ + 1
                        })
                    },
                old(self).wf(),
            decreases n - i,
        {
            let lagging = new_len - self.subs[i].cursor > BUS_CAPACITY;
            if lagging {
                let sub = &self.subs[i];
                let updated = Subscriber {
                    cursor: sub.cursor + 1,
                    start: sub.start,
                    received: sub.received,
                    dropped: Ghost(sub.dropped@ + 1),
                };
                self.subs[i] = updated;
            }
            i = i + 1;
        }
        proof {
            assert forall|s: int| 0 <= s < self.subs@.len() implies {
                let sub = #[trigger] self.subs@[s];
                &&& sub.start@ <= sub.cursor <= self.history@.len()
                &&& self.history@.len() - sub.cursor <= BUS_CAPACITY
                &&& sub.start@ + sub.dropped@ + sub.received@.len() == sub.cursor
                &&& (sub.dropped@ == 0 ==> sub.received@ == self.history@.subrange(
                    sub.start@ as int,
                    sub.cursor as int,
                ))
            } by {
                let pre = old(self).subs@[s];
                let post = self.subs@[s];
                if post.dropped@ == 0 {
                    assert(pre.dropped@ == 0);
                    assert(pre.received@ == old(self).history@.subrange(
                        pre.start@ as int,
                        pre.cursor as int,
                    ));
                    assert(self.history@.subrange(post.start@ as int, post.cursor as int)
                        =~= old(self).history@.subrange(pre.start@ as int, pre.cursor as int));
                }
            }
        }
    }

    /// Receive the next pending event for a subscriber, or `None` when it
    /// has seen everything published so far. Delivery is in publication
    /// order: the event returned is exactly the history entry at the
    /// subscriber's cursor, and it is appended to its received transcript.
    pub fn recv(&mut self, sid: usize) -> (r: Option<ServerMessage>)
        requires
            old(self).wf(),
            sid < old(self).subs@.len(),
        ensures
            final(self).wf(),
            final(self).history@ == old(self).history@,
            final(self).subs@.len() == old(self).subs@.len(),
            forall|s: int|
                0 <= s < old(self).subs@.len() && s != sid ==> final(self).subs@[s] == old(
                    self,
                ).subs@[s],
            ({
                let pre = old(self).subs@[sid as int];
                let post = final(self).subs@[sid as int];
                if pre.cursor < old(self).history@.len() {
                    &&& r == Some(old(self).history@[pre.cursor as int])
                    &&& post.cursor == pre.cursor + 1
                    &&& post.received@ == pre.received@.push(
                        old(self).history@[pre.cursor as int],
                    )
                    &&& post.dropped@ == pre.dropped@
                    &&& post.start@ == pre.start@
                } else {
                    r is None && post == pre
                }
            }),
    {
        let cursor = self.subs[sid].cursor;
        if cursor < self.history.len() {
            let event = self.history[cursor].clone();
            let sub = &self.subs[sid];
            let updated = Subscriber {
                cursor: cursor + 1,
                start: sub.start,
                received: Ghost(sub.received@.push(event)),
                dropped: sub.dropped,
            };
            self.subs[sid] = updated;
            proof {
                let pre = old(self).subs@[sid as int];
                let post = self.subs@[sid as int];
                if post.dropped@ == 0 {
                    assert(post.received@ =~= self.history@.subrange(
                        post.start@ as int,
                        post.cursor as int,
                    ));
                }
            }
            Some(event)
        } else {
            None
        }
    }

    /// How many events a subscriber still has pending.
    pub fn pending(&self, sid: usize) -> (r: usize)
        requires
            self.wf(),
            sid < self.subs@.len(),
        ensures
            r == self.history@.len() - self.subs@[sid as int].cursor,
    {
        self.history.len() - self.subs[sid].cursor
    }
}

/// Events arrive in publication order when the subscriber does not lag: a
/// subscriber that never had an event dropped has received exactly the
/// events published since it subscribed, each at its place in publication
/// order.
pub proof fn lemma_no_lag_receives_all_in_order(b: Bus, sid: int)
    requires
        b.wf(),
        0 <= sid < b.subs@.len(),
        b.subs@[sid].dropped@ == 0,
    ensures
        b.subs@[sid].received@ == b.history@.subrange(
            b.subs@[sid].start@ as int,
            b.subs@[sid].cursor as int,
        ),
        forall|k: int|
            0 <= k < b.subs@[sid].received@.len() ==> b.subs@[sid].received@[k] == b.history@[
                b.subs@[sid].start@ + k
            ],
{
    let sub = b.subs@[sid];
    assert(sub.received@ == b.history@.subrange(sub.start@ as int, sub.cursor as int));
}

} // verus!
