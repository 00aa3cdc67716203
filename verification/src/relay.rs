//! The broadcast relay: fan-out of push-style messages (console lines,
//! application events) to independent subscribers.
//!
//! Each subscription owns a bounded queue. Publishing never blocks and
//! never touches any queue but those of matching, live subscriptions; a
//! subscriber that does not keep up loses its oldest queued messages, one
//! per overflowing publish, rather than stalling the producer or its
//! peers. Within one subscription, messages arrive in publish order.
//!
//! A named filter makes a subscription a pure filter over the one publish
//! stream: it receives exactly the messages published under that name.

use vstd::prelude::*;

verus! {

/// Bound of a console subscription's queue.
pub const CONSOLE_QUEUE_CAPACITY: usize = 256;

/// Bound of an application-event subscription's queue.
pub const EVENT_QUEUE_CAPACITY: usize = 64;

/// The state of one subscription, as contracts see it.
pub struct SubView {
    /// `None` subscribes to every stream; `Some(name)` only to that one.
    pub filter: Option<Seq<char>>,
    /// Queued messages, oldest first.
    pub queue: Seq<Seq<char>>,
    /// Bound on the queue; beyond it the oldest message is dropped.
    pub capacity: nat,
    /// Whether the subscriber is still connected.
    pub live: bool,
}

struct Subscriber {
    filter: Option<String>,
    queue: Vec<String>,
    capacity: usize,
    live: bool,
}

/// Fan-out state: one bounded queue per subscription. Subscription ids are
/// indices into this table and are never reused; a disconnected
/// subscription stays behind as an emptied, dead slot.
pub struct BroadcastRelay {
    subs: Vec<Subscriber>,
}

/// Whether a subscription with this filter receives from stream `name`.
pub open spec fn filter_matches(filter: Option<Seq<char>>, name: Seq<char>) -> bool {
    match filter {
        None => true,
        Some(f) => f == name,
    }
}

/// One delivery into a bounded queue: append, dropping the oldest message
/// first when the queue is already at capacity.
pub open spec fn deliver_one(q: Seq<Seq<char>>, capacity: nat, msg: Seq<char>) -> Seq<Seq<char>> {
    if q.len() < capacity {
        q.push(msg)
    } else {
        q.drop_first().push(msg)
    }
}

/// The whole relay after one publish: every live, matching subscription
/// takes one delivery; every other subscription is untouched.
pub open spec fn publish_spec(subs: Seq<SubView>, name: Seq<char>, msg: Seq<char>) -> Seq<SubView> {
    Seq::new(
        subs.len(),
        |i: int|
            if subs[i].live && filter_matches(subs[i].filter, name) {
                SubView { queue: deliver_one(subs[i].queue, subs[i].capacity, msg), ..subs[i] }
            } else {
                subs[i]
            },
    )
}

spec fn sub_view(s: Subscriber) -> SubView {
    SubView {
        filter: match s.filter {
            None => None,
            Some(f) => Some(f@),
        },
        queue: s.queue.deep_view(),
        capacity: s.capacity as nat,
        live: s.live,
    }
}

impl View for BroadcastRelay {
    type V = Seq<SubView>;

    closed spec fn view(&self) -> Seq<SubView> {
        Seq::new(self.subs@.len(), |i: int| sub_view(self.subs@[i]))
    }
}

impl BroadcastRelay {
    /// Queues never exceed their positive capacity.
    pub open spec fn wf(self) -> bool {
        forall|i: int|
            0 <= i < self@.len() ==> {
                &&& (#[trigger] self@[i]).queue.len() <= self@[i].capacity
                &&& self@[i].capacity >= 1
            }
    }

    /// A relay with no subscriptions.
    pub fn new() -> (r: BroadcastRelay)
        ensures
            r.wf(),
            r@ == Seq::<SubView>::empty(),
    {
        let r = BroadcastRelay { subs: Vec::new() };
        proof {
            assert(r@ =~= Seq::<SubView>::empty());
        }
        r
    }

    /// Open a subscription with the given filter and queue bound; its id is
    /// the value returned.
    pub fn subscribe(&mut self, filter: Option<String>, capacity: usize) -> (sid: usize)
        requires
            old(self).wf(),
            capacity >= 1,
        ensures
            final(self).wf(),
            sid == old(self)@.len(),
            final(self)@ == old(self)@.push(
                SubView {
                    filter: match filter {
                        None => None,
                        Some(f) => Some(f@),
                    },
                    queue: Seq::<Seq<char>>::empty(),
                    capacity: capacity as nat,
                    live: true,
                },
            ),
    {
        let sid = self.subs.len();
        self.subs.push(Subscriber { filter, queue: Vec::new(), capacity, live: true });
        proof {
            assert(self.subs@[sid as int].queue.deep_view() =~= Seq::<Seq<char>>::empty());
            assert(self@ =~= old(self)@.push(self@[sid as int]));
        }
        sid
    }

    /// Publish one message under a stream name: one delivery to every live,
    /// matching subscription, nothing else touched, the producer never
    /// blocked.
    pub fn publish(&mut self, name: &str, msg: &str)
        requires
            old(self).wf(),
        ensures
            final(self).wf(),
            final(self)@ == publish_spec(old(self)@, name@, msg@),
    {
        let n = self.subs.len();
        let mut i: usize = 0;
        while i < n
            invariant
                i <= n,
                n == self.subs@.len(),
                self.wf(),
                forall|k: int| i <= k < n ==> self@[k] == old(self)@[k],
                forall|k: int|
                    0 <= k < i ==> self@[k] == #[trigger] publish_spec(old(self)@, name@, msg@)[k],
            decreases n - i,
        {
            let deliver = self.subs[i].live && match &self.subs[i].filter {
                None => true,
                Some(f) => crate::strutil::str_eq(f.as_str(), name),
            };
            if deliver {
                let ghost pre = self@;
                if self.subs[i].queue.len() >= self.subs[i].capacity {
                    let sub = &mut self.subs[i];
                    sub.queue.remove(0);
                    proof {
                        assert(self@[i as int].queue =~= pre[i as int].queue.drop_first());
                        assert(forall|k: int|
                            0 <= k < n && k != i ==> self@[k] == #[trigger] pre[k]);
                    }
                }
                let ghost mid = self@;
                let sub = &mut self.subs[i];
                sub.queue.push(msg.to_owned());
                proof {
                    assert(self@[i as int].queue =~= mid[i as int].queue.push(msg@));
                    assert forall|k: int| 0 <= k < n && k != i implies #[trigger] self@[k]
                        == pre[k] by {
                        assert(self@[k] == mid[k]);
                        assert(mid[k] == pre[k]);
                    }
                    assert(self@[i as int] == publish_spec(old(self)@, name@, msg@)[i as int]);
                    lemma_deliver_one_bounded(pre[i as int].queue, pre[i as int].capacity, msg@);
                    assert forall|k: int| 0 <= k < n implies ((#[trigger] self@[k]).queue.len()
                        <= self@[k].capacity && self@[k].capacity >= 1) by {
                        if k != i {
                            assert(self@[k] == pre[k]);
                        }
                    }
                }
            } else {
                proof {
                    assert(self@[i as int] == publish_spec(old(self)@, name@, msg@)[i as int]);
                }
            }
            i += 1;
        }
        proof {
            assert(self@ =~= publish_spec(old(self)@, name@, msg@));
        }
    }

    /// Pull the oldest queued message of subscription `sid`, if any.
    pub fn next_message(&mut self, sid: usize) -> (r: Option<String>)
        requires
            old(self).wf(),
            sid < old(self)@.len(),
        ensures
            final(self).wf(),
            final(self)@.len() == old(self)@.len(),
            match r {
                Some(m) => {
                    &&& old(self)@[sid as int].queue.len() > 0
                    &&& m@ == old(self)@[sid as int].queue.first()
                    &&& final(self)@ == old(self)@.update(
                        sid as int,
                        SubView {
                            queue: old(self)@[sid as int].queue.drop_first(),
                            ..old(self)@[sid as int]
                        },
                    )
                },
                None => {
                    &&& old(self)@[sid as int].queue.len() == 0
                    &&& final(self)@ == old(self)@
                },
            },
    {
        if self.subs[sid].queue.len() == 0 {
            proof {
                assert(self@[sid as int].queue.len() == 0);
                assert(self@ =~= old(self)@);
            }
            return None;
        }
        let sub = &mut self.subs[sid];
        let m = sub.queue.remove(0);
        proof {
            assert(self@[sid as int].queue =~= old(self)@[sid as int].queue.drop_first());
            assert(m@ == old(self)@[sid as int].queue.first());
            assert(forall|k: int|
                0 <= k < self@.len() && k != sid ==> self@[k] == #[trigger] old(self)@[k]);
            assert(self@ =~= old(self)@.update(
                sid as int,
                SubView { queue: old(self)@[sid as int].queue.drop_first(), ..old(self)@[sid as int] },
            ));
        }
        Some(m)
    }

    /// Disconnect subscription `sid`: it is marked dead and its queue is
    /// dropped; later publishes pass it by.
    pub fn unsubscribe(&mut self, sid: usize)
        requires
            old(self).wf(),
            sid < old(self)@.len(),
        ensures
            final(self).wf(),
            final(self)@ == old(self)@.update(
                sid as int,
                SubView {
                    queue: Seq::<Seq<char>>::empty(),
                    live: false,
                    ..old(self)@[sid as int]
                },
            ),
    {
        let sub = &mut self.subs[sid];
        sub.live = false;
        sub.queue = Vec::new();
        proof {
            assert(self@[sid as int].queue =~= Seq::<Seq<char>>::empty());
            assert(forall|k: int|
                0 <= k < self@.len() && k != sid ==> self@[k] == #[trigger] old(self)@[k]);
            assert(self@ =~= old(self)@.update(
                sid as int,
                SubView { queue: Seq::<Seq<char>>::empty(), live: false, ..old(self)@[sid as int] },
            ));
        }
    }
}

/// Fan-out isolation: what one publish does to a subscription depends only
/// on that subscription's own state. In particular a stalled or dead peer,
/// whatever its queue holds, cannot delay or change another subscriber's
/// deliveries.
pub proof fn lemma_publish_isolated(
    subs1: Seq<SubView>,
    subs2: Seq<SubView>,
    name: Seq<char>,
    msg: Seq<char>,
    j: int,
)
    requires
        subs1.len() == subs2.len(),
        0 <= j < subs1.len(),
        subs1[j] == subs2[j],
    ensures
        publish_spec(subs1, name, msg)[j] == publish_spec(subs2, name, msg)[j],
{
}

/// Bounded loss for a stalled subscriber: a delivery keeps the queue within
/// its capacity, appends the new message last, and once the queue is full
/// each further delivery drops exactly the oldest queued message.
pub proof fn lemma_deliver_one_bounded(q: Seq<Seq<char>>, capacity: nat, msg: Seq<char>)
    requires
        capacity >= 1,
        q.len() <= capacity,
    ensures
        deliver_one(q, capacity, msg).len() <= capacity,
        deliver_one(q, capacity, msg).last() == msg,
        q.len() == capacity ==> deliver_one(q, capacity, msg) == q.drop_first().push(msg),
        q.len() < capacity ==> deliver_one(q, capacity, msg) == q.push(msg),
{
}

} // verus!
