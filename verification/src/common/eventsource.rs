//! Fan-out of events to every subscribed receiver.

use std::rc::Rc;
use vstd::prelude::*;

use crate::common::channel::{share_rc, Queue, Receiver, Sender};

verus! {

/// A receiver of shared events.
pub type EventReceiver<T> = Receiver<Rc<T>>;

/// Publishes each event to every receiver still alive.
pub struct EventSource<T> {
    senders: Vec<Sender<Rc<T>>>,
}

impl<T> EventSource<T> {
    /// The number of subscriptions still held.
    pub closed spec fn subscriptions(&self) -> nat {
        self.senders@.len()
    }

    /// The queues the subscriptions deliver into, oldest subscription first.
    pub closed spec fn queues(&self) -> Seq<Queue<Rc<T>>> {
        self.senders@.map_values(|s: Sender<Rc<T>>| s.queue())
    }

    /// Whether some subscription of this source delivers into `q`.
    pub closed spec fn delivers_to(&self, q: Queue<Rc<T>>) -> bool {
        exists|i: int| 0 <= i < self.senders@.len() && #[trigger] self.senders@[i].queue() == q
    }

    /// A source with no subscribers.
    pub fn new() -> (r: Self)
        ensures
            r.subscriptions() == 0,
    {
        EventSource { senders: Vec::new() }
    }

    /// Sends the event to every subscriber whose receiver still exists, and forgets the
    /// subscriptions whose receiver is gone; no subscription is added.
    pub fn publish(&mut self, item: T)
        ensures
            final(self).subscriptions() <= old(self).subscriptions(),
            forall|q: Queue<Rc<T>>| #[trigger] final(self).delivers_to(q) ==> old(self).delivers_to(q),
            exists|origin: Seq<int>| #[trigger] picked_in_order(origin, old(self).queues(), final(self).queues()),
    {
        let rc = Rc::new(item);
        let mut kept: Vec<Sender<Rc<T>>> = Vec::new();
        let mut old_senders: Vec<Sender<Rc<T>>> = Vec::new();
        std::mem::swap(&mut old_senders, &mut self.senders);
        let n = old_senders.len();
        let mut i: usize = 0;
        // `origin[j]` is the position among the old subscriptions of the `j`-th kept one.
        let ghost mut origin: Seq<int> = Seq::empty();
        while i < n
            invariant
                n == old_senders@.len(),
                i <= n,
                kept@.len() <= i,
                origin.len() == kept@.len(),
                forall|j: int|
                    0 <= j < kept@.len() ==> 0 <= #[trigger] origin[j] < i && old_senders@[origin[j]].queue()
                        == kept@[j].queue(),
                forall|j: int, k: int| 0 <= j < k < kept@.len() ==> #[trigger] origin[j] < #[trigger] origin[k],
            decreases n - i,
        {
            let sender = &old_senders[i];
            if sender.is_alive() {
                sender.send(share_rc(&rc));
                let copy = sender.clone();
                kept.push(copy);
                proof {
                    origin = origin.push(i as int);
                }
            }
            i = i + 1;
        }
        proof {
            assert forall|q: Queue<Rc<T>>| #[trigger] (EventSource { senders: kept }).delivers_to(q) implies old(self).delivers_to(q) by {
                let j = choose|j: int| 0 <= j < kept@.len() && #[trigger] kept@[j].queue() == q;
                assert(0 <= origin[j] < n);
                assert(old(self).senders@[origin[j]].queue() == q);
            }
            let s = EventSource { senders: kept };
            assert(picked_in_order(origin, old(self).queues(), s.queues()));
        }
        self.senders = kept;
    }

    /// A new receiver of every event published from now on.
    pub fn subscribe(&mut self) -> (r: EventReceiver<T>)
        ensures
            final(self).subscriptions() == old(self).subscriptions() + 1,
            final(self).queues() == old(self).queues().push(r.queue()),
            final(self).delivers_to(r.queue()),
            forall|q: Queue<Rc<T>>| #[trigger] old(self).delivers_to(q) ==> final(self).delivers_to(q),
    {
        let receiver = Receiver::new();
        let sender = receiver.send();
        self.senders.push(sender);
        proof {
            assert(self.queues() =~= old(self).queues().push(receiver.queue()));
            let last = self.senders@.len() - 1;
            assert(self.senders@[last].queue() == receiver.queue());
            assert forall|q: Queue<Rc<T>>| #[trigger] old(self).delivers_to(q) implies self.delivers_to(q) by {
                let i = choose|i: int| 0 <= i < old(self).senders@.len() && #[trigger] old(self).senders@[i].queue() == q;
                assert(self.senders@[i] == old(self).senders@[i]);
            }
        }
        receiver
    }
}

/// `to` is made of elements of `from` kept in their order: `origin[j]` is the position in
/// `from` of `to[j]`, and positions grow along `to`.
pub open spec fn picked_in_order<A>(origin: Seq<int>, from: Seq<A>, to: Seq<A>) -> bool {
    &&& origin.len() == to.len()
    &&& forall|j: int| 0 <= j < to.len() ==> 0 <= #[trigger] origin[j] < from.len() && from[origin[j]] == to[j]
    &&& forall|j: int, k: int| 0 <= j < k < to.len() ==> #[trigger] origin[j] < #[trigger] origin[k]
}

} // verus!
