//! A single-threaded queue shared between a receiver and any number of senders.
//!
//! The queue lives in a cell that every handle reaches through a shared pointer, so what a
//! receiver takes out depends on what the other handles did before: nothing is stated of the
//! queue's contents beyond what each call does with the value it holds.

use std::collections::VecDeque;
use std::rc::Rc;
use vstd::cell::invcell::InvCell;
use vstd::predicate::Predicate;
use vstd::prelude::*;

verus! {

/// Every queue is an acceptable content of a channel: the cell guards no property of the
/// queue, since senders may queue any item and the receiver may take any out.
pub struct AnyQueue;

impl<T> Predicate<VecDeque<T>> for AnyQueue {
    open spec fn predicate(&self, v: VecDeque<T>) -> bool {
        true
    }
}

/// The shared queue of a channel.
pub type Queue<T> = Rc<InvCell<VecDeque<T>, AnyQueue>>;

/// Another pointer to the same value (`Rc::clone`, which the std documentation describes as
/// making another pointer to the same allocation).
#[verifier::external_body]
pub(crate) fn share_rc<T>(p: &Rc<T>) -> (r: Rc<T>)
    ensures
        r == *p,
{
    Rc::clone(p)
}

/// How many pointers to the queue exist (`Rc::strong_count`); the one passed in is one of them.
#[verifier::external_body]
fn pointer_count<T>(q: &Queue<T>) -> (r: usize)
    ensures
        r >= 1,
{
    Rc::strong_count(q)
}

/// The sending end of a channel.
pub struct Sender<T> {
    items: Queue<T>,
}

impl<T> Clone for Sender<T> {
    fn clone(&self) -> (r: Self)
        ensures
            r.queue() == self.queue(),
    {
        Sender { items: share_rc(&self.items) }
    }
}

impl<T> Sender<T> {
    /// The queue this sender appends to.
    pub closed spec fn queue(&self) -> Queue<T> {
        self.items
    }

    /// Appends an item at the back of the queue.
    pub fn send(&self, item: T) {
        let mut q = self.items.replace(VecDeque::new());
        q.push_back(item);
        self.items.replace(q);
    }

    /// Whether some other handle (the receiver) still points to the queue. How many handles
    /// exist is run-time state with no specification, so the answer is not promised.
    pub(crate) fn is_alive(&self) -> (r: bool) {
        pointer_count(&self.items) > 1
    }
}

/// The receiving end of a channel.
pub struct Receiver<T> {
    items: Queue<T>,
}

impl<T> Receiver<T> {
    /// The queue this receiver takes from.
    pub closed spec fn queue(&self) -> Queue<T> {
        self.items
    }

    /// A channel with an empty queue, in a cell of its own (its emptiness cannot be stated, as
    /// the cell's contents are out of sight of specifications).
    pub fn new() -> (r: Self) {
        let q: VecDeque<T> = VecDeque::new();
        Receiver { items: Rc::new(InvCell::new(q, Ghost(AnyQueue))) }
    }

    /// Throws away everything queued.
    pub fn drain(&self) {
        let _old = self.items.replace(VecDeque::new());
    }

    /// Takes the item at the front of the queue, if there is one. The queue is shared through
    /// a cell whose contents specifications cannot see, so the item is not promised.
    pub fn try_recv(&self) -> (r: Option<T>) {
        let mut q = self.items.replace(VecDeque::new());
        let item = q.pop_front();
        self.items.replace(q);
        item
    }

    /// Takes everything queued, front first. The queue is shared through a cell whose contents
    /// specifications cannot see, so the items are not promised.
    pub fn take_all(&self) -> (r: Vec<T>) {
        let mut q = self.items.replace(VecDeque::new());
        let mut out: Vec<T> = Vec::new();
        while q.len() > 0
            decreases q@.len(),
        {
            match q.pop_front() {
                Some(item) => out.push(item),
                None => break,
            }
        }
        out
    }

    /// A sender for this channel's queue.
    pub fn send(&self) -> (r: Sender<T>)
        ensures
            r.queue() == self.queue(),
    {
        Sender { items: share_rc(&self.items) }
    }
}

} // verus!
