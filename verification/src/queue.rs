//! The hand-off queue between the receive path and the send path.
//!
//! An unbounded, order-preserving FIFO of messages: the producer pushes each
//! received message, the consumer pops them in the exact order pushed, so a
//! slow send never reorders the relay.  Blocking and cross-thread sharing
//! are the caller's concern; the queue itself is the verified ordering.

use vstd::prelude::*;
use crate::message::Message;

verus! {

pub struct HandoffQueue {
    items: Vec<Message>,
}

impl View for HandoffQueue {
    type V = Seq<Seq<u8>>;

    /// The payloads waiting to be sent, oldest first.
    closed spec fn view(&self) -> Seq<Seq<u8>> {
        self.items@.map_values(|m: Message| m@)
    }
}

impl HandoffQueue {
    /// An empty queue.
    pub fn new() -> (q: HandoffQueue)
        ensures
            q@ == Seq::<Seq<u8>>::empty(),
    {
        let q = HandoffQueue { items: Vec::new() };
        proof {
            assert(q@ =~= Seq::<Seq<u8>>::empty());
        }
        q
    }

    /// Number of messages waiting.
    pub fn len(&self) -> (n: usize)
        ensures
            n == self@.len(),
    {
        self.items.len()
    }

    /// Appends a message at the back.
    pub fn push(&mut self, m: Message)
        ensures
            final(self)@ == old(self)@.push(m@),
    {
        let ghost prev = self@;
        let ghost pushed = m@;
        self.items.push(m);
        proof {
            assert(self@ =~= prev.push(pushed));
        }
    }

    /// Removes and returns the oldest message, or nothing when the queue is
    /// empty.
    pub fn pop(&mut self) -> (r: Option<Message>)
        ensures
            old(self)@.len() == 0 ==> r is None && final(self)@ == old(self)@,
            old(self)@.len() > 0 ==> (r matches Some(m)
                && m@ == old(self)@[0]
                && final(self)@ == old(self)@.drop_first()),
    {
        if self.items.len() == 0 {
            None
        } else {
            let ghost prev = self@;
            let m = self.items.remove(0);
            proof {
                assert(self@ =~= prev.drop_first());
            }
            Some(m)
        }
    }
}

} // verus!
