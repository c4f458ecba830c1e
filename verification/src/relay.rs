//! The relay pipeline: receive, count, log, queue, send.
//!
//! `RelayCore` is the shared state of the two activities.  The producer
//! calls `on_receive` with the buffer and the length the OS reported; the
//! consumer calls `next_message` and sends what it gets.  Two ghost logs —
//! everything received and everything handed to the send path — carry the
//! relay's guarantees: the send path gets exactly the received payloads, in
//! the exact order received.

use vstd::prelude::*;
use crate::config::BUF_CAPACITY;
use crate::error::RelayError;
use crate::message::{tail_of, Message};
use crate::queue::HandoffQueue;

verus! {

/// What one log line shows for a received message: the sequence number, the
/// reported length, and the payload tail after the header-like prefix.
pub struct LogRecord {
    pub seq: u64,
    pub len: usize,
    pub tail: Vec<u8>,
}

/// The state of the relay pipeline.
pub struct RelayCore {
    count: u64,
    queue: HandoffQueue,
    received: Ghost<Seq<Seq<u8>>>,
    relayed: Ghost<Seq<Seq<u8>>>,
}

impl RelayCore {
    /// Every payload received so far, truncated to its reported length,
    /// oldest first.
    pub closed spec fn received_log(&self) -> Seq<Seq<u8>> {
        self.received@
    }

    /// Every payload handed to the send path so far, oldest first.
    pub closed spec fn relayed_log(&self) -> Seq<Seq<u8>> {
        self.relayed@
    }

    /// The pipeline invariant: the sequence counter counts the received
    /// messages, the relayed payloads are a prefix of the received ones,
    /// and the queue holds exactly the received payloads not yet relayed.
    pub closed spec fn wf(&self) -> bool {
        &&& self.count as nat == self.received@.len()
        &&& self.relayed@.len() <= self.received@.len()
        &&& self.relayed@ == self.received@.take(self.relayed@.len() as int)
        &&& self.queue@ == self.received@.skip(self.relayed@.len() as int)
        &&& forall|i: int|
            0 <= i < self.received@.len() ==> #[trigger] self.received@[i].len() <= BUF_CAPACITY
    }

    /// A fresh pipeline: nothing received, nothing relayed, counter at
    /// zero.
    pub fn new() -> (r: RelayCore)
        ensures
            r.wf(),
            r.received_log() == Seq::<Seq<u8>>::empty(),
            r.relayed_log() == Seq::<Seq<u8>>::empty(),
    {
        let r = RelayCore {
            count: 0,
            queue: HandoffQueue::new(),
            received: Ghost(Seq::empty()),
            relayed: Ghost(Seq::empty()),
        };
        proof {
            assert(r.relayed@ =~= r.received@.take(0));
            assert(r.queue@ =~= r.received@.skip(0));
        }
        r
    }

    /// The sequence counter: exactly the number of messages received.
    pub fn count(&self) -> (n: u64)
        requires
            self.wf(),
        ensures
            n as nat == self.received_log().len(),
    {
        self.count
    }

    /// How many received messages still wait for the send path.
    pub fn pending(&self) -> (n: usize)
        requires
            self.wf(),
        ensures
            n as nat == self.received_log().len() - self.relayed_log().len(),
    {
        self.queue.len()
    }

    /// The receive path for one message: truncates the buffer to the
    /// reported length, advances the sequence counter by exactly one,
    /// queues the truncated payload for sending, and returns what the log
    /// line shows — the sequence number the message was received under, the
    /// reported length, and the payload tail.
    pub fn on_receive(&mut self, buf: &Vec<u8>, len: usize) -> (log: LogRecord)
        requires
            old(self).wf(),
            len <= buf.len(),
            len <= BUF_CAPACITY,
            old(self).received_log().len() < u64::MAX,
        ensures
            final(self).wf(),
            final(self).received_log() == old(self).received_log().push(buf@.take(len as int)),
            final(self).received_log().len() == old(self).received_log().len() + 1,
            final(self).relayed_log() == old(self).relayed_log(),
            log.seq as nat == old(self).received_log().len(),
            log.len == len,
            log.tail@ == tail_of(buf@.take(len as int)),
    {
        let m = Message::from_buffer(buf, len);
        let tail = m.tail();
        let seq_no = self.count;
        self.count = self.count + 1;
        let ghost p = m@;
        self.queue.push(m);
        self.received = Ghost(self.received@.push(p));
        proof {
            let k = self.relayed@.len() as int;
            assert(self.relayed@ =~= self.received@.take(k));
            assert(self.queue@ =~= self.received@.skip(k));
        }
        LogRecord { seq: seq_no, len: len, tail }
    }

    /// The send path for one message: hands out the oldest queued message —
    /// exactly the next received payload, in the exact order received — or
    /// nothing when every received message has already been relayed.  The
    /// sequence counter and the received log are untouched.
    pub fn next_message(&mut self) -> (r: Option<Message>)
        requires
            old(self).wf(),
        ensures
            final(self).wf(),
            final(self).received_log() == old(self).received_log(),
            old(self).relayed_log().len() == old(self).received_log().len() ==> (r is None
                && final(self).relayed_log() == old(self).relayed_log()),
            old(self).relayed_log().len() < old(self).received_log().len() ==> (r matches Some(m)
                && m@ == old(self).received_log()[old(self).relayed_log().len() as int]
                && m.wf()
                && final(self).relayed_log() == old(self).relayed_log().push(m@)),
    {
        let popped = self.queue.pop();
        match popped {
            Option::None => Option::None,
            Option::Some(m) => {
                let ghost p = m@;
                self.relayed = Ghost(self.relayed@.push(p));
                proof {
                    let k = self.relayed@.len() as int;
                    assert(self.relayed@ =~= self.received@.take(k));
                    assert(self.queue@ =~= self.received@.skip(k));
                }
                Option::Some(m)
            },
        }
    }
}

/// Judges the outcome of one send: this socket class must transmit the
/// whole payload as a single datagram, so a short write is this system's
/// failure — a `ConnectionError` — never silently ignored.
pub fn check_send_complete(written: usize, expected: usize) -> (r: Result<(), RelayError>)
    ensures
        r == (if written == expected {
            Result::<(), RelayError>::Ok(())
        } else {
            Result::<(), RelayError>::Err(RelayError::ConnectionError)
        }),
{
    if written == expected {
        Result::Ok(())
    } else {
        Result::Err(RelayError::ConnectionError)
    }
}

/// Round-trip identity: every payload the send path gets is byte for byte
/// the payload that was received, truncated to the reported length.
pub proof fn lemma_payload_round_trip(r: &RelayCore)
    requires
        r.wf(),
    ensures
        r.relayed_log().len() <= r.received_log().len(),
        forall|i: int|
            0 <= i < r.relayed_log().len() ==> r.relayed_log()[i] == r.received_log()[i],
{
}

/// FIFO: the relayed payloads are exactly the oldest received payloads, in
/// the exact order received — whatever interleaving of the receive and send
/// activities led to this state, since both preserve the invariant.
pub proof fn lemma_fifo_order(r: &RelayCore)
    requires
        r.wf(),
    ensures
        r.relayed_log() == r.received_log().take(r.relayed_log().len() as int),
{
}

} // verus!
