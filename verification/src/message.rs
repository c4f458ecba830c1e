//! A received datagram, truncated to the length the OS reported.

use vstd::prelude::*;
use crate::config::{BUF_CAPACITY, LOG_TAIL_OFFSET};

verus! {

/// The logged tail of a payload: the bytes after the fixed header-like
/// prefix, or nothing when the payload is shorter than that prefix.
pub open spec fn tail_of(s: Seq<u8>) -> Seq<u8> {
    if s.len() >= LOG_TAIL_OFFSET as int {
        s.skip(LOG_TAIL_OFFSET as int)
    } else {
        Seq::empty()
    }
}

/// One message taken off the channel.  The payload holds exactly the bytes
/// the OS reported as received, never more than `BUF_CAPACITY`; whatever
/// stood in the receive buffer past that length is discarded, not forwarded.
pub struct Message {
    payload: Vec<u8>,
}

impl View for Message {
    type V = Seq<u8>;

    closed spec fn view(&self) -> Seq<u8> {
        self.payload@
    }
}

impl Message {
    /// The payload never exceeds the receive-buffer capacity.
    pub open spec fn wf(&self) -> bool {
        self@.len() <= BUF_CAPACITY
    }

    /// Builds a message from the first `len` bytes of the receive buffer:
    /// the truncation step of the receive path.
    pub fn from_buffer(buf: &Vec<u8>, len: usize) -> (m: Message)
        requires
            len <= buf.len(),
            len <= BUF_CAPACITY,
        ensures
            m@ == buf@.take(len as int),
            m.wf(),
    {
        let mut payload: Vec<u8> = Vec::new();
        let mut i: usize = 0;
        while i < len
            invariant
                i <= len,
                len <= buf.len(),
                payload@ == buf@.take(i as int),
            decreases len - i,
        {
            let b = buf[i];
            payload.push(b);
            i = i + 1;
            proof {
                assert(payload@ =~= buf@.take(i as int));
            }
        }
        Message { payload }
    }

    /// Number of payload bytes.
    pub fn len(&self) -> (n: usize)
        ensures
            n == self@.len(),
    {
        self.payload.len()
    }

    /// The bytes shown in the log line: everything after the header-like
    /// prefix, or nothing for a payload shorter than that prefix.
    pub fn tail(&self) -> (t: Vec<u8>)
        ensures
            t@ == tail_of(self@),
    {
        let mut t: Vec<u8> = Vec::new();
        if self.payload.len() >= LOG_TAIL_OFFSET {
            let mut i: usize = LOG_TAIL_OFFSET;
            while i < self.payload.len()
                invariant
                    LOG_TAIL_OFFSET <= i <= self.payload.len(),
                    t@ == self.payload@.subrange(LOG_TAIL_OFFSET as int, i as int),
                decreases self.payload.len() - i,
            {
                let b = self.payload[i];
                t.push(b);
                i = i + 1;
                proof {
                    assert(t@ =~= self.payload@.subrange(
                        LOG_TAIL_OFFSET as int,
                        i as int,
                    ));
                }
            }
            proof {
                assert(t@ =~= tail_of(self@));
            }
        } else {
            proof {
                assert(t@ =~= tail_of(self@));
            }
        }
        t
    }

    /// Hands the payload over to the send path.
    pub fn into_payload(self) -> (v: Vec<u8>)
        ensures
            v@ == self@,
    {
        self.payload
    }
}

} // verus!
