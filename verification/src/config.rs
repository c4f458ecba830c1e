//! Fixed configuration of the relay.

use vstd::prelude::*;

verus! {

/// Capacity, in bytes, of the reusable receive buffer.  A received datagram
/// is truncated to at most this many bytes.
pub const BUF_CAPACITY: usize = 1024;

/// The multicast group the relay joins on the notification channel, directly
/// after binding.  A fixed configuration constant, not user input.
pub const NOTIFY_GROUP: i32 = 22;

/// Socket-option level the kernel notification channel uses for membership
/// changes.  Paired with `NOTIFY_GROUP`; neither value is derived, both are
/// part of the channel's contract.
pub const MEMBERSHIP_LEVEL: i32 = 270;

/// Number of leading payload bytes treated as header-like metadata and left
/// out of the logged tail.
pub const LOG_TAIL_OFFSET: usize = 16;

} // verus!
