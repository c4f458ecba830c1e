//! Verified core of a kernel-multicast relay.
//!
//! The relay opens a raw, message-oriented socket on a kernel notification
//! channel, joins one multicast group, and echoes every received payload back
//! onto the same channel.  This crate holds the verified logic of that
//! pipeline: the setup ordering, the error taxonomy, payload truncation, the
//! FIFO hand-off between the receive path and the send path, and the sequence
//! counter.  The socket calls themselves are operating-system I/O and live in
//! the unverified binary around this library.

pub mod config;
pub mod error;
pub mod message;
pub mod queue;
pub mod relay;
pub mod setup;
