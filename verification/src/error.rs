//! Error taxonomy of the relay, and the classification of raw OS error
//! numbers into it.
//!
//! Setup errors (`PermissionDenied`, `AddressInUse`, `InvalidOption`,
//! `ResourceError`) are fatal and occur only during the one-shot setup phase.
//! `Interrupted` is transient and retried; `ConnectionError` is fatal once
//! the socket is unusable.

use vstd::prelude::*;

verus! {

/// `EPERM`: operation not permitted.
pub const ERRNO_PERM: i32 = 1;
/// `EINTR`: interrupted call.
pub const ERRNO_INTR: i32 = 4;
/// `EACCES`: permission denied.
pub const ERRNO_ACCES: i32 = 13;
/// `EADDRINUSE`: address already in use.
pub const ERRNO_ADDRINUSE: i32 = 98;

#[derive(Clone, Copy, Debug, PartialEq, Eq, Structural)]
pub enum RelayError {
    /// The process lacks the privilege the kernel requires for this socket
    /// family.  Fatal, with a distinct user-facing instruction.
    PermissionDenied,
    /// The local endpoint is already bound by another entity.  Fatal.
    AddressInUse,
    /// The kernel rejected the membership option.  Fatal.
    InvalidOption,
    /// Any other OS-level allocation or setup failure.  Fatal.
    ResourceError,
    /// A call was interrupted; transient, retried silently.
    Interrupted,
    /// The socket became unusable while receiving or sending.  Fatal.
    ConnectionError,
}

/// How a failure of the open operation is classified: lack of privilege is
/// reported as `PermissionDenied`, everything else as `ResourceError`.
pub open spec fn open_error_class(errno: int) -> RelayError {
    if errno == ERRNO_PERM as int || errno == ERRNO_ACCES as int {
        RelayError::PermissionDenied
    } else {
        RelayError::ResourceError
    }
}

/// How a failure of the bind operation is classified: a doubly-bound
/// endpoint is reported as `AddressInUse`, everything else as
/// `ResourceError`.
pub open spec fn bind_error_class(errno: int) -> RelayError {
    if errno == ERRNO_ADDRINUSE as int {
        RelayError::AddressInUse
    } else {
        RelayError::ResourceError
    }
}

/// How a failure of a receive or send is classified: an interrupted call is
/// `Interrupted` (retryable), everything else is `ConnectionError` (fatal).
pub open spec fn io_error_class(errno: int) -> RelayError {
    if errno == ERRNO_INTR as int {
        RelayError::Interrupted
    } else {
        RelayError::ConnectionError
    }
}

/// Classifies the OS error number of a failed open.
pub fn classify_open_error(errno: i32) -> (e: RelayError)
    ensures
        e == open_error_class(errno as int),
{
    if errno == ERRNO_PERM || errno == ERRNO_ACCES {
        RelayError::PermissionDenied
    } else {
        RelayError::ResourceError
    }
}

/// Classifies the OS error number of a failed bind.
pub fn classify_bind_error(errno: i32) -> (e: RelayError)
    ensures
        e == bind_error_class(errno as int),
{
    if errno == ERRNO_ADDRINUSE {
        RelayError::AddressInUse
    } else {
        RelayError::ResourceError
    }
}

/// Classifies the OS error number of a failed group join: the kernel
/// rejected the option, whatever the reason it reports.
pub fn classify_join_error(_errno: i32) -> (e: RelayError)
    ensures
        e == RelayError::InvalidOption,
{
    RelayError::InvalidOption
}

/// Classifies the OS error number of a failed receive or send.
pub fn classify_io_error(errno: i32) -> (e: RelayError)
    ensures
        e == io_error_class(errno as int),
{
    if errno == ERRNO_INTR {
        RelayError::Interrupted
    } else {
        RelayError::ConnectionError
    }
}

impl RelayError {
    /// Whether the failed call is simply tried again.  Only `Interrupted`
    /// is; every other error aborts the relay.
    pub fn is_retryable(&self) -> (r: bool)
        ensures
            r == (*self is Interrupted),
    {
        match self {
            RelayError::Interrupted => true,
            _ => false,
        }
    }
}

} // verus!
