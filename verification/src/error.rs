//! Errors of the transport and reasons for turning a caller away.

use vstd::prelude::*;

verus! {

/// libsrt's code for a socket that could not be set up.
pub const SRT_ESOCKFAIL: i32 = 1003;

/// libsrt's code for a socket that was closed.
pub const SRT_ESCLOSED: i32 = 1005;

/// libsrt's code for a connection that is gone.
pub const SRT_ECONNLOST: i32 = 2001;

/// libsrt's code for a parameter that is not acceptable.
pub const SRT_EINVPARAM: i32 = 5003;

/// libsrt's code for a non-blocking operation that is still under way.
pub const SRT_EASYNCFAIL: i32 = 6000;

/// libsrt's code for data that there is no room for.
pub const SRT_EASYNCSND: i32 = 6001;

/// libsrt's code for an operation that took too long.
pub const SRT_ETIMEOUT: i32 = 6003;

/// What went wrong with an SRT operation.
#[derive(Debug, Clone, Copy, PartialEq, Eq, Structural)]
pub enum SrtError {
    /// A non-blocking operation is still under way.
    AsyncFail,
    /// There is no room for the data to be sent.
    AsyncSend,
    /// The connection is gone.
    ConnectionLost,
    /// A parameter is not acceptable.
    InvalidParam,
    /// The socket was closed.
    SocketClosed,
    /// The socket could not be set up.
    SocketFail,
    /// The operation took too long.
    Timeout,
    /// Any other libsrt error, by its code.
    Other(i32),
}

/// The error that a libsrt error code stands for.
pub open spec fn error_of(code: i32) -> SrtError {
    if code == SRT_ESOCKFAIL {
        SrtError::SocketFail
    } else if code == SRT_ESCLOSED {
        SrtError::SocketClosed
    } else if code == SRT_ECONNLOST {
        SrtError::ConnectionLost
    } else if code == SRT_EINVPARAM {
        SrtError::InvalidParam
    } else if code == SRT_EASYNCFAIL {
        SrtError::AsyncFail
    } else if code == SRT_EASYNCSND {
        SrtError::AsyncSend
    } else if code == SRT_ETIMEOUT {
        SrtError::Timeout
    } else {
        SrtError::Other(code)
    }
}

impl SrtError {
    /// The error that a libsrt error code stands for.
    pub fn from_code(code: i32) -> (error: SrtError)
        ensures
            error == error_of(code),
    {
        match code {
            SRT_ESOCKFAIL => SrtError::SocketFail,
            SRT_ESCLOSED => SrtError::SocketClosed,
            SRT_ECONNLOST => SrtError::ConnectionLost,
            SRT_EINVPARAM => SrtError::InvalidParam,
            SRT_EASYNCFAIL => SrtError::AsyncFail,
            SRT_EASYNCSND => SrtError::AsyncSend,
            SRT_ETIMEOUT => SrtError::Timeout,
            _ => SrtError::Other(code),
        }
    }
}

/// Different error codes stand for different errors.
pub proof fn law_error_codes_are_told_apart(a: i32, b: i32)
    requires
        error_of(a) == error_of(b),
    ensures
        a == b,
{
}

/// Why a caller is turned away.
#[derive(Debug, Clone, Copy, PartialEq, Eq, Structural)]
pub enum RejectReason {
    /// The listener's policy refuses the caller.
    Peer,
    /// Any other reason, by its code.
    Code(i32),
}

} // verus!
