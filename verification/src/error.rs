//! Error taxonomy of the transport layer.
//!
//! Transient native conditions (interrupted call, unregistered would-block)
//! are absorbed by the retry discipline and never surfaced. Everything else
//! becomes a typed result: a distinguished shutdown error, the preserved
//! native error code, or a misuse error for operations on a closed endpoint.
//! An orderly end of stream is not an error at all; it is the distinguished
//! [`ReadOutcome::PeerClosed`] outcome.

use vstd::prelude::*;

verus! {

/// Native error code for an interrupted call (`EINTR`).
pub const ERR_INTERRUPTED: i32 = 4;

/// Native error code for would-block without a registered notification
/// (`EAGAIN`, which equals `EWOULDBLOCK` on the polling platform).
pub const ERR_WOULD_BLOCK: i32 = 11;

/// A non-retryable failure of a transport call.
#[derive(Clone, Copy, Debug, PartialEq, Eq, Structural)]
pub enum TransportError {
    /// The quit flag was observed raised at the entry of a blocking call.
    ShutdownRequested,
    /// A native call failed; the native error code is preserved.
    PlatformError(i32),
    /// The operation was attempted on an endpoint that is already closed
    /// or was rendered unusable by an earlier failure.
    ProtocolMisuse,
}

/// The outcome of one successful logical read.
#[derive(Clone, Copy, Debug, PartialEq, Eq, Structural)]
pub enum ReadOutcome {
    /// This many bytes were delivered into the caller's buffer; always
    /// at least one.
    Data(usize),
    /// The peer ended the stream in an orderly fashion.
    PeerClosed,
}

/// Lifecycle of a listener. A fresh listener is already bound and
/// listening; closing is the only transition and is final.
#[derive(Clone, Copy, Debug, PartialEq, Eq, Structural)]
pub enum ListenerState {
    Listening,
    Closed,
}

/// Lifecycle of a connection. `PeerClosed`, `Errored` and `Closed` are
/// terminal: a connection that reached one of them is never reused, only
/// closed.
#[derive(Clone, Copy, Debug, PartialEq, Eq, Structural)]
pub enum ConnState {
    Connected,
    PeerClosed,
    Errored,
    Closed,
}

/// Translates the result of a fallible native setup call (bind, listen,
/// instance creation) into the typed taxonomy: the native error code is
/// preserved, never a panic.
pub fn native_verdict(r: Result<i32, i32>) -> (v: Result<i32, TransportError>)
    ensures
        r matches Ok(fd) ==> v == Ok::<i32, TransportError>(fd),
        r matches Err(code) ==> v == Err::<i32, TransportError>(TransportError::PlatformError(code)),
{
    match r {
        Ok(fd) => Ok(fd),
        Err(code) => Err(TransportError::PlatformError(code)),
    }
}

/// Whether a native error code names one of the exactly two transient
/// conditions that the read/write retry discipline absorbs.
pub open spec fn spec_retryable(code: i32) -> bool {
    code == ERR_INTERRUPTED || code == ERR_WOULD_BLOCK
}

/// Decides whether a failed native I/O call must be transparently retried.
pub fn retryable(code: i32) -> (r: bool)
    ensures
        r == spec_retryable(code),
{
    code == ERR_INTERRUPTED || code == ERR_WOULD_BLOCK
}

impl TransportError {
    /// A short description of the error, for diagnostics.
    pub fn describe(&self) -> (s: String)
        ensures
            self matches TransportError::ShutdownRequested ==> s@ == "listener shutdown for quit flag"@,
            self matches TransportError::PlatformError(_) ==> s@ == "native call failed"@,
            self matches TransportError::ProtocolMisuse ==> s@ == "endpoint already closed"@,
    {
        match self {
            TransportError::ShutdownRequested => "listener shutdown for quit flag".to_owned(),
            TransportError::PlatformError(_) => "native call failed".to_owned(),
            TransportError::ProtocolMisuse => "endpoint already closed".to_owned(),
        }
    }
}

} // verus!
