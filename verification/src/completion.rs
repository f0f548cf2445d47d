//! Completion-I/O backend (named-pipe style).
//!
//! Named pipes have no listen-once/accept-many model on a single handle:
//! each prospective client needs a freshly created pipe instance before the
//! connect wait. The very first instance for an address additionally
//! requests exclusivity, so a second listener on the same name fails fast.
//! Reads and writes issue an asynchronous operation and, when it does not
//! complete immediately, block on a dedicated completion primitive until it
//! finishes.
//!
//! As in the polling backend, the native calls are performed by the
//! embedding program and their raw results (a success flag, a transferred
//! byte count, the thread's last native error code) are fed to the step
//! functions here, which hold the whole decision logic under exact
//! contracts. Handles are plain numbers; the native resources they name
//! are created and released by the embedding program, guided by what
//! `close` hands back.

use vstd::prelude::*;
use crate::address::is_pipe_address;
use crate::address::pipe_address;
use crate::error::ConnState;
use crate::error::ListenerState;
use crate::error::ReadOutcome;
use crate::error::TransportError;
use crate::add_saturating;
use crate::sat_add64;

verus! {

/// Byte capacity requested for each pipe instance's in and out buffers.
pub const PIPE_BUFFER_SIZE: u32 = 65536;

/// Native code: an asynchronous operation is pending completion.
pub const ERROR_IO_PENDING: u32 = 997;

/// Native code: a client connected between instance creation and the
/// connect wait; the instance is already usable.
pub const ERROR_PIPE_CONNECTED: u32 = 535;

/// Native code: the other end of the pipe is gone; on a read this is the
/// completion backend's analogue of an orderly peer close.
pub const ERROR_BROKEN_PIPE: u32 = 109;

/// The handle value that a failed instance creation returns.
pub const INVALID_HANDLE: isize = -1;

/// Native code: the name is not a valid pipe name; preserved by the
/// listener constructor when it rejects a malformed address.
pub const ERROR_INVALID_NAME: i32 = 123;

/// Open-mode bit: the instance is readable and writable.
pub const PIPE_ACCESS_DUPLEX: u32 = 3;

/// Open-mode bit: operations on the handle may complete asynchronously.
pub const FILE_FLAG_OVERLAPPED: u32 = 0x4000_0000;

/// Open-mode bit: fail creation if an instance of this name already
/// exists; requested only for the first instance of an address.
pub const FILE_FLAG_FIRST_PIPE_INSTANCE: u32 = 0x0008_0000;

/// What the connect step decided after the connect call on a fresh
/// instance reported its result.
#[derive(Clone, Copy, Debug, PartialEq, Eq, Structural)]
pub enum ConnectStep {
    /// The connect failed with this error.
    Failed(TransportError),
    /// The connect is pending: block on the completion primitive, then
    /// report the queried result.
    Pending,
    /// A client is already connected; no wait is needed.
    Ready,
}

/// What an asynchronous read decided right after being issued.
#[derive(Clone, Copy, Debug, PartialEq, Eq)]
pub enum PipeReadStart {
    /// The read finished immediately with this outcome.
    Done(Result<ReadOutcome, TransportError>),
    /// The read is pending: block on the read-completion primitive, then
    /// report the queried result.
    Wait,
}

/// What an asynchronous write decided right after being issued.
#[derive(Clone, Copy, Debug, PartialEq, Eq)]
pub enum PipeWriteStart {
    /// The write finished immediately, accepting this many bytes (zero is
    /// legal, not an error).
    Done(Result<usize, TransportError>),
    /// The write is pending: block on the write-completion primitive, then
    /// report the queried result.
    Wait,
}

/// Listening endpoint of the completion backend: it owns no native handle
/// between accepts, only the address and the first-instance mark used to
/// label freshly created pipe instances.
#[derive(Clone, Debug, PartialEq, Eq)]
pub struct PipeListener {
    pub address: String,
    /// Whether the next created instance is the first for this address and
    /// must request exclusivity.
    pub first_instance: bool,
    pub state: ListenerState,
}

/// One duplex endpoint of the completion backend: the pipe handle plus one
/// dedicated read-completion and one dedicated write-completion primitive,
/// safe to reuse across calls because the protocol layer guarantees at most
/// one outstanding read and one outstanding write at a time.
#[derive(Clone, Copy, Debug, PartialEq, Eq, Structural)]
pub struct PipeConnection {
    pub named_pipe: isize,
    pub read_event: isize,
    pub write_event: isize,
    pub state: ConnState,
    /// Bytes delivered by successful reads, clamped at `u64::MAX`.
    pub delivered: u64,
    /// Bytes accepted by successful writes, clamped at `u64::MAX`.
    pub sent: u64,
}

/// Client's side of an endpoint: it holds the address it will open; the
/// opened handle becomes an ordinary [`PipeConnection`].
#[derive(Clone, Debug, PartialEq, Eq)]
pub struct ClientConnection {
    pub address: String,
}

/// The open mode of the next pipe instance: duplex and asynchronous, with
/// exclusivity requested exactly on an address's first instance.
pub open spec fn spec_instance_mode(first: bool) -> u32 {
    if first {
        PIPE_ACCESS_DUPLEX | FILE_FLAG_OVERLAPPED | FILE_FLAG_FIRST_PIPE_INSTANCE
    } else {
        PIPE_ACCESS_DUPLEX | FILE_FLAG_OVERLAPPED
    }
}

/// What the quit flag observed at the entry of `accept`, or re-observed
/// right after the connect wait, decides: a raised flag fails with the
/// distinguished shutdown error, a closed listener is a misuse, otherwise
/// the accept goes on.
pub open spec fn spec_accept_gate(l: PipeListener, quit: bool) -> Result<(), TransportError> {
    if quit {
        Err(TransportError::ShutdownRequested)
    } else if l.state is Closed {
        Err(TransportError::ProtocolMisuse)
    } else {
        Ok(())
    }
}

/// What the result of instance creation decides: the fresh handle, or the
/// preserved native error (a malformed pipe name ends here).
pub open spec fn spec_instance_verdict(handle: isize, code: i32) -> Result<isize, TransportError> {
    if handle == INVALID_HANDLE {
        Err(TransportError::PlatformError(code))
    } else {
        Ok(handle)
    }
}

/// What the connect call's result and the thread's last native error code
/// decide. The connect on an asynchronous instance reports success through
/// exactly two codes: pending completion, or a client that connected
/// already; a nonzero immediate result or any other code is a failure.
pub open spec fn spec_connect_verdict(result: i32, code: u32) -> ConnectStep {
    if result != 0 {
        ConnectStep::Failed(TransportError::PlatformError(code as i32))
    } else if code == ERROR_IO_PENDING {
        ConnectStep::Pending
    } else if code == ERROR_PIPE_CONNECTED {
        ConnectStep::Ready
    } else {
        ConnectStep::Failed(TransportError::PlatformError(code as i32))
    }
}

/// What the queried result of a completed wait decides: success, or the
/// preserved native error.
pub open spec fn spec_wait_verdict(res: i32, code: u32) -> Result<(), TransportError> {
    if res == 0 {
        Err(TransportError::PlatformError(code as i32))
    } else {
        Ok(())
    }
}

/// Closing the listener is final and idempotent; it owns no native handle,
/// so nothing is handed back for release.
pub open spec fn spec_pipe_listener_close(l: PipeListener) -> PipeListener {
    PipeListener { state: ListenerState::Closed, ..l }
}

impl PipeListener {
    /// A listening endpoint for the given pipe address. A name that is not
    /// pipe-style fails fast with the preserved native invalid-name code,
    /// never a panic. Nothing native is created yet: each accept creates
    /// its own instance, and the first one requests exclusivity.
    pub fn new(sockaddr: &str) -> (r: Result<PipeListener, TransportError>)
        ensures
            is_pipe_address(sockaddr@) ==> (r matches Ok(l) && l.address@ == sockaddr@
                && l.first_instance == true && l.state == ListenerState::Listening),
            !is_pipe_address(sockaddr@) ==> r == Err::<PipeListener, TransportError>(
                TransportError::PlatformError(ERROR_INVALID_NAME),
            ),
    {
        if pipe_address(sockaddr) {
            Ok(
                PipeListener {
                    address: sockaddr.to_owned(),
                    first_instance: true,
                    state: ListenerState::Listening,
                },
            )
        } else {
            Err(TransportError::PlatformError(ERROR_INVALID_NAME))
        }
    }

    /// Gate of `accept`: applied to the quit flag observed at call entry,
    /// and again to a fresh observation right after the connect wait, which
    /// closes the race between a completed wait and a concurrent shutdown
    /// request.
    pub fn accept_gate(&self, quit: bool) -> (r: Result<(), TransportError>)
        ensures
            r == spec_accept_gate(*self, quit),
    {
        if quit {
            Err(TransportError::ShutdownRequested)
        } else if matches!(self.state, ListenerState::Closed) {
            Err(TransportError::ProtocolMisuse)
        } else {
            Ok(())
        }
    }

    /// The open mode for the pipe instance the driver is about to create,
    /// and the spending of the first-instance mark.
    pub fn instance_open_mode(&mut self) -> (mode: u32)
        ensures
            mode == spec_instance_mode(old(self).first_instance),
            *final(self) == (PipeListener { first_instance: false, ..*old(self) }),
    {
        let mode: u32 = if self.first_instance {
            PIPE_ACCESS_DUPLEX | FILE_FLAG_OVERLAPPED | FILE_FLAG_FIRST_PIPE_INSTANCE
        } else {
            PIPE_ACCESS_DUPLEX | FILE_FLAG_OVERLAPPED
        };
        self.first_instance = false;
        mode
    }

    /// Judges the result of instance creation.
    pub fn instance_verdict(handle: isize, code: i32) -> (r: Result<isize, TransportError>)
        ensures
            r == spec_instance_verdict(handle, code),
    {
        if handle == INVALID_HANDLE {
            Err(TransportError::PlatformError(code))
        } else {
            Ok(handle)
        }
    }

    /// Judges the connect call on a fresh instance.
    pub fn connect_verdict(result: i32, code: u32) -> (r: ConnectStep)
        ensures
            r == spec_connect_verdict(result, code),
    {
        if result != 0 {
            ConnectStep::Failed(TransportError::PlatformError(#[verifier::truncate] (code as i32)))
        } else if code == ERROR_IO_PENDING {
            ConnectStep::Pending
        } else if code == ERROR_PIPE_CONNECTED {
            ConnectStep::Ready
        } else {
            ConnectStep::Failed(TransportError::PlatformError(#[verifier::truncate] (code as i32)))
        }
    }

    /// Judges the queried result of a pending connect's completed wait.
    pub fn connect_wait_verdict(res: i32, code: u32) -> (r: Result<(), TransportError>)
        ensures
            r == spec_wait_verdict(res, code),
    {
        if res == 0 {
            Err(TransportError::PlatformError(#[verifier::truncate] (code as i32)))
        } else {
            Ok(())
        }
    }

    /// Closes the listener; idempotent, and always succeeds.
    pub fn close(&mut self) -> (r: Result<(), TransportError>)
        ensures
            *final(self) == spec_pipe_listener_close(*old(self)),
            r == Ok::<(), TransportError>(()),
    {
        self.state = ListenerState::Closed;
        Ok(())
    }
}

/// One just-issued asynchronous read: an immediate positive count is
/// delivered directly; an immediate empty completion is the orderly end of
/// the stream, never a silent zero-as-success; a pending operation asks
/// the driver to wait; a broken pipe is the peer-closed outcome; anything
/// else preserves the native error.
pub open spec fn spec_read_started(
    c: PipeConnection,
    result: i32,
    bytes: u32,
    code: u32,
) -> (PipeConnection, PipeReadStart) {
    if c.state is Closed || c.state is Errored {
        (c, PipeReadStart::Done(Err(TransportError::ProtocolMisuse)))
    } else if result != 0 && bytes > 0 {
        (
            PipeConnection { delivered: sat_add64(c.delivered, bytes as u64), ..c },
            PipeReadStart::Done(Ok(ReadOutcome::Data(bytes as usize))),
        )
    } else if result != 0 {
        (
            PipeConnection { state: ConnState::PeerClosed, ..c },
            PipeReadStart::Done(Ok(ReadOutcome::PeerClosed)),
        )
    } else if code == ERROR_IO_PENDING {
        (c, PipeReadStart::Wait)
    } else if code == ERROR_BROKEN_PIPE {
        (
            PipeConnection { state: ConnState::PeerClosed, ..c },
            PipeReadStart::Done(Ok(ReadOutcome::PeerClosed)),
        )
    } else {
        (
            PipeConnection { state: ConnState::Errored, ..c },
            PipeReadStart::Done(Err(TransportError::PlatformError(code as i32))),
        )
    }
}

/// The queried result of a pending read's completed wait: a positive
/// transferred count is delivered; an empty one is the orderly end of the
/// stream; a broken pipe likewise; any other failure preserves the native
/// error.
pub open spec fn spec_read_waited(
    c: PipeConnection,
    res: i32,
    code: u32,
    bytes: u32,
) -> (PipeConnection, Result<ReadOutcome, TransportError>) {
    if c.state is Closed || c.state is Errored {
        (c, Err(TransportError::ProtocolMisuse))
    } else if res == 0 && code == ERROR_BROKEN_PIPE {
        (PipeConnection { state: ConnState::PeerClosed, ..c }, Ok(ReadOutcome::PeerClosed))
    } else if res == 0 {
        (
            PipeConnection { state: ConnState::Errored, ..c },
            Err(TransportError::PlatformError(code as i32)),
        )
    } else if bytes == 0 {
        (PipeConnection { state: ConnState::PeerClosed, ..c }, Ok(ReadOutcome::PeerClosed))
    } else {
        (
            PipeConnection { delivered: sat_add64(c.delivered, bytes as u64), ..c },
            Ok(ReadOutcome::Data(bytes as usize)),
        )
    }
}

/// One just-issued asynchronous write: an immediate completion reports the
/// accepted count (zero is legal); a pending operation asks the driver to
/// wait; any other condition preserves the native error.
pub open spec fn spec_write_started(
    c: PipeConnection,
    result: i32,
    bytes: u32,
    code: u32,
) -> (PipeConnection, PipeWriteStart) {
    if c.state is Closed || c.state is Errored {
        (c, PipeWriteStart::Done(Err(TransportError::ProtocolMisuse)))
    } else if result != 0 && bytes > 0 {
        (
            PipeConnection { sent: sat_add64(c.sent, bytes as u64), ..c },
            PipeWriteStart::Done(Ok(bytes as usize)),
        )
    } else if code == ERROR_IO_PENDING {
        (c, PipeWriteStart::Wait)
    } else if result != 0 {
        (c, PipeWriteStart::Done(Ok(0)))
    } else {
        (
            PipeConnection { state: ConnState::Errored, ..c },
            PipeWriteStart::Done(Err(TransportError::PlatformError(code as i32))),
        )
    }
}

/// The queried result of a pending write's completed wait.
pub open spec fn spec_write_waited(
    c: PipeConnection,
    res: i32,
    code: u32,
    bytes: u32,
) -> (PipeConnection, Result<usize, TransportError>) {
    if c.state is Closed || c.state is Errored {
        (c, Err(TransportError::ProtocolMisuse))
    } else if res == 0 {
        (
            PipeConnection { state: ConnState::Errored, ..c },
            Err(TransportError::PlatformError(code as i32)),
        )
    } else {
        (PipeConnection { sent: sat_add64(c.sent, bytes as u64), ..c }, Ok(bytes as usize))
    }
}

/// Closing a connection hands back all three handles — the pipe and both
/// completion primitives — exactly once, and is final.
pub open spec fn spec_pipe_conn_close(c: PipeConnection) -> (PipeConnection, Option<
    (isize, isize, isize),
>) {
    if c.state is Closed {
        (c, None)
    } else {
        (
            PipeConnection { state: ConnState::Closed, ..c },
            Some((c.named_pipe, c.read_event, c.write_event)),
        )
    }
}

impl PipeConnection {
    /// A fresh connection around a connected pipe handle and its two
    /// dedicated completion primitives, which the embedding program
    /// creates along with the handle.
    pub fn new(h: isize, read_event: isize, write_event: isize) -> (c: PipeConnection)
        ensures
            c == (PipeConnection {
                named_pipe: h,
                read_event,
                write_event,
                state: ConnState::Connected,
                delivered: 0,
                sent: 0,
            }),
    {
        PipeConnection {
            named_pipe: h,
            read_event,
            write_event,
            state: ConnState::Connected,
            delivered: 0,
            sent: 0,
        }
    }

    /// The connection's identifier: its pipe handle, narrowed.
    pub fn id(&self) -> (r: i32)
        ensures
            r == self.named_pipe as i32,
    {
        #[verifier::truncate] (self.named_pipe as i32)
    }

    /// First step of one logical read; see [`spec_read_started`].
    pub fn read_started(&mut self, result: i32, bytes: u32, code: u32) -> (r: PipeReadStart)
        ensures
            *final(self) == spec_read_started(*old(self), result, bytes, code).0,
            r == spec_read_started(*old(self), result, bytes, code).1,
    {
        if matches!(self.state, ConnState::Closed) || matches!(self.state, ConnState::Errored) {
            return PipeReadStart::Done(Err(TransportError::ProtocolMisuse));
        }
        if result != 0 && bytes > 0 {
            self.delivered = add_saturating(self.delivered, bytes as u64);
            PipeReadStart::Done(Ok(ReadOutcome::Data(bytes as usize)))
        } else if result != 0 {
            self.state = ConnState::PeerClosed;
            PipeReadStart::Done(Ok(ReadOutcome::PeerClosed))
        } else if code == ERROR_IO_PENDING {
            PipeReadStart::Wait
        } else if code == ERROR_BROKEN_PIPE {
            self.state = ConnState::PeerClosed;
            PipeReadStart::Done(Ok(ReadOutcome::PeerClosed))
        } else {
            self.state = ConnState::Errored;
            PipeReadStart::Done(Err(TransportError::PlatformError(#[verifier::truncate] (code as i32))))
        }
    }

    /// Second step of a read that went pending; see [`spec_read_waited`].
    pub fn read_waited(&mut self, res: i32, code: u32, bytes: u32) -> (r: Result<
        ReadOutcome,
        TransportError,
    >)
        ensures
            *final(self) == spec_read_waited(*old(self), res, code, bytes).0,
            r == spec_read_waited(*old(self), res, code, bytes).1,
    {
        if matches!(self.state, ConnState::Closed) || matches!(self.state, ConnState::Errored) {
            return Err(TransportError::ProtocolMisuse);
        }
        if res == 0 && code == ERROR_BROKEN_PIPE {
            self.state = ConnState::PeerClosed;
            Ok(ReadOutcome::PeerClosed)
        } else if res == 0 {
            self.state = ConnState::Errored;
            Err(TransportError::PlatformError(#[verifier::truncate] (code as i32)))
        } else if bytes == 0 {
            self.state = ConnState::PeerClosed;
            Ok(ReadOutcome::PeerClosed)
        } else {
            self.delivered = add_saturating(self.delivered, bytes as u64);
            Ok(ReadOutcome::Data(bytes as usize))
        }
    }

    /// First step of one logical write; see [`spec_write_started`].
    pub fn write_started(&mut self, result: i32, bytes: u32, code: u32) -> (r: PipeWriteStart)
        ensures
            *final(self) == spec_write_started(*old(self), result, bytes, code).0,
            r == spec_write_started(*old(self), result, bytes, code).1,
    {
        if matches!(self.state, ConnState::Closed) || matches!(self.state, ConnState::Errored) {
            return PipeWriteStart::Done(Err(TransportError::ProtocolMisuse));
        }
        if result != 0 && bytes > 0 {
            self.sent = add_saturating(self.sent, bytes as u64);
            PipeWriteStart::Done(Ok(bytes as usize))
        } else if code == ERROR_IO_PENDING {
            PipeWriteStart::Wait
        } else if result != 0 {
            PipeWriteStart::Done(Ok(0))
        } else {
            self.state = ConnState::Errored;
            PipeWriteStart::Done(Err(TransportError::PlatformError(#[verifier::truncate] (code as i32))))
        }
    }

    /// Second step of a write that went pending; see [`spec_write_waited`].
    pub fn write_waited(&mut self, res: i32, code: u32, bytes: u32) -> (r: Result<
        usize,
        TransportError,
    >)
        ensures
            *final(self) == spec_write_waited(*old(self), res, code, bytes).0,
            r == spec_write_waited(*old(self), res, code, bytes).1,
    {
        if matches!(self.state, ConnState::Closed) || matches!(self.state, ConnState::Errored) {
            return Err(TransportError::ProtocolMisuse);
        }
        if res == 0 {
            self.state = ConnState::Errored;
            Err(TransportError::PlatformError(#[verifier::truncate] (code as i32)))
        } else {
            self.sent = add_saturating(self.sent, bytes as u64);
            Ok(bytes as usize)
        }
    }

    /// Judges the disconnect of a server-side instance, which must precede
    /// its reuse or destruction; the connection's handles stay alive until
    /// [`PipeConnection::close`].
    pub fn shutdown(&self, result: i32, code: i32) -> (r: Result<(), TransportError>)
        ensures
            result == 0 ==> r == Err::<(), TransportError>(TransportError::PlatformError(code)),
            result != 0 ==> r == Ok::<(), TransportError>(()),
    {
        if result == 0 {
            Err(TransportError::PlatformError(code))
        } else {
            Ok(())
        }
    }

    /// Closes the connection: hands the driver the pipe handle and both
    /// completion primitives to release. Idempotent.
    pub fn close(&mut self) -> (r: Option<(isize, isize, isize)>)
        ensures
            *final(self) == spec_pipe_conn_close(*old(self)).0,
            r == spec_pipe_conn_close(*old(self)).1,
    {
        match self.state {
            ConnState::Closed => None,
            _ => {
                self.state = ConnState::Closed;
                Some((self.named_pipe, self.read_event, self.write_event))
            },
        }
    }
}

/// The whole decision of one completion-backend `accept`, as a function
/// of the quit flag observed at entry, the created instance's handle, the
/// connect call's result, the queried result of the wait (consulted only
/// when the connect went pending), the quit flag re-observed after the
/// blocking step, and the two completion primitives created for the new
/// connection.
pub open spec fn spec_pipe_accept_outcome(
    l: PipeListener,
    quit_at_entry: bool,
    handle: isize,
    create_code: i32,
    connect_result: i32,
    connect_code: u32,
    wait_res: i32,
    wait_code: u32,
    quit_after_wait: bool,
    read_event: isize,
    write_event: isize,
) -> Result<PipeConnection, TransportError> {
    match spec_accept_gate(l, quit_at_entry) {
        Err(e) => Err(e),
        Ok(_) => match spec_instance_verdict(handle, create_code) {
            Err(e) => Err(e),
            Ok(h) => {
                let fresh = PipeConnection {
                    named_pipe: h,
                    read_event,
                    write_event,
                    state: ConnState::Connected,
                    delivered: 0,
                    sent: 0,
                };
                match spec_connect_verdict(connect_result, connect_code) {
                    ConnectStep::Failed(e) => Err(e),
                    ConnectStep::Pending => match spec_wait_verdict(wait_res, wait_code) {
                        Err(e) => Err(e),
                        Ok(_) => match spec_accept_gate(l, quit_after_wait) {
                            Err(e) => Err(e),
                            Ok(_) => Ok(fresh),
                        },
                    },
                    ConnectStep::Ready => match spec_accept_gate(l, quit_after_wait) {
                        Err(e) => Err(e),
                        Ok(_) => Ok(fresh),
                    },
                }
            },
        },
    }
}

/// Law: as on the polling backend, a quit flag observed raised at the
/// entry of `accept` means no continuation yields a connection — the call
/// fails with the distinguished shutdown error whatever the native steps
/// would have reported.
pub proof fn lemma_pipe_accept_refuses_after_quit(
    l: PipeListener,
    handle: isize,
    create_code: i32,
    connect_result: i32,
    connect_code: u32,
    wait_res: i32,
    wait_code: u32,
    quit_after_wait: bool,
    read_event: isize,
    write_event: isize,
)
    ensures
        spec_pipe_accept_outcome(
            l,
            true,
            handle,
            create_code,
            connect_result,
            connect_code,
            wait_res,
            wait_code,
            quit_after_wait,
            read_event,
            write_event,
        ) == Err::<PipeConnection, TransportError>(TransportError::ShutdownRequested),
{
}

/// Law: a completed `accept` wraps exactly the created handle and the two
/// fresh completion primitives into a connected endpoint with both byte
/// counters at zero, on either success path: a pending connect whose wait
/// succeeded, or a client that connected already.
pub proof fn lemma_pipe_accept_yields_fresh_connection(
    l: PipeListener,
    handle: isize,
    create_code: i32,
    connect_code: u32,
    wait_res: i32,
    wait_code: u32,
    read_event: isize,
    write_event: isize,
)
    requires
        l.state is Listening,
        handle != INVALID_HANDLE,
        connect_code == ERROR_IO_PENDING ==> wait_res != 0,
        connect_code == ERROR_IO_PENDING || connect_code == ERROR_PIPE_CONNECTED,
    ensures
        spec_pipe_accept_outcome(
            l,
            false,
            handle,
            create_code,
            0,
            connect_code,
            wait_res,
            wait_code,
            false,
            read_event,
            write_event,
        ) == Ok::<PipeConnection, TransportError>(
            (PipeConnection {
                named_pipe: handle,
                read_event,
                write_event,
                state: ConnState::Connected,
                delivered: 0,
                sent: 0,
            }),
        ),
{
}

/// Law: a failed instance creation — a malformed pipe name ends this way —
/// surfaces the preserved native error code, never a panic and never a
/// connection.
pub proof fn lemma_bad_name_is_platform_error(
    l: PipeListener,
    create_code: i32,
    connect_result: i32,
    connect_code: u32,
    wait_res: i32,
    wait_code: u32,
    quit_after_wait: bool,
    read_event: isize,
    write_event: isize,
)
    requires
        l.state is Listening,
    ensures
        spec_pipe_accept_outcome(
            l,
            false,
            INVALID_HANDLE,
            create_code,
            connect_result,
            connect_code,
            wait_res,
            wait_code,
            quit_after_wait,
            read_event,
            write_event,
        ) == Err::<PipeConnection, TransportError>(TransportError::PlatformError(create_code)),
{
}

/// Law: exclusivity is requested exactly on an address's first instance —
/// the first open mode carries the first-instance bit, every later one
/// does not, and both are duplex and asynchronous.
pub proof fn lemma_exclusivity_only_first()
    ensures
        spec_instance_mode(true) & FILE_FLAG_FIRST_PIPE_INSTANCE == FILE_FLAG_FIRST_PIPE_INSTANCE,
        spec_instance_mode(false) & FILE_FLAG_FIRST_PIPE_INSTANCE == 0,
        spec_instance_mode(true) & PIPE_ACCESS_DUPLEX == PIPE_ACCESS_DUPLEX,
        spec_instance_mode(false) & PIPE_ACCESS_DUPLEX == PIPE_ACCESS_DUPLEX,
        spec_instance_mode(true) & FILE_FLAG_OVERLAPPED == FILE_FLAG_OVERLAPPED,
        spec_instance_mode(false) & FILE_FLAG_OVERLAPPED == FILE_FLAG_OVERLAPPED,
{
    assert((3u32 | 0x4000_0000u32 | 0x0008_0000u32) & 0x0008_0000u32 == 0x0008_0000u32)
        by (bit_vector);
    assert((3u32 | 0x4000_0000u32) & 0x0008_0000u32 == 0u32) by (bit_vector);
    assert((3u32 | 0x4000_0000u32 | 0x0008_0000u32) & 3u32 == 3u32) by (bit_vector);
    assert((3u32 | 0x4000_0000u32) & 3u32 == 3u32) by (bit_vector);
    assert((3u32 | 0x4000_0000u32 | 0x0008_0000u32) & 0x4000_0000u32 == 0x4000_0000u32)
        by (bit_vector);
    assert((3u32 | 0x4000_0000u32) & 0x4000_0000u32 == 0x4000_0000u32) by (bit_vector);
}

/// Law: closing a pipe connection is idempotent — a second close changes
/// nothing and releases no handle.
pub proof fn lemma_pipe_conn_close_idempotent(c: PipeConnection)
    ensures
        spec_pipe_conn_close(spec_pipe_conn_close(c).0).0 == spec_pipe_conn_close(c).0,
        spec_pipe_conn_close(spec_pipe_conn_close(c).0).1 is None,
{
}

/// Law: closing a pipe listener is idempotent and always succeeds.
pub proof fn lemma_pipe_listener_close_idempotent(l: PipeListener)
    ensures
        spec_pipe_listener_close(spec_pipe_listener_close(l)) == spec_pipe_listener_close(l),
{
}

/// Law: on this backend too, a read outcome `Data` always carries at least
/// one byte; an empty or broken-pipe completion is surfaced as the
/// distinguished peer-closed outcome, at issue time and at wait time
/// alike, and the connection's state records the closure.
pub proof fn lemma_pipe_peer_close_never_silent(
    c: PipeConnection,
    result: i32,
    res: i32,
    bytes: u32,
    code: u32,
)
    ensures
        spec_read_started(c, result, bytes, code).1 matches PipeReadStart::Done(
            Ok(ReadOutcome::Data(n)),
        ) ==> n > 0,
        spec_read_waited(c, res, code, bytes).1 matches Ok(ReadOutcome::Data(n)) ==> n > 0,
        (c.state is Connected && result != 0 && bytes == 0) ==> (spec_read_started(
            c,
            result,
            bytes,
            code,
        ).1 == PipeReadStart::Done(Ok(ReadOutcome::PeerClosed)) && spec_read_started(
            c,
            result,
            bytes,
            code,
        ).0.state is PeerClosed),
        (c.state is Connected && res != 0 && bytes == 0) ==> (spec_read_waited(
            c,
            res,
            code,
            bytes,
        ).1 == Ok::<ReadOutcome, TransportError>(ReadOutcome::PeerClosed) && spec_read_waited(
            c,
            res,
            code,
            bytes,
        ).0.state is PeerClosed),
{
}

impl ClientConnection {
    /// A client endpoint for the given address; nothing native happens
    /// until the pipe is opened.
    pub fn client_connect(sockaddr: &str) -> (r: Result<ClientConnection, TransportError>)
        ensures
            r matches Ok(c) && c.address@ == sockaddr@,
    {
        Ok(ClientConnection::new(sockaddr))
    }

    /// As [`ClientConnection::client_connect`], without the result wrapper.
    pub fn new(sockaddr: &str) -> (c: ClientConnection)
        ensures
            c.address@ == sockaddr@,
    {
        ClientConnection { address: sockaddr.to_owned() }
    }

    /// A completion-based endpoint is always ready to open: readiness
    /// polling does not apply, so this never asks the caller to wait.
    pub fn ready(&self) -> (r: Result<Option<()>, TransportError>)
        ensures
            r == Ok::<Option<()>, TransportError>(Some(())),
    {
        Ok(Some(()))
    }

    /// The client endpoint owns no receive-side resource of its own; the
    /// opened pipe is closed through its [`PipeConnection`].
    pub fn close_receiver(&self) -> (r: Result<(), TransportError>)
        ensures
            r == Ok::<(), TransportError>(()),
    {
        Ok(())
    }

    /// As [`ClientConnection::close_receiver`]: the endpoint itself holds
    /// no native handle, so closing it always succeeds.
    pub fn close(&self) -> (r: Result<(), TransportError>)
        ensures
            r == Ok::<(), TransportError>(()),
    {
        Ok(())
    }
}

} // verus!
