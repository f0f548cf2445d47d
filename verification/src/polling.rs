//! Readiness-polling backend (filesystem-socket style).
//!
//! The listener owns a listening descriptor and a *wake channel*: a
//! readable/writable descriptor pair used solely for shutdown notification,
//! never for data. A blocking `accept` parks in a readiness wait over the
//! wake channel and the listening descriptor; raising the quit flag and
//! signalling the wake channel unparks it immediately.
//!
//! The native calls (the readiness wait, the accept, the byte transfers)
//! are performed by the embedding program. Everything the backend *decides*
//! — what each observation of the quit flag implies, how a readiness result
//! is classified, which native failures are absorbed by the retry
//! discipline, how an endpoint's state advances — is a step function here,
//! with an exact contract over the spec-level transition it implements.
//!
//! Descriptors are held as plain numbers; the operating-system resources
//! they name live and die with the embedding program, which must release
//! exactly the descriptors that `close` hands back.

use vstd::prelude::*;
use crate::error::ConnState;
use crate::error::ListenerState;
use crate::error::ReadOutcome;
use crate::error::TransportError;
use crate::error::retryable;
use crate::error::spec_retryable;
use crate::add_saturating;
use crate::sat_add64;

verus! {

/// What one readiness wait over the wake channel and the listening
/// descriptor reported.
#[derive(Clone, Copy, Debug, PartialEq, Eq, Structural)]
pub enum PollEvent {
    /// The wait itself failed with this native error code (an interrupted
    /// wait included: it is propagated and retried by the caller's outer
    /// loop, not absorbed here).
    Failed(i32),
    /// The wait returned without any descriptor signalled.
    NoEvent,
    /// The wait returned; each flag tells whether the wake channel or the
    /// listening descriptor was signalled.
    Ready { wake: bool, listener: bool },
}

/// Result of one native byte-transfer attempt: a transferred count, or a
/// native error code.
#[derive(Clone, Copy, Debug, PartialEq, Eq, Structural)]
pub enum IoEvent {
    Transferred(usize),
    Failed(i32),
}

/// What an accept in progress asks of its driver next.
#[derive(Clone, Debug, PartialEq, Eq, Structural)]
pub enum AcceptStep {
    /// Accept fails with this error.
    Fail(TransportError),
    /// Accept returns the "try again" signal: no connection, no error. The
    /// caller re-checks the quit flag and either stops or calls again.
    Retry,
    /// Park in the readiness wait, then report the result.
    WaitPoll,
    /// Accept the pending peer, then report the resulting descriptor.
    DoAccept,
    /// Accept succeeds with this fresh connection.
    Connected(LinuxConnection),
}

/// One logical read or write asks its driver either to retry the native
/// call or to surface this outcome.
#[derive(Clone, Copy, Debug, PartialEq, Eq)]
pub enum ReadStep {
    Retry,
    Done(Result<ReadOutcome, TransportError>),
}

/// Like [`ReadStep`], for writes: a successful write reports the count
/// accepted by the native call, and zero is legal, not an error.
#[derive(Clone, Copy, Debug, PartialEq, Eq)]
pub enum WriteStep {
    Retry,
    Done(Result<usize, TransportError>),
}

/// Listening endpoint of the polling backend.
#[derive(Clone, Copy, Debug, PartialEq, Eq, Structural)]
pub struct LinuxListener {
    /// The listening descriptor.
    pub fd: i32,
    /// Read side of the wake channel, part of the readiness wait.
    pub wake_read_fd: i32,
    /// Write side of the wake channel; signalled (and released on close) to
    /// unblock a parked accept.
    pub wake_write_fd: i32,
    pub state: ListenerState,
}

/// One accepted duplex endpoint of the polling backend.
#[derive(Clone, Copy, Debug, PartialEq, Eq, Structural)]
pub struct LinuxConnection {
    /// The connected descriptor.
    pub fd: i32,
    pub state: ConnState,
    /// Bytes delivered to the caller by successful reads, clamped at
    /// `u64::MAX`.
    pub delivered: u64,
    /// Bytes accepted from the caller by successful writes, clamped at
    /// `u64::MAX`.
    pub sent: u64,
}

/// What entering `accept` decides from the quit flag observed at call
/// entry and the listener's state.
pub open spec fn spec_accept_begin(l: LinuxListener, quit: bool) -> AcceptStep {
    if quit {
        AcceptStep::Fail(TransportError::ShutdownRequested)
    } else if l.state is Closed {
        AcceptStep::Fail(TransportError::ProtocolMisuse)
    } else {
        AcceptStep::WaitPoll
    }
}

/// What the readiness result and a fresh observation of the quit flag
/// decide: a failed wait is propagated; a wake-channel event, a spurious
/// wake, or a wait with the listener unsignalled all yield the retry
/// signal; a pending peer is accepted only if the quit flag is still
/// lowered (the re-check closes the race between a completed wait and a
/// concurrent shutdown request).
pub open spec fn spec_accept_on_poll(ev: PollEvent, quit: bool) -> AcceptStep {
    match ev {
        PollEvent::Failed(code) => AcceptStep::Fail(TransportError::PlatformError(code)),
        PollEvent::NoEvent => AcceptStep::Retry,
        PollEvent::Ready { wake, listener } => {
            if wake || !listener {
                AcceptStep::Retry
            } else if quit {
                AcceptStep::Fail(TransportError::ShutdownRequested)
            } else {
                AcceptStep::DoAccept
            }
        },
    }
}

/// What the native accept's result decides: a fresh connection around
/// exactly the accepted descriptor, or the preserved native error.
pub open spec fn spec_accept_finish(r: Result<i32, i32>) -> AcceptStep {
    match r {
        Ok(fd) => AcceptStep::Connected(
            LinuxConnection {
                fd,
                state: ConnState::Connected,
                delivered: 0,
                sent: 0,
            },
        ),
        Err(code) => AcceptStep::Fail(TransportError::PlatformError(code)),
    }
}

/// The whole decision of one `accept` call, as a function of the quit flag
/// observed at entry, the readiness result, the quit flag observed after
/// the wait, and the native accept's result (consulted only on the path
/// that reaches it).
pub open spec fn spec_accept_outcome(
    l: LinuxListener,
    quit_at_entry: bool,
    ev: PollEvent,
    quit_after_wait: bool,
    accepted: Result<i32, i32>,
) -> AcceptStep {
    let s0 = spec_accept_begin(l, quit_at_entry);
    if s0 is WaitPoll {
        let s1 = spec_accept_on_poll(ev, quit_after_wait);
        if s1 is DoAccept {
            spec_accept_finish(accepted)
        } else {
            s1
        }
    } else {
        s0
    }
}

/// Closing a listener is final: it hands back, exactly once, every
/// descriptor the listener owns — the listening descriptor and both sides
/// of the wake channel. Releasing the write side is what unblocks a
/// parked accept; ownership of the other two is unified under the same
/// close. A second close releases nothing and changes nothing.
pub open spec fn spec_listener_close(l: LinuxListener) -> (LinuxListener, Option<
    (i32, i32, i32),
>) {
    if l.state is Closed {
        (l, None)
    } else {
        (
            LinuxListener { state: ListenerState::Closed, ..l },
            Some((l.fd, l.wake_read_fd, l.wake_write_fd)),
        )
    }
}

impl LinuxListener {
    /// Wraps an already-bound, already-listening descriptor and the two
    /// sides of its wake channel into a listening endpoint. Binding the
    /// socket and creating the descriptor pair (both close-on-exec) are
    /// native calls of the embedding program.
    pub fn new(fd: i32, wake_read_fd: i32, wake_write_fd: i32) -> (l: LinuxListener)
        ensures
            l == (LinuxListener {
                fd,
                wake_read_fd,
                wake_write_fd,
                state: ListenerState::Listening,
            }),
    {
        LinuxListener { fd, wake_read_fd, wake_write_fd, state: ListenerState::Listening }
    }

    /// First step of `accept`: decide from the quit flag observed at call
    /// entry. A raised flag fails with the distinguished shutdown error
    /// before anything blocks; a closed listener is a misuse; otherwise the
    /// driver must park in the readiness wait.
    pub fn accept_begin(&self, quit: bool) -> (s: AcceptStep)
        ensures
            s == spec_accept_begin(*self, quit),
    {
        if quit {
            AcceptStep::Fail(TransportError::ShutdownRequested)
        } else if matches!(self.state, ListenerState::Closed) {
            AcceptStep::Fail(TransportError::ProtocolMisuse)
        } else {
            AcceptStep::WaitPoll
        }
    }

    /// Second step of `accept`: decide from the readiness result and a
    /// fresh observation of the quit flag.
    pub fn accept_on_poll(&self, ev: PollEvent, quit: bool) -> (s: AcceptStep)
        ensures
            s == spec_accept_on_poll(ev, quit),
    {
        match ev {
            PollEvent::Failed(code) => AcceptStep::Fail(TransportError::PlatformError(code)),
            PollEvent::NoEvent => AcceptStep::Retry,
            PollEvent::Ready { wake, listener } => {
                if wake || !listener {
                    AcceptStep::Retry
                } else if quit {
                    AcceptStep::Fail(TransportError::ShutdownRequested)
                } else {
                    AcceptStep::DoAccept
                }
            },
        }
    }

    /// Last step of `accept`: wrap the accepted descriptor, or preserve the
    /// native error.
    pub fn accept_finish(&self, accepted: Result<i32, i32>) -> (s: AcceptStep)
        ensures
            s == spec_accept_finish(accepted),
    {
        match accepted {
            Ok(fd) => AcceptStep::Connected(LinuxConnection::new(fd)),
            Err(code) => AcceptStep::Fail(TransportError::PlatformError(code)),
        }
    }

    /// Closes the listener: hands the driver all three owned descriptors
    /// to release — the listening descriptor and both sides of the wake
    /// channel, whose write side unblocks any parked accept. Idempotent: a
    /// second close hands back nothing and changes nothing.
    pub fn close(&mut self) -> (r: Option<(i32, i32, i32)>)
        ensures
            *final(self) == spec_listener_close(*old(self)).0,
            r == spec_listener_close(*old(self)).1,
    {
        match self.state {
            ListenerState::Closed => None,
            ListenerState::Listening => {
                self.state = ListenerState::Closed;
                Some((self.fd, self.wake_read_fd, self.wake_write_fd))
            },
        }
    }
}

/// One step of a logical read: what the result of one native receive
/// decides, and how the connection's state advances.
pub open spec fn spec_read_step(c: LinuxConnection, ev: IoEvent) -> (LinuxConnection, ReadStep) {
    if c.state is Closed || c.state is Errored {
        (c, ReadStep::Done(Err(TransportError::ProtocolMisuse)))
    } else {
        match ev {
            IoEvent::Transferred(n) => {
                if n == 0 {
                    (
                        LinuxConnection { state: ConnState::PeerClosed, ..c },
                        ReadStep::Done(Ok(ReadOutcome::PeerClosed)),
                    )
                } else {
                    (
                        LinuxConnection { delivered: sat_add64(c.delivered, n as u64), ..c },
                        ReadStep::Done(Ok(ReadOutcome::Data(n))),
                    )
                }
            },
            IoEvent::Failed(code) => {
                if spec_retryable(code) {
                    (c, ReadStep::Retry)
                } else {
                    (
                        LinuxConnection { state: ConnState::Errored, ..c },
                        ReadStep::Done(Err(TransportError::PlatformError(code))),
                    )
                }
            },
        }
    }
}

/// One step of a logical write, mirroring [`spec_read_step`]; a write
/// that transfers zero bytes is a legal success, not an error and not an
/// end of stream.
pub open spec fn spec_write_step(c: LinuxConnection, ev: IoEvent) -> (LinuxConnection, WriteStep) {
    if c.state is Closed || c.state is Errored {
        (c, WriteStep::Done(Err(TransportError::ProtocolMisuse)))
    } else {
        match ev {
            IoEvent::Transferred(n) => {
                (
                    LinuxConnection { sent: sat_add64(c.sent, n as u64), ..c },
                    WriteStep::Done(Ok(n)),
                )
            },
            IoEvent::Failed(code) => {
                if spec_retryable(code) {
                    (c, WriteStep::Retry)
                } else {
                    (
                        LinuxConnection { state: ConnState::Errored, ..c },
                        WriteStep::Done(Err(TransportError::PlatformError(code))),
                    )
                }
            },
        }
    }
}

/// Closing a connection releases its descriptor once and is final.
pub open spec fn spec_conn_close(c: LinuxConnection) -> (LinuxConnection, Option<i32>) {
    if c.state is Closed {
        (c, None)
    } else {
        (LinuxConnection { state: ConnState::Closed, ..c }, Some(c.fd))
    }
}

impl LinuxConnection {
    /// A fresh connection around a connected descriptor.
    pub fn new(fd: i32) -> (c: LinuxConnection)
        ensures
            c == (LinuxConnection { fd, state: ConnState::Connected, delivered: 0, sent: 0 }),
    {
        LinuxConnection { fd, state: ConnState::Connected, delivered: 0, sent: 0 }
    }

    /// The connection's identifier: its descriptor.
    pub fn id(&self) -> (r: i32)
        ensures
            r == self.fd,
    {
        self.fd
    }

    /// One step of a logical read. The driver performs one blocking native
    /// receive and reports its result; the step either absorbs a transient
    /// failure (asking for a retry of the same call) or surfaces the
    /// outcome: a positive byte count, the distinguished peer-closed
    /// outcome for an empty transfer — never a silent zero-as-success —
    /// the preserved native error, or misuse of a finished connection.
    pub fn read_step(&mut self, ev: IoEvent) -> (r: ReadStep)
        ensures
            *final(self) == spec_read_step(*old(self), ev).0,
            r == spec_read_step(*old(self), ev).1,
    {
        if matches!(self.state, ConnState::Closed) || matches!(self.state, ConnState::Errored) {
            return ReadStep::Done(Err(TransportError::ProtocolMisuse));
        }
        match ev {
            IoEvent::Transferred(n) => {
                if n == 0 {
                    self.state = ConnState::PeerClosed;
                    ReadStep::Done(Ok(ReadOutcome::PeerClosed))
                } else {
                    self.delivered = add_saturating(self.delivered, n as u64);
                    ReadStep::Done(Ok(ReadOutcome::Data(n)))
                }
            },
            IoEvent::Failed(code) => {
                if retryable(code) {
                    ReadStep::Retry
                } else {
                    self.state = ConnState::Errored;
                    ReadStep::Done(Err(TransportError::PlatformError(code)))
                }
            },
        }
    }

    /// One step of a logical write, mirroring [`LinuxConnection::read_step`].
    pub fn write_step(&mut self, ev: IoEvent) -> (r: WriteStep)
        ensures
            *final(self) == spec_write_step(*old(self), ev).0,
            r == spec_write_step(*old(self), ev).1,
    {
        if matches!(self.state, ConnState::Closed) || matches!(self.state, ConnState::Errored) {
            return WriteStep::Done(Err(TransportError::ProtocolMisuse));
        }
        match ev {
            IoEvent::Transferred(n) => {
                self.sent = add_saturating(self.sent, n as u64);
                WriteStep::Done(Ok(n))
            },
            IoEvent::Failed(code) => {
                if retryable(code) {
                    WriteStep::Retry
                } else {
                    self.state = ConnState::Errored;
                    WriteStep::Done(Err(TransportError::PlatformError(code)))
                }
            },
        }
    }

    /// Flushes nothing: every write is handed to the native call directly.
    pub fn flush(&self) -> (r: Result<(), TransportError>)
        ensures
            r == Ok::<(), TransportError>(()),
    {
        Ok(())
    }

    /// Closes the connection: hands the driver the descriptor to release.
    /// Idempotent, exactly as [`LinuxListener::close`].
    pub fn close(&mut self) -> (r: Option<i32>)
        ensures
            *final(self) == spec_conn_close(*old(self)).0,
            r == spec_conn_close(*old(self)).1,
    {
        match self.state {
            ConnState::Closed => None,
            _ => {
                self.state = ConnState::Closed;
                Some(self.fd)
            },
        }
    }
}

/// Law: once the quit flag was observed raised at the entry of `accept`,
/// no continuation of that call yields a connection — it fails with the
/// distinguished shutdown error, whatever the wait and the native accept
/// would have reported.
pub proof fn lemma_accept_refuses_after_quit(
    l: LinuxListener,
    ev: PollEvent,
    quit_after_wait: bool,
    accepted: Result<i32, i32>,
)
    ensures
        spec_accept_outcome(l, true, ev, quit_after_wait, accepted) == AcceptStep::Fail(
            TransportError::ShutdownRequested,
        ),
{
}

/// Law: a signalled wake channel makes a parked `accept` return the retry
/// signal — no connection and no error — whatever the listening descriptor
/// reported, whatever the quit flag does concurrently, so a shutdown
/// request reliably unparks the accept loop.
pub proof fn lemma_wake_channel_unblocks(
    l: LinuxListener,
    listener_fired: bool,
    quit_after_wait: bool,
    accepted: Result<i32, i32>,
)
    requires
        l.state is Listening,
    ensures
        spec_accept_outcome(
            l,
            false,
            PollEvent::Ready { wake: true, listener: listener_fired },
            quit_after_wait,
            accepted,
        ) == AcceptStep::Retry,
{
}

/// Law: the re-check after the wait closes the race between a completed
/// wait and a concurrent shutdown request — a quit flag raised while the
/// wait was parked suppresses the accept even though a peer is pending.
pub proof fn lemma_recheck_closes_shutdown_race(l: LinuxListener, accepted: Result<i32, i32>)
    requires
        l.state is Listening,
    ensures
        spec_accept_outcome(
            l,
            false,
            PollEvent::Ready { wake: false, listener: true },
            true,
            accepted,
        ) == AcceptStep::Fail(TransportError::ShutdownRequested),
{
}

/// Law: a completed `accept` wraps exactly the descriptor the native
/// accept returned in a fresh, independent connection: connected state and
/// both byte counters at zero. Distinct descriptors therefore yield
/// distinct connections.
pub proof fn lemma_accept_yields_fresh_connection(l: LinuxListener, fd: i32)
    requires
        l.state is Listening,
    ensures
        spec_accept_outcome(
            l,
            false,
            PollEvent::Ready { wake: false, listener: true },
            false,
            Ok(fd),
        ) == AcceptStep::Connected(
            (LinuxConnection { fd, state: ConnState::Connected, delivered: 0, sent: 0 }),
        ),
{
}

/// Law: closing a listener is idempotent — a second close changes nothing
/// and releases no descriptor.
pub proof fn lemma_listener_close_idempotent(l: LinuxListener)
    ensures
        spec_listener_close(spec_listener_close(l).0).0 == spec_listener_close(l).0,
        spec_listener_close(spec_listener_close(l).0).1 is None,
{
}

/// Law: closing a connection is idempotent in the same way.
pub proof fn lemma_conn_close_idempotent(c: LinuxConnection)
    ensures
        spec_conn_close(spec_conn_close(c).0).0 == spec_conn_close(c).0,
        spec_conn_close(spec_conn_close(c).0).1 is None,
{
}

/// Law: an orderly end of stream is never conflated with data — a read
/// outcome `Data` always carries at least one byte, and an empty transfer
/// on a live connection is surfaced as the distinguished peer-closed
/// outcome, after which the connection's state records the closure.
pub proof fn lemma_peer_close_never_silent(c: LinuxConnection, ev: IoEvent)
    ensures
        spec_read_step(c, ev).1 matches ReadStep::Done(Ok(ReadOutcome::Data(n))) ==> n > 0,
        (c.state is Connected && ev == IoEvent::Transferred(0)) ==> (spec_read_step(c, ev).1
            == ReadStep::Done(Ok(ReadOutcome::PeerClosed)) && spec_read_step(c, ev).0.state
            is PeerClosed),
{
}

/// Law: the retry discipline absorbs exactly the two transient conditions,
/// leaving the connection untouched, and turns every other native failure
/// into the preserved platform error on a connection now unusable.
pub proof fn lemma_retry_discipline(c: LinuxConnection, code: i32)
    requires
        c.state is Connected,
    ensures
        spec_retryable(code) ==> spec_read_step(c, IoEvent::Failed(code)) == (c, ReadStep::Retry),
        spec_retryable(code) ==> spec_write_step(c, IoEvent::Failed(code)) == (
            c,
            WriteStep::Retry,
        ),
        !spec_retryable(code) ==> (spec_read_step(c, IoEvent::Failed(code)).1 == ReadStep::Done(
            Err(TransportError::PlatformError(code)),
        ) && spec_read_step(c, IoEvent::Failed(code)).0.state is Errored),
        !spec_retryable(code) ==> (spec_write_step(c, IoEvent::Failed(code)).1 == WriteStep::Done(
            Err(TransportError::PlatformError(code)),
        ) && spec_write_step(c, IoEvent::Failed(code)).0.state is Errored),
{
}

/// The connection after a whole run of read steps, one per native receive
/// result, in the order the driver observed them.
pub open spec fn spec_run_reads(c: LinuxConnection, evs: Seq<IoEvent>) -> LinuxConnection
    decreases evs.len(),
{
    if evs.len() == 0 {
        c
    } else {
        spec_run_reads(spec_read_step(c, evs[0]).0, evs.drop_first())
    }
}

/// The total number of bytes the events of a run transferred.
pub open spec fn spec_data_total(evs: Seq<IoEvent>) -> int
    decreases evs.len(),
{
    if evs.len() == 0 {
        0
    } else {
        (match evs[0] {
            IoEvent::Transferred(n) => n as int,
            IoEvent::Failed(_) => 0,
        }) + spec_data_total(evs.drop_first())
    }
}

proof fn lemma_data_total_nonneg(evs: Seq<IoEvent>)
    ensures
        spec_data_total(evs) >= 0,
    decreases evs.len(),
{
    if evs.len() > 0 {
        lemma_data_total_nonneg(evs.drop_first());
    }
}

/// Law: a connection delivers bytes cumulatively and in order — a run of
/// successful, non-empty reads leaves the connection connected, with the
/// same descriptor, and delivers exactly the sum of the transferred
/// counts: nothing dropped, nothing duplicated, nothing reordered.
pub proof fn lemma_reads_accumulate(c: LinuxConnection, evs: Seq<IoEvent>)
    requires
        c.state is Connected,
        forall|i: int|
            0 <= i < evs.len() ==> (#[trigger] evs[i] matches IoEvent::Transferred(n) && n > 0),
        c.delivered + spec_data_total(evs) <= u64::MAX,
    ensures
        spec_run_reads(c, evs).delivered == c.delivered + spec_data_total(evs),
        spec_run_reads(c, evs).state is Connected,
        spec_run_reads(c, evs).fd == c.fd,
        spec_run_reads(c, evs).sent == c.sent,
    decreases evs.len(),
{
    if evs.len() > 0 {
        let n = evs[0]->Transferred_0;
        let c1 = spec_read_step(c, evs[0]).0;
        lemma_data_total_nonneg(evs.drop_first());
        assert(c1.delivered == sat_add64(c.delivered, n as u64));
        lemma_reads_accumulate(c1, evs.drop_first());
    }
}

/// The connection after a whole run of write steps, one per native send
/// result, in the order the driver observed them.
pub open spec fn spec_run_writes(c: LinuxConnection, evs: Seq<IoEvent>) -> LinuxConnection
    decreases evs.len(),
{
    if evs.len() == 0 {
        c
    } else {
        spec_run_writes(spec_write_step(c, evs[0]).0, evs.drop_first())
    }
}

/// Law: writes accumulate exactly as reads do.
pub proof fn lemma_writes_accumulate(c: LinuxConnection, evs: Seq<IoEvent>)
    requires
        c.state is Connected,
        forall|i: int| 0 <= i < evs.len() ==> (#[trigger] evs[i]) matches IoEvent::Transferred(n),
        c.sent + spec_data_total(evs) <= u64::MAX,
    ensures
        spec_run_writes(c, evs).sent == c.sent + spec_data_total(evs),
        spec_run_writes(c, evs).state is Connected,
        spec_run_writes(c, evs).fd == c.fd,
        spec_run_writes(c, evs).delivered == c.delivered,
    decreases evs.len(),
{
    if evs.len() > 0 {
        let n = evs[0]->Transferred_0;
        let c1 = spec_write_step(c, evs[0]).0;
        lemma_data_total_nonneg(evs.drop_first());
        assert(c1.sent == sat_add64(c.sent, n as u64));
        lemma_writes_accumulate(c1, evs.drop_first());
    }
}

/// Law: the byte counts round-trip — when the counts a client's writes
/// hand to the native layer are the counts a server's reads observe, in
/// the same order, the client's cumulative sent total and the server's
/// cumulative delivered total advance by exactly the same amount: the
/// model loses, invents and reorders nothing between the two endpoints.
pub proof fn lemma_round_trip_counts(
    client: LinuxConnection,
    server: LinuxConnection,
    evs: Seq<IoEvent>,
)
    requires
        client.state is Connected,
        server.state is Connected,
        forall|i: int|
            0 <= i < evs.len() ==> (#[trigger] evs[i] matches IoEvent::Transferred(n) && n > 0),
        client.sent + spec_data_total(evs) <= u64::MAX,
        server.delivered + spec_data_total(evs) <= u64::MAX,
    ensures
        spec_run_writes(client, evs).sent - client.sent == spec_run_reads(server, evs).delivered
            - server.delivered,
        client.sent == server.delivered ==> spec_run_writes(client, evs).sent == spec_run_reads(
            server,
            evs,
        ).delivered,
{
    lemma_writes_accumulate(client, evs);
    lemma_reads_accumulate(server, evs);
}

} // verus!
