use ipc_transport::completion::ClientConnection;
use ipc_transport::completion::ConnectStep;
use ipc_transport::completion::ERROR_BROKEN_PIPE;
use ipc_transport::completion::ERROR_INVALID_NAME;
use ipc_transport::completion::ERROR_IO_PENDING;
use ipc_transport::completion::ERROR_PIPE_CONNECTED;
use ipc_transport::completion::FILE_FLAG_FIRST_PIPE_INSTANCE;
use ipc_transport::completion::FILE_FLAG_OVERLAPPED;
use ipc_transport::completion::INVALID_HANDLE;
use ipc_transport::completion::PIPE_ACCESS_DUPLEX;
use ipc_transport::completion::PipeConnection;
use ipc_transport::completion::PipeListener;
use ipc_transport::completion::PipeReadStart;
use ipc_transport::completion::PipeWriteStart;
use ipc_transport::error::ConnState;
use ipc_transport::error::ListenerState;
use ipc_transport::error::ReadOutcome;
use ipc_transport::error::TransportError;

const ADDR: &str = r"\\.\pipe\mio-named-pipe-test";

#[test]
fn listener_starts_listening_with_first_instance_mark() {
    let l = PipeListener::new(ADDR).unwrap();
    assert_eq!(l.address, ADDR);
    assert!(l.first_instance);
    assert_eq!(l.state, ListenerState::Listening);
}

#[test]
fn exclusivity_requested_exactly_once() {
    let mut l = PipeListener::new(ADDR).unwrap();
    let first = l.instance_open_mode();
    let second = l.instance_open_mode();
    let third = l.instance_open_mode();
    assert_eq!(first, PIPE_ACCESS_DUPLEX | FILE_FLAG_OVERLAPPED | FILE_FLAG_FIRST_PIPE_INSTANCE);
    assert_eq!(second, PIPE_ACCESS_DUPLEX | FILE_FLAG_OVERLAPPED);
    assert_eq!(third, second);
    assert_eq!(first & FILE_FLAG_FIRST_PIPE_INSTANCE, FILE_FLAG_FIRST_PIPE_INSTANCE);
    assert_eq!(second & FILE_FLAG_FIRST_PIPE_INSTANCE, 0);
}

#[test]
fn quit_gates_the_accept_on_both_sides_of_the_wait() {
    let l = PipeListener::new(ADDR).unwrap();
    assert_eq!(l.accept_gate(true), Err(TransportError::ShutdownRequested));
    assert_eq!(l.accept_gate(false), Ok(()));
}

#[test]
fn accept_on_closed_pipe_listener_is_misuse() {
    let mut l = PipeListener::new(ADDR).unwrap();
    assert_eq!(l.close(), Ok(()));
    assert_eq!(l.accept_gate(false), Err(TransportError::ProtocolMisuse));
}

#[test]
fn pipe_listener_close_is_idempotent() {
    let mut l = PipeListener::new(ADDR).unwrap();
    assert_eq!(l.close(), Ok(()));
    assert_eq!(l.close(), Ok(()));
    assert_eq!(l.state, ListenerState::Closed);
}

#[test]
fn malformed_name_fails_with_platform_error() {
    // the constructor rejects a name that is not pipe-style with the
    // preserved native invalid-name code, and never panics
    assert_eq!(
        PipeListener::new("definitely-not-a-pipe"),
        Err(TransportError::PlatformError(ERROR_INVALID_NAME))
    );
    assert_eq!(
        PipeListener::new("unix:///tmp/sock"),
        Err(TransportError::PlatformError(ERROR_INVALID_NAME))
    );
    assert_eq!(
        PipeListener::new(""),
        Err(TransportError::PlatformError(ERROR_INVALID_NAME))
    );
    // a name the constructor accepts can still be refused natively at
    // instance creation, which returns the invalid handle
    assert_eq!(
        PipeListener::instance_verdict(INVALID_HANDLE, ERROR_INVALID_NAME),
        Err(TransportError::PlatformError(ERROR_INVALID_NAME))
    );
    assert_eq!(PipeListener::instance_verdict(7, 0), Ok(7));
}

#[test]
fn connect_outcomes() {
    assert_eq!(PipeListener::connect_verdict(0, ERROR_IO_PENDING), ConnectStep::Pending);
    assert_eq!(PipeListener::connect_verdict(0, ERROR_PIPE_CONNECTED), ConnectStep::Ready);
    // an immediate nonzero result from an asynchronous connect is a failure
    assert_eq!(
        PipeListener::connect_verdict(1, 0),
        ConnectStep::Failed(TransportError::PlatformError(0))
    );
    // 231: all pipe instances are busy
    assert_eq!(
        PipeListener::connect_verdict(0, 231),
        ConnectStep::Failed(TransportError::PlatformError(231))
    );
}

#[test]
fn connect_wait_outcomes() {
    assert_eq!(PipeListener::connect_wait_verdict(1, 0), Ok(()));
    assert_eq!(
        PipeListener::connect_wait_verdict(0, 109),
        Err(TransportError::PlatformError(109))
    );
}

#[test]
fn full_pipe_accept_sequence_yields_connection() {
    let mut l = PipeListener::new(ADDR).unwrap();
    assert_eq!(l.accept_gate(false), Ok(()));
    let _mode = l.instance_open_mode();
    let handle = PipeListener::instance_verdict(44, 0).unwrap();
    assert_eq!(PipeListener::connect_verdict(0, ERROR_IO_PENDING), ConnectStep::Pending);
    assert_eq!(PipeListener::connect_wait_verdict(1, 0), Ok(()));
    assert_eq!(l.accept_gate(false), Ok(()));
    let c = PipeConnection::new(handle, 45, 46);
    assert_eq!(c.id(), 44);
    assert_eq!(c.state, ConnState::Connected);
}

#[test]
fn fresh_pipe_connection_fields() {
    let c = PipeConnection::new(40, 41, 42);
    assert_eq!(c.id(), 40);
    assert_eq!(c.state, ConnState::Connected);
    assert_eq!(c.delivered, 0);
    assert_eq!(c.sent, 0);
}

#[test]
fn immediate_read_delivers_bytes() {
    let mut c = PipeConnection::new(40, 41, 42);
    assert_eq!(c.read_started(1, 5, 0), PipeReadStart::Done(Ok(ReadOutcome::Data(5))));
    assert_eq!(c.delivered, 5);
}

#[test]
fn zero_data_completion_is_peer_closed() {
    let mut c = PipeConnection::new(40, 41, 42);
    assert_eq!(c.read_started(1, 0, 0), PipeReadStart::Done(Ok(ReadOutcome::PeerClosed)));
    assert_eq!(c.state, ConnState::PeerClosed);
}

#[test]
fn pending_read_waits_then_delivers() {
    let mut c = PipeConnection::new(40, 41, 42);
    assert_eq!(c.read_started(0, 0, ERROR_IO_PENDING), PipeReadStart::Wait);
    assert_eq!(c.read_waited(1, 0, 9), Ok(ReadOutcome::Data(9)));
    assert_eq!(c.delivered, 9);
}

#[test]
fn broken_pipe_is_peer_closed_on_read() {
    let mut c = PipeConnection::new(40, 41, 42);
    assert_eq!(
        c.read_started(0, 0, ERROR_BROKEN_PIPE),
        PipeReadStart::Done(Ok(ReadOutcome::PeerClosed))
    );
    assert_eq!(c.state, ConnState::PeerClosed);

    let mut d = PipeConnection::new(50, 51, 52);
    assert_eq!(d.read_started(0, 0, ERROR_IO_PENDING), PipeReadStart::Wait);
    assert_eq!(d.read_waited(0, ERROR_BROKEN_PIPE, 0), Ok(ReadOutcome::PeerClosed));
    assert_eq!(d.state, ConnState::PeerClosed);
}

#[test]
fn empty_waited_read_is_peer_closed_after_draining() {
    let mut c = PipeConnection::new(40, 41, 42);
    assert_eq!(c.read_started(1, 16, 0), PipeReadStart::Done(Ok(ReadOutcome::Data(16))));
    assert_eq!(c.read_started(0, 0, ERROR_IO_PENDING), PipeReadStart::Wait);
    assert_eq!(c.read_waited(1, 0, 0), Ok(ReadOutcome::PeerClosed));
    assert_eq!(c.delivered, 16);
    assert_eq!(c.state, ConnState::PeerClosed);
}

#[test]
fn failed_read_preserves_code_and_poisons() {
    let mut c = PipeConnection::new(40, 41, 42);
    assert_eq!(
        c.read_started(0, 0, 5),
        PipeReadStart::Done(Err(TransportError::PlatformError(5)))
    );
    assert_eq!(c.state, ConnState::Errored);
    assert_eq!(
        c.read_started(1, 5, 0),
        PipeReadStart::Done(Err(TransportError::ProtocolMisuse))
    );
    assert_eq!(c.write_started(1, 5, 0), PipeWriteStart::Done(Err(TransportError::ProtocolMisuse)));
}

#[test]
fn immediate_write_reports_count() {
    let mut c = PipeConnection::new(40, 41, 42);
    assert_eq!(c.write_started(1, 7, 0), PipeWriteStart::Done(Ok(7)));
    assert_eq!(c.sent, 7);
}

#[test]
fn pending_write_waits_then_reports() {
    let mut c = PipeConnection::new(40, 41, 42);
    assert_eq!(c.write_started(0, 0, ERROR_IO_PENDING), PipeWriteStart::Wait);
    assert_eq!(c.write_waited(1, 0, 12), Ok(12));
    assert_eq!(c.sent, 12);
    assert_eq!(c.write_waited(0, 109, 0), Err(TransportError::PlatformError(109)));
    assert_eq!(c.state, ConnState::Errored);
}

#[test]
fn immediate_zero_write_is_legal() {
    let mut c = PipeConnection::new(40, 41, 42);
    assert_eq!(c.write_started(1, 0, 0), PipeWriteStart::Done(Ok(0)));
    assert_eq!(c.state, ConnState::Connected);
}

#[test]
fn pipe_round_trip_counts_for_each_payload_size() {
    for &size in &[0u32, 1, 65536, 655360] {
        let mut client = PipeConnection::new(60, 61, 62);
        let mut server = PipeConnection::new(70, 71, 72);
        if size > 0 {
            assert_eq!(client.write_started(1, size, 0), PipeWriteStart::Done(Ok(size as usize)));
            assert_eq!(
                server.read_started(1, size, 0),
                PipeReadStart::Done(Ok(ReadOutcome::Data(size as usize)))
            );
        } else {
            assert_eq!(client.write_started(1, 0, 0), PipeWriteStart::Done(Ok(0)));
        }
        assert_eq!(client.sent, size as u64);
        assert_eq!(server.delivered, size as u64);
        assert_eq!(client.close(), Some((60, 61, 62)));
        assert_eq!(server.read_started(1, 0, 0), PipeReadStart::Done(Ok(ReadOutcome::PeerClosed)));
    }
}

#[test]
fn shutdown_verdicts() {
    let c = PipeConnection::new(40, 41, 42);
    assert_eq!(c.shutdown(1, 0), Ok(()));
    assert_eq!(c.shutdown(0, 6), Err(TransportError::PlatformError(6)));
}

#[test]
fn pipe_connection_close_is_idempotent() {
    let mut c = PipeConnection::new(40, 41, 42);
    assert_eq!(c.close(), Some((40, 41, 42)));
    assert_eq!(c.close(), None);
    assert_eq!(c.close(), None);
}

#[test]
fn client_connection_holds_address() {
    let c = ClientConnection::client_connect(ADDR).unwrap();
    assert_eq!(c.address, ADDR);
    let d = ClientConnection::new(ADDR);
    assert_eq!(c, d);
}

#[test]
fn client_is_always_ready() {
    let c = ClientConnection::new(ADDR);
    assert_eq!(c.ready(), Ok(Some(())));
}

#[test]
fn client_close_is_idempotent() {
    let c = ClientConnection::new(ADDR);
    assert_eq!(c.close(), Ok(()));
    assert_eq!(c.close(), Ok(()));
    assert_eq!(c.close_receiver(), Ok(()));
    assert_eq!(c.close_receiver(), Ok(()));
}
