use unix_datagram::endpoint::ConnectOutcome;
use unix_datagram::endpoint::UnixDatagram;
use unix_datagram::errors::SocketError;
use unix_datagram::transport::Transport;

#[test]
fn default_buffer_size_is_8192() {
    let ep = UnixDatagram::bind(b"/tmp/sock-a".to_vec());
    assert_eq!(ep.get_buffer_size(), 8192);
    let ep = UnixDatagram::unbound();
    assert_eq!(ep.get_buffer_size(), 8192);
}

#[test]
fn set_then_get_buffer_size() {
    let mut ep = UnixDatagram::unbound();
    for n in [0i32, 1, 7, 4096, i32::MAX] {
        assert_eq!(ep.set_buffer_size(n), Ok(()));
        assert_eq!(ep.get_buffer_size(), n);
    }
}

#[test]
fn negative_buffer_size_rejected_and_capacity_kept() {
    let mut ep = UnixDatagram::unbound();
    assert_eq!(ep.set_buffer_size(512), Ok(()));
    assert_eq!(ep.set_buffer_size(-1), Err(SocketError::InvalidArgument));
    assert_eq!(ep.get_buffer_size(), 512);
    assert_eq!(ep.set_buffer_size(i32::MIN), Err(SocketError::InvalidArgument));
    assert_eq!(ep.get_buffer_size(), 512);
}

#[test]
fn bind_reports_local_path() {
    let ep = UnixDatagram::bind(b"/tmp/sock-b".to_vec());
    assert_eq!(ep.get_local_addr(), Ok(Some(b"/tmp/sock-b".to_vec())));
}

#[test]
fn unbound_has_no_local_path() {
    let ep = UnixDatagram::unbound();
    assert_eq!(ep.get_local_addr(), Ok(None));
}

#[test]
fn peer_addr_fails_when_unconnected() {
    let ep = UnixDatagram::bind(b"/tmp/sock-c".to_vec());
    assert_eq!(ep.get_peer_addr(), Err(SocketError::InvalidState));
}

#[test]
fn connect_accepted_sets_peer() {
    let mut ep = UnixDatagram::unbound();
    assert_eq!(ep.check_connect(), Ok(()));
    assert_eq!(ep.connect(b"/tmp/peer".to_vec(), ConnectOutcome::Accepted), Ok(()));
    assert_eq!(ep.get_peer_addr(), Ok(Some(b"/tmp/peer".to_vec())));
}

#[test]
fn connect_refused_leaves_prior_state() {
    let mut ep = UnixDatagram::bind(b"/tmp/sock-d".to_vec());
    assert_eq!(
        ep.connect(b"/tmp/nonexistent".to_vec(), ConnectOutcome::Refused),
        Err(SocketError::Connection)
    );
    // Still bound, still unconnected, capacity untouched.
    assert_eq!(ep.get_local_addr(), Ok(Some(b"/tmp/sock-d".to_vec())));
    assert_eq!(ep.get_peer_addr(), Err(SocketError::InvalidState));
    assert_eq!(ep.get_buffer_size(), 8192);
    // A later accepted connect still works.
    assert_eq!(ep.connect(b"/tmp/peer".to_vec(), ConnectOutcome::Accepted), Ok(()));
    assert_eq!(ep.get_peer_addr(), Ok(Some(b"/tmp/peer".to_vec())));
}

#[test]
fn shutdown_rejects_every_transport_operation() {
    let mut ep = UnixDatagram::bind(b"/tmp/sock-e".to_vec());
    assert_eq!(ep.connect(b"/tmp/peer".to_vec(), ConnectOutcome::Accepted), Ok(()));
    assert_eq!(ep.shutdown(), Ok(()));

    let mut net = Transport::new();
    assert!(matches!(ep.send(&mut net, b"x".to_vec()), Err(SocketError::InvalidState)));
    assert!(matches!(
        ep.send_to(&mut net, b"x".to_vec(), b"/tmp/peer".to_vec()),
        Err(SocketError::InvalidState)
    ));
    assert!(matches!(ep.recv(&mut net), Err(SocketError::InvalidState)));
    assert!(matches!(ep.recv_from(&mut net), Err(SocketError::InvalidState)));
    assert_eq!(net.len(), 0);
    assert_eq!(ep.check_send(), Err(SocketError::InvalidState));
    assert_eq!(ep.check_send_to(), Err(SocketError::InvalidState));
    assert_eq!(ep.check_recv(), Err(SocketError::InvalidState));
    assert_eq!(ep.check_recv_from(), Err(SocketError::InvalidState));
    assert_eq!(ep.check_connect(), Err(SocketError::InvalidState));
    assert_eq!(ep.get_local_addr(), Err(SocketError::InvalidState));
    assert_eq!(ep.get_peer_addr(), Err(SocketError::InvalidState));
}

#[test]
fn shutdown_twice_surfaces_error() {
    let mut ep = UnixDatagram::unbound();
    assert_eq!(ep.shutdown(), Ok(()));
    assert_eq!(ep.shutdown(), Err(SocketError::InvalidState));
}

#[test]
fn send_requires_connection() {
    let ep = UnixDatagram::bind(b"/tmp/sock-f".to_vec());
    let mut net = Transport::new();
    assert!(matches!(ep.send(&mut net, b"hi".to_vec()), Err(SocketError::InvalidState)));
    assert_eq!(ep.check_send(), Err(SocketError::InvalidState));
    assert_eq!(net.len(), 0);
}
