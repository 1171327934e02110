use unix_datagram::cancel::CancellationSignal;
use unix_datagram::cancel::SharedHandle;
use unix_datagram::endpoint::RecvEvent;
use unix_datagram::endpoint::UnixDatagram;
use unix_datagram::errors::SocketError;
use unix_datagram::transport::Datagram;
use unix_datagram::address::Address;

#[test]
fn cancellation_resolves_receive_with_cancelled_error() {
    let ep = UnixDatagram::bind(b"/tmp/rho".to_vec());
    let r = ep.resolve_recv(RecvEvent::Cancelled);
    assert_eq!(r.err(), Some(SocketError::Cancelled));
}

#[test]
fn arrival_resolves_receive_with_truncated_data() {
    let mut ep = UnixDatagram::bind(b"/tmp/sigma".to_vec());
    assert_eq!(ep.set_buffer_size(3), Ok(()));
    let d = Datagram {
        payload: vec![1, 2, 3, 4, 5],
        sender: Address::Path(b"/tmp/tau".to_vec()),
        dest: b"/tmp/sigma".to_vec(),
    };
    let data = ep.resolve_recv(RecvEvent::Arrived(d)).unwrap();
    assert_eq!(data.buffer, vec![1, 2, 3]);
    assert_eq!(data.address, Some(b"/tmp/tau".to_vec()));
}

#[test]
fn fire_wakes_every_current_waiter_exactly_once() {
    let mut sig = CancellationSignal::new();
    sig.begin_wait();
    sig.begin_wait();
    sig.begin_wait();
    assert_eq!(sig.waiting(), 3);
    assert_eq!(sig.fire(), 3);
    assert_eq!(sig.waiting(), 0);
}

#[test]
fn fire_with_no_waiter_is_a_quiet_noop() {
    let mut sig = CancellationSignal::new();
    assert_eq!(sig.fire(), 0);
    assert_eq!(sig.waiting(), 0);
}

#[test]
fn fire_is_not_sticky() {
    let mut sig = CancellationSignal::new();
    assert_eq!(sig.fire(), 0);
    // A waiter arriving after the fire is not woken by it...
    sig.begin_wait();
    assert_eq!(sig.waiting(), 1);
    // ...only by a later fire.
    assert_eq!(sig.fire(), 1);
}

#[test]
fn a_waiter_that_got_data_leaves_the_wait() {
    let mut sig = CancellationSignal::new();
    sig.begin_wait();
    sig.begin_wait();
    sig.end_wait();
    assert_eq!(sig.waiting(), 1);
    assert_eq!(sig.fire(), 1);
}

#[test]
fn any_alias_may_cancel_a_shared_handle() {
    let mut handle = SharedHandle::new();
    handle.clone_alias();
    assert_eq!(handle.aliases(), 2);
    handle.begin_wait();
    assert_eq!(handle.cancel(), 1);
    assert_eq!(handle.waiting(), 0);
    assert_eq!(handle.aliases(), 2);
}

#[test]
fn dropping_the_last_alias_fires_the_signal() {
    let mut handle = SharedHandle::new();
    handle.clone_alias();
    handle.begin_wait();
    // Dropping a non-last alias wakes nobody.
    assert_eq!(handle.drop_alias(), None);
    assert_eq!(handle.waiting(), 1);
    // Dropping the last alias wakes the pending receive.
    assert_eq!(handle.drop_alias(), Some(1));
    assert_eq!(handle.waiting(), 0);
    assert_eq!(handle.aliases(), 0);
}
