//! The laws of the endpoint, stated once over the models that every
//! contract speaks through, and proved for all inputs.

use vstd::prelude::*;

use crate::address::AddressView;
use crate::address::displayed;
use crate::cancel::SharedHandleView;
use crate::cancel::after_fire;
use crate::cancel::woken_by_fire;
use crate::endpoint::DataView;
use crate::endpoint::EndpointView;
use crate::endpoint::RecvEventView;
use crate::endpoint::bound_view;
use crate::endpoint::inbound_match;
use crate::endpoint::received_view;
use crate::endpoint::resolved_recv;
use crate::endpoint::sent_view;
use crate::endpoint::shut_view;
use crate::endpoint::with_buffer_size;
use crate::errors::SocketError;
use crate::transport::DatagramView;
use crate::transport::delivered_to;
use crate::transport::first_match;
use crate::transport::lemma_first_match_skip;

verus! {

/// Law: setting any non-negative buffer size and then reading the size
/// back gives exactly that size, on any endpoint.
pub proof fn lemma_buffer_size_round_trip(e: EndpointView, n: int)
    requires
        0 <= n,
    ensures
        with_buffer_size(e, n).buffer_size == n,
        with_buffer_size(e, n).local == e.local,
        with_buffer_size(e, n).peer == e.peer,
        with_buffer_size(e, n).shut == e.shut,
{
}

/// Law: an endpoint bound to a path reports exactly that path as its
/// local address, immediately after construction.
pub proof fn lemma_bind_local_addr(path: Seq<u8>)
    ensures
        displayed(bound_view(path).local) == Some(path),
        !bound_view(path).shut,
{
}

/// Law: the address a receive reports is the sender's bound path, and no
/// address at all when the sender was unbound — whatever the payload, the
/// destination and the receiver's capacity.
pub proof fn lemma_sender_address_round_trip(
    sender: EndpointView,
    payload: Seq<u8>,
    dest: Seq<u8>,
    cap: int,
)
    ensures
        sender.local matches AddressView::Path(p) ==> received_view(
            sent_view(sender, payload, dest),
            cap,
        ).address == Some(p),
        sender.local is Unnamed ==> received_view(sent_view(sender, payload, dest), cap).address
            is None,
{
}

/// Law: a payload no longer than the receiver's capacity is received whole
/// and unchanged; a longer one is truncated to exactly the capacity.
pub proof fn lemma_payload_round_trip(
    sender: EndpointView,
    payload: Seq<u8>,
    dest: Seq<u8>,
    cap: int,
)
    requires
        0 <= cap,
    ensures
        payload.len() <= cap ==> received_view(sent_view(sender, payload, dest), cap).buffer
            == payload,
        payload.len() > cap ==> received_view(sent_view(sender, payload, dest), cap).buffer
            == payload.take(cap) && received_view(sent_view(sender, payload, dest), cap).buffer.len()
            == cap,
{
}

/// Law: when nothing already in flight is deliverable to a bound receiver
/// under a sender filter, the datagram a sender now puts in flight for it —
/// itself deliverable under that filter — is exactly the one the receiver's
/// next receive takes.
pub proof fn lemma_send_then_recv(
    net: Seq<DatagramView>,
    sender: EndpointView,
    receiver: EndpointView,
    payload: Seq<u8>,
    p: Seq<u8>,
    from: Option<Seq<u8>>,
)
    requires
        receiver.local == AddressView::Path(p),
        forall|i: int| 0 <= i < net.len() ==> !delivered_to(net[i], p, from),
        delivered_to(sent_view(sender, payload, p), p, from),
    ensures
        inbound_match(receiver, net.push(sent_view(sender, payload, p)), from) == Some(
            net.len() as int,
        ),
{
    let d = sent_view(sender, payload, p);
    let s = net.push(d);
    assert(forall|j: int| 0 <= j < net.len() ==> s[j] == net[j] && !delivered_to(s[j], p, from));
    lemma_first_match_skip(s, p, from, net.len() as int);
    assert(s.skip(net.len() as int) =~= seq![d]);
    assert(first_match(seq![d], p, from) == Some(0int));
}

/// Law: after a shutdown, every send, send-to, receive and receive-from on
/// that endpoint is refused, whatever state it was in before.
pub proof fn lemma_shutdown_rejects_io(e: EndpointView)
    ensures
        !shut_view(e).send_allowed(),
        !shut_view(e).send_to_allowed(),
        !shut_view(e).recv_allowed(),
        !shut_view(e).recv_from_allowed(),
        shut_view(e).state() is ShutDown,
{
}

/// Law: a cancellation that wins the receive race resolves the receive
/// with the cancellation error — no data, of any length, reaches the
/// caller — at every capacity.
pub proof fn lemma_cancelled_recv_yields_error(cap: int)
    ensures
        resolved_recv(cap, RecvEventView::Cancelled) == Err::<DataView, SocketError>(
            SocketError::Cancelled,
        ),
{
}

/// Law: firing the signal wakes exactly the receives waiting at that
/// moment and leaves none waiting; with no waiter it wakes nobody and
/// changes nothing. The signal keeps no memory of the fire, so a receive
/// that begins waiting afterwards is not woken by it.
pub proof fn lemma_fire_broadcast(waiting: u64)
    ensures
        woken_by_fire(waiting) == waiting,
        after_fire(waiting) == 0,
        waiting == 0 ==> woken_by_fire(waiting) == 0 && after_fire(waiting) == waiting,
{
}

/// Law: dropping the last alias of a shared handle fires the signal: every
/// receive then waiting on any alias is woken, and each resolves with the
/// cancellation error rather than hanging.
pub proof fn lemma_last_drop_cancels(h: SharedHandleView, cap: int)
    requires
        h.wf(),
        h.aliases == 1,
    ensures
        woken_by_fire(h.waiting) == h.waiting,
        after_fire(h.waiting) == 0,
        resolved_recv(cap, RecvEventView::Cancelled) == Err::<DataView, SocketError>(
            SocketError::Cancelled,
        ),
{
}

} // verus!
