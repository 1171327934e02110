//! The datagram endpoint: lifecycle state machine, buffer policy and
//! operations.
//!
//! An endpoint is unbound, bound to a local path, connected to a peer, or
//! shut down; an operation invalid for the current state fails rather than
//! silently doing nothing. Each receive sizes its scratch buffer from the
//! current buffer capacity and truncates the datagram to that capacity.
//! The unverified layer around the library performs the operating-system
//! calls; it asks these functions which operations the current state
//! permits, and hands them every outcome to interpret.

use vstd::prelude::*;

use crate::address::Address;
use crate::address::AddressView;
use crate::address::copy_bytes;
use crate::address::displayed;
use crate::address::opt_path_view;
use crate::errors::SocketError;
use crate::transport::Datagram;
use crate::transport::DatagramView;
use crate::transport::Transport;
use crate::transport::first_match;
use crate::DEFAULT_BUFFER_SIZE;

verus! {

/// The lifecycle state of an endpoint.
pub enum LifeState {
    /// No local address; usable for send-to, or after a connect.
    Unbound,
    /// A local path is assigned; usable for send-to and receive-from.
    Bound,
    /// A peer is fixed; plain send and receive use it implicitly.
    Connected,
    /// Terminal: every further transport operation fails.
    ShutDown,
}

/// The mathematical value of an endpoint.
pub struct EndpointView {
    /// The local address: a path for a bound endpoint, unnamed otherwise.
    pub local: AddressView,
    /// The peer path, once connected.
    pub peer: Option<Seq<u8>>,
    /// Whether the endpoint has been shut down.
    pub shut: bool,
    /// The receive-buffer capacity in bytes; never negative.
    pub buffer_size: int,
}

impl EndpointView {
    /// Validity: the buffer capacity is never negative.
    pub open spec fn wf(self) -> bool {
        0 <= self.buffer_size <= i32::MAX
    }

    /// The lifecycle state this view is in.
    pub open spec fn state(self) -> LifeState {
        if self.shut {
            LifeState::ShutDown
        } else if self.peer is Some {
            LifeState::Connected
        } else if self.local is Path {
            LifeState::Bound
        } else {
            LifeState::Unbound
        }
    }

    /// Whether a plain send is permitted: only a connected endpoint has the
    /// implicit peer it needs.
    pub open spec fn send_allowed(self) -> bool {
        !self.shut && self.peer is Some
    }

    /// Whether send-to is permitted: any state but shut down.
    pub open spec fn send_to_allowed(self) -> bool {
        !self.shut
    }

    /// Whether a plain receive is permitted: only when connected.
    pub open spec fn recv_allowed(self) -> bool {
        !self.shut && self.peer is Some
    }

    /// Whether receive-from is permitted: any state but shut down.
    pub open spec fn recv_from_allowed(self) -> bool {
        !self.shut
    }
}

/// The view of a freshly bound endpoint.
pub open spec fn bound_view(path: Seq<u8>) -> EndpointView {
    EndpointView {
        local: AddressView::Path(path),
        peer: None,
        shut: false,
        buffer_size: DEFAULT_BUFFER_SIZE as int,
    }
}

/// The view of a fresh endpoint with no local address.
pub open spec fn unbound_view() -> EndpointView {
    EndpointView {
        local: AddressView::Unnamed,
        peer: None,
        shut: false,
        buffer_size: DEFAULT_BUFFER_SIZE as int,
    }
}

/// The view after a successful connect to `peer`.
pub open spec fn connected_view(e: EndpointView, peer: Seq<u8>) -> EndpointView {
    EndpointView { peer: Some(peer), ..e }
}

/// The view after a shutdown.
pub open spec fn shut_view(e: EndpointView) -> EndpointView {
    EndpointView { shut: true, ..e }
}

/// The view after the buffer capacity is set to `n`.
pub open spec fn with_buffer_size(e: EndpointView, n: int) -> EndpointView {
    EndpointView { buffer_size: n, ..e }
}

/// The datagram that a send from `sender` puts in flight: the payload, the
/// sender's local address, and the destination path.
pub open spec fn sent_view(sender: EndpointView, payload: Seq<u8>, dest: Seq<u8>) -> DatagramView {
    DatagramView { payload, sender: sender.local, dest }
}

/// What a receive with capacity `cap` makes of a delivered datagram: the
/// payload, truncated to the capacity, and the sender's path when the
/// sender was bound.
pub open spec fn received_view(d: DatagramView, cap: int) -> DataView {
    DataView {
        buffer: if d.payload.len() <= cap {
            d.payload
        } else {
            d.payload.take(cap)
        },
        address: displayed(d.sender),
    }
}

/// The result of a completed receive: the datagram bytes and, when the
/// sender was bound to a path, that path.
pub struct Data {
    /// The received bytes, at most the capacity current when the receive
    /// started.
    pub buffer: Vec<u8>,
    /// The sender's path, or nothing when the sender was unnamed.
    pub address: Option<Vec<u8>>,
}

/// The mathematical value of a [`Data`].
pub struct DataView {
    pub buffer: Seq<u8>,
    pub address: Option<Seq<u8>>,
}

impl View for Data {
    type V = DataView;

    open spec fn view(&self) -> DataView {
        DataView { buffer: self.buffer@, address: opt_path_view(self.address) }
    }
}

/// What the operating system answered to a connect attempt.
pub enum ConnectOutcome {
    /// The peer path exists and accepted the association.
    Accepted,
    /// The peer path does not exist or refused.
    Refused,
}

/// The outcome of polling the transport for one receive.
pub enum Polled {
    /// A datagram was delivered.
    Ready(Data),
    /// Nothing deliverable is in flight; the receive must wait for data or
    /// for the cancellation signal.
    Pending,
}

/// Which of the two awaited events finished a pending receive first.
pub enum RecvEvent {
    /// A datagram arrived before any cancellation.
    Arrived(Datagram),
    /// The cancellation signal fired first.
    Cancelled,
}

/// The mathematical value of a [`RecvEvent`].
pub enum RecvEventView {
    Arrived(DatagramView),
    Cancelled,
}

impl View for RecvEvent {
    type V = RecvEventView;

    open spec fn view(&self) -> RecvEventView {
        match self {
            RecvEvent::Arrived(d) => RecvEventView::Arrived(d@),
            RecvEvent::Cancelled => RecvEventView::Cancelled,
        }
    }
}

/// The value of an exec receive result.
pub open spec fn data_result_view(r: Result<Data, SocketError>) -> Result<DataView, SocketError> {
    match r {
        Ok(d) => Ok(d@),
        Err(e) => Err(e),
    }
}

/// How a pending receive resolves once one of the two awaited events wins
/// the race: an arrived datagram is returned truncated to the capacity that
/// was current when the receive started, and a cancellation yields the
/// cancellation error with no data.
pub open spec fn resolved_recv(cap: int, ev: RecvEventView) -> Result<DataView, SocketError> {
    match ev {
        RecvEventView::Arrived(d) => Ok(received_view(d, cap)),
        RecvEventView::Cancelled => Err(SocketError::Cancelled),
    }
}

/// One datagram endpoint, as the verified state it is in.
pub struct UnixDatagram {
    local: Address,
    peer: Option<Vec<u8>>,
    shut: bool,
    buffer_size: i32,
}

impl View for UnixDatagram {
    type V = EndpointView;

    closed spec fn view(&self) -> EndpointView {
        EndpointView {
            local: self.local@,
            peer: opt_path_view(self.peer),
            shut: self.shut,
            buffer_size: self.buffer_size as int,
        }
    }
}

impl UnixDatagram {
    /// A new endpoint bound to the given path, with the default buffer
    /// capacity. The unverified layer constructs it only after the
    /// operating system accepted the bind.
    pub fn bind(path: Vec<u8>) -> (ep: UnixDatagram)
        ensures
            ep@ == bound_view(path@),
            ep@.wf(),
    {
        UnixDatagram {
            local: Address::Path(path),
            peer: None,
            shut: false,
            buffer_size: DEFAULT_BUFFER_SIZE,
        }
    }

    /// A new endpoint that is not bound to any address.
    pub fn unbound() -> (ep: UnixDatagram)
        ensures
            ep@ == unbound_view(),
            ep@.wf(),
    {
        UnixDatagram {
            local: Address::Unnamed,
            peer: None,
            shut: false,
            buffer_size: DEFAULT_BUFFER_SIZE,
        }
    }

    /// Whether a connect may be attempted now: any state but shut down.
    pub fn check_connect(&self) -> (r: Result<(), SocketError>)
        ensures
            r is Ok <==> !self@.shut,
            r is Err ==> r == Err::<(), SocketError>(SocketError::InvalidState),
    {
        if self.shut {
            Err(SocketError::InvalidState)
        } else {
            Ok(())
        }
    }

    /// Fixes the peer of this endpoint to `path`, given the operating
    /// system's answer to the association. A refused connect leaves the
    /// endpoint exactly in its prior state; so does a connect attempted
    /// after shutdown.
    pub fn connect(&mut self, path: Vec<u8>, outcome: ConnectOutcome) -> (r: Result<
        (),
        SocketError,
    >)
        ensures
            old(self)@.shut ==> r == Err::<(), SocketError>(SocketError::InvalidState)
                && final(self)@ == old(self)@,
            !old(self)@.shut && outcome is Refused ==> r == Err::<(), SocketError>(
                SocketError::Connection,
            ) && final(self)@ == old(self)@,
            !old(self)@.shut && outcome is Accepted ==> r == Ok::<(), SocketError>(())
                && final(self)@ == connected_view(old(self)@, path@),
            final(self)@.wf() == old(self)@.wf(),
    {
        if self.shut {
            return Err(SocketError::InvalidState);
        }
        match outcome {
            ConnectOutcome::Refused => Err(SocketError::Connection),
            ConnectOutcome::Accepted => {
                self.peer = Some(path);
                Ok(())
            },
        }
    }

    /// Whether a plain send is permitted now.
    pub fn check_send(&self) -> (r: Result<(), SocketError>)
        ensures
            r is Ok <==> self@.send_allowed(),
            r is Err ==> r == Err::<(), SocketError>(SocketError::InvalidState),
    {
        if self.shut {
            Err(SocketError::InvalidState)
        } else if self.peer.is_none() {
            Err(SocketError::InvalidState)
        } else {
            Ok(())
        }
    }

    /// Whether a send-to is permitted now.
    pub fn check_send_to(&self) -> (r: Result<(), SocketError>)
        ensures
            r is Ok <==> self@.send_to_allowed(),
            r is Err ==> r == Err::<(), SocketError>(SocketError::InvalidState),
    {
        if self.shut {
            Err(SocketError::InvalidState)
        } else {
            Ok(())
        }
    }

    /// Whether a plain receive is permitted now.
    pub fn check_recv(&self) -> (r: Result<(), SocketError>)
        ensures
            r is Ok <==> self@.recv_allowed(),
            r is Err ==> r == Err::<(), SocketError>(SocketError::InvalidState),
    {
        if self.shut {
            Err(SocketError::InvalidState)
        } else if self.peer.is_none() {
            Err(SocketError::InvalidState)
        } else {
            Ok(())
        }
    }

    /// Whether a receive-from is permitted now.
    pub fn check_recv_from(&self) -> (r: Result<(), SocketError>)
        ensures
            r is Ok <==> self@.recv_from_allowed(),
            r is Err ==> r == Err::<(), SocketError>(SocketError::InvalidState),
    {
        if self.shut {
            Err(SocketError::InvalidState)
        } else {
            Ok(())
        }
    }

    /// Sends `buffer` to the implicit peer: one datagram, carrying this
    /// endpoint's local address, goes in flight behind everything already
    /// there, and the number of bytes written is returned. Fails, moving
    /// nothing, unless the endpoint is connected and not shut down.
    pub fn send(&self, net: &mut Transport, buffer: Vec<u8>) -> (r: Result<i32, SocketError>)
        requires
            buffer@.len() <= i32::MAX,
        ensures
            !self@.send_allowed() ==> r == Err::<i32, SocketError>(SocketError::InvalidState)
                && final(net)@ == old(net)@,
            self@.send_allowed() ==> r == Ok::<i32, SocketError>(buffer@.len() as i32) && (
            self@.peer matches Some(p) && final(net)@ == old(net)@.push(
                sent_view(self@, buffer@, p),
            )),
    {
        if self.shut {
            return Err(SocketError::InvalidState);
        }
        match &self.peer {
            None => Err(SocketError::InvalidState),
            Some(p) => {
                let n = buffer.len();
                let d = Datagram { payload: buffer, sender: self.clone_local(), dest: copy_bytes(p) };
                net.deliver(d);
                Ok(n as i32)
            },
        }
    }

    /// Sends `buffer` to the given path, in any state but shut down: one
    /// datagram goes in flight and the number of bytes written is returned.
    pub fn send_to(&self, net: &mut Transport, buffer: Vec<u8>, address: Vec<u8>) -> (r: Result<
        i32,
        SocketError,
    >)
        requires
            buffer@.len() <= i32::MAX,
        ensures
            !self@.send_to_allowed() ==> r == Err::<i32, SocketError>(SocketError::InvalidState)
                && final(net)@ == old(net)@,
            self@.send_to_allowed() ==> r == Ok::<i32, SocketError>(buffer@.len() as i32)
                && final(net)@ == old(net)@.push(sent_view(self@, buffer@, address@)),
    {
        if self.shut {
            return Err(SocketError::InvalidState);
        }
        let n = buffer.len();
        let d = Datagram { payload: buffer, sender: self.clone_local(), dest: address };
        net.deliver(d);
        Ok(n as i32)
    }

    /// Polls the transport for one plain receive: takes the oldest datagram
    /// addressed to this endpoint's local path and sent by its peer, and
    /// returns it truncated to the current buffer capacity, with the peer's
    /// path. Pending when nothing deliverable is in flight; fails, taking
    /// nothing, unless the endpoint is connected and not shut down.
    pub fn recv(&self, net: &mut Transport) -> (r: Result<Polled, SocketError>)
        requires
            self@.wf(),
        ensures
            !self@.recv_allowed() ==> r == Err::<Polled, SocketError>(SocketError::InvalidState)
                && final(net)@ == old(net)@,
            self@.recv_allowed() ==> match inbound_match(self@, old(net)@, self@.peer) {
                Some(i) => {
                    &&& final(net)@ == old(net)@.remove(i)
                    &&& (r matches Ok(p) && p matches Polled::Ready(d) && d@ == received_view(
                        old(net)@[i],
                        self@.buffer_size,
                    ))
                },
                None => {
                    &&& final(net)@ == old(net)@
                    &&& r == Ok::<Polled, SocketError>(Polled::Pending)
                },
            },
    {
        if self.shut {
            return Err(SocketError::InvalidState);
        }
        if self.peer.is_none() {
            return Err(SocketError::InvalidState);
        }
        match &self.local {
            Address::Unnamed => Ok(Polled::Pending),
            Address::Path(p) => {
                let filter = match &self.peer {
                    Some(q) => Some(copy_bytes(q)),
                    None => None,
                };
                match net.take_matching(p, &filter) {
                    None => Ok(Polled::Pending),
                    Some(d) => Ok(Polled::Ready(self.finish_recv(d))),
                }
            },
        }
    }

    /// Polls the transport for one receive-from: takes the oldest datagram
    /// addressed to this endpoint's local path, from any sender, and
    /// returns it truncated to the current buffer capacity together with
    /// the sender's path, when the sender was bound. Pending when nothing
    /// deliverable is in flight; fails, taking nothing, after shutdown.
    pub fn recv_from(&self, net: &mut Transport) -> (r: Result<Polled, SocketError>)
        requires
            self@.wf(),
        ensures
            !self@.recv_from_allowed() ==> r == Err::<Polled, SocketError>(
                SocketError::InvalidState,
            ) && final(net)@ == old(net)@,
            self@.recv_from_allowed() ==> match inbound_match(self@, old(net)@, None) {
                Some(i) => {
                    &&& final(net)@ == old(net)@.remove(i)
                    &&& (r matches Ok(p) && p matches Polled::Ready(d) && d@ == received_view(
                        old(net)@[i],
                        self@.buffer_size,
                    ))
                },
                None => {
                    &&& final(net)@ == old(net)@
                    &&& r == Ok::<Polled, SocketError>(Polled::Pending)
                },
            },
    {
        if self.shut {
            return Err(SocketError::InvalidState);
        }
        match &self.local {
            Address::Unnamed => Ok(Polled::Pending),
            Address::Path(p) => {
                match net.take_matching(p, &None) {
                    None => Ok(Polled::Pending),
                    Some(d) => Ok(Polled::Ready(self.finish_recv(d))),
                }
            },
        }
    }

    /// Decides the receive/cancellation race for a receive that had to
    /// wait: the event that won determines the outcome. An arrived datagram
    /// is returned truncated to the current buffer capacity; a cancellation
    /// yields the cancellation error, and the scratch buffer is discarded
    /// (no partial data reaches the caller).
    pub fn resolve_recv(&self, event: RecvEvent) -> (r: Result<Data, SocketError>)
        requires
            self@.wf(),
        ensures
            data_result_view(r) == resolved_recv(self@.buffer_size, event@),
    {
        match event {
            RecvEvent::Cancelled => Err(SocketError::Cancelled),
            RecvEvent::Arrived(d) => Ok(self.finish_recv(d)),
        }
    }

    /// Completes a receive of one datagram: truncates the payload to the
    /// current buffer capacity and extracts the sender's path.
    fn finish_recv(&self, d: Datagram) -> (data: Data)
        requires
            self@.wf(),
        ensures
            data@ == received_view(d@, self@.buffer_size),
    {
        let Datagram { mut payload, sender, dest: _ } = d;
        let cap = self.buffer_size as usize;
        if payload.len() > cap {
            payload.truncate(cap);
        }
        proof {
            if d@.payload.len() > self@.buffer_size {
                assert(payload@ =~= d@.payload.take(self@.buffer_size));
            }
        }
        Data { buffer: payload, address: sender.display() }
    }

    /// The current receive-buffer capacity in bytes.
    pub fn get_buffer_size(&self) -> (r: i32)
        ensures
            r as int == self@.buffer_size,
    {
        self.buffer_size
    }

    /// Sets the receive-buffer capacity. A negative size is refused with
    /// the invalid-argument error and the prior capacity is kept; any
    /// non-negative size is accepted and read by every later receive.
    pub fn set_buffer_size(&mut self, size: i32) -> (r: Result<(), SocketError>)
        ensures
            size >= 0 ==> r == Ok::<(), SocketError>(()) && final(self)@ == with_buffer_size(
                old(self)@,
                size as int,
            ) && final(self)@.wf(),
            size < 0 ==> r == Err::<(), SocketError>(SocketError::InvalidArgument)
                && final(self)@ == old(self)@,
    {
        if size < 0 {
            return Err(SocketError::InvalidArgument);
        }
        self.buffer_size = size;
        Ok(())
    }

    /// The local path this endpoint is bound to, or nothing for an unnamed
    /// endpoint. Fails after shutdown.
    pub fn get_local_addr(&self) -> (r: Result<Option<Vec<u8>>, SocketError>)
        ensures
            self@.shut ==> r == Err::<Option<Vec<u8>>, SocketError>(SocketError::InvalidState),
            !self@.shut ==> (r matches Ok(a) && opt_path_view(a) == displayed(self@.local)),
    {
        if self.shut {
            return Err(SocketError::InvalidState);
        }
        Ok(self.clone_local().display())
    }

    /// The path of this endpoint's peer. Fails on an unconnected endpoint
    /// and after shutdown.
    pub fn get_peer_addr(&self) -> (r: Result<Option<Vec<u8>>, SocketError>)
        ensures
            self@.shut ==> r == Err::<Option<Vec<u8>>, SocketError>(SocketError::InvalidState),
            !self@.shut && self@.peer is None ==> r == Err::<Option<Vec<u8>>, SocketError>(
                SocketError::InvalidState,
            ),
            (!self@.shut && self@.peer is Some) ==> (r matches Ok(a) && opt_path_view(a)
                == self@.peer),
    {
        if self.shut {
            return Err(SocketError::InvalidState);
        }
        match &self.peer {
            None => Err(SocketError::InvalidState),
            Some(p) => Ok(Some(copy_bytes(p))),
        }
    }

    /// Moves the endpoint to its terminal state. A first call succeeds from
    /// any state; a second one surfaces the invalid-state error, and the
    /// endpoint stays shut down either way.
    pub fn shutdown(&mut self) -> (r: Result<(), SocketError>)
        ensures
            old(self)@.shut ==> r == Err::<(), SocketError>(SocketError::InvalidState)
                && final(self)@ == old(self)@,
            !old(self)@.shut ==> r == Ok::<(), SocketError>(()) && final(self)@ == shut_view(
                old(self)@,
            ),
            final(self)@.shut,
            final(self)@.wf() == old(self)@.wf(),
    {
        if self.shut {
            return Err(SocketError::InvalidState);
        }
        self.shut = true;
        Ok(())
    }

    /// A copy of this endpoint's local address.
    fn clone_local(&self) -> (a: Address)
        ensures
            a@ == self@.local,
    {
        match &self.local {
            Address::Unnamed => Address::Unnamed,
            Address::Path(p) => Address::Path(copy_bytes(p)),
        }
    }
}

/// The position of the oldest in-flight datagram deliverable to endpoint
/// `e` under the sender filter `from`: datagrams are addressed by path, so
/// nothing is ever deliverable to an unnamed endpoint.
pub open spec fn inbound_match(
    e: EndpointView,
    s: Seq<DatagramView>,
    from: Option<Seq<u8>>,
) -> Option<int> {
    match e.local {
        AddressView::Path(p) => first_match(s, p, from),
        AddressView::Unnamed => None,
    }
}

} // verus!
