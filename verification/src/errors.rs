//! The error taxonomy of the endpoint.
//!
//! Every failure is surfaced to the caller as one of these variants; nothing
//! is recovered internally, and cancellation is kept distinct from transport
//! failure so a caller can tell "something went wrong" from "I asked for
//! this to stop".

use vstd::prelude::*;

verus! {

/// A typed failure of an endpoint operation.
#[derive(Clone, Copy, Debug, PartialEq, Eq, Structural)]
pub enum SocketError {
    /// A construction-time failure: the path was unusable, permission was
    /// denied, or the address was already in use.
    Construction,
    /// A connection failure: the peer path does not exist or refused.
    Connection,
    /// A transient transport failure during a send or a receive.
    Io,
    /// A receive interrupted by the cancellation signal.
    Cancelled,
    /// An argument outside the allowed range, such as a negative buffer size.
    InvalidArgument,
    /// An operation invalid in the endpoint's current lifecycle state.
    InvalidState,
}

} // verus!
