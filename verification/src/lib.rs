//! A verified model of a cancellable Unix-domain datagram endpoint.
//!
//! The library captures the logic of such an endpoint as plain data: the
//! lifecycle state machine (unbound, bound, connected, shut down), the
//! validated receive-buffer policy, the canonical address representation,
//! the datagram transport with its truncate-on-receive rule, and the
//! broadcast cancellation signal shared by every alias of one handle.
//! The operating-system socket itself is driven by a thin unverified layer
//! that consults these functions for every decision.

use vstd::prelude::*;

pub mod address;
pub mod cancel;
pub mod endpoint;
pub mod errors;
pub mod laws;
pub mod transport;

verus! {

/// Receive-buffer capacity, in bytes, of a freshly constructed endpoint.
pub const DEFAULT_BUFFER_SIZE: i32 = 8192;

} // verus!
