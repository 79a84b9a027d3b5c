//! A port-forwarding engine for stream and datagram transports. The library
//! holds the engine's decisions, verified: the per-client datagram session
//! table with idle eviction, the published live-flow counts, the status line
//! and the start/stop bookkeeping. Sockets and timers are driven by the caller.

use vstd::prelude::*;

pub mod control;
pub mod datagram;
pub mod endpoint;
pub mod portal;
pub mod session_table;
pub mod stream;

verus! {

/// Largest datagram payload that the engine relays in one piece.
pub const MAX_UDP_PACKET_SIZE: usize = 65536;

} // verus!
