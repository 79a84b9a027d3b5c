use std::sync::atomic::AtomicU64;
use std::sync::Arc;
use vstd::prelude::*;

use crate::datagram::UdpPortForwarder;
use crate::endpoint::{status_line, Protocol};
use crate::stream::TcpPortForwarder;

verus! {

/// What every relay offers its caller, whatever its transport.
pub trait Portal {
    /// The status line that `status` returns.
    spec fn status_text(&self) -> Seq<char>;

    /// A human-readable summary: `<src> -> <dst> (<PROTOCOL>)`.
    fn status(&self) -> (r: String)
        ensures
            r@ == self.status_text(),
    ;
}

/// A relay of either transport, chosen by a protocol tag.
pub enum Engine {
    Stream(TcpPortForwarder),
    Datagram(UdpPortForwarder),
}

impl Engine {
    pub open spec fn protocol_of(&self) -> Protocol {
        match self {
            Engine::Stream(_) => Protocol::Tcp,
            Engine::Datagram(_) => Protocol::Udp,
        }
    }

    pub open spec fn source(&self) -> Seq<char> {
        match self {
            Engine::Stream(t) => t.source(),
            Engine::Datagram(u) => u.source(),
        }
    }

    pub open spec fn destination(&self) -> Seq<char> {
        match self {
            Engine::Stream(t) => t.destination(),
            Engine::Datagram(u) => u.destination(),
        }
    }

    pub open spec fn counter(&self) -> Arc<AtomicU64> {
        match self {
            Engine::Stream(t) => t.counter(),
            Engine::Datagram(u) => u.counter(),
        }
    }

    /// A relay from `src` to `dst` over `protocol`; a datagram relay gets the
    /// default idle timeout.
    pub fn new(protocol: Protocol, src: &str, dst: &str) -> (r: Self)
        ensures
            r.protocol_of() == protocol,
            r.source() == src@,
            r.destination() == dst@,
    {
        match protocol {
            Protocol::Tcp => Engine::Stream(TcpPortForwarder::new(src, dst)),
            Protocol::Udp => Engine::Datagram(UdpPortForwarder::new(src, dst)),
        }
    }

    /// The relay's transport.
    pub fn protocol(&self) -> (r: Protocol)
        ensures
            r == self.protocol_of(),
    {
        match self {
            Engine::Stream(_) => Protocol::Tcp,
            Engine::Datagram(_) => Protocol::Udp,
        }
    }

    /// A handle on the relay's live-flow counter, shared with it.
    pub fn get_conn_cnt(&self) -> (r: Arc<AtomicU64>)
        ensures
            r == self.counter(),
    {
        match self {
            Engine::Stream(t) => t.get_conn_cnt(),
            Engine::Datagram(u) => u.get_conn_cnt(),
        }
    }
}

impl Portal for Engine {
    open spec fn status_text(&self) -> Seq<char> {
        status_line(self.source(), self.destination(), self.protocol_of())
    }

    fn status(&self) -> (r: String) {
        match self {
            Engine::Stream(t) => t.status(),
            Engine::Datagram(u) => u.status(),
        }
    }
}

} // verus!
