use std::sync::atomic::AtomicU64;
use std::sync::Arc;
use vstd::prelude::*;

use crate::endpoint::{format_status, status_line, Protocol};
use crate::portal::Portal;


verus! {

/// A stream relay from `src` to `dst`, with its count of live connections.
pub struct TcpPortForwarder {
    pub src: String,
    pub dst: String,
    conn_cnt: Arc<AtomicU64>,
}

impl TcpPortForwarder {
    /// The address that the relay listens on.
    pub closed spec fn source(&self) -> Seq<char> {
        self.src@
    }

    /// The address that each connection is relayed to.
    pub closed spec fn destination(&self) -> Seq<char> {
        self.dst@
    }

    /// The shared counter of live connections.
    pub closed spec fn counter(&self) -> Arc<AtomicU64> {
        self.conn_cnt
    }

    /// A relay from `src` to `dst` with no live connection.
    pub fn new(src: &str, dst: &str) -> (r: Self)
        ensures
            r.source() == src@,
            r.destination() == dst@,
    {
        TcpPortForwarder {
            src: String::from_str(src),
            dst: String::from_str(dst),
            conn_cnt: Arc::new(AtomicU64::new(0)),
        }
    }

    /// A handle on the relay's live-connection counter, shared with it.
    pub fn get_conn_cnt(&self) -> (r: Arc<AtomicU64>)
        ensures
            r == self.counter(),
    {
        self.conn_cnt.clone()
    }
}

impl Portal for TcpPortForwarder {
    open spec fn status_text(&self) -> Seq<char> {
        status_line(self.source(), self.destination(), Protocol::Tcp)
    }

    fn status(&self) -> (r: String) {
        format_status(self.src.as_str(), self.dst.as_str(), Protocol::Tcp)
    }
}

} // verus!
