use std::sync::atomic::{AtomicU64, Ordering};
use std::sync::Arc;
use vstd::prelude::*;

use crate::endpoint::{format_status, status_line, Protocol};
use crate::portal::Portal;
use crate::session_table::{active_sessions, idle_sessions, ClientAddr, Session, SessionTable};

verus! {

/// How often, in milliseconds, the idle scan runs.
pub const UDP_CHECK_INTERVAL_MS: u64 = 5000;

/// How long, in milliseconds, a session may stay without traffic unless
/// configured otherwise.
pub const DEFAULT_UDP_TIMEOUT_MS: u64 = 120000;

/// A datagram relay from `src` to `dst`: it keeps one session per client and
/// publishes the number of live sessions.
pub struct UdpPortForwarder {
    pub src: String,
    pub dst: String,
    conn_cnt: Arc<AtomicU64>,
    idle_timeout_ms: u64,
}

impl UdpPortForwarder {
    /// The address that the relay receives datagrams on.
    pub closed spec fn source(&self) -> Seq<char> {
        self.src@
    }

    /// The address that datagrams are relayed to.
    pub closed spec fn destination(&self) -> Seq<char> {
        self.dst@
    }

    /// The shared counter of live sessions.
    pub closed spec fn counter(&self) -> Arc<AtomicU64> {
        self.conn_cnt
    }

    /// How long a session may stay without traffic before it is removed.
    pub closed spec fn idle_timeout(&self) -> u64 {
        self.idle_timeout_ms
    }

    /// A relay from `src` to `dst` with the default idle timeout.
    pub fn new(src: &str, dst: &str) -> (r: Self)
        ensures
            r.source() == src@,
            r.destination() == dst@,
            r.idle_timeout() == DEFAULT_UDP_TIMEOUT_MS,
    {
        UdpPortForwarder {
            src: String::from_str(src),
            dst: String::from_str(dst),
            conn_cnt: Arc::new(AtomicU64::new(0)),
            idle_timeout_ms: DEFAULT_UDP_TIMEOUT_MS,
        }
    }

    /// The same relay with an idle timeout of `ms` milliseconds.
    pub fn with_idle_timeout(self, ms: u64) -> (r: Self)
        ensures
            r.source() == self.source(),
            r.destination() == self.destination(),
            r.counter() == self.counter(),
            r.idle_timeout() == ms,
    {
        UdpPortForwarder { idle_timeout_ms: ms, ..self }
    }

    /// The idle timeout, in milliseconds.
    pub fn idle_timeout_ms(&self) -> (r: u64)
        ensures
            r == self.idle_timeout(),
    {
        self.idle_timeout_ms
    }

    /// A handle on the relay's live-session counter, shared with it.
    pub fn get_conn_cnt(&self) -> (r: Arc<AtomicU64>)
        ensures
            r == self.counter(),
    {
        self.conn_cnt.clone()
    }

    /// Stores the number of sessions in `table` in the live-session counter,
    /// and returns that number.
    pub fn publish_count<T>(&self, table: &SessionTable<T>) -> (r: usize)
        ensures
            r == table@.len(),
    {
        let n = table.len();
        self.conn_cnt.store(n as u64, Ordering::Relaxed);
        n
    }

    /// Adds the session that was opened for `client`'s first datagram at
    /// `now`, then publishes the session count. A client that already has a
    /// session keeps it, and `handle` is handed back.
    pub fn register_session<T>(
        &self,
        table: &mut SessionTable<T>,
        client: ClientAddr,
        now: u64,
        handle: T,
    ) -> (r: (Result<usize, T>, usize))
        requires
            old(table).wf(),
        ensures
            final(table).wf(),
            old(table).contains(client) ==> r.0 == Err::<usize, T>(handle) && final(table)@ == old(
                table,
            )@,
            !old(table).contains(client) ==> r.0 == Ok::<usize, T>(old(table)@.len() as usize)
                && final(table)@ == old(table)@.push(
                (Session { client, last_activity: now, handle }),
            ),
            r.1 == final(table)@.len(),
    {
        let res = table.insert(client, now, handle);
        let n = self.publish_count(table);
        (res, n)
    }

    /// One tick of the idle scan at `now`: removes every session idle for
    /// longer than the relay's timeout, hands the removed sessions back for
    /// teardown, and publishes the number of sessions left.
    pub fn reap<T>(&self, table: &mut SessionTable<T>, now: u64) -> (r: (Vec<Session<T>>, usize))
        requires
            old(table).wf(),
        ensures
            final(table).wf(),
            final(table)@ == active_sessions(old(table)@, now, self.idle_timeout()),
            r.0@ == idle_sessions(old(table)@, now, self.idle_timeout()),
            r.1 == final(table)@.len(),
    {
        let removed = table.evict_idle(now, self.idle_timeout_ms);
        let n = self.publish_count(table);
        (removed, n)
    }
}

impl Portal for UdpPortForwarder {
    open spec fn status_text(&self) -> Seq<char> {
        status_line(self.source(), self.destination(), Protocol::Udp)
    }

    fn status(&self) -> (r: String) {
        format_status(self.src.as_str(), self.dst.as_str(), Protocol::Udp)
    }
}

} // verus!
