use vstd::prelude::*;

verus! {

/// A client's socket address as plain values: the address family, the address
/// itself (an IPv4 address sits in the low 32 bits) and the port.
#[derive(Clone, Copy, Debug, PartialEq, Eq, Hash, Structural)]
pub struct ClientAddr {
    pub is_v6: bool,
    pub ip: u128,
    pub port: u16,
}

/// One client's datagram session: the address that keyed it, the time of its
/// last activity (in milliseconds on the engine's clock) and the resources
/// that the session owns.
pub struct Session<T> {
    pub client: ClientAddr,
    pub last_activity: u64,
    pub handle: T,
}

/// Time elapsed from `last` to `now`; a clock that reads earlier than `last`
/// counts as no time elapsed.
pub open spec fn elapsed(last: u64, now: u64) -> int {
    if now >= last {
        now - last
    } else {
        0
    }
}

/// A session is idle when more than `timeout` has elapsed since its last activity.
pub open spec fn is_idle(last: u64, now: u64, timeout: u64) -> bool {
    elapsed(last, now) > timeout
}

pub open spec fn session_is_idle<T>(s: Session<T>, now: u64, timeout: u64) -> bool {
    is_idle(s.last_activity, now, timeout)
}

/// The sessions that stay in the table after an idle scan at `now`.
pub open spec fn active_sessions<T>(s: Seq<Session<T>>, now: u64, timeout: u64) -> Seq<Session<T>> {
    s.filter(|e: Session<T>| !session_is_idle(e, now, timeout))
}

/// The sessions that an idle scan at `now` removes.
pub open spec fn idle_sessions<T>(s: Seq<Session<T>>, now: u64, timeout: u64) -> Seq<Session<T>> {
    s.filter(|e: Session<T>| session_is_idle(e, now, timeout))
}

/// No two sessions share a client address.
pub open spec fn keys_unique<T>(s: Seq<Session<T>>) -> bool {
    forall|i: int, j: int|
        0 <= i < s.len() && 0 <= j < s.len() && i != j ==> #[trigger] s[i].client
            != #[trigger] s[j].client
}

pub open spec fn has_client<T>(s: Seq<Session<T>>, client: ClientAddr) -> bool {
    exists|i: int| 0 <= i < s.len() && #[trigger] s[i].client == client
}

/// `s` with the session of `client` (if any) marked active at `now`.
pub open spec fn touched<T>(s: Seq<Session<T>>, client: ClientAddr, now: u64) -> Seq<Session<T>> {
    s.map_values(
        |e: Session<T>|
            if e.client == client {
                Session { client: e.client, last_activity: now, handle: e.handle }
            } else {
                e
            },
    )
}

/// The table after a datagram from `client` arrives at `now`: the client's
/// session is marked active, or, when it has none, a new session holding
/// `handle` is added.
pub open spec fn receive_datagram<T>(
    s: Seq<Session<T>>,
    client: ClientAddr,
    now: u64,
    handle: T,
) -> Seq<Session<T>> {
    if has_client(s, client) {
        touched(s, client, now)
    } else {
        s.push(Session { client, last_activity: now, handle })
    }
}

/// The table after a run of datagram arrivals, each given by its client, its
/// time and the session that would be created for it.
pub open spec fn receive_all<T>(s: Seq<Session<T>>, arrivals: Seq<(ClientAddr, u64, T)>) -> Seq<
    Session<T>,
>
    decreases arrivals.len(),
{
    if arrivals.len() == 0 {
        s
    } else {
        let a = arrivals.last();
        receive_datagram(receive_all(s, arrivals.drop_last()), a.0, a.1, a.2)
    }
}

proof fn lemma_touched_keeps_clients<T>(s: Seq<Session<T>>, client: ClientAddr, now: u64)
    ensures
        touched(s, client, now).len() == s.len(),
        forall|i: int|
            0 <= i < s.len() ==> (#[trigger] touched(s, client, now)[i]).client == s[i].client,
        !has_client(s, client) ==> touched(s, client, now) == s,
{
    if !has_client(s, client) {
        assert(touched(s, client, now) =~= s);
    }
}

/// Each datagram keeps at most one session per client.
pub proof fn lemma_receive_datagram_keeps_unique<T>(
    s: Seq<Session<T>>,
    client: ClientAddr,
    now: u64,
    handle: T,
)
    requires
        keys_unique(s),
    ensures
        keys_unique(receive_datagram(s, client, now, handle)),
        has_client(receive_datagram(s, client, now, handle), client),
{
    lemma_touched_keeps_clients(s, client, now);
    let r = receive_datagram(s, client, now, handle);
    if has_client(s, client) {
        let i = choose|i: int| 0 <= i < s.len() && #[trigger] s[i].client == client;
        assert(r[i].client == client);
    } else {
        assert(r[s.len() as int].client == client);
    }
}

/// At most one session per client: whatever datagrams arrive, from whichever
/// clients and in whatever interleaving, starting from a table with one
/// session per client, no client ever has two sessions.
pub proof fn lemma_at_most_one_session<T>(s: Seq<Session<T>>, arrivals: Seq<(ClientAddr, u64, T)>)
    requires
        keys_unique(s),
    ensures
        keys_unique(receive_all(s, arrivals)),
        forall|i: int, j: int|
            0 <= i < receive_all(s, arrivals).len() && 0 <= j < receive_all(s, arrivals).len()
                && #[trigger] receive_all(s, arrivals)[i].client == #[trigger] receive_all(
                s,
                arrivals,
            )[j].client ==> i == j,
    decreases arrivals.len(),
{
    if arrivals.len() > 0 {
        let a = arrivals.last();
        lemma_at_most_one_session(s, arrivals.drop_last());
        lemma_receive_datagram_keeps_unique(receive_all(s, arrivals.drop_last()), a.0, a.1, a.2);
    }
}

/// Isolation between clients: a datagram from `client` leaves every other
/// client's session exactly as it was, whatever happens to `client`'s own.
pub proof fn lemma_other_sessions_unaffected<T>(
    s: Seq<Session<T>>,
    client: ClientAddr,
    now: u64,
    handle: T,
)
    ensures
        forall|i: int|
            0 <= i < s.len() && #[trigger] s[i].client != client ==> receive_datagram(
                s,
                client,
                now,
                handle,
            )[i] == s[i],
{
}

/// Idle eviction: a scan at `now` leaves no session for a client whose session
/// was idle, and keeps, unchanged, every session active within the timeout.
pub proof fn lemma_idle_eviction<T>(s: Seq<Session<T>>, now: u64, timeout: u64)
    requires
        keys_unique(s),
    ensures
        forall|i: int|
            0 <= i < s.len() && is_idle(#[trigger] s[i].last_activity, now, timeout) ==> !has_client(
                active_sessions(s, now, timeout),
                s[i].client,
            ),
        forall|i: int|
            0 <= i < s.len() && !is_idle(#[trigger] s[i].last_activity, now, timeout)
                ==> active_sessions(s, now, timeout).contains(s[i]),
        forall|i: int|
            0 <= i < s.len() && is_idle(#[trigger] s[i].last_activity, now, timeout)
                ==> idle_sessions(s, now, timeout).contains(s[i]),
{
    broadcast use vstd::seq_lib::group_filter_ensures;

    let keep = |e: Session<T>| !session_is_idle(e, now, timeout);
    let drop = |e: Session<T>| session_is_idle(e, now, timeout);
    let after = active_sessions(s, now, timeout);
    assert(after == s.filter(keep));
    assert forall|i: int|
        0 <= i < s.len() && is_idle(#[trigger] s[i].last_activity, now, timeout) implies !has_client(
        after,
        s[i].client,
    ) by {
        if has_client(after, s[i].client) {
            let k = choose|k: int| 0 <= k < after.len() && #[trigger] after[k].client == s[i].client;
            assert(keep(after[k]));
            assert(after.contains(after[k]));
            s.lemma_filter_contains_rev(keep, after[k]);
            let m = choose|m: int| 0 <= m < s.len() && s[m] == after[k];
            assert(s[m].client == s[i].client);
        }
    }
    assert forall|i: int|
        0 <= i < s.len() && !is_idle(#[trigger] s[i].last_activity, now, timeout) implies after.contains(
        s[i],
    ) by {
        assert(keep(s[i]));
    }
    assert forall|i: int|
        0 <= i < s.len() && is_idle(#[trigger] s[i].last_activity, now, timeout) implies idle_sessions(
        s,
        now,
        timeout,
    ).contains(s[i]) by {
        assert(idle_sessions(s, now, timeout) == s.filter(drop));
        assert(drop(s[i]));
    }
}

/// Whether a session last active at `last` is idle at `now`.
pub fn idle_at(last: u64, now: u64, timeout: u64) -> (r: bool)
    ensures
        r == is_idle(last, now, timeout),
{
    now >= last && now - last > timeout
}

/// The table of datagram sessions, keyed by client address. All changes go
/// through its methods, which keep at most one session per client.
pub struct SessionTable<T> {
    sessions: Vec<Session<T>>,
}

impl<T> View for SessionTable<T> {
    type V = Seq<Session<T>>;

    closed spec fn view(&self) -> Seq<Session<T>> {
        self.sessions@
    }
}

proof fn lemma_filter_take_step<A>(s: Seq<A>, j: int, p: spec_fn(A) -> bool)
    requires
        0 <= j < s.len(),
    ensures
        s.take(j + 1).filter(p) == (if p(s[j]) {
            s.take(j).filter(p).push(s[j])
        } else {
            s.take(j).filter(p)
        }),
{
    reveal(Seq::filter);
    assert(s.take(j + 1).drop_last() =~= s.take(j));
    assert(s.take(j + 1).last() == s[j]);
}

impl<T> SessionTable<T> {
    pub open spec fn wf(&self) -> bool {
        keys_unique(self@)
    }

    pub open spec fn contains(&self, client: ClientAddr) -> bool {
        has_client(self@, client)
    }

    /// An empty table.
    pub fn new() -> (r: Self)
        ensures
            r.wf(),
            r@ == Seq::<Session<T>>::empty(),
    {
        SessionTable { sessions: Vec::new() }
    }

    /// The number of live sessions.
    pub fn len(&self) -> (r: usize)
        ensures
            r == self@.len(),
    {
        self.sessions.len()
    }

    /// The position of `client`'s session, if it has one.
    pub fn find(&self, client: ClientAddr) -> (r: Option<usize>)
        requires
            self.wf(),
        ensures
            match r {
                Some(i) => i < self@.len() && self@[i as int].client == client,
                None => !self.contains(client),
            },
    {
        let mut i: usize = 0;
        while i < self.sessions.len()
            invariant
                i <= self.sessions@.len(),
                forall|k: int| 0 <= k < i ==> #[trigger] self.sessions@[k].client != client,
            decreases self.sessions@.len() - i,
        {
            if self.sessions[i].client == client {
                return Some(i);
            }
            i += 1;
        }
        None
    }

    /// The session at position `i`.
    pub fn session(&self, i: usize) -> (r: &Session<T>)
        requires
            i < self@.len(),
        ensures
            *r == self@[i as int],
    {
        &self.sessions[i]
    }

    /// Records activity of `client`'s session at `now`. Returns whether the
    /// client has a session; other sessions are left as they were.
    pub fn touch(&mut self, client: ClientAddr, now: u64) -> (r: bool)
        requires
            old(self).wf(),
        ensures
            final(self).wf(),
            r == old(self).contains(client),
            final(self)@ == touched(old(self)@, client, now),
    {
        match self.find(client) {
            Some(i) => {
                let mut s = self.sessions.remove(i);
                s.last_activity = now;
                self.sessions.insert(i, s);
                assert(self@ =~= touched(old(self)@, client, now));
                true
            },
            None => {
                assert(self@ =~= touched(old(self)@, client, now));
                false
            },
        }
    }

    /// Looks up `client` for a datagram arriving at `now`: when the client has
    /// a session it is marked active and its position returned; otherwise the
    /// table is left unchanged and the caller is to create a session.
    pub fn route(&mut self, client: ClientAddr, now: u64) -> (r: Option<usize>)
        requires
            old(self).wf(),
        ensures
            final(self).wf(),
            final(self)@ == touched(old(self)@, client, now),
            match r {
                Some(i) => i < final(self)@.len() && final(self)@[i as int].client == client,
                None => !old(self).contains(client) && final(self)@ == old(self)@,
            },
            r.is_some() ==> forall|h: T|
                final(self)@ == #[trigger] receive_datagram(old(self)@, client, now, h),
    {
        proof {
            lemma_touched_keeps_clients(old(self)@, client, now);
        }
        let found = self.find(client);
        self.touch(client, now);
        found
    }

    /// Adds a session for `client`, active at `now`. A client that already has
    /// a session gets no second one: the table is left unchanged and `handle`
    /// is handed back.
    pub fn insert(&mut self, client: ClientAddr, now: u64, handle: T) -> (r: Result<usize, T>)
        requires
            old(self).wf(),
        ensures
            final(self).wf(),
            old(self).contains(client) ==> r == Err::<usize, T>(handle) && final(self)@ == old(
                self,
            )@,
            !old(self).contains(client) ==> r == Ok::<usize, T>(old(self)@.len() as usize)
                && final(self)@ == old(self)@.push(
                (Session { client, last_activity: now, handle }),
            ),
            !old(self).contains(client) ==> final(self)@ == receive_datagram(
                old(self)@,
                client,
                now,
                handle,
            ),
    {
        match self.find(client) {
            Some(_) => Err(handle),
            None => {
                let i = self.sessions.len();
                self.sessions.push(Session { client, last_activity: now, handle });
                Ok(i)
            },
        }
    }

    /// Removes every session that is idle at `now` and hands the removed
    /// sessions back, in table order, for teardown.
    pub fn evict_idle(&mut self, now: u64, timeout: u64) -> (r: Vec<Session<T>>)
        requires
            old(self).wf(),
        ensures
            final(self).wf(),
            final(self)@ == active_sessions(old(self)@, now, timeout),
            r@ == idle_sessions(old(self)@, now, timeout),
    {
        let ghost orig = self.sessions@;
        let ghost keep = |e: Session<T>| !session_is_idle(e, now, timeout);
        let ghost drop = |e: Session<T>| session_is_idle(e, now, timeout);
        let mut removed: Vec<Session<T>> = Vec::new();
        let mut i: usize = 0;
        let ghost mut j: int = 0;
        assert(orig.take(0) =~= Seq::<Session<T>>::empty());
        assert(self.sessions@.take(0) =~= Seq::<Session<T>>::empty());
        assert(self.sessions@.skip(0) =~= orig.skip(0));
        while i < self.sessions.len()
            invariant
                0 <= i <= j <= orig.len(),
                self.sessions@.len() == i + (orig.len() - j),
                self.sessions@.take(i as int) == orig.take(j).filter(keep),
                self.sessions@.skip(i as int) == orig.skip(j),
                removed@ == orig.take(j).filter(drop),
                keys_unique(self.sessions@),
                keep == (|e: Session<T>| !session_is_idle(e, now, timeout)),
                drop == (|e: Session<T>| session_is_idle(e, now, timeout)),
            decreases self.sessions@.len() - i,
        {
            let ghost before = self.sessions@;
            proof {
                assert(before.skip(i as int)[0] == orig.skip(j)[0]);
                lemma_filter_take_step(orig, j, keep);
                lemma_filter_take_step(orig, j, drop);
            }
            if idle_at(self.sessions[i].last_activity, now, timeout) {
                let s = self.sessions.remove(i);
                removed.push(s);
                proof {
                    assert(self.sessions@.take(i as int) =~= before.take(i as int));
                    assert(self.sessions@.skip(i as int) =~= orig.skip(j + 1)) by {
                        assert(before.skip(i as int).skip(1) =~= orig.skip(j).skip(1));
                        assert(orig.skip(j).skip(1) =~= orig.skip(j + 1));
                        assert(self.sessions@.skip(i as int) =~= before.skip(i as int).skip(1));
                    }
                    assert forall|a: int, b: int|
                        0 <= a < self.sessions@.len() && 0 <= b < self.sessions@.len() && a
                            != b implies #[trigger] self.sessions@[a].client
                        != #[trigger] self.sessions@[b].client by {
                        let a0 = if a < i { a } else { a + 1 };
                        let b0 = if b < i { b } else { b + 1 };
                        assert(self.sessions@[a] == before[a0]);
                        assert(self.sessions@[b] == before[b0]);
                    }
                    j = j + 1;
                }
            } else {
                proof {
                    assert(self.sessions@.take(i + 1) =~= before.take(i as int).push(before[i as int]));
                    assert(before.skip(i + 1) =~= before.skip(i as int).skip(1));
                    assert(orig.skip(j).skip(1) =~= orig.skip(j + 1));
                    j = j + 1;
                }
                i += 1;
            }
        }
        proof {
            assert(orig.take(j) =~= orig);
            assert(self.sessions@.take(i as int) =~= self.sessions@);
        }
        removed
    }
}

} // verus!
