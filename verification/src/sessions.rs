//! The gateway's UDP session table.
//!
//! Each IPv4 source endpoint (address and port) seen on the captured
//! network gets one outgoing session through the proxy; sessions are kept
//! in a least-recently-used cache of 100 entries.  A session is named here
//! by a number; the caller keeps the live connection under that number.
use crate::lru_cache::{
    distinct_keys, has_key, key_index, lru_cap, lru_capacity, lru_contains, lru_entries, lru_get,
    lru_len, lru_new, lru_peek_lru, lru_pop, lru_put,
};
use crate::wire::ipv4_number;
use lru::LruCache;
use vstd::prelude::*;

verus! {

/// How many sessions the table holds at most.
pub const UDP_CACHE_CAPACITY: usize = 100;

/// The table key of an IPv4 endpoint: the address number followed by the
/// port, as one 48-bit number.
pub open spec fn endpoint_key(ip: Seq<u8>, port: u16) -> int {
    ipv4_number(ip) * 0x10000 + port as int
}

/// The table key of an IPv4 endpoint.
pub fn session_key(ip: [u8; 4], port: u16) -> (r: u64)
    ensures
        r == endpoint_key(ip@, port),
{
    let n: u64 = ip[0] as u64 * 0x1000000 + ip[1] as u64 * 0x10000 + ip[2] as u64 * 0x100
        + ip[3] as u64;
    n * 0x10000 + port as u64
}

/// Distinct endpoints have distinct keys.
pub proof fn lemma_endpoint_key_injective(ip1: [u8; 4], port1: u16, ip2: [u8; 4], port2: u16)
    requires
        endpoint_key(ip1@, port1) == endpoint_key(ip2@, port2),
    ensures
        ip1@ == ip2@,
        port1 == port2,
{
    assert(ip1@ =~= ip2@);
}

/// No two entries share a session number.
pub open spec fn distinct_ids(s: Seq<(u64, u64)>) -> bool {
    forall|i: int, j: int| 0 <= i < s.len() && 0 <= j < s.len() && i != j ==> s[i].1 != s[j].1
}

/// The sessions of the gateway: endpoint keys mapped to session numbers,
/// most recently used first, and the next number to hand out.
pub struct UdpSessions {
    cache: LruCache<u64, u64>,
    next_id: u64,
}

impl View for UdpSessions {
    type V = (Seq<(u64, u64)>, nat);

    closed spec fn view(&self) -> (Seq<(u64, u64)>, nat) {
        (lru_entries(self.cache), self.next_id as nat)
    }
}

impl UdpSessions {
    /// The table is well formed: at most 100 entries, one per key, each
    /// with its own session number below the next one to hand out.
    pub closed spec fn wf(&self) -> bool {
        &&& lru_cap(self.cache) == UDP_CACHE_CAPACITY
        &&& self@.0.len() <= UDP_CACHE_CAPACITY
        &&& distinct_keys(self@.0)
        &&& distinct_ids(self@.0)
        &&& forall|i: int| 0 <= i < self@.0.len() ==> self@.0[i].1 < self@.1
    }

    /// An empty table.
    pub fn new() -> (r: UdpSessions)
        ensures
            r.wf(),
            r@.0 == Seq::<(u64, u64)>::empty(),
            r@.1 == 0,
    {
        UdpSessions { cache: lru_new(UDP_CACHE_CAPACITY), next_id: 0 }
    }

    /// The number of sessions.
    pub fn len(&self) -> (r: usize)
        ensures
            r == self@.0.len(),
    {
        lru_len(&self.cache)
    }

    /// Whether the endpoint has a session; the order is unchanged.
    pub fn contains(&self, ip: [u8; 4], port: u16) -> (r: bool)
        ensures
            r == has_key(self@.0, endpoint_key(ip@, port) as u64),
    {
        lru_contains(&self.cache, session_key(ip, port))
    }

    /// The session of an endpoint, which becomes the most recently used;
    /// `None`, with the table unchanged, when it has none.
    pub fn session_for(&mut self, ip: [u8; 4], port: u16) -> (r: Option<u64>)
        requires
            old(self).wf(),
        ensures
            final(self).wf(),
            final(self)@.1 == old(self)@.1,
            ({
                let k = endpoint_key(ip@, port) as u64;
                let s = old(self)@.0;
                &&& !has_key(s, k) ==> r is None && final(self)@.0 == s
                &&& has_key(s, k) ==> r == Some(s[key_index(s, k)].1) && final(self)@.0 == seq![
                    s[key_index(s, k)],
                ] + s.remove(key_index(s, k))
            }),
    {
        let ghost s = self@.0;
        let k = session_key(ip, port);
        let r = lru_get(&mut self.cache, k);
        proof {
            if has_key(s, k) {
                let i = key_index(s, k);
                let t = self@.0;
                assert forall|a: int, b: int| 0 <= a < t.len() && 0 <= b < t.len() && a != b implies t[a].0
                    != t[b].0 && t[a].1 != t[b].1 by {
                    let ia = if a == 0 { i } else if a - 1 < i { a - 1 } else { a };
                    let ib = if b == 0 { i } else if b - 1 < i { b - 1 } else { b };
                    assert(t[a] == s[ia]);
                    assert(t[b] == s[ib]);
                }
                assert forall|a: int| 0 <= a < t.len() implies t[a].1 < self@.1 by {
                    let ia = if a == 0 { i } else if a - 1 < i { a - 1 } else { a };
                    assert(t[a] == s[ia]);
                }
            }
        }
        r
    }

    /// Opens a session for an endpoint that has none: it gets the next
    /// session number and becomes the most recently used; when the table
    /// is full, the least recently used session leaves it and its number is
    /// returned as well.
    pub fn open_session(&mut self, ip: [u8; 4], port: u16) -> (r: (u64, Option<u64>))
        requires
            old(self).wf(),
            !has_key(old(self)@.0, endpoint_key(ip@, port) as u64),
            old(self)@.1 < u64::MAX,
        ensures
            final(self).wf(),
            r.0 == old(self)@.1,
            final(self)@.1 == old(self)@.1 + 1,
            old(self)@.0.len() == UDP_CACHE_CAPACITY ==> r.1 == Some(old(self)@.0.last().1)
                && final(self)@.0 == seq![(endpoint_key(ip@, port) as u64, r.0)] + old(
                self,
            )@.0.drop_last(),
            old(self)@.0.len() < UDP_CACHE_CAPACITY ==> r.1 is None && final(self)@.0 == seq![
                (endpoint_key(ip@, port) as u64, r.0),
            ] + old(self)@.0,
    {
        let ghost s = self@.0;
        let k = session_key(ip, port);
        let id = self.next_id;
        let evicted = if lru_len(&self.cache) == lru_capacity(&self.cache) {
            match lru_peek_lru(&self.cache) {
                Some((_, v)) => Some(v),
                None => None,
            }
        } else {
            None
        };
        lru_put(&mut self.cache, k, id);
        self.next_id = id + 1;
        proof {
            let t = self@.0;
            if s.len() == UDP_CACHE_CAPACITY {
                assert forall|a: int, b: int| 0 <= a < t.len() && 0 <= b < t.len() && a != b implies t[a].0
                    != t[b].0 && t[a].1 != t[b].1 by {
                    if a > 0 {
                        assert(t[a] == s[a - 1]);
                    }
                    if b > 0 {
                        assert(t[b] == s[b - 1]);
                    }
                }
                assert forall|a: int| 0 <= a < t.len() implies t[a].1 < self@.1 by {
                    if a > 0 {
                        assert(t[a] == s[a - 1]);
                    }
                }
            } else {
                assert forall|a: int, b: int| 0 <= a < t.len() && 0 <= b < t.len() && a != b implies t[a].0
                    != t[b].0 && t[a].1 != t[b].1 by {
                    if a > 0 {
                        assert(t[a] == s[a - 1]);
                    }
                    if b > 0 {
                        assert(t[b] == s[b - 1]);
                    }
                }
                assert forall|a: int| 0 <= a < t.len() implies t[a].1 < self@.1 by {
                    if a > 0 {
                        assert(t[a] == s[a - 1]);
                    }
                }
            }
        }
        (id, evicted)
    }

    /// Ends the session of an endpoint (when it timed out), returning its
    /// number; the other sessions keep their order.
    pub fn expire(&mut self, ip: [u8; 4], port: u16) -> (r: Option<u64>)
        requires
            old(self).wf(),
        ensures
            final(self).wf(),
            final(self)@.1 == old(self)@.1,
            ({
                let k = endpoint_key(ip@, port) as u64;
                let s = old(self)@.0;
                &&& !has_key(s, k) ==> r is None && final(self)@.0 == s
                &&& has_key(s, k) ==> r == Some(s[key_index(s, k)].1) && final(self)@.0 == s.remove(
                    key_index(s, k),
                )
            }),
    {
        let ghost s = self@.0;
        let k = session_key(ip, port);
        let r = lru_pop(&mut self.cache, k);
        proof {
            if has_key(s, k) {
                let i = key_index(s, k);
                let t = self@.0;
                assert forall|a: int, b: int| 0 <= a < t.len() && 0 <= b < t.len() && a != b implies t[a].0
                    != t[b].0 && t[a].1 != t[b].1 by {
                    let ia = if a < i { a } else { a + 1 };
                    let ib = if b < i { b } else { b + 1 };
                    assert(t[a] == s[ia]);
                    assert(t[b] == s[ib]);
                }
                assert forall|a: int| 0 <= a < t.len() implies t[a].1 < self@.1 by {
                    let ia = if a < i { a } else { a + 1 };
                    assert(t[a] == s[ia]);
                }
            }
        }
        r
    }
}

/// A well-formed table holds at most 100 sessions, one per endpoint, each
/// with its own number.
pub proof fn lemma_table_bounded(t: &UdpSessions)
    requires
        t.wf(),
    ensures
        t@.0.len() <= UDP_CACHE_CAPACITY,
        distinct_keys(t@.0),
        distinct_ids(t@.0),
{
}

/// Right after a session is opened for an endpoint, looking the endpoint
/// up finds that session, and the lookup leaves the order as it is.
pub proof fn lemma_lookup_after_open(t: Seq<(u64, u64)>, k: u64, id: u64)
    requires
        t.len() > 0,
        t[0] == (k, id),
        distinct_keys(t),
    ensures
        has_key(t, k),
        key_index(t, k) == 0,
        t[key_index(t, k)].1 == id,
        seq![t[key_index(t, k)]] + t.remove(key_index(t, k)) == t,
{
    assert(has_key(t, k));
    let i = key_index(t, k);
    assert(t[i].0 == k);
    if i != 0 {
        assert(t[0].0 == t[i].0);
    }
    assert(seq![t[0]] + t.remove(0) =~= t);
}

/// A session number handed out is not in use: every number in the table
/// is below the next one.
pub proof fn lemma_new_number_fresh(t: &UdpSessions)
    requires
        t.wf(),
    ensures
        forall|i: int| 0 <= i < t@.0.len() ==> t@.0[i].1 != t@.1,
{
}

/// Once its session is ended, an endpoint has none.
pub proof fn lemma_absent_after_expire(s: Seq<(u64, u64)>, k: u64)
    requires
        distinct_keys(s),
        has_key(s, k),
    ensures
        !has_key(s.remove(key_index(s, k)), k),
{
    let i = key_index(s, k);
    let t = s.remove(i);
    if has_key(t, k) {
        let j = choose|j: int| 0 <= j < t.len() && t[j].0 == k;
        if j < i {
            assert(t[j] == s[j]);
        } else {
            assert(t[j] == s[j + 1]);
        }
    }
}

/// A lookup reorders the sessions but keeps every one of them.
pub proof fn lemma_lookup_keeps_sessions(s: Seq<(u64, u64)>, k: u64)
    requires
        has_key(s, k),
    ensures
        (seq![s[key_index(s, k)]] + s.remove(key_index(s, k))).to_multiset() == s.to_multiset(),
{
    let i = key_index(s, k);
    let t = s.remove(i);
    vstd::seq_lib::lemma_multiset_commutative(seq![s[i]], t);
    assert(s =~= s.subrange(0, i) + seq![s[i]] + s.subrange(i + 1, s.len() as int));
    assert(t =~= s.subrange(0, i) + s.subrange(i + 1, s.len() as int));
    vstd::seq_lib::lemma_multiset_commutative(s.subrange(0, i), seq![s[i]]);
    vstd::seq_lib::lemma_multiset_commutative(s.subrange(0, i) + seq![s[i]], s.subrange(i + 1, s.len() as int));
    vstd::seq_lib::lemma_multiset_commutative(s.subrange(0, i), s.subrange(i + 1, s.len() as int));
    vstd::seq_lib::lemma_multiset_commutative(seq![s[i]], s.subrange(0, i));
    vstd::seq_lib::lemma_multiset_commutative(seq![s[i]] + s.subrange(0, i), s.subrange(i + 1, s.len() as int));
    vstd::seq_lib::lemma_multiset_commutative(seq![s[i]], s.subrange(0, i) + s.subrange(i + 1, s.len() as int));
    assert(seq![s[i]] + s.subrange(0, i) + s.subrange(i + 1, s.len() as int) =~= seq![s[i]] + (s.subrange(0, i) + s.subrange(i + 1, s.len() as int)));
}

} // verus!
