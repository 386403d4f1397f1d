//! The bounded session-resumption cache.
//!
//! A compiled connector shares one cache across every connection it makes.
//! The cache maps a destination (host bytes and port) to the resumption
//! ticket obtained on the last full handshake to that destination, holds at
//! most [`SESSION_CACHE_CAPACITY`] entries, and evicts the least-recently-used
//! entry on overflow.  Both a successful lookup and a store count as a use.
//! When the owning profile does not participate in session resumption
//! (`pre_shared_key` off), a store leaves the cache untouched.
//!
//! Each operation is one short critical section over the whole cache and
//! never suspends, so an embedding that shares the cache across
//! concurrent connection attempts serializes only these operations, never
//! a handshake; a stale ticket read under that discipline costs at most a
//! full handshake, never corrupts the cache.

use vstd::prelude::*;

verus! {

/// Bound on the number of destinations the cache remembers.
pub const SESSION_CACHE_CAPACITY: usize = 8;

/// The identity of a peer: host bytes (a DNS name or address in ASCII) and
/// port.
pub struct Destination {
    pub host: Vec<u8>,
    pub port: u16,
}

impl View for Destination {
    type V = (Seq<u8>, u16);

    open spec fn view(&self) -> (Seq<u8>, u16) {
        (self.host@, self.port)
    }
}

impl Destination {
    pub fn new(host: Vec<u8>, port: u16) -> (d: Destination)
        ensures
            d@ == (host@, port),
    {
        Destination { host, port }
    }

    /// Whether two destinations name the same peer.
    pub fn same_peer(&self, other: &Destination) -> (r: bool)
        ensures
            r == (self@ == other@),
    {
        if self.port != other.port {
            return false;
        }
        if self.host.len() != other.host.len() {
            assert(self@ != other@);
            return false;
        }
        let n = self.host.len();
        let mut i: usize = 0;
        while i < n
            invariant
                n == self.host.len() == other.host.len(),
                self.port == other.port,
                i <= n,
                forall|k: int| 0 <= k < i ==> self.host@[k] == other.host@[k],
            decreases n - i,
        {
            if self.host[i] != other.host[i] {
                assert(self.host@ != other.host@);
                return false;
            }
            i += 1;
        }
        assert(self.host@ =~= other.host@);
        true
    }
}

/// One remembered resumption ticket.
struct SessionEntry {
    dest: Destination,
    ticket: Vec<u8>,
}

impl View for SessionEntry {
    type V = ((Seq<u8>, u16), Seq<u8>);

    closed spec fn view(&self) -> ((Seq<u8>, u16), Seq<u8>) {
        (self.dest@, self.ticket@)
    }
}

/// Is some entry of `m` keyed by destination `d`?
pub open spec fn has_dest(m: Seq<((Seq<u8>, u16), Seq<u8>)>, d: (Seq<u8>, u16)) -> bool {
    exists|i: int| 0 <= i < m.len() && m[i].0 == d
}

/// The index of the entry keyed by `d`; meaningful only when `has_dest`
/// holds and keys are unique.
pub open spec fn dest_index(m: Seq<((Seq<u8>, u16), Seq<u8>)>, d: (Seq<u8>, u16)) -> int {
    choose|i: int| 0 <= i < m.len() && m[i].0 == d
}

/// The ticket a lookup of `d` returns, if any.
pub open spec fn lookup_model(m: Seq<((Seq<u8>, u16), Seq<u8>)>, d: (Seq<u8>, u16)) -> Option<
    Seq<u8>,
> {
    if has_dest(m, d) {
        Some(m[dest_index(m, d)].1)
    } else {
        None
    }
}

/// Mark entry `i` as most recently used: move it to the front.
pub open spec fn touch_model(m: Seq<((Seq<u8>, u16), Seq<u8>)>, i: int) -> Seq<
    ((Seq<u8>, u16), Seq<u8>),
> {
    seq![m[i]] + m.remove(i)
}

/// A store of ticket `t` for destination `d`: drop any entry already keyed
/// by `d`, put the new entry in front, and keep only the capacity many
/// most-recently-used entries.
pub open spec fn store_model(
    m: Seq<((Seq<u8>, u16), Seq<u8>)>,
    d: (Seq<u8>, u16),
    t: Seq<u8>,
) -> Seq<((Seq<u8>, u16), Seq<u8>)> {
    let without = if has_dest(m, d) {
        m.remove(dest_index(m, d))
    } else {
        m
    };
    let fresh = seq![(d, t)] + without;
    if fresh.len() > SESSION_CACHE_CAPACITY {
        fresh.subrange(0, SESSION_CACHE_CAPACITY as int)
    } else {
        fresh
    }
}

/// The bounded, least-recently-used session store shared by every
/// connection of one compiled connector.  Entry 0 is the most recently
/// used; the last entry is the one an overflowing store evicts.
pub struct SessionCache {
    entries: Vec<SessionEntry>,
    psk_enabled: bool,
    skip_ticket: bool,
}

impl View for SessionCache {
    type V = Seq<((Seq<u8>, u16), Seq<u8>)>;

    closed spec fn view(&self) -> Seq<((Seq<u8>, u16), Seq<u8>)> {
        self.entries@.map_values(|e: SessionEntry| e@)
    }
}

impl SessionCache {
    /// Whether the owning profile participates in resumption at all.
    pub closed spec fn resumption_enabled(&self) -> bool {
        self.psk_enabled
    }

    /// Whether a resumed handshake skips the session ticket.
    pub closed spec fn skips_ticket(&self) -> bool {
        self.skip_ticket
    }

    /// Within capacity, and no destination appears twice.
    pub open spec fn wf(&self) -> bool {
        &&& self@.len() <= SESSION_CACHE_CAPACITY
        &&& forall|i: int, j: int|
            0 <= i < j < self@.len() ==> #[trigger] self@[i].0 != #[trigger] self@[j].0
    }

    /// An empty cache for one compiled connector.
    pub fn new(psk_enabled: bool, skip_ticket: bool) -> (c: SessionCache)
        ensures
            c@ == Seq::<((Seq<u8>, u16), Seq<u8>)>::empty(),
            c.wf(),
            c.resumption_enabled() == psk_enabled,
            c.skips_ticket() == skip_ticket,
    {
        let c = SessionCache { entries: Vec::new(), psk_enabled, skip_ticket };
        proof {
            assert(c@ =~= Seq::<((Seq<u8>, u16), Seq<u8>)>::empty());
        }
        c
    }

    /// The index of the entry for `d`, if one exists.
    fn find(&self, d: &Destination) -> (r: Option<usize>)
        requires
            self.wf(),
        ensures
            match r {
                Some(i) => i < self@.len() && self@[i as int].0 == d@ && i as int == dest_index(
                    self@,
                    d@,
                ) && has_dest(self@, d@),
                None => !has_dest(self@, d@),
            },
    {
        let n = self.entries.len();
        let mut i: usize = 0;
        while i < n
            invariant
                self.wf(),
                n == self.entries.len(),
                i <= n,
                self@.len() == n,
                forall|k: int| 0 <= k < i ==> self@[k].0 != d@,
            decreases n - i,
        {
            assert(self@[i as int] == self.entries@.map_values(|e: SessionEntry| e@)[i as int]);
            if self.entries[i].dest.same_peer(d) {
                proof {
                    assert(self@[i as int].0 == d@);
                    let j = dest_index(self@, d@);
                    assert(0 <= j < self@.len() && self@[j].0 == d@);
                    if j != i as int {
                        assert(self@[j].0 != self@[i as int].0);
                    }
                }
                return Some(i);
            }
            i += 1;
        }
        None
    }

    /// Look a destination up, and mark it as most recently used when found.
    pub fn lookup(&mut self, d: &Destination) -> (r: Option<Vec<u8>>)
        requires
            old(self).wf(),
        ensures
            final(self).wf(),
            final(self).resumption_enabled() == old(self).resumption_enabled(),
            final(self).skips_ticket() == old(self).skips_ticket(),
            match r {
                Some(t) => {
                    &&& has_dest(old(self)@, d@)
                    &&& lookup_model(old(self)@, d@) == Some(t@)
                    &&& final(self)@ == touch_model(old(self)@, dest_index(old(self)@, d@))
                },
                None => !has_dest(old(self)@, d@) && final(self)@ == old(self)@,
            },
    {
        match self.find(d) {
            None => None,
            Some(i) => {
                let ghost pre = self@;
                let entry = self.entries.remove(i);
                let ticket = entry.ticket.clone();
                proof {
                    assert(ticket@ =~= entry.ticket@);
                }
                self.entries.insert(0, entry);
                proof {
                    assert(self@ =~= touch_model(pre, i as int));
                    lemma_touch_wf(pre, i as int);
                }
                Some(ticket)
            },
        }
    }

    /// Remember a resumption ticket for a destination.  A profile outside
    /// the resumption scheme stores nothing, so no lookup result changes.
    pub fn store(&mut self, dest: Destination, ticket: Vec<u8>)
        requires
            old(self).wf(),
        ensures
            final(self).wf(),
            final(self).resumption_enabled() == old(self).resumption_enabled(),
            final(self).skips_ticket() == old(self).skips_ticket(),
            !old(self).resumption_enabled() ==> final(self)@ == old(self)@,
            old(self).resumption_enabled() ==> final(self)@ == store_model(old(self)@, dest@, ticket@),
    {
        if !self.psk_enabled {
            return;
        }
        let ghost pre = self@;
        match self.find(&dest) {
            Some(i) => {
                let _stale = self.entries.remove(i);
            },
            None => {},
        }
        let ghost without = self@;
        proof {
            assert(without == if has_dest(pre, dest@) {
                pre.remove(dest_index(pre, dest@))
            } else {
                pre
            }) by {
                if has_dest(pre, dest@) {
                    assert(self.entries@.map_values(|e: SessionEntry| e@) =~= pre.remove(
                        dest_index(pre, dest@),
                    ));
                }
            };
            lemma_remove_keeps_unique(pre, dest@);
        }
        self.entries.insert(0, SessionEntry { dest, ticket });
        proof {
            assert(self@ =~= seq![(dest@, ticket@)] + without);
        }
        if self.entries.len() > SESSION_CACHE_CAPACITY {
            self.entries.truncate(SESSION_CACHE_CAPACITY);
            proof {
                assert(self@ =~= (seq![(dest@, ticket@)] + without).subrange(
                    0,
                    SESSION_CACHE_CAPACITY as int,
                ));
            }
        }
        proof {
            assert(self@ == store_model(pre, dest@, ticket@));
            lemma_store_wf(pre, dest@, ticket@);
        }
    }
}

/// Moving an entry to the front keeps the keys unique and the length
/// unchanged.
proof fn lemma_touch_wf(m: Seq<((Seq<u8>, u16), Seq<u8>)>, i: int)
    requires
        0 <= i < m.len(),
        forall|p: int, q: int| 0 <= p < q < m.len() ==> #[trigger] m[p].0 != #[trigger] m[q].0,
    ensures
        touch_model(m, i).len() == m.len(),
        forall|p: int, q: int|
            0 <= p < q < touch_model(m, i).len() ==> #[trigger] touch_model(m, i)[p].0
                != #[trigger] touch_model(m, i)[q].0,
{
    let t = touch_model(m, i);
    assert forall|p: int, q: int| 0 <= p < q < t.len() implies #[trigger] t[p].0
        != #[trigger] t[q].0 by {
        let op = if p == 0 {
            i
        } else if p <= i {
            p - 1
        } else {
            p
        };
        let oq = if q <= i {
            q - 1
        } else {
            q
        };
        assert(t[p] == m[op]);
        assert(t[q] == m[oq]);
    }
}

/// Removing the entry keyed `d` (when there is one) keeps the remaining
/// keys unique.
proof fn lemma_remove_keeps_unique(m: Seq<((Seq<u8>, u16), Seq<u8>)>, d: (Seq<u8>, u16))
    requires
        forall|p: int, q: int| 0 <= p < q < m.len() ==> #[trigger] m[p].0 != #[trigger] m[q].0,
    ensures
        ({
            let w = if has_dest(m, d) {
                m.remove(dest_index(m, d))
            } else {
                m
            };
            &&& w.len() <= m.len()
            &&& !has_dest(w, d)
            &&& forall|p: int, q: int|
                0 <= p < q < w.len() ==> #[trigger] w[p].0 != #[trigger] w[q].0
        }),
{
    if has_dest(m, d) {
        let i = dest_index(m, d);
        assert(0 <= i < m.len() && m[i].0 == d);
        let w = m.remove(i);
        assert forall|p: int, q: int| 0 <= p < q < w.len() implies #[trigger] w[p].0
            != #[trigger] w[q].0 by {
            let op = if p < i {
                p
            } else {
                p + 1
            };
            let oq = if q < i {
                q
            } else {
                q + 1
            };
            assert(w[p] == m[op]);
            assert(w[q] == m[oq]);
        }
        assert(!has_dest(w, d)) by {
            if has_dest(w, d) {
                let k = choose|k: int| 0 <= k < w.len() && w[k].0 == d;
                let ok = if k < i {
                    k
                } else {
                    k + 1
                };
                assert(w[k] == m[ok]);
                assert(m[ok].0 == d && ok != i);
            }
        }
    } else {
        assert(!has_dest(m, d));
    }
}

/// A store leaves at most the capacity many entries and unique keys.
proof fn lemma_store_wf(m: Seq<((Seq<u8>, u16), Seq<u8>)>, d: (Seq<u8>, u16), t: Seq<u8>)
    requires
        m.len() <= SESSION_CACHE_CAPACITY,
        forall|p: int, q: int| 0 <= p < q < m.len() ==> #[trigger] m[p].0 != #[trigger] m[q].0,
    ensures
        store_model(m, d, t).len() <= SESSION_CACHE_CAPACITY,
        forall|p: int, q: int|
            0 <= p < q < store_model(m, d, t).len() ==> #[trigger] store_model(m, d, t)[p].0
                != #[trigger] store_model(m, d, t)[q].0,
{
    lemma_remove_keeps_unique(m, d);
    let without = if has_dest(m, d) {
        m.remove(dest_index(m, d))
    } else {
        m
    };
    let fresh = seq![(d, t)] + without;
    assert forall|p: int, q: int| 0 <= p < q < fresh.len() implies #[trigger] fresh[p].0
        != #[trigger] fresh[q].0 by {
        if p == 0 {
            assert(fresh[q] == without[q - 1]);
            assert(!has_dest(without, d));
            if without[q - 1].0 == d {
                assert(has_dest(without, d));
            }
        } else {
            assert(fresh[p] == without[p - 1]);
            assert(fresh[q] == without[q - 1]);
        }
    }
    let s = store_model(m, d, t);
    assert(s.len() <= fresh.len());
    assert forall|p: int, q: int| 0 <= p < q < s.len() implies #[trigger] s[p].0
        != #[trigger] s[q].0 by {
        assert(s[p] == fresh[p]);
        assert(s[q] == fresh[q]);
    }
}

/// Law: a ticket just stored for a destination is what the next lookup
/// of that destination returns — this is what lets the second of two
/// sequential connections to one destination resume instead of performing
/// a full handshake.
pub proof fn lemma_store_then_lookup(
    m: Seq<((Seq<u8>, u16), Seq<u8>)>,
    d: (Seq<u8>, u16),
    t: Seq<u8>,
)
    requires
        m.len() <= SESSION_CACHE_CAPACITY,
        forall|p: int, q: int| 0 <= p < q < m.len() ==> #[trigger] m[p].0 != #[trigger] m[q].0,
    ensures
        lookup_model(store_model(m, d, t), d) == Some(t),
{
    lemma_store_wf(m, d, t);
    let s = store_model(m, d, t);
    assert(s[0] == (d, t));
    assert(has_dest(s, d));
    let k = dest_index(s, d);
    assert(0 <= k < s.len() && s[k].0 == d);
    if k != 0 {
        assert(s[0].0 != s[k].0);
    }
}

/// Law: a store into a full cache that does not already know the
/// destination keeps the newest entry and the seven most recently used old
/// entries, and evicts exactly the least-recently-used one, whose lookup
/// afterwards finds nothing.
pub proof fn lemma_store_full_evicts_lru(
    m: Seq<((Seq<u8>, u16), Seq<u8>)>,
    d: (Seq<u8>, u16),
    t: Seq<u8>,
)
    requires
        m.len() == SESSION_CACHE_CAPACITY,
        forall|p: int, q: int| 0 <= p < q < m.len() ==> #[trigger] m[p].0 != #[trigger] m[q].0,
        !has_dest(m, d),
    ensures
        store_model(m, d, t).len() == SESSION_CACHE_CAPACITY,
        store_model(m, d, t) == (seq![(d, t)] + m).subrange(0, SESSION_CACHE_CAPACITY as int),
        store_model(m, d, t)[0] == (d, t),
        forall|k: int|
            0 <= k < SESSION_CACHE_CAPACITY - 1 ==> #[trigger] store_model(m, d, t)[k + 1] == m[k],
        lookup_model(store_model(m, d, t), m[SESSION_CACHE_CAPACITY - 1].0) is None,
{
    let s = store_model(m, d, t);
    assert(s =~= (seq![(d, t)] + m).subrange(0, SESSION_CACHE_CAPACITY as int));
    let evicted = m[SESSION_CACHE_CAPACITY - 1].0;
    assert(!has_dest(s, evicted)) by {
        if has_dest(s, evicted) {
            let k = choose|k: int| 0 <= k < s.len() && s[k].0 == evicted;
            if k == 0 {
                assert(m[SESSION_CACHE_CAPACITY - 1].0 == d);
                assert(has_dest(m, d));
            } else {
                assert(s[k] == m[k - 1]);
                assert(m[k - 1].0 == m[SESSION_CACHE_CAPACITY - 1].0);
                assert(k - 1 < SESSION_CACHE_CAPACITY - 1);
            }
        }
    }
}

} // verus!
