//! Peer address exchange.
use vstd::prelude::*;
use crate::assoc_map::KeyEq;
use crate::p2p::clock::unix_time_secs;
use crate::p2p::messages::{Message, PeerAddress, PeersMessage};
use crate::p2p::net::{is_valid_peer_address, spec_valid_peer_address, SocketAddress};
use crate::vec_set::VecSet;

verus! {

/// Maximum peers to send in a Peers response.
pub const MAX_PEERS_TO_SEND: usize = 1000;

/// Maximum age (in seconds) for a peer address to be considered fresh.
pub const MAX_PEER_AGE_SECS: u64 = 10800;

/// Default maximum number of addresses to store.
pub const DEFAULT_MAX_ADDRESSES: usize = 10000;

/// The addresses of a sequence of peer records, in order.
pub open spec fn addrs_of(s: Seq<PeerAddress>) -> Seq<SocketAddress> {
    s.map_values(|p: PeerAddress| p.addr)
}

/// The position of the first record with the smallest `last_seen`.
pub open spec fn oldest_index(s: Seq<PeerAddress>) -> int
    decreases s.len(),
{
    if s.len() <= 1 {
        0
    } else {
        let i = oldest_index(s.drop_last());
        if s.last().last_seen < s[i].last_seen {
            s.len() - 1
        } else {
            i
        }
    }
}

/// Whether an address last seen at `last_seen` is fresh at `now`.
pub open spec fn is_fresh(last_seen: u64, now: u64) -> bool {
    (if now >= last_seen { now - last_seen } else { 0 }) < MAX_PEER_AGE_SECS
}

/// `sorted` with `p` placed after every record seen at least as recently.
pub open spec fn insert_by_recency(sorted: Seq<PeerAddress>, p: PeerAddress) -> Seq<PeerAddress>
    decreases sorted.len(),
{
    if sorted.len() == 0 {
        seq![p]
    } else if sorted.last().last_seen >= p.last_seen {
        sorted.push(p)
    } else {
        insert_by_recency(sorted.drop_last(), p).push(sorted.last())
    }
}

/// `s` ordered by `last_seen`, most recent first; records seen at the same
/// time keep their order.
pub open spec fn by_recency(s: Seq<PeerAddress>) -> Seq<PeerAddress>
    decreases s.len(),
{
    if s.len() == 0 {
        s
    } else {
        insert_by_recency(by_recency(s.drop_last()), s.last())
    }
}

/// The records of `s` that are fresh at `now` and whose address is not in
/// `exclude`, in order.
pub open spec fn fresh_records(s: Seq<PeerAddress>, now: u64, exclude: Set<SocketAddress>) -> Seq<PeerAddress>
    decreases s.len(),
{
    if s.len() == 0 {
        s
    } else if is_fresh(s.last().last_seen, now) && !exclude.contains(s.last().addr) {
        fresh_records(s.drop_last(), now, exclude).push(s.last())
    } else {
        fresh_records(s.drop_last(), now, exclude)
    }
}

/// The first `n` records of `s`, or all of them if there are fewer.
pub open spec fn first_n(s: Seq<PeerAddress>, n: nat) -> Seq<PeerAddress> {
    if n < s.len() { s.take(n as int) } else { s }
}

/// The stored records after `add_address(addr, last_seen)`.
pub open spec fn after_add(
    known: Seq<PeerAddress>,
    max_addresses: nat,
    our_addr: Option<SocketAddress>,
    validate: bool,
    addr: SocketAddress,
    last_seen: u64,
) -> Seq<PeerAddress> {
    if validate && !spec_valid_peer_address(addr, our_addr) {
        known
    } else if addrs_of(known).contains(addr) {
        let i = addrs_of(known).index_of(addr);
        let old_seen = known[i].last_seen;
        known.update(
            i,
            PeerAddress { addr, last_seen: if old_seen >= last_seen { old_seen } else { last_seen } },
        )
    } else if known.len() < max_addresses {
        known.push(PeerAddress { addr, last_seen })
    } else if known.len() > 0 && last_seen > known[oldest_index(known)].last_seen {
        known.update(oldest_index(known), PeerAddress { addr, last_seen })
    } else {
        known
    }
}

/// The records of `addrs`, in order, each seen at `now`.
pub open spec fn seen_at(addrs: Seq<SocketAddress>, now: u64) -> Seq<PeerAddress> {
    addrs.map_values(|a: SocketAddress| PeerAddress { addr: a, last_seen: now })
}

/// The stored records after adding each of `addrs` in turn.
pub open spec fn after_add_all(
    known: Seq<PeerAddress>,
    max_addresses: nat,
    our_addr: Option<SocketAddress>,
    validate: bool,
    addrs: Seq<PeerAddress>,
) -> Seq<PeerAddress>
    decreases addrs.len(),
{
    if addrs.len() == 0 {
        known
    } else {
        let prev = after_add_all(known, max_addresses, our_addr, validate, addrs.drop_last());
        after_add(prev, max_addresses, our_addr, validate, addrs.last().addr, addrs.last().last_seen)
    }
}

/// The oldest record is no more recent than any other.
pub proof fn lemma_oldest_index(s: Seq<PeerAddress>)
    requires
        s.len() > 0,
    ensures
        0 <= oldest_index(s) < s.len(),
        forall|j: int| 0 <= j < s.len() ==> s[oldest_index(s)].last_seen <= #[trigger] s[j].last_seen,
    decreases s.len(),
{
    if s.len() > 1 {
        let d = s.drop_last();
        lemma_oldest_index(d);
        assert forall|j: int| 0 <= j < s.len() implies s[oldest_index(s)].last_seen <= #[trigger] s[j].last_seen by {
            if j < s.len() - 1 {
                assert(s[j] == d[j]);
                assert(d[oldest_index(d)] == s[oldest_index(d)]);
            }
        }
    }
}

/// Inserting by recency adds exactly one record.
pub proof fn lemma_insert_by_recency_len(sorted: Seq<PeerAddress>, p: PeerAddress)
    ensures
        insert_by_recency(sorted, p).len() == sorted.len() + 1,
    decreases sorted.len(),
{
    if sorted.len() > 0 && sorted.last().last_seen < p.last_seen {
        lemma_insert_by_recency_len(sorted.drop_last(), p);
    }
}

/// Ordering by recency keeps the number of records.
pub proof fn lemma_by_recency_len(s: Seq<PeerAddress>)
    ensures
        by_recency(s).len() == s.len(),
    decreases s.len(),
{
    if s.len() > 0 {
        lemma_by_recency_len(s.drop_last());
        lemma_insert_by_recency_len(by_recency(s.drop_last()), s.last());
    }
}

/// Places `p` into `v`, which is ordered by recency, after every record seen
/// at least as recently.
fn insert_recent(v: &mut Vec<PeerAddress>, p: PeerAddress)
    ensures
        final(v)@ == insert_by_recency(old(v)@, p),
    decreases old(v)@.len(),
{
    let n = v.len();
    if n == 0 {
        v.push(p);
        assert(final(v)@ =~= seq![p]);
        return;
    }
    let last = v[n - 1];
    if last.last_seen >= p.last_seen {
        v.push(p);
    } else {
        let ghost before = v@;
        let popped = v.pop();
        proof {
            assert(v@ =~= before.drop_last());
        }
        insert_recent(v, p);
        v.push(last);
    }
}

/// The records of `known` fresh at `now` whose address is outside
/// `exclude`, most recent first, at most `max` of them.
fn freshest(known: &Vec<PeerAddress>, exclude: &VecSet<SocketAddress>, now: u64, max: usize) -> (r: Vec<PeerAddress>)
    ensures
        r@ == first_n(by_recency(fresh_records(known@, now, exclude@)), max as nat),
{
    let mut sorted: Vec<PeerAddress> = Vec::new();
    let mut i: usize = 0;
    proof {
        assert(known@.take(0) =~= Seq::<PeerAddress>::empty());
    }
    while i < known.len()
        invariant
            0 <= i <= known@.len(),
            sorted@ == by_recency(fresh_records(known@.take(i as int), now, exclude@)),
        decreases known@.len() - i,
    {
        let p = known[i];
        proof {
            let t = known@.take(i + 1);
            assert(t.drop_last() =~= known@.take(i as int));
            assert(t.last() == p);
        }
        if now.saturating_sub(p.last_seen) < MAX_PEER_AGE_SECS && !exclude.contains(&p.addr) {
            proof {
                let f = fresh_records(known@.take(i + 1), now, exclude@);
                let f0 = fresh_records(known@.take(i as int), now, exclude@);
                assert(f == f0.push(p));
                assert(f.drop_last() =~= f0);
            }
            insert_recent(&mut sorted, p);
        }
        i += 1;
    }
    proof {
        assert(known@.take(known@.len() as int) =~= known@);
    }
    if max < sorted.len() {
        sorted.truncate(max);
    }
    sorted
}

/// Peer address manager for exchange.
///
/// Each address is stored once, with the latest time it was seen.
#[derive(Debug)]
pub struct PeerExchange {
    /// Known peer addresses with last seen times.
    known_peers: Vec<PeerAddress>,
    /// Set of addresses for quick lookup.
    address_set: VecSet<SocketAddress>,
    /// Maximum number of addresses to store.
    max_addresses: usize,
    /// Our own address (to avoid adding it).
    our_addr: Option<SocketAddress>,
    /// Whether to validate addresses (disable for testing).
    validate_addresses: bool,
}

impl Default for PeerExchange {
    fn default() -> (r: Self)
        ensures
            r.wf(),
            r.known() == Seq::<PeerAddress>::empty(),
            r.max_addresses() == DEFAULT_MAX_ADDRESSES,
            r.our_addr() is None,
            r.validates(),
    {
        PeerExchange::new()
    }
}

impl PeerExchange {
    /// The stored records, in storage order.
    pub closed spec fn known(&self) -> Seq<PeerAddress> {
        self.known_peers@
    }

    /// The storage limit.
    pub closed spec fn max_addresses(&self) -> nat {
        self.max_addresses as nat
    }

    /// Our own address, never stored while validating.
    pub closed spec fn our_addr(&self) -> Option<SocketAddress> {
        self.our_addr
    }

    /// Whether addresses are validated before being stored.
    pub closed spec fn validates(&self) -> bool {
        self.validate_addresses
    }

    /// Each address is stored once, and the lookup set holds exactly the
    /// stored addresses.
    pub closed spec fn wf(&self) -> bool {
        &&& self.address_set.wf()
        &&& addrs_of(self.known_peers@).no_duplicates()
        &&& self.address_set@ == addrs_of(self.known_peers@).to_set()
    }

    /// In a well-formed exchange every known address is stored once.
    pub proof fn lemma_addresses_distinct(&self)
        requires
            self.wf(),
        ensures
            addrs_of(self.known()).no_duplicates(),
    {
    }

    /// Create a new peer exchange manager.
    pub fn new() -> (r: Self)
        ensures
            r.wf(),
            r.known() == Seq::<PeerAddress>::empty(),
            r.max_addresses() == DEFAULT_MAX_ADDRESSES,
            r.our_addr() is None,
            r.validates(),
    {
        PeerExchange::with_max_addresses(DEFAULT_MAX_ADDRESSES)
    }

    /// Create with custom max addresses.
    pub fn with_max_addresses(max: usize) -> (r: Self)
        ensures
            r.wf(),
            r.known() == Seq::<PeerAddress>::empty(),
            r.max_addresses() == max,
            r.our_addr() is None,
            r.validates(),
    {
        let r = PeerExchange {
            known_peers: Vec::new(),
            address_set: VecSet::new(),
            max_addresses: max,
            our_addr: None,
            validate_addresses: true,
        };
        assert(addrs_of(r.known_peers@).to_set() =~= Set::<SocketAddress>::empty());
        r
    }

    /// Set our own address (to avoid adding it to the pool).
    pub fn set_our_addr(&mut self, addr: SocketAddress)
        ensures
            final(self).our_addr() == Some(addr),
            final(self).known() == old(self).known(),
            final(self).wf() == old(self).wf(),
            final(self).max_addresses() == old(self).max_addresses(),
            final(self).validates() == old(self).validates(),
    {
        self.our_addr = Some(addr);
    }

    /// Disable address validation (for testing).
    pub fn disable_validation(&mut self)
        ensures
            !final(self).validates(),
            final(self).known() == old(self).known(),
            final(self).wf() == old(self).wf(),
            final(self).max_addresses() == old(self).max_addresses(),
            final(self).our_addr() == old(self).our_addr(),
    {
        self.validate_addresses = false;
    }

    /// Position of the record for `addr`, if stored.
    fn find(&self, addr: &SocketAddress) -> (r: Option<usize>)
        requires
            self.wf(),
        ensures
            match r {
                Some(i) => i < self.known_peers@.len() && self.known_peers@[i as int].addr == *addr
                    && addrs_of(self.known_peers@).index_of(*addr) == i,
                None => !addrs_of(self.known_peers@).contains(*addr),
            },
    {
        let mut i: usize = 0;
        while i < self.known_peers.len()
            invariant
                0 <= i <= self.known_peers@.len(),
                addrs_of(self.known_peers@).no_duplicates(),
                forall|j: int| 0 <= j < i ==> self.known_peers@[j].addr != *addr,
            decreases self.known_peers@.len() - i,
        {
            if self.known_peers[i].addr.key_eq(addr) {
                proof {
                    let a = addrs_of(self.known_peers@);
                    assert(a[i as int] == *addr);
                    let k = a.index_of(*addr);
                    assert(0 <= k < a.len() && a[k] == *addr);
                    if k != i {
                        assert(a[k] != a[i as int]);
                    }
                }
                return Some(i);
            }
            i += 1;
        }
        proof {
            let a = addrs_of(self.known_peers@);
            if a.contains(*addr) {
                let k = choose|k: int| 0 <= k < a.len() && a[k] == *addr;
                assert(self.known_peers@[k].addr == *addr);
            }
        }
        None
    }

    /// Position of the first record with the smallest `last_seen`.
    fn oldest(&self) -> (r: usize)
        requires
            self.known_peers@.len() > 0,
        ensures
            r == oldest_index(self.known_peers@),
            r < self.known_peers@.len(),
    {
        proof {
            lemma_oldest_index(self.known_peers@);
        }
        let mut best: usize = 0;
        let mut i: usize = 1;
        proof {
            assert(self.known_peers@.take(1).len() <= 1);
        }
        while i < self.known_peers.len()
            invariant
                1 <= i <= self.known_peers@.len(),
                best as int == oldest_index(self.known_peers@.take(i as int)),
            decreases self.known_peers@.len() - i,
        {
            proof {
                let t = self.known_peers@.take(i + 1);
                assert(t.drop_last() =~= self.known_peers@.take(i as int));
                lemma_oldest_index(self.known_peers@.take(i as int));
                assert(t[best as int] == self.known_peers@[best as int]);
            }
            if self.known_peers[i].last_seen < self.known_peers[best].last_seen {
                best = i;
            }
            i += 1;
        }
        assert(self.known_peers@.take(self.known_peers@.len() as int) =~= self.known_peers@);
        best
    }

    /// Add or update a peer address: a known address keeps its latest time;
    /// a new one is stored while there is room, and otherwise replaces the
    /// oldest record if it is more recent than it.
    pub fn add_address(&mut self, addr: SocketAddress, last_seen: u64)
        requires
            old(self).wf(),
        ensures
            final(self).wf(),
            final(self).known() == after_add(
                old(self).known(),
                old(self).max_addresses(),
                old(self).our_addr(),
                old(self).validates(),
                addr,
                last_seen,
            ),
            old(self).known().len() <= old(self).max_addresses() ==> final(self).known().len()
                <= final(self).max_addresses(),
            final(self).known().len() >= old(self).known().len(),
            final(self).max_addresses() == old(self).max_addresses(),
            final(self).our_addr() == old(self).our_addr(),
            final(self).validates() == old(self).validates(),
    {
        if self.validate_addresses {
            let our = match &self.our_addr {
                Some(a) => Some(a),
                None => None,
            };
            if !is_valid_peer_address(&addr, our) {
                return;
            }
        }
        let ghost before = self.known_peers@;
        if self.address_set.contains(&addr) {
            match self.find(&addr) {
                Some(i) => {
                    let old_seen = self.known_peers[i].last_seen;
                    let newest = if old_seen >= last_seen { old_seen } else { last_seen };
                    self.known_peers.set(i, PeerAddress { addr, last_seen: newest });
                    proof {
                        assert(addrs_of(self.known_peers@) =~= addrs_of(before));
                    }
                },
                None => {
                    assert(addrs_of(before).to_set().contains(addr));
                },
            }
        } else if self.known_peers.len() < self.max_addresses {
            proof {
                assert(!addrs_of(before).contains(addr));
            }
            self.known_peers.push(PeerAddress { addr, last_seen });
            self.address_set.insert(addr);
            proof {
                let a = addrs_of(self.known_peers@);
                assert(a =~= addrs_of(before).push(addr));
                assert forall|x: int, y: int| 0 <= x < a.len() && 0 <= y < a.len() && x != y implies a[x]
                    != a[y] by {
                    if x == before.len() {
                        assert(addrs_of(before)[y] != addr);
                    } else if y == before.len() {
                        assert(addrs_of(before)[x] != addr);
                    }
                }
                assert forall|x: SocketAddress| a.contains(x) <==> (addrs_of(before).contains(x) || x == addr) by {
                    let a0 = addrs_of(before);
                    if a.contains(x) {
                        let k = choose|k: int| 0 <= k < a.len() && a[k] == x;
                        if k < a0.len() {
                            assert(a0[k] == x);
                        }
                    }
                    if a0.contains(x) {
                        let k = choose|k: int| 0 <= k < a0.len() && a0[k] == x;
                        assert(a[k] == x);
                    }
                    if x == addr {
                        assert(a[a0.len() as int] == x);
                    }
                }
                assert(a.to_set() =~= addrs_of(before).to_set().insert(addr));
            }
        } else if self.known_peers.len() > 0 {
            let idx = self.oldest();
            let oldest = self.known_peers[idx];
            if last_seen > oldest.last_seen {
                self.address_set.remove(&oldest.addr);
                self.known_peers.set(idx, PeerAddress { addr, last_seen });
                self.address_set.insert(addr);
                proof {
                    let a0 = addrs_of(before);
                    let a = addrs_of(self.known_peers@);
                    assert(!a0.contains(addr));
                    assert(a =~= a0.update(idx as int, addr));
                    assert forall|x: int, y: int| 0 <= x < a.len() && 0 <= y < a.len() && x != y implies a[x]
                        != a[y] by {
                        if x == idx {
                            assert(a0[y] != addr);
                        } else if y == idx {
                            assert(a0[x] != addr);
                        } else {
                            assert(a0[x] != a0[y]);
                        }
                    }
                    assert forall|s: SocketAddress| a.to_set().contains(s) <==> a0.to_set().remove(
                        oldest.addr,
                    ).insert(addr).contains(s) by {
                        if a.contains(s) && s != addr {
                            let k = choose|k: int| 0 <= k < a.len() && a[k] == s;
                            assert(k != idx);
                            assert(a0[k] == s);
                            assert(s != oldest.addr) by {
                                assert(a0[idx as int] == oldest.addr);
                            }
                        }
                        if a0.contains(s) && s != oldest.addr {
                            let k = choose|k: int| 0 <= k < a0.len() && a0[k] == s;
                            assert(k != idx);
                            assert(a[k] == s);
                        }
                        if s == addr {
                            assert(a[idx as int] == addr);
                        }
                    }
                    assert(a.to_set() =~= a0.to_set().remove(oldest.addr).insert(addr));
                }
            }
        }
    }

    /// Add multiple addresses, in order.
    pub fn add_addresses(&mut self, addresses: Vec<PeerAddress>)
        requires
            old(self).wf(),
        ensures
            final(self).wf(),
            final(self).known() == after_add_all(
                old(self).known(),
                old(self).max_addresses(),
                old(self).our_addr(),
                old(self).validates(),
                addresses@,
            ),
            final(self).max_addresses() == old(self).max_addresses(),
            final(self).our_addr() == old(self).our_addr(),
            final(self).validates() == old(self).validates(),
    {
        let mut i: usize = 0;
        proof {
            assert(addresses@.take(0) =~= Seq::<PeerAddress>::empty());
        }
        while i < addresses.len()
            invariant
                0 <= i <= addresses@.len(),
                self.wf(),
                self.known() == after_add_all(
                    old(self).known(),
                    old(self).max_addresses(),
                    old(self).our_addr(),
                    old(self).validates(),
                    addresses@.take(i as int),
                ),
                self.max_addresses() == old(self).max_addresses(),
                self.our_addr() == old(self).our_addr(),
                self.validates() == old(self).validates(),
            decreases addresses@.len() - i,
        {
            let p = addresses[i];
            proof {
                let t = addresses@.take(i + 1);
                assert(t.drop_last() =~= addresses@.take(i as int));
                assert(t.last() == p);
            }
            self.add_address(p.addr, p.last_seen);
            i += 1;
        }
        proof {
            assert(addresses@.take(addresses@.len() as int) =~= addresses@);
        }
    }

    /// Mark an address as seen now.
    pub fn mark_seen(&mut self, addr: SocketAddress)
        requires
            old(self).wf(),
        ensures
            final(self).wf(),
            exists|now: u64|
                final(self).known() == after_add(
                    old(self).known(),
                    old(self).max_addresses(),
                    old(self).our_addr(),
                    old(self).validates(),
                    addr,
                    now,
                ),
            final(self).max_addresses() == old(self).max_addresses(),
            final(self).our_addr() == old(self).our_addr(),
            final(self).validates() == old(self).validates(),
    {
        let now = unix_time_secs();
        self.add_address(addr, now);
    }

    /// Get the addresses fresh at `now` to send to a peer, most recent
    /// first, at most `max` (and at most `MAX_PEERS_TO_SEND`) of them.
    pub fn get_addresses_for_peer_at(&self, max: usize, now: u64) -> (r: Vec<PeerAddress>)
        ensures
            r@ == first_n(
                by_recency(fresh_records(self.known(), now, Set::<SocketAddress>::empty())),
                (if max < MAX_PEERS_TO_SEND { max } else { MAX_PEERS_TO_SEND }) as nat,
            ),
    {
        let limit = if max < MAX_PEERS_TO_SEND { max } else { MAX_PEERS_TO_SEND };
        let none: VecSet<SocketAddress> = VecSet::new();
        freshest(&self.known_peers, &none, now, limit)
    }

    /// Get fresh addresses to send to a peer, by the current time.
    pub fn get_addresses_for_peer(&self, max: usize) -> (r: Vec<PeerAddress>)
        ensures
            exists|now: u64|
                r@ == first_n(
                    by_recency(fresh_records(self.known(), now, Set::<SocketAddress>::empty())),
                    (if max < MAX_PEERS_TO_SEND { max } else { MAX_PEERS_TO_SEND }) as nat,
                ),
    {
        let now = unix_time_secs();
        self.get_addresses_for_peer_at(max, now)
    }

    /// Get the addresses fresh at `now` and not in `exclude`, for
    /// connection attempts, most recent first, at most `max` of them.
    pub fn get_addresses_to_try_at(&self, exclude: &VecSet<SocketAddress>, max: usize, now: u64) -> (r: Vec<SocketAddress>)
        ensures
            r@ == addrs_of(first_n(by_recency(fresh_records(self.known(), now, exclude@)), max as nat)),
    {
        let chosen = freshest(&self.known_peers, exclude, now, max);
        let mut out: Vec<SocketAddress> = Vec::new();
        let mut i: usize = 0;
        while i < chosen.len()
            invariant
                0 <= i <= chosen@.len(),
                out@ == addrs_of(chosen@.take(i as int)),
            decreases chosen@.len() - i,
        {
            out.push(chosen[i].addr);
            i += 1;
            assert(out@ =~= addrs_of(chosen@.take(i as int)));
        }
        assert(chosen@.take(chosen@.len() as int) =~= chosen@);
        out
    }

    /// Get addresses for connection attempts, by the current time.
    pub fn get_addresses_to_try(&self, exclude: &VecSet<SocketAddress>, max: usize) -> (r: Vec<SocketAddress>)
        ensures
            exists|now: u64|
                r@ == addrs_of(
                    first_n(by_recency(fresh_records(self.known(), now, exclude@)), max as nat),
                ),
    {
        let now = unix_time_secs();
        self.get_addresses_to_try_at(exclude, max, now)
    }

    /// Create a GetPeers message.
    pub fn create_get_peers() -> (r: Message)
        ensures
            r == Message::GetPeers,
    {
        Message::GetPeers
    }

    /// Create a Peers response with the addresses fresh at `now`.
    pub fn create_peers_response_at(&self, now: u64) -> (r: Message)
        ensures
            r matches Message::Peers(m) && m.peers@ == first_n(
                by_recency(fresh_records(self.known(), now, Set::<SocketAddress>::empty())),
                MAX_PEERS_TO_SEND as nat,
            ),
    {
        let peers = self.get_addresses_for_peer_at(MAX_PEERS_TO_SEND, now);
        Message::Peers(PeersMessage { peers })
    }

    /// Create a Peers response, by the current time.
    pub fn create_peers_response(&self) -> (r: Message)
        ensures
            exists|now: u64|
                r matches Message::Peers(m) && m.peers@ == first_n(
                    by_recency(#[trigger] fresh_records(self.known(), now, Set::<SocketAddress>::empty())),
                    MAX_PEERS_TO_SEND as nat,
                ),
    {
        let now = unix_time_secs();
        self.create_peers_response_at(now)
    }

    /// Process a received Peers message.
    pub fn process_peers(&mut self, peers: &PeersMessage)
        requires
            old(self).wf(),
        ensures
            final(self).wf(),
            final(self).known() == after_add_all(
                old(self).known(),
                old(self).max_addresses(),
                old(self).our_addr(),
                old(self).validates(),
                peers.peers@,
            ),
    {
        let mut copy: Vec<PeerAddress> = Vec::new();
        let mut i: usize = 0;
        while i < peers.peers.len()
            invariant
                0 <= i <= peers.peers@.len(),
                copy@ == peers.peers@.take(i as int),
            decreases peers.peers@.len() - i,
        {
            copy.push(peers.peers[i]);
            i += 1;
            assert(copy@ =~= peers.peers@.take(i as int));
        }
        assert(peers.peers@.take(peers.peers@.len() as int) =~= peers.peers@);
        self.add_addresses(copy);
    }

    /// Get the number of known addresses.
    pub fn len(&self) -> (r: usize)
        ensures
            r == self.known().len(),
    {
        self.known_peers.len()
    }

    /// Check if empty.
    pub fn is_empty(&self) -> (r: bool)
        ensures
            r == (self.known().len() == 0),
    {
        self.known_peers.len() == 0
    }

    /// Check if an address is known.
    pub fn contains(&self, addr: &SocketAddress) -> (r: bool)
        requires
            self.wf(),
        ensures
            r == addrs_of(self.known()).contains(*addr),
    {
        self.address_set.contains(addr)
    }

    /// Remove an address; the result says whether it was known.
    pub fn remove(&mut self, addr: &SocketAddress) -> (r: bool)
        requires
            old(self).wf(),
        ensures
            final(self).wf(),
            r == addrs_of(old(self).known()).contains(*addr),
            r ==> final(self).known() == old(self).known().remove(
                addrs_of(old(self).known()).index_of(*addr),
            ),
            !r ==> final(self).known() == old(self).known(),
            final(self).max_addresses() == old(self).max_addresses(),
            final(self).our_addr() == old(self).our_addr(),
            final(self).validates() == old(self).validates(),
    {
        match self.find(addr) {
            Some(i) => {
                assert(addrs_of(self.known_peers@)[i as int] == *addr);
                self.address_set.remove(addr);
                let ghost before = self.known_peers@;
                self.known_peers.remove(i);
                proof {
                    let a0 = addrs_of(before);
                    let a = addrs_of(self.known_peers@);
                    assert(a =~= a0.remove(i as int));
                    assert forall|x: int, y: int| 0 <= x < a.len() && 0 <= y < a.len() && x != y implies a[x]
                        != a[y] by {
                        let x0 = if x < i { x } else { x + 1 };
                        let y0 = if y < i { y } else { y + 1 };
                        assert(a[x] == a0[x0] && a[y] == a0[y0]);
                    }
                    assert forall|s: SocketAddress| a.contains(s) <==> (a0.contains(s) && s != *addr) by {
                        if a.contains(s) {
                            let k = choose|k: int| 0 <= k < a.len() && a[k] == s;
                            let k0 = if k < i { k } else { k + 1 };
                            assert(a0[k0] == s);
                            assert(k0 != i);
                        }
                        if a0.contains(s) && s != *addr {
                            let k = choose|k: int| 0 <= k < a0.len() && a0[k] == s;
                            assert(k != i);
                            if k < i {
                                assert(a[k] == s);
                            } else {
                                assert(a[k - 1] == s);
                            }
                        }
                    }
                    assert(a.to_set() =~= a0.to_set().remove(*addr));
                }
                true
            },
            None => false,
        }
    }

    /// Clear all addresses.
    pub fn clear(&mut self)
        requires
            old(self).wf(),
        ensures
            final(self).wf(),
            final(self).known() == Seq::<PeerAddress>::empty(),
            final(self).max_addresses() == old(self).max_addresses(),
            final(self).our_addr() == old(self).our_addr(),
            final(self).validates() == old(self).validates(),
    {
        self.known_peers.clear();
        self.address_set.clear();
        assert(addrs_of(self.known_peers@).to_set() =~= Set::<SocketAddress>::empty());
    }

    /// Get all known addresses.
    pub fn all_addresses(&self) -> (r: &[PeerAddress])
        ensures
            r@ == self.known(),
    {
        self.known_peers.as_slice()
    }
}

} // verus!
