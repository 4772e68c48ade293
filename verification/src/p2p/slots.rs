//! Connection slot tracking.
use vstd::prelude::*;
use crate::assoc_map::{AssocMap, KeyEq};
use crate::p2p::net::SocketAddress;
use crate::p2p::peer::{ConnectionDirection, PeerId, PeerInfo};
use crate::vec_set::VecSet;

verus! {

/// Whether some peer in `s` has identifier `id`.
pub open spec fn has_peer(s: Seq<PeerInfo>, id: PeerId) -> bool {
    exists|i: int| 0 <= i < s.len() && s[i].id == id
}

/// The position of the peer with identifier `id` in `s`.
pub open spec fn peer_index(s: Seq<PeerInfo>, id: PeerId) -> int {
    choose|i: int| 0 <= i < s.len() && s[i].id == id
}

/// No identifier occurs twice in `s`.
pub open spec fn unique_ids(s: Seq<PeerInfo>) -> bool {
    forall|i: int, j: int| 0 <= i < s.len() && 0 <= j < s.len() && i != j ==> s[i].id != s[j].id
}

/// The number of peers in `s` connected in direction `d`.
pub open spec fn count_direction(s: Seq<PeerInfo>, d: ConnectionDirection) -> nat
    decreases s.len(),
{
    if s.len() == 0 {
        0
    } else {
        count_direction(s.drop_last(), d) + (if s.last().direction == d { 1nat } else { 0nat })
    }
}

/// The peers in `s` whose best height is at least `height`, by identifier.
pub open spec fn ids_at_height(s: Seq<PeerInfo>, height: u64) -> Seq<PeerId>
    decreases s.len(),
{
    if s.len() == 0 {
        Seq::empty()
    } else if s.last().best_height >= height {
        ids_at_height(s.drop_last(), height).push(s.last().id)
    } else {
        ids_at_height(s.drop_last(), height)
    }
}

/// `after` is `before` with `info` registered as a connected peer, as
/// `ConnectionSlots::add_peer` leaves it.
pub open spec fn peer_added(before: ConnectionSlots, after: ConnectionSlots, info: PeerInfo) -> bool {
    &&& after.wf()
    &&& after.connecting_set() == before.connecting_set().remove(info.addr)
    &&& after.addresses() == before.addresses().insert(info.addr, info.id)
    &&& has_peer(before.peer_seq(), info.id) ==> after.peer_seq() == before.peer_seq().update(
        peer_index(before.peer_seq(), info.id),
        info,
    )
    &&& !has_peer(before.peer_seq(), info.id) ==> after.peer_seq() == before.peer_seq().push(info)
    &&& after.outbound() == before.outbound() + (if info.direction == ConnectionDirection::Outbound {
        1nat
    } else {
        0nat
    })
    &&& after.inbound() == before.inbound() + (if info.direction == ConnectionDirection::Inbound {
        1nat
    } else {
        0nat
    })
    &&& after.max_out() == before.max_out()
    &&& after.max_in() == before.max_in()
}

/// `after` is `before` without the peer `id`, as
/// `ConnectionSlots::remove_peer` leaves it.
pub open spec fn peer_removed(before: ConnectionSlots, after: ConnectionSlots, id: PeerId) -> bool {
    &&& after.wf()
    &&& after.max_out() == before.max_out()
    &&& after.max_in() == before.max_in()
    &&& !has_peer(before.peer_seq(), id) ==> {
        &&& after.peer_seq() == before.peer_seq()
        &&& after.addresses() == before.addresses()
        &&& after.connecting_set() == before.connecting_set()
        &&& after.outbound() == before.outbound()
        &&& after.inbound() == before.inbound()
    }
    &&& has_peer(before.peer_seq(), id) ==> {
        let i = peer_index(before.peer_seq(), id);
        let info = before.peer_seq()[i];
        &&& after.peer_seq() == before.peer_seq().remove(i)
        &&& after.addresses() == before.addresses().remove(info.addr)
        &&& after.connecting_set() == before.connecting_set().remove(info.addr)
        &&& after.outbound() == (if info.direction == ConnectionDirection::Outbound && before.outbound() > 0 {
            (before.outbound() - 1) as nat
        } else {
            before.outbound()
        })
        &&& after.inbound() == (if info.direction == ConnectionDirection::Inbound && before.inbound() > 0 {
            (before.inbound() - 1) as nat
        } else {
            before.inbound()
        })
    }
}

/// Tracks connection slots and limits.
#[derive(Debug)]
pub struct ConnectionSlots {
    /// Maximum outbound connections.
    max_outbound: usize,
    /// Maximum inbound connections.
    max_inbound: usize,
    /// Current outbound connection count.
    outbound_count: usize,
    /// Current inbound connection count.
    inbound_count: usize,
    /// Connected peer IDs by address.
    by_address: AssocMap<SocketAddress, PeerId>,
    /// Connected peer info, one entry per identifier.
    peers: Vec<PeerInfo>,
    /// Addresses we're currently connecting to.
    connecting: VecSet<SocketAddress>,
}

impl ConnectionSlots {
    /// The connected peers, one per identifier.
    pub closed spec fn peer_seq(&self) -> Seq<PeerInfo> {
        self.peers@
    }

    /// Connected peer identifiers by address.
    pub closed spec fn addresses(&self) -> Map<SocketAddress, PeerId> {
        self.by_address@
    }

    /// Addresses being connected to.
    pub closed spec fn connecting_set(&self) -> Set<SocketAddress> {
        self.connecting@
    }

    /// The outbound connection counter.
    pub closed spec fn outbound(&self) -> nat {
        self.outbound_count as nat
    }

    /// The inbound connection counter.
    pub closed spec fn inbound(&self) -> nat {
        self.inbound_count as nat
    }

    /// The outbound limit.
    pub closed spec fn max_out(&self) -> nat {
        self.max_outbound as nat
    }

    /// The inbound limit.
    pub closed spec fn max_in(&self) -> nat {
        self.max_inbound as nat
    }

    /// The tables are well formed.
    pub closed spec fn wf(&self) -> bool {
        &&& self.by_address.wf()
        &&& self.connecting.wf()
        &&& unique_ids(self.peers@)
    }

    /// The counters agree with the peers held, direction by direction.
    pub open spec fn counts_match(&self) -> bool {
        &&& self.outbound() == count_direction(self.peer_seq(), ConnectionDirection::Outbound)
        &&& self.inbound() == count_direction(self.peer_seq(), ConnectionDirection::Inbound)
    }

    /// The peer at position `i` is the one found by its identifier.
    pub proof fn lemma_peer_index(&self, id: PeerId, i: int)
        requires
            self.wf(),
            0 <= i < self.peer_seq().len(),
            self.peer_seq()[i].id == id,
        ensures
            has_peer(self.peer_seq(), id),
            peer_index(self.peer_seq(), id) == i,
    {
        let s = self.peer_seq();
        let k = peer_index(s, id);
        assert(0 <= k < s.len() && s[k].id == id);
        if k != i {
            assert(s[k].id != s[i].id);
        }
    }

    /// Connected peers have distinct identifiers.
    pub proof fn lemma_unique_ids(&self)
        requires
            self.wf(),
        ensures
            unique_ids(self.peer_seq()),
    {
    }

    /// The limits and counters fit in a `usize`.
    pub proof fn lemma_bounds(&self)
        ensures
            self.max_out() <= usize::MAX,
            self.max_in() <= usize::MAX,
            self.outbound() <= usize::MAX,
            self.inbound() <= usize::MAX,
    {
    }

    /// Create a new slot tracker with the given limits.
    pub fn new(max_outbound: usize, max_inbound: usize) -> (r: Self)
        ensures
            r.wf(),
            r.counts_match(),
            r.max_out() == max_outbound,
            r.max_in() == max_inbound,
            r.outbound() == 0,
            r.inbound() == 0,
            r.peer_seq() == Seq::<PeerInfo>::empty(),
            r.addresses() == Map::<SocketAddress, PeerId>::empty(),
            r.connecting_set() == Set::<SocketAddress>::empty(),
    {
        ConnectionSlots {
            max_outbound,
            max_inbound,
            outbound_count: 0,
            inbound_count: 0,
            by_address: AssocMap::new(),
            peers: Vec::new(),
            connecting: VecSet::new(),
        }
    }

    /// Check if we can accept a new outbound connection.
    pub fn can_connect_outbound(&self) -> (r: bool)
        ensures
            r == (self.outbound() < self.max_out()),
    {
        self.outbound_count < self.max_outbound
    }

    /// Check if we can accept a new inbound connection.
    pub fn can_accept_inbound(&self) -> (r: bool)
        ensures
            r == (self.inbound() < self.max_in()),
    {
        self.inbound_count < self.max_inbound
    }

    /// Get available outbound slots.
    pub fn available_outbound(&self) -> (r: usize)
        ensures
            r == (if self.max_out() >= self.outbound() { self.max_out() - self.outbound() } else { 0 }),
    {
        self.max_outbound.saturating_sub(self.outbound_count)
    }

    /// Get available inbound slots.
    pub fn available_inbound(&self) -> (r: usize)
        ensures
            r == (if self.max_in() >= self.inbound() { self.max_in() - self.inbound() } else { 0 }),
    {
        self.max_inbound.saturating_sub(self.inbound_count)
    }

    /// Check if we're already connected to an address.
    pub fn is_connected(&self, addr: &SocketAddress) -> (r: bool)
        requires
            self.wf(),
        ensures
            r == self.addresses().contains_key(*addr),
    {
        self.by_address.contains_key(addr)
    }

    /// Check if we're currently connecting to an address.
    pub fn is_connecting(&self, addr: &SocketAddress) -> (r: bool)
        ensures
            r == self.connecting_set().contains(*addr),
    {
        self.connecting.contains(addr)
    }

    /// Check if we should connect to an address.
    pub fn should_connect(&self, addr: &SocketAddress) -> (r: bool)
        requires
            self.wf(),
        ensures
            r == (!self.addresses().contains_key(*addr) && !self.connecting_set().contains(*addr)
                && self.outbound() < self.max_out()),
    {
        !self.is_connected(addr) && !self.is_connecting(addr) && self.can_connect_outbound()
    }

    /// Mark an address as connecting.
    pub fn start_connecting(&mut self, addr: SocketAddress)
        requires
            old(self).wf(),
        ensures
            final(self).wf(),
            final(self).connecting_set() == old(self).connecting_set().insert(addr),
            final(self).peer_seq() == old(self).peer_seq(),
            final(self).addresses() == old(self).addresses(),
            final(self).outbound() == old(self).outbound(),
            final(self).inbound() == old(self).inbound(),
            final(self).max_out() == old(self).max_out(),
            final(self).max_in() == old(self).max_in(),
    {
        self.connecting.insert(addr);
    }

    /// Remove an address from the connecting set.
    pub fn stop_connecting(&mut self, addr: &SocketAddress)
        requires
            old(self).wf(),
        ensures
            final(self).wf(),
            final(self).connecting_set() == old(self).connecting_set().remove(*addr),
            final(self).peer_seq() == old(self).peer_seq(),
            final(self).addresses() == old(self).addresses(),
            final(self).outbound() == old(self).outbound(),
            final(self).inbound() == old(self).inbound(),
            final(self).max_out() == old(self).max_out(),
            final(self).max_in() == old(self).max_in(),
    {
        self.connecting.remove(addr);
    }

    /// Position of the peer with identifier `id`, if connected.
    fn find_peer(&self, id: &PeerId) -> (r: Option<usize>)
        requires
            self.wf(),
        ensures
            match r {
                Some(i) => i < self.peer_seq().len() && self.peer_seq()[i as int].id == *id
                    && peer_index(self.peer_seq(), *id) == i,
                None => !has_peer(self.peer_seq(), *id),
            },
    {
        let mut i: usize = 0;
        while i < self.peers.len()
            invariant
                0 <= i <= self.peers@.len(),
                unique_ids(self.peers@),
                forall|j: int| 0 <= j < i ==> self.peers@[j].id != *id,
            decreases self.peers@.len() - i,
        {
            if self.peers[i].id.0 == id.0 {
                proof {
                    let k = peer_index(self.peers@, *id);
                    assert(0 <= k < self.peers@.len() && self.peers@[k].id == *id);
                    if k != i {
                        assert(self.peers@[k].id != self.peers@[i as int].id);
                    }
                }
                return Some(i);
            }
            i += 1;
        }
        None
    }

    /// Add a connected peer: it replaces any peer with the same identifier,
    /// is no longer being connected to, and counts towards its direction.
    pub fn add_peer(&mut self, info: PeerInfo)
        requires
            old(self).wf(),
            info.direction == ConnectionDirection::Outbound ==> old(self).outbound() < usize::MAX,
            info.direction == ConnectionDirection::Inbound ==> old(self).inbound() < usize::MAX,
        ensures
            final(self).wf(),
            final(self).connecting_set() == old(self).connecting_set().remove(info.addr),
            final(self).addresses() == old(self).addresses().insert(info.addr, info.id),
            has_peer(old(self).peer_seq(), info.id) ==> final(self).peer_seq()
                == old(self).peer_seq().update(peer_index(old(self).peer_seq(), info.id), info),
            !has_peer(old(self).peer_seq(), info.id) ==> final(self).peer_seq()
                == old(self).peer_seq().push(info),
            final(self).outbound() == old(self).outbound() + (if info.direction
                == ConnectionDirection::Outbound { 1nat } else { 0nat }),
            final(self).inbound() == old(self).inbound() + (if info.direction
                == ConnectionDirection::Inbound { 1nat } else { 0nat }),
            final(self).max_out() == old(self).max_out(),
            final(self).max_in() == old(self).max_in(),
            old(self).counts_match() && !has_peer(old(self).peer_seq(), info.id) ==> final(self).counts_match(),
    {
        proof {
            lemma_count_push(self.peers@, info, ConnectionDirection::Outbound);
            lemma_count_push(self.peers@, info, ConnectionDirection::Inbound);
        }
        let peer_id = info.id;
        let addr = info.addr;
        self.connecting.remove(&addr);
        match info.direction {
            ConnectionDirection::Outbound => {
                self.outbound_count = self.outbound_count + 1;
            },
            ConnectionDirection::Inbound => {
                self.inbound_count = self.inbound_count + 1;
            },
        }
        self.by_address.insert(addr, peer_id);
        match self.find_peer(&peer_id) {
            Some(i) => {
                let ghost before = self.peers@;
                self.peers.set(i, info);
                proof {
                    assert forall|a: int, b: int|
                        0 <= a < self.peers@.len() && 0 <= b < self.peers@.len() && a != b implies self.peers@[a].id
                        != self.peers@[b].id by {
                        assert(before[a].id != before[b].id);
                    }
                }
            },
            None => {
                let ghost before = self.peers@;
                self.peers.push(info);
                proof {
                    assert forall|a: int, b: int|
                        0 <= a < self.peers@.len() && 0 <= b < self.peers@.len() && a != b implies self.peers@[a].id
                        != self.peers@[b].id by {
                        if a == before.len() {
                            assert(!(before[b].id == peer_id));
                        } else if b == before.len() {
                            assert(!(before[a].id == peer_id));
                        }
                    }
                }
            },
        }
    }

    /// Remove a peer, returning its info if it was connected.
    pub fn remove_peer(&mut self, peer_id: &PeerId) -> (r: Option<PeerInfo>)
        requires
            old(self).wf(),
        ensures
            final(self).wf(),
            final(self).max_out() == old(self).max_out(),
            final(self).max_in() == old(self).max_in(),
            old(self).counts_match() ==> final(self).counts_match(),
            !has_peer(old(self).peer_seq(), *peer_id) ==> {
                &&& r is None
                &&& final(self).peer_seq() == old(self).peer_seq()
                &&& final(self).addresses() == old(self).addresses()
                &&& final(self).connecting_set() == old(self).connecting_set()
                &&& final(self).outbound() == old(self).outbound()
                &&& final(self).inbound() == old(self).inbound()
            },
            has_peer(old(self).peer_seq(), *peer_id) ==> {
                let i = peer_index(old(self).peer_seq(), *peer_id);
                let info = old(self).peer_seq()[i];
                &&& r == Some(info)
                &&& final(self).peer_seq() == old(self).peer_seq().remove(i)
                &&& final(self).addresses() == old(self).addresses().remove(info.addr)
                &&& final(self).connecting_set() == old(self).connecting_set().remove(info.addr)
                &&& final(self).outbound() == (if info.direction == ConnectionDirection::Outbound
                    && old(self).outbound() > 0 {
                    (old(self).outbound() - 1) as nat
                } else {
                    old(self).outbound()
                })
                &&& final(self).inbound() == (if info.direction == ConnectionDirection::Inbound
                    && old(self).inbound() > 0 {
                    (old(self).inbound() - 1) as nat
                } else {
                    old(self).inbound()
                })
            },
    {
        match self.find_peer(peer_id) {
            Some(i) => {
                let ghost before = self.peers@;
                proof {
                    lemma_count_remove(before, i as int, ConnectionDirection::Outbound);
                    lemma_count_remove(before, i as int, ConnectionDirection::Inbound);
                }
                let info = self.peers.remove(i);
                proof {
                    assert forall|a: int, b: int|
                        0 <= a < self.peers@.len() && 0 <= b < self.peers@.len() && a != b implies self.peers@[a].id
                        != self.peers@[b].id by {
                        let a0 = if a < i { a } else { a + 1 };
                        let b0 = if b < i { b } else { b + 1 };
                        assert(self.peers@[a] == before[a0] && self.peers@[b] == before[b0]);
                    }
                }
                self.by_address.remove(&info.addr);
                self.connecting.remove(&info.addr);
                match info.direction {
                    ConnectionDirection::Outbound => {
                        self.outbound_count = self.outbound_count.saturating_sub(1);
                    },
                    ConnectionDirection::Inbound => {
                        self.inbound_count = self.inbound_count.saturating_sub(1);
                    },
                }
                Some(info)
            },
            None => None,
        }
    }

    /// Get a peer by ID.
    pub fn get_peer(&self, peer_id: &PeerId) -> (r: Option<&PeerInfo>)
        requires
            self.wf(),
        ensures
            has_peer(self.peer_seq(), *peer_id) ==> r == Some(
                &self.peer_seq()[peer_index(self.peer_seq(), *peer_id)],
            ),
            !has_peer(self.peer_seq(), *peer_id) ==> r is None,
    {
        match self.find_peer(peer_id) {
            Some(i) => Some(&self.peers[i]),
            None => None,
        }
    }

    /// Get peer by address.
    pub fn get_peer_by_addr(&self, addr: &SocketAddress) -> (r: Option<&PeerInfo>)
        requires
            self.wf(),
        ensures
            match self.addresses().get(*addr) {
                Some(id) => if has_peer(self.peer_seq(), id) {
                    r == Some(&self.peer_seq()[peer_index(self.peer_seq(), id)])
                } else {
                    r is None
                },
                None => r is None,
            },
    {
        match self.by_address.get(addr) {
            Some(id) => self.get_peer(&id),
            None => None,
        }
    }

    /// Record a connected peer's chain tip; false when no peer has that
    /// identifier.
    pub fn set_peer_tip(&mut self, peer_id: &PeerId, height: u64, hash: [u8; 32]) -> (r: bool)
        requires
            old(self).wf(),
        ensures
            final(self).wf(),
            r == has_peer(old(self).peer_seq(), *peer_id),
            r ==> {
                let i = peer_index(old(self).peer_seq(), *peer_id);
                final(self).peer_seq() == old(self).peer_seq().update(
                    i,
                    PeerInfo { best_height: height, best_hash: hash, ..old(self).peer_seq()[i] },
                )
            },
            !r ==> final(self).peer_seq() == old(self).peer_seq(),
            final(self).addresses() == old(self).addresses(),
            final(self).connecting_set() == old(self).connecting_set(),
            final(self).outbound() == old(self).outbound(),
            final(self).inbound() == old(self).inbound(),
            final(self).max_out() == old(self).max_out(),
            final(self).max_in() == old(self).max_in(),
    {
        match self.find_peer(peer_id) {
            Some(i) => {
                let mut info = self.peers[i].copy();
                info.best_height = height;
                info.best_hash = hash;
                self.replace_at(i, info);
                true
            },
            None => false,
        }
    }

    /// Record what a peer announced in its handshake; false when no peer has
    /// that identifier.
    pub fn set_peer_details(
        &mut self,
        peer_id: &PeerId,
        best_height: u64,
        best_hash: [u8; 32],
        protocol_version: Option<u32>,
        user_agent: Option<String>,
    ) -> (r: bool)
        requires
            old(self).wf(),
        ensures
            final(self).wf(),
            r == has_peer(old(self).peer_seq(), *peer_id),
            r ==> {
                let i = peer_index(old(self).peer_seq(), *peer_id);
                final(self).peer_seq() == old(self).peer_seq().update(
                    i,
                    PeerInfo {
                        best_height,
                        best_hash,
                        protocol_version,
                        user_agent,
                        ..old(self).peer_seq()[i]
                    },
                )
            },
            !r ==> final(self).peer_seq() == old(self).peer_seq(),
            final(self).addresses() == old(self).addresses(),
            final(self).connecting_set() == old(self).connecting_set(),
            final(self).outbound() == old(self).outbound(),
            final(self).inbound() == old(self).inbound(),
            final(self).max_out() == old(self).max_out(),
            final(self).max_in() == old(self).max_in(),
    {
        match self.find_peer(peer_id) {
            Some(i) => {
                let mut info = self.peers[i].copy();
                info.best_height = best_height;
                info.best_hash = best_hash;
                info.protocol_version = protocol_version;
                info.user_agent = user_agent;
                self.replace_at(i, info);
                true
            },
            None => false,
        }
    }

    /// Overwrite the peer at position `i` with `info`, which has the same
    /// identifier.
    fn replace_at(&mut self, i: usize, info: PeerInfo)
        requires
            old(self).wf(),
            i < old(self).peer_seq().len(),
            info.id == old(self).peer_seq()[i as int].id,
        ensures
            final(self).wf(),
            final(self).peer_seq() == old(self).peer_seq().update(i as int, info),
            final(self).addresses() == old(self).addresses(),
            final(self).connecting_set() == old(self).connecting_set(),
            final(self).outbound() == old(self).outbound(),
            final(self).inbound() == old(self).inbound(),
            final(self).max_out() == old(self).max_out(),
            final(self).max_in() == old(self).max_in(),
    {
        let ghost before = self.peers@;
        self.peers.set(i, info);
        proof {
            assert forall|a: int, b: int|
                0 <= a < self.peers@.len() && 0 <= b < self.peers@.len() && a != b implies self.peers@[a].id
                != self.peers@[b].id by {
                assert(before[a].id != before[b].id);
            }
        }
    }

    /// Get all connected peer IDs.
    pub fn peer_ids(&self) -> (r: Vec<PeerId>)
        ensures
            r@ == self.peer_seq().map_values(|p: PeerInfo| p.id),
    {
        let mut out: Vec<PeerId> = Vec::new();
        let mut i: usize = 0;
        while i < self.peers.len()
            invariant
                0 <= i <= self.peers@.len(),
                out@ == self.peers@.take(i as int).map_values(|p: PeerInfo| p.id),
            decreases self.peers@.len() - i,
        {
            out.push(self.peers[i].id);
            i += 1;
            assert(out@ =~= self.peers@.take(i as int).map_values(|p: PeerInfo| p.id));
        }
        assert(self.peers@.take(self.peers@.len() as int) =~= self.peers@);
        out
    }

    /// Get all connected peer addresses.
    pub fn peer_addrs(&self) -> (r: Vec<SocketAddress>)
        requires
            self.wf(),
        ensures
            r@.to_set() == self.addresses().dom(),
            r@.len() == self.addresses().len(),
    {
        let n = self.by_address.entry_count();
        let mut out: Vec<SocketAddress> = Vec::new();
        let mut i: usize = 0;
        proof {
            self.by_address.lemma_dom_finite();
        }
        while i < n
            invariant
                0 <= i <= n,
                n == self.by_address.entries().len(),
                self.by_address.wf(),
                out@ == crate::assoc_map::keys_of(self.by_address.entries()).take(i as int),
            decreases n - i,
        {
            let (k, _v) = self.by_address.entry_at(i);
            out.push(k);
            i += 1;
            assert(out@ =~= crate::assoc_map::keys_of(self.by_address.entries()).take(i as int));
        }
        proof {
            let ks = crate::assoc_map::keys_of(self.by_address.entries());
            assert(ks.take(n as int) =~= ks);
            self.by_address.lemma_dom_finite();
        }
        out
    }

    /// Get total connection count.
    pub fn total_count(&self) -> (r: usize)
        requires
            self.outbound() + self.inbound() <= usize::MAX,
        ensures
            r == self.outbound() + self.inbound(),
    {
        self.outbound_count + self.inbound_count
    }

    /// Get outbound connection count.
    pub fn outbound_count(&self) -> (r: usize)
        ensures
            r == self.outbound(),
    {
        self.outbound_count
    }

    /// Get inbound connection count.
    pub fn inbound_count(&self) -> (r: usize)
        ensures
            r == self.inbound(),
    {
        self.inbound_count
    }

    /// Get connecting count.
    pub fn connecting_count(&self) -> (r: usize)
        requires
            self.wf(),
        ensures
            r == self.connecting_set().len(),
    {
        self.connecting.len()
    }

    /// All connected peers.
    pub fn iter(&self) -> (r: &[PeerInfo])
        ensures
            r@ == self.peer_seq(),
    {
        self.peers.as_slice()
    }

    /// Get the peers whose best height is at least `height`.
    pub fn peers_at_height(&self, height: u64) -> (r: Vec<PeerId>)
        ensures
            r@ == ids_at_height(self.peer_seq(), height),
    {
        let mut out: Vec<PeerId> = Vec::new();
        let mut i: usize = 0;
        while i < self.peers.len()
            invariant
                0 <= i <= self.peers@.len(),
                out@ == ids_at_height(self.peers@.take(i as int), height),
            decreases self.peers@.len() - i,
        {
            proof {
                let t = self.peers@.take(i + 1);
                assert(t.drop_last() =~= self.peers@.take(i as int));
                assert(t.last() == self.peers@[i as int]);
            }
            if self.peers[i].best_height >= height {
                out.push(self.peers[i].id);
            }
            i += 1;
        }
        assert(self.peers@.take(self.peers@.len() as int) =~= self.peers@);
        out
    }

    /// Get the peer with the best height (the last such peer held).
    pub fn best_peer(&self) -> (r: Option<PeerId>)
        ensures
            r is None <==> self.peer_seq().len() == 0,
            r matches Some(id) ==> exists|i: int|
                0 <= i < self.peer_seq().len() && self.peer_seq()[i].id == id && forall|j: int|
                    0 <= j < self.peer_seq().len() ==> #[trigger] self.peer_seq()[j].best_height
                        <= self.peer_seq()[i].best_height,
    {
        if self.peers.len() == 0 {
            return None;
        }
        let mut best: usize = 0;
        let mut i: usize = 1;
        while i < self.peers.len()
            invariant
                1 <= i <= self.peers@.len(),
                best < i,
                forall|j: int| 0 <= j < i ==> self.peers@[j].best_height <= self.peers@[best as int].best_height,
            decreases self.peers@.len() - i,
        {
            if self.peers[i].best_height >= self.peers[best].best_height {
                best = i;
            }
            i += 1;
        }
        proof {
            let s = self.peer_seq();
            let b = best as int;
            assert(0 <= b < s.len() && s[b].id == self.peers@[b].id && forall|j: int|
                0 <= j < s.len() ==> #[trigger] s[j].best_height <= s[b].best_height);
        }
        Some(self.peers[best].id)
    }
}

/// Adding a peer under a new identifier, or removing one, keeps the
/// connection counters equal to the number of peers held in each direction.
pub proof fn lemma_count_push(s: Seq<PeerInfo>, p: PeerInfo, d: ConnectionDirection)
    ensures
        count_direction(s.push(p), d) == count_direction(s, d) + (if p.direction == d { 1nat } else { 0nat }),
{
    assert(s.push(p).drop_last() =~= s);
}

/// Removing the peer at `i` lowers the count of its direction by one.
pub proof fn lemma_count_remove(s: Seq<PeerInfo>, i: int, d: ConnectionDirection)
    requires
        0 <= i < s.len(),
    ensures
        count_direction(s, d) == count_direction(s.remove(i), d) + (if s[i].direction == d { 1nat } else { 0nat }),
    decreases s.len(),
{
    if i == s.len() - 1 {
        assert(s.remove(i) =~= s.drop_last());
    } else {
        let d0 = s.drop_last();
        lemma_count_remove(d0, i, d);
        assert(s.remove(i).drop_last() =~= d0.remove(i));
        assert(s.remove(i).last() == s.last());
    }
}

} // verus!
