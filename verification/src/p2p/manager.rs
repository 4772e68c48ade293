//! Peer bookkeeping for the node: connection slots, the outbound target and
//! peer identifiers. Sending to peers goes through the connection channels,
//! which the runtime holds beside this state.
use vstd::prelude::*;
use crate::p2p::config::P2pConfig;
use crate::p2p::net::SocketAddress;
use crate::p2p::peer::{ConnectionDirection, PeerId, PeerInfo};
use crate::p2p::slots::{has_peer, ids_at_height, peer_added, peer_index, peer_removed, ConnectionSlots};

verus! {

/// Outbound connection settings and identifiers.
pub struct OutboundManager {
    /// Target number of outbound connections.
    target_outbound: usize,
    /// Timeout for a connection attempt, in milliseconds.
    connect_timeout: u64,
    /// Next peer ID to assign.
    next_peer_id: u64,
}

impl OutboundManager {
    /// The outbound target.
    pub closed spec fn spec_target(&self) -> nat {
        self.target_outbound as nat
    }

    /// The identifier handed out next.
    pub closed spec fn spec_next_id(&self) -> u64 {
        self.next_peer_id
    }

    /// The connection timeout, in milliseconds.
    pub closed spec fn spec_connect_timeout(&self) -> u64 {
        self.connect_timeout
    }

    /// Create a new outbound manager.
    pub fn new(config: &P2pConfig) -> (r: Self)
        ensures
            r.spec_target() == config.target_outbound,
            r.spec_connect_timeout() == config.connect_timeout,
            r.spec_next_id() == 1,
    {
        OutboundManager {
            target_outbound: config.target_outbound,
            connect_timeout: config.connect_timeout,
            next_peer_id: 1,
        }
    }

    /// Get the target number of outbound connections.
    pub fn target(&self) -> (r: usize)
        ensures
            r == self.spec_target(),
    {
        self.target_outbound
    }

    /// Allocate a new peer ID.
    pub fn next_peer_id(&mut self) -> (r: PeerId)
        requires
            old(self).spec_next_id() < u64::MAX,
        ensures
            r == PeerId(old(self).spec_next_id()),
            final(self).spec_next_id() == old(self).spec_next_id() + 1,
            final(self).spec_target() == old(self).spec_target(),
            final(self).spec_connect_timeout() == old(self).spec_connect_timeout(),
    {
        let id = self.next_peer_id;
        self.next_peer_id = self.next_peer_id + 1;
        PeerId::new(id)
    }

    /// Get the connection timeout, in milliseconds.
    pub fn connect_timeout(&self) -> (r: u64)
        ensures
            r == self.spec_connect_timeout(),
    {
        self.connect_timeout
    }
}

/// Manages the connected peers.
pub struct PeerManager {
    /// Connection slot tracking.
    slots: ConnectionSlots,
    /// Outbound connection manager.
    outbound: OutboundManager,
    /// Next peer ID counter.
    next_peer_id: u64,
}

impl PeerManager {
    /// The connection slots.
    pub closed spec fn spec_slots(&self) -> ConnectionSlots {
        self.slots
    }

    /// The outbound target.
    pub closed spec fn spec_target(&self) -> nat {
        self.outbound.spec_target()
    }

    /// The identifier handed out next.
    pub closed spec fn spec_next_id(&self) -> u64 {
        self.next_peer_id
    }

    /// The slot tables are well formed.
    pub open spec fn wf(&self) -> bool {
        self.spec_slots().wf()
    }

    /// Create a new peer manager.
    pub fn new(config: &P2pConfig) -> (r: Self)
        ensures
            r.wf(),
            r.spec_slots().counts_match(),
            r.spec_slots().max_out() == config.max_outbound,
            r.spec_slots().max_in() == config.max_inbound,
            r.spec_slots().outbound() == 0,
            r.spec_slots().inbound() == 0,
            r.spec_slots().peer_seq() == Seq::<PeerInfo>::empty(),
            r.spec_slots().addresses() == Map::<SocketAddress, PeerId>::empty(),
            r.spec_slots().connecting_set() == Set::<SocketAddress>::empty(),
            r.spec_target() == config.target_outbound,
            r.spec_next_id() == 1,
    {
        PeerManager {
            slots: ConnectionSlots::new(config.max_outbound, config.max_inbound),
            outbound: OutboundManager::new(config),
            next_peer_id: 1,
        }
    }

    /// Allocate a new peer ID.
    pub fn next_peer_id(&mut self) -> (r: PeerId)
        requires
            old(self).spec_next_id() < u64::MAX,
        ensures
            r == PeerId(old(self).spec_next_id()),
            final(self).spec_next_id() == old(self).spec_next_id() + 1,
            final(self).spec_slots() == old(self).spec_slots(),
            final(self).spec_target() == old(self).spec_target(),
    {
        let id = self.next_peer_id;
        self.next_peer_id = self.next_peer_id + 1;
        PeerId::new(id)
    }

    /// Whether identifiers remain to hand out.
    pub fn has_next_peer_id(&self) -> (r: bool)
        ensures
            r == (self.spec_next_id() < u64::MAX),
    {
        self.next_peer_id < u64::MAX
    }

    /// Whether outbound connections and attempts together are below the
    /// outbound target.
    pub open spec fn spec_needs_outbound(&self) -> bool {
        self.spec_slots().outbound() + self.spec_slots().connecting_set().len() < self.spec_target()
    }

    /// Check if we should connect to more peers.
    pub fn needs_outbound(&self) -> (r: bool)
        requires
            self.wf(),
        ensures
            r == self.spec_needs_outbound(),
    {
        let out = self.slots.outbound_count();
        let connecting = self.slots.connecting_count();
        let target = self.outbound.target();
        out < target && connecting < target - out
    }

    /// Check if we can accept an inbound connection.
    pub fn can_accept_inbound(&self) -> (r: bool)
        ensures
            r == (self.spec_slots().inbound() < self.spec_slots().max_in()),
    {
        self.slots.can_accept_inbound()
    }

    /// Check if we're already connected to an address.
    pub fn is_connected(&self, addr: &SocketAddress) -> (r: bool)
        requires
            self.wf(),
        ensures
            r == self.spec_slots().addresses().contains_key(*addr),
    {
        self.slots.is_connected(addr)
    }

    /// Check if we should connect to an address.
    pub fn should_connect(&self, addr: &SocketAddress) -> (r: bool)
        requires
            self.wf(),
        ensures
            r == (!self.spec_slots().addresses().contains_key(*addr)
                && !self.spec_slots().connecting_set().contains(*addr)
                && self.spec_slots().outbound() < self.spec_slots().max_out()),
    {
        self.slots.should_connect(addr)
    }

    /// Mark an address as connecting.
    pub fn start_connecting(&mut self, addr: SocketAddress)
        requires
            old(self).wf(),
        ensures
            final(self).wf(),
            final(self).spec_slots().connecting_set() == old(self).spec_slots().connecting_set().insert(addr),
            final(self).spec_slots().peer_seq() == old(self).spec_slots().peer_seq(),
            final(self).spec_slots().addresses() == old(self).spec_slots().addresses(),
            final(self).spec_slots().outbound() == old(self).spec_slots().outbound(),
            final(self).spec_slots().inbound() == old(self).spec_slots().inbound(),
            final(self).spec_slots().max_out() == old(self).spec_slots().max_out(),
            final(self).spec_slots().max_in() == old(self).spec_slots().max_in(),
            final(self).spec_target() == old(self).spec_target(),
            final(self).spec_next_id() == old(self).spec_next_id(),
    {
        self.slots.start_connecting(addr);
    }

    /// Remove an address from connecting state.
    pub fn stop_connecting(&mut self, addr: &SocketAddress)
        requires
            old(self).wf(),
        ensures
            final(self).wf(),
            final(self).spec_slots().connecting_set() == old(self).spec_slots().connecting_set().remove(*addr),
            final(self).spec_slots().peer_seq() == old(self).spec_slots().peer_seq(),
            final(self).spec_slots().addresses() == old(self).spec_slots().addresses(),
            final(self).spec_slots().outbound() == old(self).spec_slots().outbound(),
            final(self).spec_slots().inbound() == old(self).spec_slots().inbound(),
            final(self).spec_slots().max_out() == old(self).spec_slots().max_out(),
            final(self).spec_slots().max_in() == old(self).spec_slots().max_in(),
            final(self).spec_target() == old(self).spec_target(),
            final(self).spec_next_id() == old(self).spec_next_id(),
    {
        self.slots.stop_connecting(addr);
    }

    /// Register a connected peer (see `ConnectionSlots::add_peer`).
    pub fn add_peer(&mut self, info: PeerInfo)
        requires
            old(self).wf(),
            info.direction == ConnectionDirection::Outbound ==> old(self).spec_slots().outbound() < usize::MAX,
            info.direction == ConnectionDirection::Inbound ==> old(self).spec_slots().inbound() < usize::MAX,
        ensures
            final(self).wf(),
            peer_added(old(self).spec_slots(), final(self).spec_slots(), info),
            old(self).spec_slots().counts_match() && !has_peer(old(self).spec_slots().peer_seq(), info.id)
                ==> final(self).spec_slots().counts_match(),
            final(self).spec_target() == old(self).spec_target(),
            final(self).spec_next_id() == old(self).spec_next_id(),
    {
        self.slots.add_peer(info);
    }

    /// Remove a peer (see `ConnectionSlots::remove_peer`).
    pub fn remove_peer(&mut self, peer_id: &PeerId) -> (r: Option<PeerInfo>)
        requires
            old(self).wf(),
        ensures
            final(self).wf(),
            peer_removed(old(self).spec_slots(), final(self).spec_slots(), *peer_id),
            has_peer(old(self).spec_slots().peer_seq(), *peer_id) ==> r == Some(
                old(self).spec_slots().peer_seq()[peer_index(old(self).spec_slots().peer_seq(), *peer_id)],
            ),
            !has_peer(old(self).spec_slots().peer_seq(), *peer_id) ==> r is None,
            old(self).spec_slots().counts_match() ==> final(self).spec_slots().counts_match(),
            final(self).spec_target() == old(self).spec_target(),
            final(self).spec_next_id() == old(self).spec_next_id(),
    {
        self.slots.remove_peer(peer_id)
    }

    /// Get a peer by ID.
    pub fn get_peer(&self, peer_id: &PeerId) -> (r: Option<&PeerInfo>)
        requires
            self.wf(),
        ensures
            has_peer(self.spec_slots().peer_seq(), *peer_id) ==> r == Some(
                &self.spec_slots().peer_seq()[peer_index(self.spec_slots().peer_seq(), *peer_id)],
            ),
            !has_peer(self.spec_slots().peer_seq(), *peer_id) ==> r is None,
    {
        self.slots.get_peer(peer_id)
    }

    /// Update a peer's chain tip info (nothing happens for an unknown peer).
    pub fn update_peer_tip(&mut self, peer_id: &PeerId, height: u64, hash: [u8; 32])
        requires
            old(self).wf(),
        ensures
            final(self).wf(),
            has_peer(old(self).spec_slots().peer_seq(), *peer_id) ==> {
                let i = peer_index(old(self).spec_slots().peer_seq(), *peer_id);
                final(self).spec_slots().peer_seq() == old(self).spec_slots().peer_seq().update(
                    i,
                    PeerInfo { best_height: height, best_hash: hash, ..old(self).spec_slots().peer_seq()[i] },
                )
            },
            !has_peer(old(self).spec_slots().peer_seq(), *peer_id) ==> final(self).spec_slots().peer_seq()
                == old(self).spec_slots().peer_seq(),
            final(self).spec_slots().addresses() == old(self).spec_slots().addresses(),
            final(self).spec_slots().connecting_set() == old(self).spec_slots().connecting_set(),
            final(self).spec_slots().outbound() == old(self).spec_slots().outbound(),
            final(self).spec_slots().inbound() == old(self).spec_slots().inbound(),
            final(self).spec_slots().max_out() == old(self).spec_slots().max_out(),
            final(self).spec_slots().max_in() == old(self).spec_slots().max_in(),
            final(self).spec_target() == old(self).spec_target(),
            final(self).spec_next_id() == old(self).spec_next_id(),
    {
        let _ = self.slots.set_peer_tip(peer_id, height, hash);
    }

    /// Record what a connected peer announced in its handshake (nothing
    /// happens for an unknown peer).
    pub fn update_peer_details(
        &mut self,
        peer_id: &PeerId,
        best_height: u64,
        best_hash: [u8; 32],
        protocol_version: Option<u32>,
        user_agent: Option<String>,
    )
        requires
            old(self).wf(),
        ensures
            final(self).wf(),
            has_peer(old(self).spec_slots().peer_seq(), *peer_id) ==> {
                let i = peer_index(old(self).spec_slots().peer_seq(), *peer_id);
                final(self).spec_slots().peer_seq() == old(self).spec_slots().peer_seq().update(
                    i,
                    PeerInfo {
                        best_height,
                        best_hash,
                        protocol_version,
                        user_agent,
                        ..old(self).spec_slots().peer_seq()[i]
                    },
                )
            },
            !has_peer(old(self).spec_slots().peer_seq(), *peer_id) ==> final(self).spec_slots().peer_seq()
                == old(self).spec_slots().peer_seq(),
            final(self).spec_slots().addresses() == old(self).spec_slots().addresses(),
            final(self).spec_slots().connecting_set() == old(self).spec_slots().connecting_set(),
            final(self).spec_slots().outbound() == old(self).spec_slots().outbound(),
            final(self).spec_slots().inbound() == old(self).spec_slots().inbound(),
            final(self).spec_slots().max_out() == old(self).spec_slots().max_out(),
            final(self).spec_slots().max_in() == old(self).spec_slots().max_in(),
            final(self).spec_target() == old(self).spec_target(),
            final(self).spec_next_id() == old(self).spec_next_id(),
    {
        let _ = self.slots.set_peer_details(peer_id, best_height, best_hash, protocol_version, user_agent);
    }

    /// The connected peers' identifiers.
    pub fn peer_ids(&self) -> (r: Vec<PeerId>)
        ensures
            r@ == self.spec_slots().peer_seq().map_values(|p: PeerInfo| p.id),
    {
        self.slots.peer_ids()
    }

    /// Get connection counts as `(outbound, inbound)`.
    pub fn connection_counts(&self) -> (r: (usize, usize))
        ensures
            r.0 == self.spec_slots().outbound(),
            r.1 == self.spec_slots().inbound(),
    {
        (self.slots.outbound_count(), self.slots.inbound_count())
    }

    /// Get the peer with the best height (see `ConnectionSlots::best_peer`).
    pub fn best_peer(&self) -> (r: Option<PeerId>)
        ensures
            r is None <==> self.spec_slots().peer_seq().len() == 0,
            r matches Some(id) ==> exists|i: int|
                0 <= i < self.spec_slots().peer_seq().len() && self.spec_slots().peer_seq()[i].id == id
                    && forall|j: int|
                    0 <= j < self.spec_slots().peer_seq().len() ==> #[trigger] self.spec_slots().peer_seq()[j].best_height
                        <= self.spec_slots().peer_seq()[i].best_height,
    {
        let r = self.slots.best_peer();
        proof {
            if let Some(id) = r {
                let s = self.slots.peer_seq();
                let i = choose|i: int|
                    0 <= i < s.len() && s[i].id == id && forall|j: int|
                        0 <= j < s.len() ==> #[trigger] s[j].best_height <= s[i].best_height;
                assert(0 <= i < self.spec_slots().peer_seq().len() && self.spec_slots().peer_seq()[i].id == id);
            }
        }
        r
    }

    /// Get peers at or above a given height.
    pub fn peers_at_height(&self, height: u64) -> (r: Vec<PeerId>)
        ensures
            r@ == ids_at_height(self.spec_slots().peer_seq(), height),
    {
        self.slots.peers_at_height(height)
    }

    /// All connected peers.
    pub fn peers(&self) -> (r: &[PeerInfo])
        ensures
            r@ == self.spec_slots().peer_seq(),
    {
        self.slots.iter()
    }

    /// The connection slots.
    pub fn slots(&self) -> (r: &ConnectionSlots)
        ensures
            *r == self.spec_slots(),
    {
        &self.slots
    }
}

} // verus!
