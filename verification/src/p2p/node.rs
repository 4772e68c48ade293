//! The node's decisions. The runtime waits on the network, the timers and
//! the chain; on each event it calls one handler here and performs the
//! actions that come back: sending to peers, opening connections, asking
//! the chain or the mempool, telling observers. What the chain or the
//! mempool answered comes back through the next handler.
use vstd::prelude::*;
use crate::assoc_map::AssocMap;
use crate::core_types::SignedTransaction;
use crate::p2p::config::P2pConfig;
use crate::p2p::discovery::Discovery;
use crate::p2p::dispatch::{route_peer_message, PeerMessageAction};
use crate::p2p::exchange::{after_add, after_add_all, by_recency, first_n, fresh_records, seen_at, MAX_PEERS_TO_SEND};
use crate::p2p::filter::{keys_after_check, keys_after_put, lemma_put_again, DEFAULT_CAPACITY};
use crate::p2p::gossip::{block_check, first_processable, last_with_parent, unexpired, BlockCheck, GossipManager};
use crate::p2p::error::P2pError;
use crate::p2p::headers::{
    headers_from, knows, respond_to_get_headers, serve_start, spec_block_locator, spec_validate_headers,
    ChainView,
};
use crate::p2p::manager::PeerManager;
use crate::p2p::messages::{
    Block, BlockHeader, HeadersMessage, Message, NewBlockMessage, NewTransactionMessage, PeerAddress,
};
use crate::p2p::net::SocketAddress;
use crate::p2p::peer::{
    clamp_i32, fresh_context, new_peer_info, ConnectionDirection, PeerContext, PeerId, PeerInfo,
    BAN_SCORE, FAILURE_PENALTY, MAX_INVALID_MESSAGES,
};
use crate::p2p::blocks::MAX_BLOCKS_IN_FLIGHT;
use crate::p2p::gossip::MAX_ORPHAN_BLOCKS;
use crate::p2p::slots::{has_peer, peer_added, peer_index, peer_removed, unique_ids, ConnectionSlots};
use crate::p2p::sync_manager::SyncManager;
use crate::p2p::sync_state::SyncState;
use crate::text::{hex_digits, hex_u64};
use crate::vec_set::VecSet;

verus! {

broadcast use vstd::array::group_array_axioms;

/// How often the runtime looks for more peers, in milliseconds.
pub const DISCOVERY_INTERVAL_MS: u64 = 30_000;

/// How often the runtime saves the known peers, in milliseconds.
pub const SAVE_INTERVAL_MS: u64 = 300_000;

/// How often the runtime checks for a stalled sync, in milliseconds.
pub const STALL_CHECK_INTERVAL_MS: u64 = 5_000;

/// Most blocks requested from the sync peer at a time.
pub const BLOCK_REQUEST_BATCH: usize = 16;

/// Snapshot of peer information for external reporting.
#[derive(Clone, Debug)]
pub struct PeerSnapshot {
    /// Peer ID (sixteen hexadecimal digits).
    pub id: String,
    /// Peer address.
    pub addr: SocketAddress,
    /// Connection direction.
    pub direction: String,
    /// Peer's best known height.
    pub best_height: u64,
}

/// State update sent from the node to external observers.
#[derive(Clone, Debug)]
pub struct P2pStateUpdate {
    /// Number of outbound connections.
    pub outbound_connections: usize,
    /// Number of inbound connections.
    pub inbound_connections: usize,
    /// Whether the node is syncing.
    pub syncing: bool,
    /// Whether the node is synced.
    pub synced: bool,
    /// Connected peers.
    pub peers: Vec<PeerSnapshot>,
}

/// How a direction is reported to observers.
pub open spec fn direction_name(d: ConnectionDirection) -> Seq<char> {
    match d {
        ConnectionDirection::Inbound => "inbound"@,
        ConnectionDirection::Outbound => "outbound"@,
    }
}

/// `s` reports peer `p`.
pub open spec fn snapshot_of(s: PeerSnapshot, p: PeerInfo) -> bool {
    &&& s.id@ == hex_digits(p.id.0 as nat, 16)
    &&& s.addr == p.addr
    &&& s.direction@ == direction_name(p.direction)
    &&& s.best_height == p.best_height
}

/// The addresses of the peers in `s`.
pub open spec fn peer_addr_set(s: Seq<PeerInfo>) -> Set<SocketAddress> {
    Set::new(|a: SocketAddress| exists|i: int| 0 <= i < s.len() && s[i].addr == a)
}

/// What the runtime is to do.
#[derive(Clone, Debug)]
pub enum NodeAction {
    /// Send a message to one peer.
    Send(PeerId, Message),
    /// Send a message to every connected peer.
    Broadcast(Message),
    /// Send a message to every connected peer but one.
    BroadcastExcept(Message, PeerId),
    /// Ask a peer's connection to close.
    Disconnect(PeerId),
    /// Open an outbound connection to an address, under this identifier.
    Connect(PeerId, SocketAddress),
    /// Tell observers about the connection state.
    Notify(P2pStateUpdate),
    /// Answer a peer's block request from the chain (see
    /// `block_request_response`).
    ServeBlock(PeerId, [u8; 32]),
    /// Ask the chain to add a block received during sync, then report with
    /// `synced_block_added`.
    AddSyncedBlock(PeerId, Block),
    /// Offer a gossiped transaction to the mempool, then report with
    /// `transaction_added`.
    AddTransaction(PeerId, SignedTransaction),
    /// Ask the chain to add a gossiped block, then report with
    /// `relayed_block_added`.
    AddRelayedBlock(PeerId, Block),
    /// Take the orphans whose parent arrived (see `next_orphan`).
    ProcessOrphans,
    /// Drop from the mempool the transactions of this block.
    RemoveConfirmed([u8; 32]),
}

/// Connection attempts for `addrs`, in order, with the connecting set and
/// the next identifier they leave: an address is taken when neither
/// connected nor being connected to, while outbound slots remain and
/// identifiers last.
pub open spec fn connect_plan(
    addresses: Map<SocketAddress, PeerId>,
    connecting: Set<SocketAddress>,
    can_out: bool,
    next: u64,
    addrs: Seq<SocketAddress>,
) -> (Seq<NodeAction>, Set<SocketAddress>, u64)
    decreases addrs.len(),
{
    if addrs.len() == 0 {
        (Seq::empty(), connecting, next)
    } else {
        let a = addrs[0];
        if !addresses.contains_key(a) && !connecting.contains(a) && can_out && next < u64::MAX {
            let rest = connect_plan(addresses, connecting.insert(a), can_out, (next + 1) as u64, addrs.drop_first());
            (seq![NodeAction::Connect(PeerId(next), a)] + rest.0, rest.1, rest.2)
        } else {
            connect_plan(addresses, connecting, can_out, next, addrs.drop_first())
        }
    }
}

/// `a` sends `peer` a request for headers after the chain's block locator.
pub open spec fn headers_request_to(a: NodeAction, peer: PeerId, chain: ChainView) -> bool {
    a matches NodeAction::Send(p, Message::GetHeaders(g)) && p == peer && g.locator_hashes@
        == spec_block_locator(chain.main_chain@) && forall|i: int| 0 <= i < 32 ==> g.stop_hash[i] == 0
}

/// `after` is `before` once it started syncing headers from `peer`, from
/// `our_height` to `peer_height`, at `now`.
pub open spec fn sync_started(before: SyncManager, after: SyncManager, peer: PeerId, our_height: u64, peer_height: u64, now: u64) -> bool {
    &&& after.wf()
    &&& after.spec_progress().state == (SyncState::SyncingHeaders {
        peer_id: peer,
        start_height: our_height,
        target_height: peer_height,
    })
    &&& after.spec_progress().started_at == Some(now)
    &&& after.spec_progress().in_flight_blocks@ == Set::<[u8; 32]>::empty()
    &&& after.spec_last_activity() == Some(now)
    &&& after.spec_downloader() == before.spec_downloader()
    &&& after.spec_timeout() == before.spec_timeout()
}

/// `after` is `before` reset to idle, with nothing queued.
pub open spec fn sync_reset(before: SyncManager, after: SyncManager) -> bool {
    &&& after.wf()
    &&& after.spec_progress().state == SyncState::Idle
    &&& after.spec_progress().started_at is None
    &&& after.spec_downloader().queue().len() == 0
    &&& after.spec_downloader().in_flight().len() == 0
    &&& after.spec_last_activity() is None
    &&& after.spec_timeout() == before.spec_timeout()
}

/// Whether the connection counter for direction `d` can count one more.
pub open spec fn count_has_room(s: ConnectionSlots, d: ConnectionDirection) -> bool {
    match d {
        ConnectionDirection::Outbound => s.outbound() < usize::MAX,
        ConnectionDirection::Inbound => s.inbound() < usize::MAX,
    }
}

/// Whether a misbehavior count and score earn a ban.
pub open spec fn banned(c: PeerContext) -> bool {
    c.invalid_messages > MAX_INVALID_MESSAGES || c.score < BAN_SCORE
}

/// `after` is `before` once `peer` was caught misbehaving, with the
/// actions `r`: a peer without a context is left alone; otherwise its count
/// of invalid messages rises (unless it cannot count higher) and its score
/// drops, and it is to be disconnected when that earns a ban.
pub open spec fn misbehavior_recorded(
    before: Map<PeerId, PeerContext>,
    after: Map<PeerId, PeerContext>,
    peer: PeerId,
    r: Seq<NodeAction>,
) -> bool {
    &&& !before.contains_key(peer) ==> {
        &&& r.len() == 0
        &&& after == before
    }
    &&& before.contains_key(peer) ==> {
        let c = before[peer];
        let c2 = after[peer];
        &&& after == before.insert(peer, c2)
        &&& c.invalid_messages < usize::MAX ==> {
            &&& c2.invalid_messages == c.invalid_messages + 1
            &&& c2.score == clamp_i32(c.score - FAILURE_PENALTY)
            &&& c2.state == c.state
            &&& c2.headers_requested == c.headers_requested
            &&& c2.blocks_requested == c.blocks_requested
            &&& c2.pending_blocks@ == c.pending_blocks@
            &&& c2.peers_requested == c.peers_requested
        }
        &&& c.invalid_messages == usize::MAX ==> c2 == c
        &&& r == (if banned(c2) {
            seq![NodeAction::Disconnect(peer)]
        } else {
            Seq::<NodeAction>::empty()
        })
    }
}

/// Each message sent to `peer`, in order.
pub open spec fn sends_to(peer: PeerId, msgs: Seq<Message>) -> Seq<NodeAction> {
    msgs.map_values(|m: Message| NodeAction::Send(peer, m))
}

/// Whether the sync can count `headers` and check their heights without
/// overflow.
pub open spec fn headers_countable(sync: SyncManager, headers: Seq<BlockHeader>) -> bool {
    &&& forall|i: int| 0 <= i < headers.len() ==> #[trigger] headers[i].height < u64::MAX
    &&& sync.spec_progress().headers_downloaded + headers.len() <= u64::MAX
}

/// Whether the sync's queue or in-flight requests are non-empty.
pub open spec fn has_pending(sync: SyncManager) -> bool {
    sync.spec_downloader().queue().len() > 0 || sync.spec_downloader().in_flight().len() > 0
}

/// Each of `msgs` sent to `peer`, in order.
pub fn send_all(peer: PeerId, msgs: Vec<Message>) -> (r: Vec<NodeAction>)
    ensures
        r@ == sends_to(peer, msgs@),
{
    let mut msgs = msgs;
    let ghost all = msgs@;
    let mut out: Vec<NodeAction> = Vec::new();
    while msgs.len() > 0
        invariant
            out@ + sends_to(peer, msgs@) == sends_to(peer, all),
        decreases msgs@.len(),
    {
        let ghost before = msgs@;
        let m = msgs.remove(0);
        out.push(NodeAction::Send(peer, m));
        assert(sends_to(peer, before) =~= seq![NodeAction::Send(peer, m)] + sends_to(peer, msgs@));
        assert(out@ + sends_to(peer, msgs@) =~= sends_to(peer, all));
    }
    assert(sends_to(peer, msgs@) =~= Seq::<NodeAction>::empty());
    assert(out@ =~= out@ + sends_to(peer, msgs@));
    out
}

/// The main P2P node's state.
pub struct P2pNode {
    /// P2P configuration.
    config: P2pConfig,
    /// Peer manager - the authoritative source for peer state.
    peers: PeerManager,
    /// Sync manager.
    sync: SyncManager,
    /// Gossip manager.
    gossip: GossipManager,
    /// Discovery coordinator.
    discovery: Discovery,
    /// Genesis hash.
    genesis_hash: [u8; 32],
    /// Peer contexts for tracking misbehavior.
    peer_contexts: AssocMap<PeerId, PeerContext>,
}

impl P2pNode {
    /// The configuration.
    pub closed spec fn spec_config(&self) -> P2pConfig {
        self.config
    }

    /// The peer manager.
    pub closed spec fn spec_peers(&self) -> PeerManager {
        self.peers
    }

    /// The sync manager.
    pub closed spec fn spec_sync(&self) -> SyncManager {
        self.sync
    }

    /// The gossip manager.
    pub closed spec fn spec_gossip(&self) -> GossipManager {
        self.gossip
    }

    /// The discovery coordinator.
    pub closed spec fn spec_discovery(&self) -> Discovery {
        self.discovery
    }

    /// The genesis hash.
    pub closed spec fn spec_genesis(&self) -> [u8; 32] {
        self.genesis_hash
    }

    /// The misbehavior contexts, by peer.
    pub closed spec fn spec_contexts(&self) -> Map<PeerId, PeerContext> {
        self.peer_contexts@
    }

    /// The connection slots.
    pub open spec fn slots(&self) -> ConnectionSlots {
        self.spec_peers().spec_slots()
    }

    /// Every part is well formed.
    pub closed spec fn wf(&self) -> bool {
        &&& self.peers.wf()
        &&& self.sync.wf()
        &&& self.gossip.wf()
        &&& self.discovery.wf()
        &&& self.peer_contexts.wf()
        &&& self.peers.spec_target() == self.config.target_outbound
    }

    /// What every handler keeps of the node: connected peers have distinct
    /// identifiers, no block hash is queued or requested twice and at most
    /// `MAX_BLOCKS_IN_FLIGHT` blocks are requested at once, the orphan pool
    /// holds at most `MAX_ORPHAN_BLOCKS` blocks, and the outbound target is
    /// the configured one.
    pub proof fn lemma_invariants(&self)
        requires
            self.wf(),
        ensures
            unique_ids(self.slots().peer_seq()),
            self.spec_sync().spec_downloader().all_hashes().no_duplicates(),
            self.spec_sync().spec_downloader().in_flight().len() <= MAX_BLOCKS_IN_FLIGHT,
            self.spec_gossip().orphans().len() <= MAX_ORPHAN_BLOCKS,
            self.spec_peers().spec_target() == self.spec_config().target_outbound,
    {
        self.slots().lemma_unique_ids();
        self.gossip.lemma_orphans_bounded();
    }

    /// Create a new node.
    pub fn new(config: P2pConfig) -> (r: Self)
        ensures
            r.wf(),
            r.spec_config() == config,
            r.slots().peer_seq().len() == 0,
            r.slots().outbound() == 0,
            r.slots().inbound() == 0,
            r.slots().max_out() == config.max_outbound,
            r.slots().max_in() == config.max_inbound,
            r.slots().connecting_set() == Set::<SocketAddress>::empty(),
            r.slots().counts_match(),
            r.spec_peers().spec_next_id() == 1,
            r.spec_sync().spec_progress().state == SyncState::Idle,
            r.spec_gossip().orphans().len() == 0,
            r.spec_discovery().spec_bootstrap() == config.bootstrap_peers@,
            r.spec_contexts() == Map::<PeerId, PeerContext>::empty(),
            forall|i: int| 0 <= i < 32 ==> r.spec_genesis()[i] == 0,
    {
        let peers = PeerManager::new(&config);
        let discovery = Discovery::new(&config);
        P2pNode {
            config,
            peers,
            sync: SyncManager::new(),
            gossip: GossipManager::new(),
            discovery,
            genesis_hash: [0u8; 32],
            peer_contexts: AssocMap::new(),
        }
    }

    /// Take the genesis hash from the chain, as the node starts.
    pub fn start(&mut self, chain: &ChainView)
        requires
            old(self).wf(),
            chain.wf(),
        ensures
            final(self).wf(),
            final(self).spec_genesis() == chain.main_chain@[0].hash,
            final(self).spec_config() == old(self).spec_config(),
            final(self).spec_peers() == old(self).spec_peers(),
            final(self).spec_sync() == old(self).spec_sync(),
            final(self).spec_gossip() == old(self).spec_gossip(),
            final(self).spec_discovery() == old(self).spec_discovery(),
            final(self).spec_contexts() == old(self).spec_contexts(),
    {
        self.genesis_hash = chain.genesis_hash();
    }

    /// The genesis hash.
    pub fn genesis_hash(&self) -> (r: [u8; 32])
        ensures
            r == self.spec_genesis(),
    {
        self.genesis_hash
    }

    /// The configuration.
    pub fn config(&self) -> (r: &P2pConfig)
        ensures
            *r == self.spec_config(),
    {
        &self.config
    }

    /// The peer manager.
    pub fn peers(&self) -> (r: &PeerManager)
        ensures
            *r == self.spec_peers(),
    {
        &self.peers
    }

    /// The sync manager.
    pub fn sync(&self) -> (r: &SyncManager)
        ensures
            *r == self.spec_sync(),
    {
        &self.sync
    }

    /// The discovery coordinator.
    pub fn discovery(&self) -> (r: &Discovery)
        ensures
            *r == self.spec_discovery(),
    {
        &self.discovery
    }

    /// Record that the peer file was written.
    pub fn mark_peers_saved(&mut self)
        requires
            old(self).wf(),
        ensures
            final(self).wf(),
            !final(self).spec_discovery().spec_dirty(),
            final(self).spec_discovery().spec_exchange() == old(self).spec_discovery().spec_exchange(),
            final(self).spec_peers() == old(self).spec_peers(),
            final(self).spec_sync() == old(self).spec_sync(),
            final(self).spec_gossip() == old(self).spec_gossip(),
            final(self).spec_contexts() == old(self).spec_contexts(),
            final(self).spec_config() == old(self).spec_config(),
            final(self).spec_genesis() == old(self).spec_genesis(),
    {
        self.discovery.mark_saved();
    }

    /// Get connection info as `(outbound, inbound)`.
    pub fn connection_info(&self) -> (r: (usize, usize))
        ensures
            r.0 == self.slots().outbound(),
            r.1 == self.slots().inbound(),
    {
        self.peers.connection_counts()
    }

    /// Check if syncing.
    pub fn is_syncing(&self) -> (r: bool)
        ensures
            r == self.spec_sync().spec_progress().state.spec_is_syncing(),
    {
        self.sync.is_syncing()
    }

    /// Check if synced.
    pub fn is_synced(&self) -> (r: bool)
        ensures
            r == (self.spec_sync().spec_progress().state is Synced),
    {
        self.sync.is_synced()
    }

    /// Get the number of connected peers.
    pub fn peer_count(&self) -> (r: usize)
        requires
            self.slots().outbound() + self.slots().inbound() <= usize::MAX,
        ensures
            r == self.slots().outbound() + self.slots().inbound(),
    {
        let (outbound, inbound) = self.peers.connection_counts();
        outbound + inbound
    }

    /// `u` reports this node's connections and sync status.
    pub open spec fn reported_by(&self, u: P2pStateUpdate) -> bool {
        &&& u.outbound_connections == self.slots().outbound()
        &&& u.inbound_connections == self.slots().inbound()
        &&& u.syncing == self.spec_sync().spec_progress().state.spec_is_syncing()
        &&& u.synced == (self.spec_sync().spec_progress().state is Synced)
        &&& u.peers@.len() == self.slots().peer_seq().len()
        &&& forall|i: int| 0 <= i < u.peers@.len() ==> snapshot_of(#[trigger] u.peers@[i], self.slots().peer_seq()[i])
    }

    /// The state reported to observers.
    pub fn state_update(&self) -> (r: P2pStateUpdate)
        ensures
            self.reported_by(r),
    {
        let (outbound, inbound) = self.peers.connection_counts();
        let list = self.peers.peers();
        let mut peers: Vec<PeerSnapshot> = Vec::new();
        let mut i: usize = 0;
        while i < list.len()
            invariant
                0 <= i <= list@.len(),
                list@ == self.slots().peer_seq(),
                peers@.len() == i,
                forall|j: int| 0 <= j < i ==> snapshot_of(#[trigger] peers@[j], list@[j]),
            decreases list@.len() - i,
        {
            let p = &list[i];
            let direction = match p.direction {
                ConnectionDirection::Inbound => String::from_str("inbound"),
                ConnectionDirection::Outbound => String::from_str("outbound"),
            };
            proof {
                reveal_strlit("inbound");
                reveal_strlit("outbound");
            }
            peers.push(PeerSnapshot { id: hex_u64(p.id.0), addr: p.addr, direction, best_height: p.best_height });
            i += 1;
        }
        P2pStateUpdate {
            outbound_connections: outbound,
            inbound_connections: inbound,
            syncing: self.sync.is_syncing(),
            synced: self.sync.is_synced(),
            peers,
        }
    }

    /// Admit an inbound connection from `addr` at `now`: refused (`None`)
    /// when the inbound slots are full or identifiers ran out; otherwise the
    /// connection is registered under a fresh identifier, returned.
    pub fn accept_inbound(&mut self, addr: SocketAddress, now: u64) -> (r: Option<PeerId>)
        requires
            old(self).wf(),
        ensures
            final(self).wf(),
            r is Some <==> (old(self).slots().inbound() < old(self).slots().max_in()
                && old(self).spec_peers().spec_next_id() < u64::MAX),
            old(self).slots().inbound() <= old(self).slots().max_in() ==> final(self).slots().inbound()
                <= final(self).slots().max_in(),
            r is None ==> final(self).spec_peers() == old(self).spec_peers(),
            r matches Some(id) ==> {
                &&& id == PeerId(old(self).spec_peers().spec_next_id())
                &&& final(self).spec_peers().spec_next_id() == old(self).spec_peers().spec_next_id() + 1
                &&& exists|p: PeerInfo|
                    new_peer_info(p, id, addr, ConnectionDirection::Inbound, now) && peer_added(
                        old(self).slots(),
                        final(self).slots(),
                        p,
                    )
            },
            final(self).spec_sync() == old(self).spec_sync(),
            final(self).spec_gossip() == old(self).spec_gossip(),
            final(self).spec_discovery() == old(self).spec_discovery(),
            final(self).spec_contexts() == old(self).spec_contexts(),
            final(self).spec_config() == old(self).spec_config(),
            final(self).spec_genesis() == old(self).spec_genesis(),
    {
        if !self.peers.can_accept_inbound() {
            return None;
        }
        if !self.peers.has_next_peer_id() {
            return None;
        }
        let id = self.peers.next_peer_id();
        let info = PeerInfo::new(id, addr, ConnectionDirection::Inbound, now);
        let ghost p = info;
        proof {
            self.slots().lemma_bounds();
        }
        self.peers.add_peer(info);
        assert(new_peer_info(p, id, addr, ConnectionDirection::Inbound, now));
        Some(id)
    }

    /// The connection attempts `try_connect_peers` makes at `now`, with the
    /// connecting set and next identifier they leave.
    pub open spec fn spec_connect_plan(&self, now: u64) -> (Seq<NodeAction>, Set<SocketAddress>, u64) {
        let target = self.spec_config().target_outbound;
        let out = self.slots().outbound();
        let needed = (if target >= out { target - out } else { 0 }) as nat;
        let addrs = self.spec_discovery().spec_addresses_to_connect(
            peer_addr_set(self.slots().peer_seq()),
            needed,
            now,
        );
        connect_plan(
            self.slots().addresses(),
            self.slots().connecting_set(),
            self.slots().outbound() < self.slots().max_out(),
            self.spec_peers().spec_next_id(),
            addrs,
        )
    }

    /// `after`'s peers are this node's once it made the connection attempts
    /// `actions` at `now`: none when connections and attempts already reach
    /// the target, otherwise those of `spec_connect_plan`.
    pub open spec fn after_connect(&self, after: P2pNode, actions: Seq<NodeAction>, now: u64) -> bool {
        &&& !self.spec_peers().spec_needs_outbound() ==> {
            &&& actions.len() == 0
            &&& after.spec_peers() == self.spec_peers()
        }
        &&& self.spec_peers().spec_needs_outbound() ==> {
            let plan = self.spec_connect_plan(now);
            &&& actions == plan.0
            &&& after.slots().connecting_set() == plan.1
            &&& after.spec_peers().spec_next_id() == plan.2
            &&& after.slots().peer_seq() == self.slots().peer_seq()
            &&& after.slots().addresses() == self.slots().addresses()
            &&& after.slots().outbound() == self.slots().outbound()
            &&& after.slots().inbound() == self.slots().inbound()
            &&& after.slots().max_out() == self.slots().max_out()
            &&& after.slots().max_in() == self.slots().max_in()
            &&& after.spec_peers().spec_target() == self.spec_peers().spec_target()
        }
    }

    /// Connection attempts towards the outbound target, at `now` (seconds
    /// since the Unix epoch): nothing when connections and attempts already
    /// reach the target; otherwise, of the addresses discovery offers
    /// (skipping connected peers' addresses, as many as outbound slots are
    /// missing from the target), those to connect to, each marked as being
    /// connected to under a fresh identifier.
    pub fn try_connect_peers(&mut self, now: u64) -> (r: Vec<NodeAction>)
        requires
            old(self).wf(),
        ensures
            final(self).wf(),
            old(self).after_connect(*final(self), r@, now),
            final(self).spec_sync() == old(self).spec_sync(),
            final(self).spec_gossip() == old(self).spec_gossip(),
            final(self).spec_discovery() == old(self).spec_discovery(),
            final(self).spec_contexts() == old(self).spec_contexts(),
            final(self).spec_config() == old(self).spec_config(),
            final(self).spec_genesis() == old(self).spec_genesis(),
    {
        let mut actions: Vec<NodeAction> = Vec::new();
        if !self.peers.needs_outbound() {
            return actions;
        }
        let list = self.peers.peers();
        let mut connected: VecSet<SocketAddress> = VecSet::new();
        let mut k: usize = 0;
        while k < list.len()
            invariant
                0 <= k <= list@.len(),
                list@ == self.slots().peer_seq(),
                connected.wf(),
                connected@ == peer_addr_set(list@.take(k as int)),
            decreases list@.len() - k,
        {
            let a = list[k].addr;
            connected.insert(a);
            proof {
                let t = list@.take(k + 1);
                assert forall|x: SocketAddress| #[trigger] peer_addr_set(t).contains(x) == peer_addr_set(
                    list@.take(k as int),
                ).insert(a).contains(x) by {
                    if peer_addr_set(t).contains(x) {
                        let j = choose|j: int| 0 <= j < t.len() && t[j].addr == x;
                        if j < k {
                            assert(list@.take(k as int)[j].addr == x);
                        }
                    }
                    if peer_addr_set(list@.take(k as int)).contains(x) {
                        let j = choose|j: int| 0 <= j < k && list@.take(k as int)[j].addr == x;
                        assert(t[j].addr == x);
                    }
                    assert(t[k as int].addr == a);
                }
                assert(peer_addr_set(t) =~= peer_addr_set(list@.take(k as int)).insert(a));
            }
            k += 1;
        }
        assert(list@.take(list@.len() as int) =~= list@);
        let (out, _) = self.peers.connection_counts();
        let needed = self.config.target_outbound.saturating_sub(out);
        let addrs = self.discovery.get_addresses_to_connect_at(&connected, needed, now);
        let can_out = self.peers.slots().can_connect_outbound();
        let ghost total = old(self).spec_connect_plan(now);
        assert(total == connect_plan(
            self.slots().addresses(),
            self.slots().connecting_set(),
            can_out,
            self.spec_peers().spec_next_id(),
            addrs@,
        ));
        let mut i: usize = 0;
        proof {
            assert(addrs@.skip(0) =~= addrs@);
        }
        while i < addrs.len()
            invariant
                0 <= i <= addrs@.len(),
                self.wf(),
                can_out == (old(self).slots().outbound() < old(self).slots().max_out()),
                self.slots().peer_seq() == old(self).slots().peer_seq(),
                self.slots().addresses() == old(self).slots().addresses(),
                self.slots().outbound() == old(self).slots().outbound(),
                self.slots().inbound() == old(self).slots().inbound(),
                self.slots().max_out() == old(self).slots().max_out(),
                self.slots().max_in() == old(self).slots().max_in(),
                self.spec_peers().spec_target() == old(self).spec_peers().spec_target(),
                self.spec_sync() == old(self).spec_sync(),
                self.spec_gossip() == old(self).spec_gossip(),
                self.spec_discovery() == old(self).spec_discovery(),
                self.spec_contexts() == old(self).spec_contexts(),
                self.spec_config() == old(self).spec_config(),
                self.spec_genesis() == old(self).spec_genesis(),
                ({
                    let rest = connect_plan(
                        self.slots().addresses(),
                        self.slots().connecting_set(),
                        can_out,
                        self.spec_peers().spec_next_id(),
                        addrs@.skip(i as int),
                    );
                    &&& actions@ + rest.0 == total.0
                    &&& rest.1 == total.1
                    &&& rest.2 == total.2
                }),
            decreases addrs@.len() - i,
        {
            let a = addrs[i];
            let ghost before = actions@;
            let ghost next = self.spec_peers().spec_next_id();
            proof {
                assert(addrs@.skip(i as int)[0] == a);
                assert(addrs@.skip(i as int).drop_first() =~= addrs@.skip(i + 1));
            }
            if self.peers.should_connect(&a) && self.peers.has_next_peer_id() {
                let id = self.peers.next_peer_id();
                self.peers.start_connecting(a);
                actions.push(NodeAction::Connect(id, a));
                proof {
                    let rest = connect_plan(
                        self.slots().addresses(),
                        self.slots().connecting_set(),
                        can_out,
                        self.spec_peers().spec_next_id(),
                        addrs@.skip(i + 1),
                    );
                    assert(actions@ + rest.0 =~= before + (seq![NodeAction::Connect(PeerId(next), a)] + rest.0));
                }
            }
            i += 1;
        }
        proof {
            assert(addrs@.skip(addrs@.len() as int) =~= Seq::<SocketAddress>::empty());
            assert(actions@ =~= actions@ + Seq::<NodeAction>::empty());
        }
        actions
    }

    /// Start syncing headers from `peer_id` at `now`; the request to send.
    fn start_sync(&mut self, peer_id: PeerId, our_height: u64, peer_height: u64, chain: &ChainView, now: u64) -> (r: NodeAction)
        requires
            old(self).wf(),
            chain.wf(),
        ensures
            final(self).wf(),
            sync_started(old(self).spec_sync(), final(self).spec_sync(), peer_id, our_height, peer_height, now),
            headers_request_to(r, peer_id, *chain),
            final(self).spec_peers() == old(self).spec_peers(),
            final(self).spec_gossip() == old(self).spec_gossip(),
            final(self).spec_discovery() == old(self).spec_discovery(),
            final(self).spec_contexts() == old(self).spec_contexts(),
            final(self).spec_config() == old(self).spec_config(),
            final(self).spec_genesis() == old(self).spec_genesis(),
    {
        self.sync.start_sync(peer_id, our_height, peer_height, now);
        let request = self.sync.create_headers_request(chain);
        NodeAction::Send(peer_id, request)
    }

    /// On the stall timer, at `now_ms` (monotonic milliseconds) and
    /// `now_secs` (seconds since the Unix epoch): when the sync stalled, the
    /// sync peer is disconnected and the sync reset; then syncing restarts
    /// from a peer with the best height if that is above ours, or, with no
    /// peer at all, more connections are attempted.
    pub fn check_sync_stall(&mut self, chain: &ChainView, now_ms: u64, now_secs: u64) -> (r: Vec<NodeAction>)
        requires
            old(self).wf(),
            chain.wf(),
        ensures
            final(self).wf(),
            final(self).spec_gossip() == old(self).spec_gossip(),
            final(self).spec_discovery() == old(self).spec_discovery(),
            final(self).spec_contexts() == old(self).spec_contexts(),
            final(self).spec_config() == old(self).spec_config(),
            final(self).spec_genesis() == old(self).spec_genesis(),
            !old(self).spec_sync().spec_is_stalled(now_ms) ==> {
                &&& r@.len() == 0
                &&& final(self).spec_sync() == old(self).spec_sync()
                &&& final(self).spec_peers() == old(self).spec_peers()
            },
            old(self).spec_sync().spec_is_stalled(now_ms) ==> {
                let stalled = old(self).spec_sync().spec_progress().state.spec_sync_peer()->0;
                let peers = old(self).slots().peer_seq();
                &&& r@.len() >= 1
                &&& r@[0] == NodeAction::Disconnect(stalled)
                &&& peers.len() == 0 ==> {
                    &&& sync_reset(old(self).spec_sync(), final(self).spec_sync())
                    &&& old(self).after_connect(*final(self), r@.drop_first(), now_secs)
                }
                &&& peers.len() > 0 ==> {
                    &&& final(self).spec_peers() == old(self).spec_peers()
                    &&& r@.len() <= 2
                    &&& r@.len() == 1 ==> {
                        &&& sync_reset(old(self).spec_sync(), final(self).spec_sync())
                        &&& exists|i: int|
                            0 <= i < peers.len() && peers[i].best_height <= chain.tip_height() && forall|j: int|
                                0 <= j < peers.len() ==> #[trigger] peers[j].best_height <= peers[i].best_height
                    }
                    &&& r@.len() == 2 ==> exists|i: int|
                        0 <= i < peers.len() && peers[i].best_height > chain.tip_height() && (forall|j: int|
                            0 <= j < peers.len() ==> #[trigger] peers[j].best_height <= peers[i].best_height)
                            && headers_request_to(r@[1], peers[i].id, *chain) && final(self).spec_sync().spec_progress().state
                            == (SyncState::SyncingHeaders {
                            peer_id: peers[i].id,
                            start_height: chain.tip_height() as u64,
                            target_height: peers[i].best_height,
                        }) && final(self).spec_sync().spec_downloader().queue().len() == 0
                            && final(self).spec_sync().spec_downloader().in_flight().len() == 0
                            && final(self).spec_sync().spec_last_activity() == Some(now_ms)
                }
            },
    {
        let mut actions: Vec<NodeAction> = Vec::new();
        if !self.sync.is_stalled(now_ms) {
            return actions;
        }
        let stalled = match self.sync.sync_peer() {
            Some(p) => p,
            None => {
                return actions;
            },
        };
        actions.push(NodeAction::Disconnect(stalled));
        self.sync.reset();
        let our_height = chain.height();
        match self.peers.best_peer() {
            Some(best) => {
                let ghost peers = self.slots().peer_seq();
                let ghost i = choose|i: int|
                    0 <= i < peers.len() && peers[i].id == best && forall|j: int|
                        0 <= j < peers.len() ==> #[trigger] peers[j].best_height <= peers[i].best_height;
                match self.peers.get_peer(&best) {
                    Some(info) => {
                        proof {
                            self.slots().lemma_peer_index(best, i);
                        }
                        let height = info.best_height;
                        if height > our_height {
                            let a = self.start_sync(best, our_height, height, chain, now_ms);
                            actions.push(a);
                        }
                    },
                    None => {},
                }
            },
            None => {
                let mut more = self.try_connect_peers(now_secs);
                let ghost planned = more@;
                actions.append(&mut more);
                assert(actions@.drop_first() =~= planned);
            },
        }
        actions
    }

    /// A peer finished its handshake, at `now_ms` (monotonic milliseconds)
    /// and `now_secs` (seconds since the Unix epoch): its address is
    /// recorded as seen and no longer being connected to; what it announced
    /// updates the peer registered under `peer_id`, or else `info` is
    /// registered; syncing starts from it when it is ahead of our chain and
    /// no sync runs; it gets a fresh misbehavior context; it is asked for
    /// addresses, and observers are told.
    pub fn handle_peer_connected(
        &mut self,
        peer_id: PeerId,
        info: PeerInfo,
        chain: &ChainView,
        now_ms: u64,
        now_secs: u64,
    ) -> (r: Vec<NodeAction>)
        requires
            old(self).wf(),
            chain.wf(),
        ensures
            final(self).wf(),
            final(self).spec_discovery().spec_exchange().known() == after_add(
                old(self).spec_discovery().spec_exchange().known(),
                old(self).spec_discovery().spec_exchange().max_addresses(),
                old(self).spec_discovery().spec_exchange().our_addr(),
                old(self).spec_discovery().spec_exchange().validates(),
                info.addr,
                now_secs,
            ),
            final(self).spec_discovery().spec_dirty(),
            final(self).spec_discovery().spec_bootstrap() == old(self).spec_discovery().spec_bootstrap(),
            has_peer(old(self).slots().peer_seq(), peer_id) ==> {
                let i = peer_index(old(self).slots().peer_seq(), peer_id);
                &&& final(self).slots().peer_seq() == old(self).slots().peer_seq().update(
                    i,
                    PeerInfo {
                        best_height: info.best_height,
                        best_hash: info.best_hash,
                        protocol_version: info.protocol_version,
                        user_agent: info.user_agent,
                        ..old(self).slots().peer_seq()[i]
                    },
                )
                &&& final(self).slots().addresses() == old(self).slots().addresses()
                &&& final(self).slots().connecting_set() == old(self).slots().connecting_set().remove(info.addr)
                &&& final(self).slots().outbound() == old(self).slots().outbound()
                &&& final(self).slots().inbound() == old(self).slots().inbound()
                &&& final(self).slots().max_out() == old(self).slots().max_out()
                &&& final(self).slots().max_in() == old(self).slots().max_in()
            },
            !has_peer(old(self).slots().peer_seq(), peer_id) && count_has_room(old(self).slots(), info.direction)
                ==> peer_added(old(self).slots(), final(self).slots(), info),
            !has_peer(old(self).slots().peer_seq(), peer_id) && !count_has_room(old(self).slots(), info.direction)
                ==> {
                &&& final(self).slots().peer_seq() == old(self).slots().peer_seq()
                &&& final(self).slots().addresses() == old(self).slots().addresses()
                &&& final(self).slots().connecting_set() == old(self).slots().connecting_set().remove(info.addr)
                &&& final(self).slots().outbound() == old(self).slots().outbound()
                &&& final(self).slots().inbound() == old(self).slots().inbound()
            },
            final(self).spec_peers().spec_next_id() == old(self).spec_peers().spec_next_id(),
            final(self).spec_peers().spec_target() == old(self).spec_peers().spec_target(),
            ({
                let start = info.best_height > chain.tip_height()
                    && !old(self).spec_sync().spec_progress().state.spec_is_syncing();
                &&& start ==> sync_started(
                    old(self).spec_sync(),
                    final(self).spec_sync(),
                    peer_id,
                    chain.tip_height() as u64,
                    info.best_height,
                    now_ms,
                )
                &&& !start ==> final(self).spec_sync() == old(self).spec_sync()
                &&& r@.len() == (if start { 3int } else { 2int })
                &&& start ==> headers_request_to(r@[0], peer_id, *chain)
            }),
            r@[r@.len() - 2] == NodeAction::Send(peer_id, Message::GetPeers),
            r@[r@.len() - 1] matches NodeAction::Notify(u) && final(self).reported_by(u),
            final(self).spec_contexts().contains_key(peer_id),
            fresh_context(final(self).spec_contexts()[peer_id]),
            final(self).spec_contexts().remove(peer_id) == old(self).spec_contexts().remove(peer_id),
            final(self).spec_gossip() == old(self).spec_gossip(),
            final(self).spec_config() == old(self).spec_config(),
            final(self).spec_genesis() == old(self).spec_genesis(),
    {
        self.discovery.mark_seen_at(info.addr, now_secs);
        let ghost s0 = self.slots();
        self.peers.stop_connecting(&info.addr);
        let known = self.peers.get_peer(&peer_id).is_some();
        if known {
            let user_agent = match &info.user_agent {
                Some(ua) => Some(ua.clone()),
                None => None,
            };
            self.peers.update_peer_details(
                &peer_id,
                info.best_height,
                info.best_hash,
                info.protocol_version,
                user_agent,
            );
        } else {
            let (out, inb) = self.peers.connection_counts();
            let room = match info.direction {
                ConnectionDirection::Outbound => out < usize::MAX,
                ConnectionDirection::Inbound => inb < usize::MAX,
            };
            if room {
                self.peers.add_peer(info.copy());
                proof {
                    assert(s0.connecting_set().remove(info.addr).remove(info.addr) =~= s0.connecting_set().remove(
                        info.addr,
                    ));
                }
            }
        }
        let our_height = chain.height();
        let mut actions: Vec<NodeAction> = Vec::new();
        if info.best_height > our_height && !self.sync.is_syncing() {
            let a = self.start_sync(peer_id, our_height, info.best_height, chain, now_ms);
            actions.push(a);
        }
        let ghost c0 = self.spec_contexts();
        self.peer_contexts.insert(peer_id, PeerContext::new());
        proof {
            assert(self.spec_contexts().remove(peer_id) =~= c0.remove(peer_id));
        }
        actions.push(NodeAction::Send(peer_id, Message::GetPeers));
        let update = self.state_update();
        actions.push(NodeAction::Notify(update));
        actions
    }

    /// A peer's connection ended: it is unregistered, the sync learns of
    /// it, its misbehavior context is dropped, and observers are told.
    pub fn handle_peer_disconnected(&mut self, peer_id: PeerId) -> (r: Vec<NodeAction>)
        requires
            old(self).wf(),
        ensures
            final(self).wf(),
            peer_removed(old(self).slots(), final(self).slots(), peer_id),
            final(self).spec_peers().spec_next_id() == old(self).spec_peers().spec_next_id(),
            final(self).spec_peers().spec_target() == old(self).spec_peers().spec_target(),
            old(self).spec_sync().after_peer_disconnected(final(self).spec_sync(), peer_id),
            final(self).spec_contexts() == old(self).spec_contexts().remove(peer_id),
            r@.len() == 1,
            r@[0] matches NodeAction::Notify(u) && final(self).reported_by(u),
            final(self).spec_gossip() == old(self).spec_gossip(),
            final(self).spec_discovery() == old(self).spec_discovery(),
            final(self).spec_config() == old(self).spec_config(),
            final(self).spec_genesis() == old(self).spec_genesis(),
    {
        let _ = self.peers.remove_peer(&peer_id);
        self.sync.peer_disconnected(&peer_id);
        let _ = self.peer_contexts.remove(&peer_id);
        let mut actions: Vec<NodeAction> = Vec::new();
        let update = self.state_update();
        actions.push(NodeAction::Notify(update));
        actions
    }

    /// A connection to `addr` failed its handshake: the address is no
    /// longer being connected to, and the peer is unregistered with its
    /// misbehavior context.
    pub fn handle_handshake_failed(&mut self, peer_id: PeerId, addr: SocketAddress)
        requires
            old(self).wf(),
        ensures
            final(self).wf(),
            exists|mid: ConnectionSlots|
                {
                    &&& mid.connecting_set() == old(self).slots().connecting_set().remove(addr)
                    &&& mid.peer_seq() == old(self).slots().peer_seq()
                    &&& mid.addresses() == old(self).slots().addresses()
                    &&& mid.outbound() == old(self).slots().outbound()
                    &&& mid.inbound() == old(self).slots().inbound()
                    &&& mid.max_out() == old(self).slots().max_out()
                    &&& mid.max_in() == old(self).slots().max_in()
                    &&& peer_removed(mid, final(self).slots(), peer_id)
                },
            final(self).spec_peers().spec_next_id() == old(self).spec_peers().spec_next_id(),
            final(self).spec_peers().spec_target() == old(self).spec_peers().spec_target(),
            final(self).spec_contexts() == old(self).spec_contexts().remove(peer_id),
            final(self).spec_sync() == old(self).spec_sync(),
            final(self).spec_gossip() == old(self).spec_gossip(),
            final(self).spec_discovery() == old(self).spec_discovery(),
            final(self).spec_config() == old(self).spec_config(),
            final(self).spec_genesis() == old(self).spec_genesis(),
    {
        self.peers.stop_connecting(&addr);
        let ghost mid = self.slots();
        let _ = self.peers.remove_peer(&peer_id);
        let _ = self.peer_contexts.remove(&peer_id);
        assert(peer_removed(mid, self.slots(), peer_id));
    }

    /// Record that a peer sent invalid data: its misbehavior count rises
    /// (unless it cannot count higher) and its score drops; the peer is to
    /// be disconnected when that earns a ban. Nothing happens for a peer
    /// without a context.
    pub fn record_peer_misbehavior(&mut self, peer_id: PeerId) -> (r: Vec<NodeAction>)
        requires
            old(self).wf(),
        ensures
            final(self).wf(),
            misbehavior_recorded(old(self).spec_contexts(), final(self).spec_contexts(), peer_id, r@),
            final(self).spec_peers() == old(self).spec_peers(),
            final(self).spec_sync() == old(self).spec_sync(),
            final(self).spec_gossip() == old(self).spec_gossip(),
            final(self).spec_discovery() == old(self).spec_discovery(),
            final(self).spec_config() == old(self).spec_config(),
            final(self).spec_genesis() == old(self).spec_genesis(),
    {
        let mut actions: Vec<NodeAction> = Vec::new();
        let ghost c0 = self.spec_contexts();
        match self.peer_contexts.remove(&peer_id) {
            Some(mut ctx) => {
                if ctx.invalid_messages < usize::MAX {
                    ctx.record_invalid();
                }
                let ban = ctx.should_ban();
                let ghost c2 = ctx;
                self.peer_contexts.insert(peer_id, ctx);
                proof {
                    assert(self.spec_contexts() =~= c0.insert(peer_id, c2));
                }
                if ban {
                    actions.push(NodeAction::Disconnect(peer_id));
                }
                assert(actions@ =~= (if banned(c2) {
                    seq![NodeAction::Disconnect(peer_id)]
                } else {
                    Seq::<NodeAction>::empty()
                }));
            },
            None => {
                assert(self.spec_contexts() =~= c0);
            },
        }
        actions
    }

    /// `after` is this node once `peer`, the sync peer, answered with
    /// `headers`, at `now`, with the actions `r`. Headers that cannot be
    /// counted, or that fail validation, count as misbehavior and end the
    /// sync with that peer. Otherwise the headers are taken; when there were
    /// any, blocks are requested from the peer and then more headers.
    pub open spec fn after_headers_response(
        &self,
        after: P2pNode,
        r: Seq<NodeAction>,
        peer: PeerId,
        headers: Seq<BlockHeader>,
        chain: ChainView,
        now: u64,
    ) -> bool {
        let countable = headers_countable(self.spec_sync(), headers);
        let valid = headers.len() == 0 || spec_validate_headers(chain.blocks@, headers) is Ok;
        &&& after.wf()
        &&& after.spec_peers() == self.spec_peers()
        &&& after.spec_gossip() == self.spec_gossip()
        &&& after.spec_discovery() == self.spec_discovery()
        &&& after.spec_config() == self.spec_config()
        &&& after.spec_genesis() == self.spec_genesis()
        &&& !countable ==> {
            &&& misbehavior_recorded(self.spec_contexts(), after.spec_contexts(), peer, r)
            &&& self.spec_sync().after_peer_disconnected(after.spec_sync(), peer)
        }
        &&& countable && !valid ==> exists|mid: SyncManager, e: P2pError|
            {
                &&& self.spec_sync().after_process_headers(mid, chain.blocks@, headers, now, Err(e))
                &&& misbehavior_recorded(self.spec_contexts(), after.spec_contexts(), peer, r)
                &&& mid.after_peer_disconnected(after.spec_sync(), peer)
            }
        &&& countable && valid && headers.len() == 0 ==> {
            &&& r.len() == 0
            &&& after.spec_contexts() == self.spec_contexts()
            &&& self.spec_sync().after_process_headers(after.spec_sync(), chain.blocks@, headers, now, Ok(()))
        }
        &&& countable && valid && headers.len() > 0 ==> exists|mid: SyncManager, reqs: Seq<Message>|
            {
                &&& self.spec_sync().after_process_headers(mid, chain.blocks@, headers, now, Ok(()))
                &&& mid.after_next_block_requests(after.spec_sync(), BLOCK_REQUEST_BATCH, reqs)
                &&& r.len() == reqs.len() + 1
                &&& r.take(reqs.len() as int) == sends_to(peer, reqs)
                &&& headers_request_to(r.last(), peer, chain)
                &&& after.spec_contexts() == self.spec_contexts()
            }
    }

    /// Handle headers from the sync peer (see `after_headers_response`).
    pub fn handle_headers_response(&mut self, peer_id: PeerId, response: HeadersMessage, chain: &ChainView, now: u64) -> (r: Vec<NodeAction>)
        requires
            old(self).wf(),
            chain.wf(),
        ensures
            old(self).after_headers_response(*final(self), r@, peer_id, response.headers@, *chain, now),
    {
        let mut countable = self.sync.progress().headers_downloaded <= u64::MAX - (response.headers.len() as u64);
        let mut i: usize = 0;
        while i < response.headers.len()
            invariant
                0 <= i <= response.headers@.len(),
                countable ==> forall|j: int| 0 <= j < i ==> #[trigger] response.headers@[j].height < u64::MAX,
                countable ==> self.spec_sync().spec_progress().headers_downloaded + response.headers@.len() <= u64::MAX,
                !countable ==> !headers_countable(self.spec_sync(), response.headers@),
            decreases response.headers@.len() - i,
        {
            if response.headers[i].height == u64::MAX {
                countable = false;
            }
            i += 1;
        }
        if !countable {
            let actions = self.record_peer_misbehavior(peer_id);
            self.sync.peer_disconnected(&peer_id);
            return actions;
        }
        match self.sync.process_headers(chain, &response, now) {
            Ok(()) => {
                let mut actions: Vec<NodeAction> = Vec::new();
                if response.headers.len() > 0 {
                    actions = self.request_next_blocks(peer_id, now);
                    let ghost reqs_actions = actions@;
                    let request = self.sync.create_headers_request(chain);
                    actions.push(NodeAction::Send(peer_id, request));
                    assert(actions@.take(reqs_actions.len() as int) =~= reqs_actions);
                }
                actions
            },
            Err(_) => {
                let actions = self.record_peer_misbehavior(peer_id);
                self.sync.peer_disconnected(&peer_id);
                actions
            },
        }
    }

    /// Ask the sync peer for the next batch of blocks, at `now`.
    fn request_next_blocks(&mut self, peer_id: PeerId, now: u64) -> (r: Vec<NodeAction>)
        requires
            old(self).wf(),
        ensures
            final(self).wf(),
            exists|reqs: Seq<Message>|
                old(self).spec_sync().after_next_block_requests(final(self).spec_sync(), BLOCK_REQUEST_BATCH, reqs)
                    && r@ == sends_to(peer_id, reqs),
            final(self).spec_peers() == old(self).spec_peers(),
            final(self).spec_gossip() == old(self).spec_gossip(),
            final(self).spec_discovery() == old(self).spec_discovery(),
            final(self).spec_contexts() == old(self).spec_contexts(),
            final(self).spec_config() == old(self).spec_config(),
            final(self).spec_genesis() == old(self).spec_genesis(),
    {
        let requests = self.sync.next_block_requests(peer_id, BLOCK_REQUEST_BATCH, now);
        send_all(peer_id, requests)
    }

    /// `after` is this node once it counted the block `hash` at `height` as
    /// received during sync, at `now`, with the actions `r` asking for the
    /// next blocks while any remain. A block the sync cannot count any more
    /// changes nothing.
    pub open spec fn after_block_counted(
        &self,
        after: P2pNode,
        r: Seq<NodeAction>,
        peer: PeerId,
        hash: [u8; 32],
        height: u64,
        now: u64,
    ) -> bool {
        &&& after.wf()
        &&& after.spec_peers() == self.spec_peers()
        &&& after.spec_discovery() == self.spec_discovery()
        &&& after.spec_contexts() == self.spec_contexts()
        &&& after.spec_config() == self.spec_config()
        &&& after.spec_genesis() == self.spec_genesis()
        &&& self.spec_sync().spec_progress().blocks_downloaded + 2 > u64::MAX ==> {
            &&& r.len() == 0
            &&& after.spec_sync() == self.spec_sync()
        }
        &&& self.spec_sync().spec_progress().blocks_downloaded + 2 <= u64::MAX ==> exists|mid: SyncManager|
            {
                &&& self.spec_sync().after_process_block(mid, hash, height, now)
                &&& has_pending(mid) ==> exists|reqs: Seq<Message>|
                    mid.after_next_block_requests(after.spec_sync(), BLOCK_REQUEST_BATCH, reqs) && r
                        == sends_to(peer, reqs)
                &&& !has_pending(mid) ==> after.spec_sync() == mid && r.len() == 0
            }
    }

    /// Count a block received during sync and ask for more.
    fn count_synced_block(&mut self, peer_id: PeerId, hash: [u8; 32], height: u64, now: u64) -> (r: Vec<NodeAction>)
        requires
            old(self).wf(),
        ensures
            old(self).after_block_counted(*final(self), r@, peer_id, hash, height, now),
            final(self).spec_gossip() == old(self).spec_gossip(),
    {
        if self.sync.progress().blocks_downloaded > u64::MAX - 2 {
            return Vec::new();
        }
        self.sync.process_block(&hash, height, now);
        let ghost mid = self.spec_sync();
        if self.sync.has_pending_blocks() {
            let r = self.request_next_blocks(peer_id, now);
            proof {
                let reqs = choose|reqs: Seq<Message>|
                    mid.after_next_block_requests(self.spec_sync(), BLOCK_REQUEST_BATCH, reqs) && r@ == sends_to(
                        peer_id,
                        reqs,
                    );
                assert(mid.after_next_block_requests(self.spec_sync(), BLOCK_REQUEST_BATCH, reqs) && r@
                    == sends_to(peer_id, reqs));
                assert(old(self).spec_sync().after_process_block(mid, hash, height, now) && (has_pending(mid)
                    ==> exists|reqs: Seq<Message>|
                    mid.after_next_block_requests(self.spec_sync(), BLOCK_REQUEST_BATCH, reqs) && r@
                        == sends_to(peer_id, reqs)) && (!has_pending(mid) ==> self.spec_sync() == mid
                    && r@.len() == 0));
            }
            r
        } else {
            let r: Vec<NodeAction> = Vec::new();
            assert(old(self).spec_sync().after_process_block(mid, hash, height, now) && (has_pending(mid)
                ==> exists|reqs: Seq<Message>|
                mid.after_next_block_requests(self.spec_sync(), BLOCK_REQUEST_BATCH, reqs) && r@ == sends_to(
                    peer_id,
                    reqs,
                )) && (!has_pending(mid) ==> self.spec_sync() == mid && r@.len() == 0));
            r
        }
    }

    /// A block `peer` sent during sync, at `now`: one the chain already
    /// holds is counted right away (see `after_block_counted`); any other
    /// is for the chain to add first.
    pub fn handle_block_data(&mut self, peer_id: PeerId, block: Block, chain: &ChainView, now: u64) -> (r: Vec<NodeAction>)
        requires
            old(self).wf(),
        ensures
            knows(chain.blocks@, block.header.hash) ==> old(self).after_block_counted(
                *final(self),
                r@,
                peer_id,
                block.header.hash,
                block.header.height,
                now,
            ) && final(self).spec_gossip() == old(self).spec_gossip(),
            !knows(chain.blocks@, block.header.hash) ==> {
                &&& r@ == seq![NodeAction::AddSyncedBlock(peer_id, block)]
                &&& *final(self) == *old(self)
            },
    {
        if chain.has_block(&block.header.hash) {
            self.count_synced_block(peer_id, block.header.hash, block.header.height, now)
        } else {
            let mut actions: Vec<NodeAction> = Vec::new();
            actions.push(NodeAction::AddSyncedBlock(peer_id, block));
            actions
        }
    }

    /// The chain's answer on a block received during sync, at `now`: an
    /// added block is counted (see `after_block_counted`) and marked seen,
    /// and orphans are looked at first; a refused one changes nothing.
    pub fn synced_block_added(&mut self, peer_id: PeerId, hash: [u8; 32], height: u64, added: bool, now: u64) -> (r: Vec<NodeAction>)
        requires
            old(self).wf(),
        ensures
            !added ==> r@.len() == 0 && *final(self) == *old(self),
            added ==> {
                &&& r@.len() >= 1
                &&& r@[0] == NodeAction::ProcessOrphans
                &&& exists|mid: P2pNode|
                    {
                        &&& old(self).after_block_counted(mid, r@.drop_first(), peer_id, hash, height, now)
                        &&& final(self).spec_gossip().seen_blocks() == keys_after_put(
                            old(self).spec_gossip().seen_blocks(),
                            DEFAULT_CAPACITY as nat,
                            hash,
                        )
                        &&& final(self).spec_gossip().seen_txs() == old(self).spec_gossip().seen_txs()
                        &&& final(self).spec_gossip().orphans() == old(self).spec_gossip().orphans()
                        &&& final(self).spec_sync() == mid.spec_sync()
                        &&& final(self).spec_peers() == mid.spec_peers()
                        &&& final(self).spec_discovery() == mid.spec_discovery()
                        &&& final(self).spec_contexts() == mid.spec_contexts()
                        &&& final(self).spec_config() == mid.spec_config()
                        &&& final(self).spec_genesis() == mid.spec_genesis()
                    }
                &&& final(self).wf()
            },
    {
        let mut actions: Vec<NodeAction> = Vec::new();
        if !added {
            return actions;
        }
        actions.push(NodeAction::ProcessOrphans);
        let mut more = self.count_synced_block(peer_id, hash, height, now);
        let ghost counted = more@;
        self.gossip.mark_block_seen(hash);
        actions.append(&mut more);
        assert(actions@.drop_first() =~= counted);
        actions
    }

    /// The mempool's answer on a gossiped transaction from `from`: a
    /// transaction taken is relayed to every other peer; a refused one
    /// counts as misbehavior.
    pub fn transaction_added(&mut self, from: PeerId, tx: SignedTransaction, added: Result<(), String>) -> (r: Vec<NodeAction>)
        requires
            old(self).wf(),
        ensures
            final(self).wf(),
            added is Ok ==> {
                &&& r@ == seq![
                    NodeAction::BroadcastExcept(
                        Message::NewTransaction(NewTransactionMessage { transaction: tx }),
                        from,
                    ),
                ]
                &&& *final(self) == *old(self)
            },
            added is Err ==> misbehavior_recorded(old(self).spec_contexts(), final(self).spec_contexts(), from, r@),
            final(self).spec_peers() == old(self).spec_peers(),
            final(self).spec_sync() == old(self).spec_sync(),
            final(self).spec_gossip() == old(self).spec_gossip(),
            final(self).spec_discovery() == old(self).spec_discovery(),
            final(self).spec_config() == old(self).spec_config(),
            final(self).spec_genesis() == old(self).spec_genesis(),
    {
        match GossipManager::transaction_processed(tx, added) {
            Ok(Some((_, message))) => {
                let mut actions: Vec<NodeAction> = Vec::new();
                actions.push(NodeAction::BroadcastExcept(message, from));
                actions
            },
            Ok(None) => Vec::new(),
            Err(_) => self.record_peer_misbehavior(from),
        }
    }

    /// `after` is this node once `from` announced `block`, at `now`, with
    /// the actions `r`. A block whose parent the chain lacks is queued as an
    /// orphan, and syncing starts from `from` when none runs and it is
    /// ahead of our chain. Otherwise the block is checked, and one not seen
    /// before and not in the chain is for the chain to add.
    pub open spec fn after_new_block(&self, after: P2pNode, r: Seq<NodeAction>, from: PeerId, block: Block, chain: ChainView, now: u64) -> bool {
        &&& after.wf()
        &&& after.spec_peers() == self.spec_peers()
        &&& after.spec_discovery() == self.spec_discovery()
        &&& after.spec_contexts() == self.spec_contexts()
        &&& after.spec_config() == self.spec_config()
        &&& after.spec_genesis() == self.spec_genesis()
        &&& !knows(chain.blocks@, block.header.prev_block_hash) ==> {
            let peers = self.slots().peer_seq();
            let start = !self.spec_sync().spec_progress().state.spec_is_syncing() && has_peer(peers, from)
                && peers[peer_index(peers, from)].best_height > chain.tip_height();
            &&& after.spec_gossip().orphans() == self.spec_gossip().orphans_after_queue(block, now)
            &&& after.spec_gossip().seen_blocks() == (if self.spec_gossip().orphans_after_queue(block, now).len()
                > unexpired(self.spec_gossip().orphans(), now).len() {
                keys_after_put(self.spec_gossip().seen_blocks(), DEFAULT_CAPACITY as nat, block.header.hash)
            } else {
                self.spec_gossip().seen_blocks()
            })
            &&& after.spec_gossip().seen_txs() == self.spec_gossip().seen_txs()
            &&& start ==> {
                &&& r.len() == 1
                &&& headers_request_to(r[0], from, chain)
                &&& sync_started(
                    self.spec_sync(),
                    after.spec_sync(),
                    from,
                    chain.tip_height() as u64,
                    peers[peer_index(peers, from)].best_height,
                    now,
                )
            }
            &&& !start ==> r.len() == 0 && after.spec_sync() == self.spec_sync()
        }
        &&& knows(chain.blocks@, block.header.prev_block_hash) ==> {
            &&& after.spec_sync() == self.spec_sync()
            &&& after.spec_gossip().seen_blocks() == keys_after_check(
                self.spec_gossip().seen_blocks(),
                DEFAULT_CAPACITY as nat,
                block.header.hash,
            )
            &&& after.spec_gossip().seen_blocks().contains(block.header.hash)
            &&& after.spec_gossip().seen_txs() == self.spec_gossip().seen_txs()
            &&& after.spec_gossip().orphans() == self.spec_gossip().orphans()
            &&& r == (if block_check(
                self.spec_gossip().seen_blocks().contains(block.header.hash),
                chain.blocks@,
                block,
            ) == BlockCheck::Accept {
                seq![NodeAction::AddRelayedBlock(from, block)]
            } else {
                Seq::<NodeAction>::empty()
            })
        }
    }

    /// Handle a block announced by a peer (see `after_new_block`).
    pub fn handle_new_block(&mut self, from: PeerId, block: Block, chain: &ChainView, now: u64) -> (r: Vec<NodeAction>)
        requires
            old(self).wf(),
            chain.wf(),
        ensures
            old(self).after_new_block(*final(self), r@, from, block, *chain, now),
    {
        let mut actions: Vec<NodeAction> = Vec::new();
        if !chain.has_block(&block.header.prev_block_hash) {
            self.gossip.queue_orphan(block, now);
            if !self.sync.is_syncing() {
                match self.peers.get_peer(&from) {
                    Some(info) => {
                        let peer_height = info.best_height;
                        let our_height = chain.height();
                        if peer_height > our_height {
                            let a = self.start_sync(from, our_height, peer_height, chain, now);
                            actions.push(a);
                        }
                    },
                    None => {},
                }
            }
            return actions;
        }
        match self.gossip.check_block(&block, chain) {
            BlockCheck::Accept => {
                actions.push(NodeAction::AddRelayedBlock(from, block));
            },
            _ => {},
        }
        assert(actions@ =~= (if block_check(
            old(self).spec_gossip().seen_blocks().contains(block.header.hash),
            chain.blocks@,
            block,
        ) == BlockCheck::Accept {
            seq![NodeAction::AddRelayedBlock(from, block)]
        } else {
            Seq::<NodeAction>::empty()
        }));
        actions
    }

    /// The chain's answer on a block `from` announced, the chain's height
    /// once it answered being `new_height`: an added block becomes `from`'s
    /// tip and is relayed to every other peer, then orphans are looked at
    /// and the block's transactions leave the mempool; a refused block
    /// counts as misbehavior.
    pub fn relayed_block_added(&mut self, from: PeerId, block: Block, added: Result<(), String>, new_height: u64) -> (r: Vec<NodeAction>)
        requires
            old(self).wf(),
        ensures
            final(self).wf(),
            added is Ok ==> {
                let peers = old(self).slots().peer_seq();
                &&& r@ == seq![
                    NodeAction::BroadcastExcept(Message::NewBlock(NewBlockMessage { block }), from),
                    NodeAction::ProcessOrphans,
                    NodeAction::RemoveConfirmed(block.header.hash),
                ]
                &&& has_peer(peers, from) ==> final(self).slots().peer_seq() == peers.update(
                    peer_index(peers, from),
                    PeerInfo { best_height: new_height, best_hash: block.header.hash, ..peers[peer_index(peers, from)] },
                )
                &&& !has_peer(peers, from) ==> final(self).slots().peer_seq() == peers
                &&& final(self).slots().addresses() == old(self).slots().addresses()
                &&& final(self).slots().connecting_set() == old(self).slots().connecting_set()
                &&& final(self).slots().outbound() == old(self).slots().outbound()
                &&& final(self).slots().inbound() == old(self).slots().inbound()
                &&& final(self).spec_peers().spec_next_id() == old(self).spec_peers().spec_next_id()
                &&& final(self).spec_contexts() == old(self).spec_contexts()
            },
            added is Err ==> {
                &&& misbehavior_recorded(old(self).spec_contexts(), final(self).spec_contexts(), from, r@)
                &&& final(self).spec_peers() == old(self).spec_peers()
            },
            final(self).spec_sync() == old(self).spec_sync(),
            final(self).spec_gossip() == old(self).spec_gossip(),
            final(self).spec_discovery() == old(self).spec_discovery(),
            final(self).spec_config() == old(self).spec_config(),
            final(self).spec_genesis() == old(self).spec_genesis(),
    {
        let refused = added.is_err();
        match GossipManager::block_processed(block, added) {
            Ok(Some((hash, message))) => {
                self.peers.update_peer_tip(&from, new_height, hash);
                let mut actions: Vec<NodeAction> = Vec::new();
                actions.push(NodeAction::BroadcastExcept(message, from));
                actions.push(NodeAction::ProcessOrphans);
                actions.push(NodeAction::RemoveConfirmed(hash));
                actions
            },
            _ => {
                if refused {
                    self.record_peer_misbehavior(from)
                } else {
                    Vec::new()
                }
            },
        }
    }

    /// Take an orphan whose parent the chain now holds (see
    /// `GossipManager::get_processable_orphan`).
    pub fn next_orphan(&mut self, chain: &ChainView) -> (r: Option<Block>)
        requires
            old(self).wf(),
        ensures
            final(self).wf(),
            final(self).spec_gossip().seen_txs() == old(self).spec_gossip().seen_txs(),
            final(self).spec_gossip().seen_blocks() == old(self).spec_gossip().seen_blocks(),
            (exists|i: int|
                0 <= i < old(self).spec_gossip().orphans().len() && knows(
                    chain.blocks@,
                    #[trigger] old(self).spec_gossip().orphans()[i].block.header.prev_block_hash,
                )) ==> {
                let s = old(self).spec_gossip().orphans();
                let parent = s[first_processable(s, chain.blocks@)].block.header.prev_block_hash;
                let k = last_with_parent(s, parent);
                &&& r == Some(s[k].block)
                &&& final(self).spec_gossip().orphans() == s.remove(k)
            },
            !(exists|i: int|
                0 <= i < old(self).spec_gossip().orphans().len() && knows(
                    chain.blocks@,
                    #[trigger] old(self).spec_gossip().orphans()[i].block.header.prev_block_hash,
                )) ==> r is None && final(self).spec_gossip().orphans() == old(self).spec_gossip().orphans(),
            final(self).spec_peers() == old(self).spec_peers(),
            final(self).spec_sync() == old(self).spec_sync(),
            final(self).spec_discovery() == old(self).spec_discovery(),
            final(self).spec_contexts() == old(self).spec_contexts(),
            final(self).spec_config() == old(self).spec_config(),
            final(self).spec_genesis() == old(self).spec_genesis(),
    {
        let ghost g = self.gossip;
        let r = self.gossip.get_processable_orphan(chain);
        proof {
            assert(g.orphans() == old(self).spec_gossip().orphans());
            if !(exists|i: int|
                0 <= i < old(self).spec_gossip().orphans().len() && knows(
                    chain.blocks@,
                    #[trigger] old(self).spec_gossip().orphans()[i].block.header.prev_block_hash,
                )) {
                assert(!(exists|i: int|
                    0 <= i < g.orphans().len() && knows(
                        chain.blocks@,
                        #[trigger] g.orphans()[i].block.header.prev_block_hash,
                    )));
            }
        }
        r
    }

    /// Check a block before the chain is asked to add it (see
    /// `BlockRelay::check_block`).
    pub fn check_block(&mut self, block: &Block, chain: &ChainView) -> (r: BlockCheck)
        requires
            old(self).wf(),
        ensures
            final(self).wf(),
            r == block_check(old(self).spec_gossip().seen_blocks().contains(block.header.hash), chain.blocks@, *block),
            final(self).spec_gossip().seen_blocks() == keys_after_check(
                old(self).spec_gossip().seen_blocks(),
                DEFAULT_CAPACITY as nat,
                block.header.hash,
            ),
            final(self).spec_gossip().seen_blocks().contains(block.header.hash),
            final(self).spec_gossip().seen_txs() == old(self).spec_gossip().seen_txs(),
            final(self).spec_gossip().orphans() == old(self).spec_gossip().orphans(),
            final(self).spec_peers() == old(self).spec_peers(),
            final(self).spec_sync() == old(self).spec_sync(),
            final(self).spec_discovery() == old(self).spec_discovery(),
            final(self).spec_contexts() == old(self).spec_contexts(),
            final(self).spec_config() == old(self).spec_config(),
            final(self).spec_genesis() == old(self).spec_genesis(),
    {
        self.gossip.check_block(block, chain)
    }

    /// The chain's answer on an orphan that passed `check_block`: an added
    /// orphan is relayed to every peer, since its sender is not known.
    pub fn orphan_added(&self, block: Block, added: Result<(), String>) -> (r: Vec<NodeAction>)
        ensures
            added is Ok ==> r@ == seq![NodeAction::Broadcast(Message::NewBlock(NewBlockMessage { block }))],
            added is Err ==> r@.len() == 0,
    {
        let mut actions: Vec<NodeAction> = Vec::new();
        match GossipManager::block_processed(block, added) {
            Ok(Some((_, message))) => {
                actions.push(NodeAction::Broadcast(message));
            },
            _ => {},
        }
        actions
    }

    /// A block mined locally: it is marked seen and sent to every peer.
    pub fn handle_block_submission(&mut self, block: Block) -> (r: Vec<NodeAction>)
        requires
            old(self).wf(),
        ensures
            final(self).wf(),
            r@ == seq![NodeAction::Broadcast(Message::NewBlock(NewBlockMessage { block }))],
            final(self).spec_gossip().seen_blocks() == keys_after_put(
                old(self).spec_gossip().seen_blocks(),
                DEFAULT_CAPACITY as nat,
                block.header.hash,
            ),
            final(self).spec_gossip().seen_blocks().contains(block.header.hash),
            final(self).spec_gossip().seen_txs() == old(self).spec_gossip().seen_txs(),
            final(self).spec_gossip().orphans() == old(self).spec_gossip().orphans(),
            final(self).spec_peers() == old(self).spec_peers(),
            final(self).spec_sync() == old(self).spec_sync(),
            final(self).spec_discovery() == old(self).spec_discovery(),
            final(self).spec_contexts() == old(self).spec_contexts(),
            final(self).spec_config() == old(self).spec_config(),
            final(self).spec_genesis() == old(self).spec_genesis(),
    {
        self.gossip.mark_block_seen(block.header.hash);
        let message = self.gossip.create_block_message(block);
        proof {
            old(self).gossip.lemma_seen_blocks_bounded();
            lemma_put_again(old(self).spec_gossip().seen_blocks(), DEFAULT_CAPACITY as nat, block.header.hash);
        }
        let mut actions: Vec<NodeAction> = Vec::new();
        actions.push(NodeAction::Broadcast(message));
        actions
    }

    /// A transaction the mempool took locally: it is marked seen and sent to
    /// every peer.
    pub fn broadcast_transaction(&mut self, tx: SignedTransaction) -> (r: Vec<NodeAction>)
        requires
            old(self).wf(),
        ensures
            final(self).wf(),
            r@ == seq![NodeAction::Broadcast(Message::NewTransaction(NewTransactionMessage { transaction: tx }))],
            final(self).spec_gossip().seen_txs() == keys_after_put(
                old(self).spec_gossip().seen_txs(),
                DEFAULT_CAPACITY as nat,
                tx.hash,
            ),
            final(self).spec_gossip().seen_txs().contains(tx.hash),
            final(self).spec_gossip().seen_blocks() == old(self).spec_gossip().seen_blocks(),
            final(self).spec_gossip().orphans() == old(self).spec_gossip().orphans(),
            final(self).spec_peers() == old(self).spec_peers(),
            final(self).spec_sync() == old(self).spec_sync(),
            final(self).spec_discovery() == old(self).spec_discovery(),
            final(self).spec_contexts() == old(self).spec_contexts(),
            final(self).spec_config() == old(self).spec_config(),
            final(self).spec_genesis() == old(self).spec_genesis(),
    {
        let message = self.gossip.create_tx_message(tx);
        let mut actions: Vec<NodeAction> = Vec::new();
        actions.push(NodeAction::Broadcast(message));
        actions
    }

    /// Handle a message from a connected peer, at `now_ms` (monotonic
    /// milliseconds) and `now_secs` (seconds since the Unix epoch). Header
    /// requests are answered from the chain; headers count only from the
    /// sync peer; block requests go to the chain; blocks and transactions
    /// take their own paths; address requests are answered from the address
    /// book, and shared addresses stored; anything else is the connection's
    /// business.
    pub fn handle_peer_message(
        &mut self,
        peer_id: PeerId,
        message: Message,
        chain: &ChainView,
        now_ms: u64,
        now_secs: u64,
    ) -> (r: Vec<NodeAction>)
        requires
            old(self).wf(),
            chain.wf(),
        ensures
            final(self).wf(),
            match message {
                Message::GetHeaders(g) => {
                    &&& *final(self) == *old(self)
                    &&& r@.len() == 1
                    &&& r@[0] matches NodeAction::Send(p, Message::Headers(h)) && p == peer_id && h.headers@
                        == headers_from(
                        chain.main_chain@,
                        serve_start(chain.blocks@, g.locator_hashes@),
                        g.stop_hash,
                        Seq::empty(),
                    )
                },
                Message::Headers(h) => if old(self).spec_sync().spec_progress().state.spec_sync_peer() == Some(
                    peer_id,
                ) {
                    old(self).after_headers_response(*final(self), r@, peer_id, h.headers@, *chain, now_ms)
                } else {
                    r@.len() == 0 && *final(self) == *old(self)
                },
                Message::GetBlock(g) => r@ == seq![NodeAction::ServeBlock(peer_id, g.hash)] && *final(self)
                    == *old(self),
                Message::BlockData(b) => {
                    &&& knows(chain.blocks@, b.block.header.hash) ==> old(self).after_block_counted(
                        *final(self),
                        r@,
                        peer_id,
                        b.block.header.hash,
                        b.block.header.height,
                        now_ms,
                    ) && final(self).spec_gossip() == old(self).spec_gossip()
                    &&& !knows(chain.blocks@, b.block.header.hash) ==> r@ == seq![
                        NodeAction::AddSyncedBlock(peer_id, b.block),
                    ] && *final(self) == *old(self)
                },
                Message::NewTransaction(t) => {
                    &&& r@ == (if old(self).spec_gossip().seen_txs().contains(t.transaction.hash) {
                        Seq::<NodeAction>::empty()
                    } else {
                        seq![NodeAction::AddTransaction(peer_id, t.transaction)]
                    })
                    &&& final(self).spec_gossip().seen_txs() == keys_after_check(
                        old(self).spec_gossip().seen_txs(),
                        DEFAULT_CAPACITY as nat,
                        t.transaction.hash,
                    )
                    &&& final(self).spec_gossip().seen_txs().contains(t.transaction.hash)
                    &&& final(self).spec_gossip().seen_blocks() == old(self).spec_gossip().seen_blocks()
                    &&& final(self).spec_gossip().orphans() == old(self).spec_gossip().orphans()
                    &&& final(self).spec_peers() == old(self).spec_peers()
                    &&& final(self).spec_sync() == old(self).spec_sync()
                    &&& final(self).spec_discovery() == old(self).spec_discovery()
                    &&& final(self).spec_contexts() == old(self).spec_contexts()
                    &&& final(self).spec_config() == old(self).spec_config()
                    &&& final(self).spec_genesis() == old(self).spec_genesis()
                },
                Message::NewBlock(b) => old(self).after_new_block(*final(self), r@, peer_id, b.block, *chain, now_ms),
                Message::GetPeers => {
                    &&& *final(self) == *old(self)
                    &&& r@.len() == 1
                    &&& r@[0] matches NodeAction::Send(p, Message::Peers(m)) && p == peer_id && m.peers@
                        == first_n(
                        by_recency(
                            fresh_records(
                                old(self).spec_discovery().spec_exchange().known(),
                                now_secs,
                                Set::<SocketAddress>::empty(),
                            ),
                        ),
                        MAX_PEERS_TO_SEND as nat,
                    )
                },
                Message::Peers(p) => {
                    &&& r@.len() == 0
                    &&& final(self).spec_discovery().spec_exchange().known() == after_add_all(
                        old(self).spec_discovery().spec_exchange().known(),
                        old(self).spec_discovery().spec_exchange().max_addresses(),
                        old(self).spec_discovery().spec_exchange().our_addr(),
                        old(self).spec_discovery().spec_exchange().validates(),
                        p.peers@,
                    )
                    &&& final(self).spec_discovery().spec_dirty()
                    &&& final(self).spec_discovery().spec_bootstrap() == old(self).spec_discovery().spec_bootstrap()
                    &&& final(self).spec_peers() == old(self).spec_peers()
                    &&& final(self).spec_sync() == old(self).spec_sync()
                    &&& final(self).spec_gossip() == old(self).spec_gossip()
                    &&& final(self).spec_contexts() == old(self).spec_contexts()
                    &&& final(self).spec_config() == old(self).spec_config()
                    &&& final(self).spec_genesis() == old(self).spec_genesis()
                },
                _ => r@.len() == 0 && *final(self) == *old(self),
            },
    {
        let mut actions: Vec<NodeAction> = Vec::new();
        let sync_peer = self.sync.sync_peer();
        match route_peer_message(peer_id, sync_peer, message) {
            PeerMessageAction::RespondHeaders(request) => {
                let response = respond_to_get_headers(chain, &request);
                actions.push(NodeAction::Send(peer_id, Message::Headers(response)));
                actions
            },
            PeerMessageAction::ProcessHeaders(response) => self.handle_headers_response(peer_id, response, chain, now_ms),
            PeerMessageAction::ServeBlock(hash) => {
                actions.push(NodeAction::ServeBlock(peer_id, hash));
                actions
            },
            PeerMessageAction::ProcessBlockData(block) => self.handle_block_data(peer_id, block, chain, now_ms),
            PeerMessageAction::ProcessTransaction(tx) => {
                if self.gossip.check_transaction(&tx) {
                    actions.push(NodeAction::AddTransaction(peer_id, tx));
                }
                assert(actions@ =~= (if old(self).spec_gossip().seen_txs().contains(tx.hash) {
                    Seq::<NodeAction>::empty()
                } else {
                    seq![NodeAction::AddTransaction(peer_id, tx)]
                }));
                actions
            },
            PeerMessageAction::ProcessNewBlock(block) => self.handle_new_block(peer_id, block, chain, now_ms),
            PeerMessageAction::SendPeers => {
                let response = self.discovery.exchange().create_peers_response_at(now_secs);
                actions.push(NodeAction::Send(peer_id, response));
                actions
            },
            PeerMessageAction::AddPeers(peers) => {
                self.discovery.add_addresses(peers);
                actions
            },
            PeerMessageAction::Ignore => actions,
        }
    }

    /// Take in the addresses kept in the peer file, as the node starts.
    pub fn load_known_addresses(&mut self, addresses: Vec<PeerAddress>)
        requires
            old(self).wf(),
        ensures
            final(self).wf(),
            final(self).spec_discovery().spec_exchange().known() == after_add_all(
                old(self).spec_discovery().spec_exchange().known(),
                old(self).spec_discovery().spec_exchange().max_addresses(),
                old(self).spec_discovery().spec_exchange().our_addr(),
                old(self).spec_discovery().spec_exchange().validates(),
                addresses@,
            ),
            final(self).spec_discovery().spec_dirty() == old(self).spec_discovery().spec_dirty(),
            final(self).spec_discovery().spec_bootstrap() == old(self).spec_discovery().spec_bootstrap(),
            final(self).spec_peers() == old(self).spec_peers(),
            final(self).spec_sync() == old(self).spec_sync(),
            final(self).spec_gossip() == old(self).spec_gossip(),
            final(self).spec_contexts() == old(self).spec_contexts(),
            final(self).spec_config() == old(self).spec_config(),
            final(self).spec_genesis() == old(self).spec_genesis(),
    {
        self.discovery.add_persisted(addresses);
    }

    /// Store the addresses resolved from the DNS seeds, seen at `now`
    /// (seconds since the Unix epoch).
    pub fn add_resolved_seeds(&mut self, addrs: &Vec<SocketAddress>, now: u64)
        requires
            old(self).wf(),
        ensures
            final(self).wf(),
            final(self).spec_discovery().spec_exchange().known() == after_add_all(
                old(self).spec_discovery().spec_exchange().known(),
                old(self).spec_discovery().spec_exchange().max_addresses(),
                old(self).spec_discovery().spec_exchange().our_addr(),
                old(self).spec_discovery().spec_exchange().validates(),
                seen_at(addrs@, now),
            ),
            final(self).spec_discovery().spec_exchange().max_addresses() == old(self).spec_discovery().spec_exchange().max_addresses(),
            final(self).spec_discovery().spec_exchange().our_addr() == old(self).spec_discovery().spec_exchange().our_addr(),
            final(self).spec_discovery().spec_exchange().validates() == old(self).spec_discovery().spec_exchange().validates(),
            final(self).spec_discovery().spec_dirty(),
            final(self).spec_discovery().spec_bootstrap() == old(self).spec_discovery().spec_bootstrap(),
            final(self).spec_peers() == old(self).spec_peers(),
            final(self).spec_sync() == old(self).spec_sync(),
            final(self).spec_gossip() == old(self).spec_gossip(),
            final(self).spec_contexts() == old(self).spec_contexts(),
            final(self).spec_config() == old(self).spec_config(),
            final(self).spec_genesis() == old(self).spec_genesis(),
    {
        self.discovery.add_resolved_seeds(addrs, now);
    }

    /// On shutdown: every connected peer is to be disconnected, in order.
    pub fn shutdown_peers(&self) -> (r: Vec<NodeAction>)
        ensures
            r@ == self.slots().peer_seq().map_values(|p: PeerInfo| NodeAction::Disconnect(p.id)),
    {
        let ids = self.peers.peer_ids();
        let mut actions: Vec<NodeAction> = Vec::new();
        let mut i: usize = 0;
        while i < ids.len()
            invariant
                0 <= i <= ids@.len(),
                ids@ == self.slots().peer_seq().map_values(|p: PeerInfo| p.id),
                actions@ == self.slots().peer_seq().take(i as int).map_values(
                    |p: PeerInfo| NodeAction::Disconnect(p.id),
                ),
            decreases ids@.len() - i,
        {
            actions.push(NodeAction::Disconnect(ids[i]));
            i += 1;
            assert(actions@ =~= self.slots().peer_seq().take(i as int).map_values(
                |p: PeerInfo| NodeAction::Disconnect(p.id),
            ));
        }
        assert(self.slots().peer_seq().take(ids@.len() as int) =~= self.slots().peer_seq());
        actions
    }
}

} // verus!
