//! Peer identity, connection direction and the per-peer state machine.
use vstd::prelude::*;
use crate::assoc_map::{bytes_eq, KeyEq};
use crate::text::{decimal, push_decimal};
use crate::p2p::net::SocketAddress;

verus! {

broadcast use vstd::array::group_array_axioms;

/// State of a peer connection.
#[derive(Clone, Copy, Debug, PartialEq, Eq, Structural)]
pub enum PeerState {
    /// TCP connection established, awaiting handshake.
    Connecting,
    /// We sent our Version message, awaiting response.
    VersionSent,
    /// Handshake complete, peer is connected.
    Connected,
    /// Currently syncing headers from this peer.
    SyncingHeaders,
    /// Currently syncing blocks from this peer.
    SyncingBlocks,
    /// Fully synced, participating in gossip.
    Live,
    /// Gracefully disconnecting.
    Disconnecting,
}

impl Default for PeerState {
    fn default() -> (r: Self)
        ensures
            r == PeerState::Connecting,
    {
        PeerState::Connecting
    }
}

impl PeerState {
    /// Check if the peer has completed handshake.
    pub fn is_connected(&self) -> (r: bool)
        ensures
            r == !(*self is Connecting || *self is VersionSent),
    {
        !matches!(self, PeerState::Connecting | PeerState::VersionSent)
    }

    /// Check if the peer is syncing.
    pub fn is_syncing(&self) -> (r: bool)
        ensures
            r == (*self is SyncingHeaders || *self is SyncingBlocks),
    {
        matches!(self, PeerState::SyncingHeaders | PeerState::SyncingBlocks)
    }

    /// Check if the peer is live (ready for gossip).
    pub fn is_live(&self) -> (r: bool)
        ensures
            r == (*self is Live),
    {
        matches!(self, PeerState::Live)
    }

    /// Check if the peer is disconnecting or already disconnected.
    pub fn is_disconnecting(&self) -> (r: bool)
        ensures
            r == (*self is Disconnecting),
    {
        matches!(self, PeerState::Disconnecting)
    }

    /// Check if the peer can receive gossip messages.
    pub fn can_receive_gossip(&self) -> (r: bool)
        ensures
            r == (*self is Connected || *self is SyncingHeaders || *self is SyncingBlocks
                || *self is Live),
    {
        matches!(
            self,
            PeerState::Connected | PeerState::SyncingHeaders | PeerState::SyncingBlocks
                | PeerState::Live
        )
    }

    /// The name under which the state is shown.
    pub open spec fn spec_name(self) -> Seq<char> {
        match self {
            PeerState::Connecting => "connecting"@,
            PeerState::VersionSent => "version_sent"@,
            PeerState::Connected => "connected"@,
            PeerState::SyncingHeaders => "syncing_headers"@,
            PeerState::SyncingBlocks => "syncing_blocks"@,
            PeerState::Live => "live"@,
            PeerState::Disconnecting => "disconnecting"@,
        }
    }

    /// The state's name, as shown in logs.
    pub fn to_string(&self) -> (r: String)
        ensures
            r@ == self.spec_name(),
    {
        let s: &str = match self {
            PeerState::Connecting => "connecting",
            PeerState::VersionSent => "version_sent",
            PeerState::Connected => "connected",
            PeerState::SyncingHeaders => "syncing_headers",
            PeerState::SyncingBlocks => "syncing_blocks",
            PeerState::Live => "live",
            PeerState::Disconnecting => "disconnecting",
        };
        String::from_str(s)
    }
}

/// Unique identifier for a peer connection.
#[derive(Clone, Copy, Debug, PartialEq, Eq, Hash, Structural)]
pub struct PeerId(pub u64);

impl PeerId {
    /// Create a new peer ID from a counter value.
    pub fn new(id: u64) -> (r: Self)
        ensures
            r.0 == id,
    {
        PeerId(id)
    }

    /// The identifier as shown to users: `peer-` and the counter value.
    pub fn to_string(&self) -> (r: String)
        ensures
            r@ == "peer-"@ + decimal(self.0 as nat),
    {
        let mut s = String::from_str("peer-");
        push_decimal(&mut s, self.0);
        s
    }
}

impl KeyEq for PeerId {
    fn key_eq(&self, other: &Self) -> (r: bool) {
        self.0 == other.0
    }
}

/// Direction of the connection.
#[derive(Clone, Copy, Debug, PartialEq, Eq, Structural)]
pub enum ConnectionDirection {
    /// We initiated the connection.
    Outbound,
    /// Peer connected to us.
    Inbound,
}

impl ConnectionDirection {
    /// The direction's name, as shown in logs.
    pub fn to_string(&self) -> (r: String)
        ensures
            r@ == (match *self {
                ConnectionDirection::Outbound => "outbound"@,
                ConnectionDirection::Inbound => "inbound"@,
            }),
    {
        match self {
            ConnectionDirection::Outbound => String::from_str("outbound"),
            ConnectionDirection::Inbound => String::from_str("inbound"),
        }
    }
}

/// The largest value of an `i32`, as an integer.
pub open spec fn i32_max() -> int {
    0x7fff_ffff
}

/// The smallest value of an `i32`, as an integer.
pub open spec fn i32_min() -> int {
    -0x8000_0000
}

/// `x` clamped into the range of an `i32`.
pub open spec fn clamp_i32(x: int) -> int {
    if x > i32_max() {
        i32_max()
    } else if x < i32_min() {
        i32_min()
    } else {
        x
    }
}

/// Score lost on a failed interaction.
pub const FAILURE_PENALTY: i32 = 10;

/// Invalid messages tolerated before a peer is banned.
pub const MAX_INVALID_MESSAGES: usize = 3;

/// Score below which a peer is banned.
pub const BAN_SCORE: i32 = -100;

/// Index of the first occurrence of `h` in `s`, if any.
pub open spec fn first_index(s: Seq<[u8; 32]>, h: [u8; 32]) -> int {
    choose|i: int| 0 <= i < s.len() && s[i] == h && forall|j: int| 0 <= j < i ==> s[j] != h
}

/// `c` is the context of a peer just connected.
pub open spec fn fresh_context(c: PeerContext) -> bool {
    &&& c.state == PeerState::Connecting
    &&& c.headers_requested == 0
    &&& c.blocks_requested == 0
    &&& c.pending_blocks@ == Seq::<[u8; 32]>::empty()
    &&& !c.peers_requested
    &&& c.invalid_messages == 0
    &&& c.score == 0
}

/// Context for managing a peer's interaction state.
#[derive(Debug)]
pub struct PeerContext {
    /// Current state of the peer.
    pub state: PeerState,
    /// Number of headers requested from this peer.
    pub headers_requested: usize,
    /// Number of blocks requested from this peer.
    pub blocks_requested: usize,
    /// Hashes of blocks we've requested from this peer.
    pub pending_blocks: Vec<[u8; 32]>,
    /// Whether we've requested peers from this connection.
    pub peers_requested: bool,
    /// Number of invalid messages received (for banning).
    pub invalid_messages: usize,
    /// Score for peer quality (higher is better).
    pub score: i32,
}

impl Default for PeerContext {
    fn default() -> (r: Self)
        ensures
            r.state == PeerState::Connecting,
            r.headers_requested == 0,
            r.blocks_requested == 0,
            r.pending_blocks@ == Seq::<[u8; 32]>::empty(),
            !r.peers_requested,
            r.invalid_messages == 0,
            r.score == 0,
    {
        PeerContext::new()
    }
}

impl PeerContext {
    /// Create a new peer context.
    pub fn new() -> (r: Self)
        ensures
            fresh_context(r),
            r.state == PeerState::Connecting,
            r.headers_requested == 0,
            r.blocks_requested == 0,
            r.pending_blocks@ == Seq::<[u8; 32]>::empty(),
            !r.peers_requested,
            r.invalid_messages == 0,
            r.score == 0,
    {
        PeerContext {
            state: PeerState::Connecting,
            headers_requested: 0,
            blocks_requested: 0,
            pending_blocks: Vec::new(),
            peers_requested: false,
            invalid_messages: 0,
            score: 0,
        }
    }

    /// Transition to a new state.
    pub fn transition_to(&mut self, new_state: PeerState)
        ensures
            final(self).state == new_state,
            final(self).headers_requested == old(self).headers_requested,
            final(self).blocks_requested == old(self).blocks_requested,
            final(self).pending_blocks@ == old(self).pending_blocks@,
            final(self).peers_requested == old(self).peers_requested,
            final(self).invalid_messages == old(self).invalid_messages,
            final(self).score == old(self).score,
    {
        self.state = new_state;
    }

    /// Record a successful interaction (improves score).
    pub fn record_success(&mut self)
        ensures
            final(self).score == clamp_i32(old(self).score + 1),
            final(self).state == old(self).state,
            final(self).headers_requested == old(self).headers_requested,
            final(self).blocks_requested == old(self).blocks_requested,
            final(self).pending_blocks@ == old(self).pending_blocks@,
            final(self).peers_requested == old(self).peers_requested,
            final(self).invalid_messages == old(self).invalid_messages,
    {
        if self.score < i32::MAX {
            self.score = self.score + 1;
        }
    }

    /// Record a failed interaction (decreases score).
    pub fn record_failure(&mut self)
        ensures
            final(self).score == clamp_i32(old(self).score - FAILURE_PENALTY),
            final(self).state == old(self).state,
            final(self).headers_requested == old(self).headers_requested,
            final(self).blocks_requested == old(self).blocks_requested,
            final(self).pending_blocks@ == old(self).pending_blocks@,
            final(self).peers_requested == old(self).peers_requested,
            final(self).invalid_messages == old(self).invalid_messages,
    {
        if self.score >= i32::MIN + FAILURE_PENALTY {
            self.score = self.score - FAILURE_PENALTY;
        } else {
            self.score = i32::MIN;
        }
    }

    /// Record an invalid message.
    pub fn record_invalid(&mut self)
        requires
            old(self).invalid_messages < usize::MAX,
        ensures
            final(self).invalid_messages == old(self).invalid_messages + 1,
            final(self).score == clamp_i32(old(self).score - FAILURE_PENALTY),
            final(self).state == old(self).state,
            final(self).headers_requested == old(self).headers_requested,
            final(self).blocks_requested == old(self).blocks_requested,
            final(self).pending_blocks@ == old(self).pending_blocks@,
            final(self).peers_requested == old(self).peers_requested,
    {
        self.invalid_messages = self.invalid_messages + 1;
        self.record_failure();
    }

    /// Check if the peer should be banned.
    pub fn should_ban(&self) -> (r: bool)
        ensures
            r == (self.invalid_messages > MAX_INVALID_MESSAGES || self.score < BAN_SCORE),
    {
        self.invalid_messages > MAX_INVALID_MESSAGES || self.score < BAN_SCORE
    }

    /// Add a block hash to pending requests.
    pub fn add_pending_block(&mut self, hash: [u8; 32])
        requires
            old(self).blocks_requested < usize::MAX,
        ensures
            final(self).pending_blocks@ == old(self).pending_blocks@.push(hash),
            final(self).blocks_requested == old(self).blocks_requested + 1,
            final(self).state == old(self).state,
            final(self).headers_requested == old(self).headers_requested,
            final(self).peers_requested == old(self).peers_requested,
            final(self).invalid_messages == old(self).invalid_messages,
            final(self).score == old(self).score,
    {
        self.pending_blocks.push(hash);
        self.blocks_requested = self.blocks_requested + 1;
    }

    /// Remove a block hash from pending requests.
    ///
    /// Only the first occurrence is removed; the result says whether there was one.
    pub fn remove_pending_block(&mut self, hash: &[u8; 32]) -> (r: bool)
        ensures
            r == old(self).pending_blocks@.contains(*hash),
            r ==> final(self).pending_blocks@ == old(self).pending_blocks@.remove(
                first_index(old(self).pending_blocks@, *hash),
            ),
            !r ==> final(self).pending_blocks@ == old(self).pending_blocks@,
            final(self).state == old(self).state,
            final(self).headers_requested == old(self).headers_requested,
            final(self).blocks_requested == old(self).blocks_requested,
            final(self).peers_requested == old(self).peers_requested,
            final(self).invalid_messages == old(self).invalid_messages,
            final(self).score == old(self).score,
    {
        let mut i: usize = 0;
        while i < self.pending_blocks.len()
            invariant
                0 <= i <= self.pending_blocks@.len(),
                self.pending_blocks@ == old(self).pending_blocks@,
                self.state == old(self).state,
                self.headers_requested == old(self).headers_requested,
                self.blocks_requested == old(self).blocks_requested,
                self.peers_requested == old(self).peers_requested,
                self.invalid_messages == old(self).invalid_messages,
                self.score == old(self).score,
                forall|j: int| 0 <= j < i ==> self.pending_blocks@[j] != *hash,
            decreases self.pending_blocks@.len() - i,
        {
            if bytes_eq(&self.pending_blocks[i], hash) {
                proof {
                    let s = old(self).pending_blocks@;
                    assert(s[i as int] == *hash);
                    let k = first_index(s, *hash);
                    assert(0 <= k < s.len() && s[k] == *hash && forall|j: int|
                        0 <= j < k ==> s[j] != *hash);
                    assert(k == i as int) by {
                        if k < i as int {
                            assert(s[k] != *hash);
                        }
                        if k > i as int {
                            assert(s[i as int] != *hash);
                        }
                    }
                }
                self.pending_blocks.remove(i);
                return true;
            }
            i += 1;
        }
        proof {
            let s = old(self).pending_blocks@;
            assert(!s.contains(*hash)) by {
                if s.contains(*hash) {
                    let k = choose|k: int| 0 <= k < s.len() && s[k] == *hash;
                    assert(s[k] != *hash);
                }
            }
        }
        false
    }

    /// Check if we're waiting for a specific block.
    pub fn is_block_pending(&self, hash: &[u8; 32]) -> (r: bool)
        ensures
            r == self.pending_blocks@.contains(*hash),
    {
        let mut i: usize = 0;
        while i < self.pending_blocks.len()
            invariant
                0 <= i <= self.pending_blocks@.len(),
                forall|j: int| 0 <= j < i ==> self.pending_blocks@[j] != *hash,
            decreases self.pending_blocks@.len() - i,
        {
            if bytes_eq(&self.pending_blocks[i], hash) {
                assert(self.pending_blocks@[i as int] == *hash);
                return true;
            }
            i += 1;
        }
        proof {
            let s = self.pending_blocks@;
            if s.contains(*hash) {
                let k = choose|k: int| 0 <= k < s.len() && s[k] == *hash;
                assert(s[k] != *hash);
            }
        }
        false
    }
}

/// `p` is the record of a connection to `addr` just established at `now`:
/// nothing received, sent or announced yet.
pub open spec fn new_peer_info(p: PeerInfo, id: PeerId, addr: SocketAddress, direction: ConnectionDirection, now: u64) -> bool {
    &&& p.id == id
    &&& p.addr == addr
    &&& p.direction == direction
    &&& p.protocol_version is None
    &&& p.user_agent is None
    &&& p.best_height == 0
    &&& (forall|i: int| 0 <= i < 32 ==> p.best_hash[i] == 0)
    &&& p.connected_at == now
    &&& p.last_recv == now
    &&& p.last_send == now
    &&& p.bytes_recv == 0
    &&& p.bytes_sent == 0
    &&& p.messages_recv == 0
    &&& p.messages_sent == 0
    &&& p.last_ping_nonce is None
    &&& p.ping_rtt is None
}

/// Information about a connected peer.
///
/// Times are milliseconds on the node's monotonic clock.
#[derive(Clone, Debug)]
pub struct PeerInfo {
    /// Unique peer identifier for this session.
    pub id: PeerId,
    /// Socket address of the peer.
    pub addr: SocketAddress,
    /// Direction of the connection.
    pub direction: ConnectionDirection,
    /// Protocol version (set after handshake).
    pub protocol_version: Option<u32>,
    /// Peer's user agent (set after handshake).
    pub user_agent: Option<String>,
    /// Peer's best block height (updated during sync).
    pub best_height: u64,
    /// Peer's best block hash (updated during sync).
    pub best_hash: [u8; 32],
    /// When the connection was established.
    pub connected_at: u64,
    /// Last time we received a message from this peer.
    pub last_recv: u64,
    /// Last time we sent a message to this peer.
    pub last_send: u64,
    /// Number of bytes received from this peer.
    pub bytes_recv: u64,
    /// Number of bytes sent to this peer.
    pub bytes_sent: u64,
    /// Number of messages received from this peer.
    pub messages_recv: u64,
    /// Number of messages sent to this peer.
    pub messages_sent: u64,
    /// Last ping nonce sent (for matching pong).
    pub last_ping_nonce: Option<u64>,
    /// Round-trip time from last ping/pong, in milliseconds.
    pub ping_rtt: Option<u64>,
}

impl PeerInfo {
    /// Create info for a new peer connection established at time `now`.
    pub fn new(id: PeerId, addr: SocketAddress, direction: ConnectionDirection, now: u64) -> (r: Self)
        ensures
            r.id == id,
            r.addr == addr,
            r.direction == direction,
            r.protocol_version is None,
            r.user_agent is None,
            r.best_height == 0,
            forall|i: int| 0 <= i < 32 ==> r.best_hash[i] == 0,
            r.connected_at == now,
            r.last_recv == now,
            r.last_send == now,
            r.bytes_recv == 0,
            r.bytes_sent == 0,
            r.messages_recv == 0,
            r.messages_sent == 0,
            r.last_ping_nonce is None,
            r.ping_rtt is None,
            new_peer_info(r, id, addr, direction, now),
    {
        PeerInfo {
            id,
            addr,
            direction,
            protocol_version: None,
            user_agent: None,
            best_height: 0,
            best_hash: [0u8; 32],
            connected_at: now,
            last_recv: now,
            last_send: now,
            bytes_recv: 0,
            bytes_sent: 0,
            messages_recv: 0,
            messages_sent: 0,
            last_ping_nonce: None,
            ping_rtt: None,
        }
    }

    /// Update info after successful handshake.
    pub fn complete_handshake(
        &mut self,
        protocol_version: u32,
        user_agent: String,
        best_height: u64,
        best_hash: [u8; 32],
    )
        ensures
            final(self).protocol_version == Some(protocol_version),
            final(self).user_agent == Some(user_agent),
            final(self).best_height == best_height,
            final(self).best_hash == best_hash,
            final(self).id == old(self).id,
            final(self).addr == old(self).addr,
            final(self).direction == old(self).direction,
            final(self).connected_at == old(self).connected_at,
            final(self).last_recv == old(self).last_recv,
            final(self).last_send == old(self).last_send,
            final(self).bytes_recv == old(self).bytes_recv,
            final(self).bytes_sent == old(self).bytes_sent,
            final(self).messages_recv == old(self).messages_recv,
            final(self).messages_sent == old(self).messages_sent,
            final(self).last_ping_nonce == old(self).last_ping_nonce,
            final(self).ping_rtt == old(self).ping_rtt,
    {
        self.protocol_version = Some(protocol_version);
        self.user_agent = Some(user_agent);
        self.best_height = best_height;
        self.best_hash = best_hash;
    }

    /// Record that we received a message of `bytes` bytes at time `now`.
    pub fn record_recv(&mut self, bytes: u64, now: u64)
        requires
            old(self).bytes_recv + bytes <= u64::MAX,
            old(self).messages_recv < u64::MAX,
        ensures
            final(self).last_recv == now,
            final(self).bytes_recv == old(self).bytes_recv + bytes,
            final(self).messages_recv == old(self).messages_recv + 1,
            final(self).last_send == old(self).last_send,
            final(self).bytes_sent == old(self).bytes_sent,
            final(self).messages_sent == old(self).messages_sent,
            final(self).id == old(self).id,
            final(self).addr == old(self).addr,
            final(self).direction == old(self).direction,
            final(self).best_height == old(self).best_height,
    {
        self.last_recv = now;
        self.bytes_recv = self.bytes_recv + bytes;
        self.messages_recv = self.messages_recv + 1;
    }

    /// Record that we sent a message of `bytes` bytes at time `now`.
    pub fn record_send(&mut self, bytes: u64, now: u64)
        requires
            old(self).bytes_sent + bytes <= u64::MAX,
            old(self).messages_sent < u64::MAX,
        ensures
            final(self).last_send == now,
            final(self).bytes_sent == old(self).bytes_sent + bytes,
            final(self).messages_sent == old(self).messages_sent + 1,
            final(self).last_recv == old(self).last_recv,
            final(self).bytes_recv == old(self).bytes_recv,
            final(self).messages_recv == old(self).messages_recv,
            final(self).id == old(self).id,
            final(self).addr == old(self).addr,
            final(self).direction == old(self).direction,
            final(self).best_height == old(self).best_height,
    {
        self.last_send = now;
        self.bytes_sent = self.bytes_sent + bytes;
        self.messages_sent = self.messages_sent + 1;
    }

    /// An exact copy of this record.
    pub fn copy(&self) -> (r: Self)
        ensures
            r == *self,
    {
        let user_agent = match &self.user_agent {
            Some(s) => Some(s.clone()),
            None => None,
        };
        PeerInfo {
            id: self.id,
            addr: self.addr,
            direction: self.direction,
            protocol_version: self.protocol_version,
            user_agent,
            best_height: self.best_height,
            best_hash: self.best_hash,
            connected_at: self.connected_at,
            last_recv: self.last_recv,
            last_send: self.last_send,
            bytes_recv: self.bytes_recv,
            bytes_sent: self.bytes_sent,
            messages_recv: self.messages_recv,
            messages_sent: self.messages_sent,
            last_ping_nonce: self.last_ping_nonce,
            ping_rtt: self.ping_rtt,
        }
    }

    /// Check if this is an outbound connection.
    pub fn is_outbound(&self) -> (r: bool)
        ensures
            r == (self.direction == ConnectionDirection::Outbound),
    {
        self.direction == ConnectionDirection::Outbound
    }

    /// Check if this is an inbound connection.
    pub fn is_inbound(&self) -> (r: bool)
        ensures
            r == (self.direction == ConnectionDirection::Inbound),
    {
        self.direction == ConnectionDirection::Inbound
    }

    /// Milliseconds since the connection was established, as seen at `now`
    /// (zero if `now` is earlier).
    pub fn connection_duration(&self, now: u64) -> (r: u64)
        ensures
            r == (if now >= self.connected_at { now - self.connected_at } else { 0 }),
    {
        now.saturating_sub(self.connected_at)
    }
}

} // verus!
