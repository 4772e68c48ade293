//! P2P protocol messages.
//!
//! Blocks, headers and transactions are carried by the summaries that the
//! protocol logic reads: a header's own hash and whether it meets its
//! difficulty target are computed where the header is decoded.
use vstd::prelude::*;
use crate::core_types::SignedTransaction;
use crate::p2p::net::SocketAddress;
use crate::text::{debug_bytes, decimal, push_debug_prefix, push_decimal};

verus! {

/// What the protocol logic reads of a block header.
#[derive(Clone, Copy, Debug, PartialEq, Eq)]
pub struct BlockHeader {
    /// Hash of this header.
    pub hash: [u8; 32],
    /// Hash of the previous block.
    pub prev_block_hash: [u8; 32],
    /// Height of the block.
    pub height: u64,
    /// Whether the header's proof of work meets its difficulty target.
    pub meets_difficulty: bool,
}

/// What the protocol logic reads of a full block.
#[derive(Clone, Copy, Debug, PartialEq, Eq)]
pub struct Block {
    /// The block's header.
    pub header: BlockHeader,
    /// Whether the header's transaction root matches the block's transactions.
    pub tx_root_valid: bool,
}

/// Version information exchanged during handshake.
#[derive(Clone, Debug, PartialEq, Eq)]
pub struct VersionMessage {
    /// Protocol version number.
    pub protocol_version: u32,
    /// Hash of the genesis block.
    pub genesis_hash: [u8; 32],
    /// Height of the best known block.
    pub best_height: u64,
    /// Hash of the best known block.
    pub best_hash: [u8; 32],
    /// User agent string.
    pub user_agent: String,
    /// Timestamp when the message was created.
    pub timestamp: u64,
    /// The sender's listening address (if any).
    pub listen_addr: Option<SocketAddress>,
}

/// Request for block headers starting from known hashes.
#[derive(Clone, Debug, PartialEq, Eq)]
pub struct GetHeadersMessage {
    /// Block locator hashes (at exponentially increasing heights).
    pub locator_hashes: Vec<[u8; 32]>,
    /// Stop hash (return headers up to this hash, or all if zero).
    pub stop_hash: [u8; 32],
}

/// Response containing block headers.
#[derive(Clone, Debug, PartialEq, Eq)]
pub struct HeadersMessage {
    /// The block headers.
    pub headers: Vec<BlockHeader>,
}

/// Request for a specific block by hash.
#[derive(Clone, Copy, Debug, PartialEq, Eq)]
pub struct GetBlockMessage {
    /// Hash of the requested block.
    pub hash: [u8; 32],
}

/// Response containing a full block.
#[derive(Clone, Copy, Debug, PartialEq, Eq)]
pub struct BlockDataMessage {
    /// The full block.
    pub block: Block,
}

/// Response indicating requested data was not found.
#[derive(Clone, Debug, PartialEq, Eq)]
pub struct NotFoundMessage {
    /// Type of item that wasn't found ("block", "transaction").
    pub item_type: String,
    /// Hash of the item that wasn't found.
    pub hash: [u8; 32],
}

/// Announce a new transaction.
#[derive(Clone, Copy, Debug, PartialEq, Eq)]
pub struct NewTransactionMessage {
    /// The signed transaction.
    pub transaction: SignedTransaction,
}

/// Announce a new block.
#[derive(Clone, Copy, Debug, PartialEq, Eq)]
pub struct NewBlockMessage {
    /// The full block.
    pub block: Block,
}

/// A peer address with metadata.
#[derive(Clone, Copy, Debug, PartialEq, Eq)]
pub struct PeerAddress {
    /// Socket address of the peer.
    pub addr: SocketAddress,
    /// Last time this peer was seen active (Unix timestamp).
    pub last_seen: u64,
}

/// Response containing peer addresses.
#[derive(Clone, Debug, PartialEq, Eq)]
pub struct PeersMessage {
    /// Known peer addresses.
    pub peers: Vec<PeerAddress>,
}

/// All P2P protocol messages.
#[derive(Clone, Debug, PartialEq, Eq)]
pub enum Message {
    /// Version information sent at start of connection.
    Version(VersionMessage),
    /// Acknowledgment of version message.
    VersionAck,
    /// Request for block headers.
    GetHeaders(GetHeadersMessage),
    /// Response with block headers.
    Headers(HeadersMessage),
    /// Request for a specific block.
    GetBlock(GetBlockMessage),
    /// Response with a full block.
    BlockData(BlockDataMessage),
    /// Response indicating data was not found.
    NotFound(NotFoundMessage),
    /// Announce a new transaction.
    NewTransaction(NewTransactionMessage),
    /// Announce a new block.
    NewBlock(NewBlockMessage),
    /// Request for peer addresses.
    GetPeers,
    /// Response with peer addresses.
    Peers(PeersMessage),
    /// Ping with a nonce.
    Ping(u64),
    /// Pong echoing the nonce.
    Pong(u64),
}

/// The first eight bytes of a hash, as shown in diagnostics.
pub open spec fn hash_prefix(h: [u8; 32]) -> Seq<char> {
    debug_bytes(h@.take(8))
}

fn push_hash_prefix(s: &mut String, h: &[u8; 32])
    ensures
        final(s)@ == old(s)@ + hash_prefix(*h),
{
    push_debug_prefix(s, h.as_slice(), 8);
}

/// How a message is shown in logs.
pub open spec fn message_text(m: Message) -> Seq<char> {
    match m {
        Message::Version(v) => "Version(version="@ + decimal(v.protocol_version as nat) + ", height="@
            + decimal(v.best_height as nat) + ", agent="@ + v.user_agent@ + ")"@,
        Message::VersionAck => "VersionAck"@,
        Message::GetHeaders(g) => "GetHeaders(locators="@ + decimal(g.locator_hashes@.len()) + ", stop="@
            + hash_prefix(g.stop_hash) + ")"@,
        Message::Headers(h) => "Headers(count="@ + decimal(h.headers@.len()) + ")"@,
        Message::GetBlock(g) => "GetBlock(hash="@ + hash_prefix(g.hash) + ")"@,
        Message::BlockData(b) => "BlockData(height="@ + decimal(b.block.header.height as nat) + ")"@,
        Message::NotFound(n) => "NotFound(type="@ + n.item_type@ + ", hash="@ + hash_prefix(n.hash) + ")"@,
        Message::NewTransaction(t) => "NewTransaction(id="@ + hash_prefix(t.transaction.hash) + ")"@,
        Message::NewBlock(b) => "NewBlock(height="@ + decimal(b.block.header.height as nat) + ")"@,
        Message::GetPeers => "GetPeers"@,
        Message::Peers(p) => "Peers(count="@ + decimal(p.peers@.len()) + ")"@,
        Message::Ping(n) => "Ping("@ + decimal(n as nat) + ")"@,
        Message::Pong(n) => "Pong("@ + decimal(n as nat) + ")"@,
    }
}

impl Message {
    /// The short name of each kind of message.
    pub open spec fn spec_name(self) -> Seq<char> {
        match self {
            Message::Version(_) => "version"@,
            Message::VersionAck => "verack"@,
            Message::GetHeaders(_) => "getheaders"@,
            Message::Headers(_) => "headers"@,
            Message::GetBlock(_) => "getblock"@,
            Message::BlockData(_) => "blockdata"@,
            Message::NotFound(_) => "notfound"@,
            Message::NewTransaction(_) => "newtx"@,
            Message::NewBlock(_) => "newblock"@,
            Message::GetPeers => "getpeers"@,
            Message::Peers(_) => "peers"@,
            Message::Ping(_) => "ping"@,
            Message::Pong(_) => "pong"@,
        }
    }

    /// Get a human-readable name for the message type.
    pub fn name(&self) -> (r: &'static str)
        ensures
            r@ == self.spec_name(),
    {
        match self {
            Message::Version(_) => "version",
            Message::VersionAck => "verack",
            Message::GetHeaders(_) => "getheaders",
            Message::Headers(_) => "headers",
            Message::GetBlock(_) => "getblock",
            Message::BlockData(_) => "blockdata",
            Message::NotFound(_) => "notfound",
            Message::NewTransaction(_) => "newtx",
            Message::NewBlock(_) => "newblock",
            Message::GetPeers => "getpeers",
            Message::Peers(_) => "peers",
            Message::Ping(_) => "ping",
            Message::Pong(_) => "pong",
        }
    }

    /// How the message is shown in logs: its kind and a few of its fields.
    #[verifier::rlimit(30)]
    pub fn to_string(&self) -> (r: String)
        ensures
            r@ == message_text(*self),
    {
        proof {
            reveal_strlit("Version(version=");
            reveal_strlit(", height=");
            reveal_strlit(", agent=");
            reveal_strlit(")");
            reveal_strlit("VersionAck");
            reveal_strlit("GetHeaders(locators=");
            reveal_strlit(", stop=");
            reveal_strlit("Headers(count=");
            reveal_strlit("GetBlock(hash=");
            reveal_strlit("BlockData(height=");
            reveal_strlit("NotFound(type=");
            reveal_strlit(", hash=");
            reveal_strlit("NewTransaction(id=");
            reveal_strlit("NewBlock(height=");
            reveal_strlit("GetPeers");
            reveal_strlit("Peers(count=");
            reveal_strlit("Ping(");
            reveal_strlit("Pong(");
        }
        let mut s = String::new();
        match self {
            Message::Version(v) => {
                s.append("Version(version=");
                push_decimal(&mut s, v.protocol_version as u64);
                s.append(", height=");
                push_decimal(&mut s, v.best_height);
                s.append(", agent=");
                s.append(v.user_agent.as_str());
                s.append(")");
            },
            Message::VersionAck => {
                s.append("VersionAck");
            },
            Message::GetHeaders(g) => {
                s.append("GetHeaders(locators=");
                push_decimal(&mut s, g.locator_hashes.len() as u64);
                s.append(", stop=");
                push_hash_prefix(&mut s, &g.stop_hash);
                s.append(")");
            },
            Message::Headers(h) => {
                s.append("Headers(count=");
                push_decimal(&mut s, h.headers.len() as u64);
                s.append(")");
            },
            Message::GetBlock(g) => {
                s.append("GetBlock(hash=");
                push_hash_prefix(&mut s, &g.hash);
                s.append(")");
            },
            Message::BlockData(b) => {
                s.append("BlockData(height=");
                push_decimal(&mut s, b.block.header.height);
                s.append(")");
            },
            Message::NotFound(n) => {
                s.append("NotFound(type=");
                s.append(n.item_type.as_str());
                s.append(", hash=");
                push_hash_prefix(&mut s, &n.hash);
                s.append(")");
            },
            Message::NewTransaction(t) => {
                s.append("NewTransaction(id=");
                push_hash_prefix(&mut s, &t.transaction.hash);
                s.append(")");
            },
            Message::NewBlock(b) => {
                s.append("NewBlock(height=");
                push_decimal(&mut s, b.block.header.height);
                s.append(")");
            },
            Message::GetPeers => {
                s.append("GetPeers");
            },
            Message::Peers(p) => {
                s.append("Peers(count=");
                push_decimal(&mut s, p.peers.len() as u64);
                s.append(")");
            },
            Message::Ping(n) => {
                s.append("Ping(");
                push_decimal(&mut s, *n);
                s.append(")");
            },
            Message::Pong(n) => {
                s.append("Pong(");
                push_decimal(&mut s, *n);
                s.append(")");
            },
        }
        assert(s@ =~= message_text(*self));
        s
    }
}

} // verus!
