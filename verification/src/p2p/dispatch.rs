//! What the node does with each message a peer sends once connected.
use vstd::prelude::*;
use crate::core_types::SignedTransaction;
use crate::p2p::messages::{
    Block, BlockDataMessage, GetHeadersMessage, HeadersMessage, Message, NotFoundMessage,
    PeerAddress,
};
use crate::p2p::peer::PeerId;

verus! {

/// The node's response to a message from a connected peer.
#[derive(Clone, Debug)]
pub enum PeerMessageAction {
    /// Answer a header request from the local chain.
    RespondHeaders(GetHeadersMessage),
    /// Hand headers from the sync peer to the sync manager.
    ProcessHeaders(HeadersMessage),
    /// Serve the requested block, or report it missing.
    ServeBlock([u8; 32]),
    /// Process a block that was requested during sync.
    ProcessBlockData(Block),
    /// Process a gossiped transaction.
    ProcessTransaction(SignedTransaction),
    /// Process a gossiped block.
    ProcessNewBlock(Block),
    /// Answer with known peer addresses.
    SendPeers,
    /// Store the addresses a peer shared.
    AddPeers(Vec<PeerAddress>),
    /// Nothing to do here (handshake and keepalive messages are handled by
    /// the connection, headers from peers other than the sync peer are
    /// dropped).
    Ignore,
}

/// Decide what to do with `message` from peer `from`, given the peer being
/// synced from.
pub fn route_peer_message(from: PeerId, sync_peer: Option<PeerId>, message: Message) -> (r: PeerMessageAction)
    ensures
        match message {
            Message::GetHeaders(g) => r == PeerMessageAction::RespondHeaders(g),
            Message::Headers(h) => if sync_peer == Some(from) {
                r == PeerMessageAction::ProcessHeaders(h)
            } else {
                r is Ignore
            },
            Message::GetBlock(g) => r == PeerMessageAction::ServeBlock(g.hash),
            Message::BlockData(b) => r == PeerMessageAction::ProcessBlockData(b.block),
            Message::NewTransaction(t) => r == PeerMessageAction::ProcessTransaction(t.transaction),
            Message::NewBlock(b) => r == PeerMessageAction::ProcessNewBlock(b.block),
            Message::GetPeers => r is SendPeers,
            Message::Peers(p) => r == PeerMessageAction::AddPeers(p.peers),
            _ => r is Ignore,
        },
{
    match message {
        Message::GetHeaders(g) => PeerMessageAction::RespondHeaders(g),
        Message::Headers(h) => {
            let is_sync_peer = match sync_peer {
                Some(p) => p.0 == from.0,
                None => false,
            };
            if is_sync_peer {
                PeerMessageAction::ProcessHeaders(h)
            } else {
                PeerMessageAction::Ignore
            }
        },
        Message::GetBlock(g) => PeerMessageAction::ServeBlock(g.hash),
        Message::BlockData(b) => PeerMessageAction::ProcessBlockData(b.block),
        Message::NewTransaction(t) => PeerMessageAction::ProcessTransaction(t.transaction),
        Message::NewBlock(b) => PeerMessageAction::ProcessNewBlock(b.block),
        Message::GetPeers => PeerMessageAction::SendPeers,
        Message::Peers(p) => PeerMessageAction::AddPeers(p.peers),
        _ => PeerMessageAction::Ignore,
    }
}

/// The answer to a block request: the block if the chain has it, otherwise
/// a not-found notice for a block with that hash.
pub fn block_request_response(hash: [u8; 32], found: Option<Block>) -> (r: Message)
    ensures
        match found {
            Some(b) => r == Message::BlockData(BlockDataMessage { block: b }),
            None => r matches Message::NotFound(n) && n.item_type@ == "block"@ && n.hash == hash,
        },
{
    match found {
        Some(b) => Message::BlockData(BlockDataMessage { block: b }),
        None => Message::NotFound(NotFoundMessage { item_type: String::from_str("block"), hash }),
    }
}

} // verus!
