//! Peer-to-peer networking logic: peer state, handshakes, framing,
//! synchronisation bookkeeping and address management.
pub mod net;
pub mod config;
pub mod blocks;
pub mod clock;
pub mod discovery;
pub mod dispatch;
pub mod error;
pub mod exchange;
pub mod filter;
pub mod framing;
pub mod gossip;
pub mod manager;
pub mod headers;
pub mod messages;
pub mod node;
pub mod peer;
pub mod persistence;
pub mod seeds;
pub mod slots;
pub mod sync_manager;
pub mod version;
pub mod sync_state;
