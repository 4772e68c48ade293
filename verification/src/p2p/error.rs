//! P2P error types.
use vstd::prelude::*;
use crate::p2p::net::SocketAddress;

verus! {

/// P2P-specific errors.
#[derive(Clone, Debug, PartialEq, Eq)]
pub enum P2pError {
    /// I/O error during network operations, with the error's message.
    Io(String),
    /// Failed to serialize or deserialize a message.
    Serialization(String),
    /// Message exceeds maximum allowed size.
    MessageTooLarge { size: usize, max: usize },
    /// Invalid network magic bytes.
    InvalidMagic { expected: [u8; 4], actual: [u8; 4] },
    /// Handshake failed.
    HandshakeFailed(String),
    /// Handshake timed out.
    HandshakeTimeout,
    /// Connection timed out.
    ConnectionTimeout { addr: SocketAddress },
    /// Peer disconnected unexpectedly.
    PeerDisconnected { reason: String },
    /// Genesis hash mismatch during handshake (hashes in hexadecimal).
    GenesisMismatch { expected: String, actual: String },
    /// Protocol version incompatible.
    IncompatibleVersion { peer_version: u32, our_version: u32 },
    /// Peer sent an unexpected message.
    UnexpectedMessage { expected: String, actual: String },
    /// Peer already connected.
    AlreadyConnected { addr: SocketAddress },
    /// Maximum connections reached.
    MaxConnectionsReached { max: usize },
    /// Invalid peer address.
    InvalidAddress(String),
    /// DNS resolution failed.
    DnsResolutionFailed { host: String, error: String },
    /// Block validation failed.
    BlockValidationFailed(String),
    /// Transaction validation failed.
    TransactionValidationFailed(String),
    /// Sync error.
    SyncError(String),
    /// Channel send error.
    ChannelSend(String),
    /// Channel receive error.
    ChannelRecv(String),
    /// Peer not found.
    PeerNotFound(String),
    /// Invalid block locator.
    InvalidLocator(String),
    /// Ping timeout.
    PingTimeout,
    /// Node is shutting down.
    Shutdown,
}

/// Result type for P2P operations.
pub type P2pResult<T> = Result<T, P2pError>;

} // verus!
