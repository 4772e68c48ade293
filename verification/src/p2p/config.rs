//! P2P configuration.
//!
//! Durations are in milliseconds.
use vstd::prelude::*;
use crate::p2p::net::{IpAddress, SocketAddress};

verus! {

/// Default target number of outbound connections.
pub const DEFAULT_TARGET_OUTBOUND: usize = 8;

/// Default maximum outbound connections.
pub const DEFAULT_MAX_OUTBOUND: usize = 12;

/// Default maximum inbound connections.
pub const DEFAULT_MAX_INBOUND: usize = 8;

/// Default connection timeout (10 s).
pub const DEFAULT_CONNECT_TIMEOUT_MS: u64 = 10_000;

/// Default handshake timeout (5 s).
pub const DEFAULT_HANDSHAKE_TIMEOUT_MS: u64 = 5_000;

/// Default ping interval (60 s).
pub const DEFAULT_PING_INTERVAL_MS: u64 = 60_000;

/// Default ping timeout (120 s).
pub const DEFAULT_PING_TIMEOUT_MS: u64 = 120_000;

/// Default user agent string.
pub const DEFAULT_USER_AGENT: &'static str = "tunnels-p2p/0.1.0";

/// Default port the listener binds to.
pub const DEFAULT_BIND_PORT: u16 = 8333;

/// Configuration for the P2P node.
#[derive(Clone, Debug)]
pub struct P2pConfig {
    /// Address to bind the listener to.
    pub bind_addr: SocketAddress,
    /// Target number of outbound connections to maintain.
    pub target_outbound: usize,
    /// Maximum number of outbound connections.
    pub max_outbound: usize,
    /// Maximum number of inbound connections.
    pub max_inbound: usize,
    /// Timeout for establishing outbound connections.
    pub connect_timeout: u64,
    /// Timeout for completing the handshake.
    pub handshake_timeout: u64,
    /// Interval between ping messages.
    pub ping_interval: u64,
    /// Timeout waiting for pong response.
    pub ping_timeout: u64,
    /// DNS seed hostnames for peer discovery.
    pub dns_seeds: Vec<String>,
    /// Path to persistent peer list file.
    pub peers_file: String,
    /// User agent string to send in version messages.
    pub user_agent: String,
    /// Initial peers to connect to (bootstrap nodes).
    pub bootstrap_peers: Vec<SocketAddress>,
}

/// Whether `c` holds the default settings, apart from the bind address.
pub open spec fn default_settings(c: P2pConfig) -> bool {
    &&& c.target_outbound == DEFAULT_TARGET_OUTBOUND
    &&& c.max_outbound == DEFAULT_MAX_OUTBOUND
    &&& c.max_inbound == DEFAULT_MAX_INBOUND
    &&& c.connect_timeout == DEFAULT_CONNECT_TIMEOUT_MS
    &&& c.handshake_timeout == DEFAULT_HANDSHAKE_TIMEOUT_MS
    &&& c.ping_interval == DEFAULT_PING_INTERVAL_MS
    &&& c.ping_timeout == DEFAULT_PING_TIMEOUT_MS
    &&& c.dns_seeds@.len() == 0
    &&& c.peers_file@ == "peers.json"@
    &&& c.user_agent@ == DEFAULT_USER_AGENT@
    &&& c.bootstrap_peers@.len() == 0
}

impl Default for P2pConfig {
    fn default() -> (r: Self)
        ensures
            default_settings(r),
            r.bind_addr.ip == IpAddress::V4([0u8, 0u8, 0u8, 0u8]),
            r.bind_addr.port == DEFAULT_BIND_PORT,
    {
        P2pConfig::new(SocketAddress::v4(0, 0, 0, 0, DEFAULT_BIND_PORT))
    }
}

impl P2pConfig {
    /// Create a new configuration with the specified bind address.
    pub fn new(bind_addr: SocketAddress) -> (r: Self)
        ensures
            default_settings(r),
            r.bind_addr == bind_addr,
    {
        P2pConfig {
            bind_addr,
            target_outbound: DEFAULT_TARGET_OUTBOUND,
            max_outbound: DEFAULT_MAX_OUTBOUND,
            max_inbound: DEFAULT_MAX_INBOUND,
            connect_timeout: DEFAULT_CONNECT_TIMEOUT_MS,
            handshake_timeout: DEFAULT_HANDSHAKE_TIMEOUT_MS,
            ping_interval: DEFAULT_PING_INTERVAL_MS,
            ping_timeout: DEFAULT_PING_TIMEOUT_MS,
            dns_seeds: Vec::new(),
            peers_file: String::from_str("peers.json"),
            user_agent: String::from_str(DEFAULT_USER_AGENT),
            bootstrap_peers: Vec::new(),
        }
    }

    /// Set the target number of outbound connections.
    pub fn with_target_outbound(self, count: usize) -> (r: Self)
        ensures
            r == (P2pConfig { target_outbound: count, ..self }),
    {
        P2pConfig { target_outbound: count, ..self }
    }

    /// Set the maximum outbound connections.
    pub fn with_max_outbound(self, count: usize) -> (r: Self)
        ensures
            r == (P2pConfig { max_outbound: count, ..self }),
    {
        P2pConfig { max_outbound: count, ..self }
    }

    /// Set the maximum inbound connections.
    pub fn with_max_inbound(self, count: usize) -> (r: Self)
        ensures
            r == (P2pConfig { max_inbound: count, ..self }),
    {
        P2pConfig { max_inbound: count, ..self }
    }

    /// Set the connection timeout, in milliseconds.
    pub fn with_connect_timeout(self, timeout: u64) -> (r: Self)
        ensures
            r == (P2pConfig { connect_timeout: timeout, ..self }),
    {
        P2pConfig { connect_timeout: timeout, ..self }
    }

    /// Set the handshake timeout, in milliseconds.
    pub fn with_handshake_timeout(self, timeout: u64) -> (r: Self)
        ensures
            r == (P2pConfig { handshake_timeout: timeout, ..self }),
    {
        P2pConfig { handshake_timeout: timeout, ..self }
    }

    /// Add DNS seeds for peer discovery.
    pub fn with_dns_seeds(self, seeds: Vec<String>) -> (r: Self)
        ensures
            r == (P2pConfig { dns_seeds: seeds, ..self }),
    {
        P2pConfig { dns_seeds: seeds, ..self }
    }

    /// Set the peers file path.
    pub fn with_peers_file(self, path: String) -> (r: Self)
        ensures
            r == (P2pConfig { peers_file: path, ..self }),
    {
        P2pConfig { peers_file: path, ..self }
    }

    /// Set the user agent string.
    pub fn with_user_agent(self, user_agent: String) -> (r: Self)
        ensures
            r == (P2pConfig { user_agent, ..self }),
    {
        P2pConfig { user_agent, ..self }
    }

    /// Add bootstrap peers to connect to on startup.
    pub fn with_bootstrap_peers(self, peers: Vec<SocketAddress>) -> (r: Self)
        ensures
            r == (P2pConfig { bootstrap_peers: peers, ..self }),
    {
        P2pConfig { bootstrap_peers: peers, ..self }
    }

    /// Get the total maximum connections.
    pub fn max_connections(&self) -> (r: usize)
        requires
            self.max_outbound + self.max_inbound <= usize::MAX,
        ensures
            r == self.max_outbound + self.max_inbound,
    {
        self.max_outbound + self.max_inbound
    }
}

} // verus!
