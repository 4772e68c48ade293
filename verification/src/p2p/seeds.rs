//! DNS seed configuration.
//!
//! DNS seeds are used for initial peer discovery when a node starts for the
//! first time. Seeds return A or AAAA records of active nodes; the default
//! P2P port is assumed for them.
use vstd::prelude::*;

verus! {

/// Default P2P port for Tunnels nodes.
pub const DEFAULT_P2P_PORT: u16 = 9333;

/// Mainnet DNS seed hostnames (none are published yet).
pub const MAINNET_SEEDS: [&'static str; 0] = [];

/// Testnet DNS seed hostnames (none are published yet).
pub const TESTNET_SEEDS: [&'static str; 0] = [];

/// Devnet seed socket addresses (none are configured).
pub const DEVNET_SEEDS: [&'static str; 0] = [];

/// Network type for seed selection.
#[derive(Clone, Copy, Debug, PartialEq, Eq, Structural)]
pub enum Network {
    /// Production mainnet.
    Mainnet,
    /// Public testnet for testing.
    Testnet,
    /// Local development network.
    Devnet,
}

impl Default for Network {
    fn default() -> (r: Self)
        ensures
            r == Network::Mainnet,
    {
        Network::Mainnet
    }
}

impl Network {
    /// The network's name: `mainnet`, `testnet` or `devnet`.
    pub fn to_string(&self) -> (r: String)
        ensures
            r@ == (match *self {
                Network::Mainnet => "mainnet"@,
                Network::Testnet => "testnet"@,
                Network::Devnet => "devnet"@,
            }),
    {
        match self {
            Network::Mainnet => String::from_str("mainnet"),
            Network::Testnet => String::from_str("testnet"),
            Network::Devnet => String::from_str("devnet"),
        }
    }
}

/// Get the appropriate seed list for a network.
pub fn get_seeds(network: Network) -> (r: &'static [&'static str])
    ensures
        r@ == (match network {
            Network::Mainnet => MAINNET_SEEDS@,
            Network::Testnet => TESTNET_SEEDS@,
            Network::Devnet => DEVNET_SEEDS@,
        }),
{
    match network {
        Network::Mainnet => &MAINNET_SEEDS,
        Network::Testnet => &TESTNET_SEEDS,
        Network::Devnet => &DEVNET_SEEDS,
    }
}

} // verus!
