//! Verified state machine and peer-to-peer protocol logic of the Tunnels
//! contribution-tracking chain.
pub mod u256;
pub mod assoc_map;
pub mod vec_set;
pub mod core_types;
pub mod state_error;
pub mod protocol_state;
pub mod accumulator;
pub mod bond;
pub mod waterfall;
pub mod conservation;
pub mod execute;
pub mod properties;
pub mod laws;
pub mod text;
pub mod p2p;
