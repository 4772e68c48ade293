//! Block-level information handed to every transaction handler.
use vstd::prelude::*;

verus! {

/// Default minimum verification window (24 hours, in seconds).
pub const DEFAULT_MIN_VERIFICATION_WINDOW: u64 = 86_400;

/// Devnet minimum verification window (10 seconds).
pub const DEVNET_MIN_VERIFICATION_WINDOW: u64 = 10;

/// The context `with_timestamp` builds.
pub open spec fn context_at(timestamp: u64) -> ExecutionContext {
    ExecutionContext { timestamp, block_height: 0, tx_difficulty: 1, min_verification_window: DEFAULT_MIN_VERIFICATION_WINDOW }
}

/// Execution context carrying block-level information.
#[derive(Clone, Copy, Debug, PartialEq, Eq)]
pub struct ExecutionContext {
    /// Current block timestamp (unix seconds).
    pub timestamp: u64,
    /// Current block height.
    pub block_height: u64,
    /// Transaction proof-of-work difficulty for this block.
    pub tx_difficulty: u64,
    /// Minimum verification window for projects (seconds).
    pub min_verification_window: u64,
}

impl ExecutionContext {
    /// A context with the default minimum verification window.
    pub fn new(timestamp: u64, block_height: u64, tx_difficulty: u64) -> (r: Self)
        ensures
            r == (ExecutionContext { timestamp, block_height, tx_difficulty, min_verification_window: DEFAULT_MIN_VERIFICATION_WINDOW }),
    {
        ExecutionContext { timestamp, block_height, tx_difficulty, min_verification_window: DEFAULT_MIN_VERIFICATION_WINDOW }
    }

    /// A context at `timestamp`, height 0 and difficulty 1.
    pub fn with_timestamp(timestamp: u64) -> (r: Self)
        ensures
            r == context_at(timestamp),
    {
        ExecutionContext { timestamp, block_height: 0, tx_difficulty: 1, min_verification_window: DEFAULT_MIN_VERIFICATION_WINDOW }
    }

    /// A devnet context with the short verification window.
    pub fn devnet(timestamp: u64, block_height: u64, tx_difficulty: u64) -> (r: Self)
        ensures
            r == (ExecutionContext { timestamp, block_height, tx_difficulty, min_verification_window: DEVNET_MIN_VERIFICATION_WINDOW }),
    {
        ExecutionContext { timestamp, block_height, tx_difficulty, min_verification_window: DEVNET_MIN_VERIFICATION_WINDOW }
    }

    /// A context for tests: a fixed timestamp, height 1, difficulty 1.
    pub fn test_context() -> (r: Self)
        ensures
            r == (ExecutionContext { timestamp: 1_700_000_000, block_height: 1, tx_difficulty: 1, min_verification_window: DEFAULT_MIN_VERIFICATION_WINDOW }),
    {
        ExecutionContext { timestamp: 1_700_000_000, block_height: 1, tx_difficulty: 1, min_verification_window: DEFAULT_MIN_VERIFICATION_WINDOW }
    }
}

} // verus!
