//! Gossip bookkeeping: which transactions and blocks were already seen, and
//! orphan blocks waiting for their parent.
use vstd::prelude::*;
use crate::assoc_map::bytes_eq;
use crate::core_types::SignedTransaction;
use crate::p2p::error::{P2pError, P2pResult};
use crate::p2p::filter::{keys_after_check, keys_after_put, SeenFilter, DEFAULT_CAPACITY};
use crate::p2p::headers::{knows, ChainView};
use crate::p2p::messages::{Block, Message, NewBlockMessage, NewTransactionMessage};

verus! {

broadcast use vstd::array::group_array_axioms;

/// Maximum number of orphan blocks to keep.
pub const MAX_ORPHAN_BLOCKS: usize = 100;

/// Age after which an orphan block is discarded, in milliseconds.
pub const ORPHAN_EXPIRY_MS: u64 = 300_000;

/// Transaction relay manager.
pub struct TxRelay {
    /// Filter for already-seen transactions.
    pub seen: SeenFilter,
}

impl TxRelay {
    /// Create a new transaction relay manager.
    pub fn new() -> (r: Self)
        ensures
            r.seen.wf(),
            r.seen.seen().len() == 0,
            r.seen.capacity() == DEFAULT_CAPACITY,
    {
        TxRelay { seen: SeenFilter::with_default_capacity() }
    }

    /// Create a new transaction relay with custom capacity.
    pub fn with_capacity(capacity: usize) -> (r: Self)
        ensures
            r.seen.wf(),
            r.seen.seen().len() == 0,
            r.seen.capacity() == (if capacity == 0 { 1 } else { capacity }),
    {
        TxRelay { seen: SeenFilter::new(capacity) }
    }

    /// Check if a transaction should be relayed (not seen before), marking
    /// it seen.
    pub fn should_relay(&mut self, tx_id: &[u8; 32]) -> (r: bool)
        requires
            old(self).seen.wf(),
        ensures
            final(self).seen.wf(),
            r == !old(self).seen.seen().contains(*tx_id),
            final(self).seen.seen() == keys_after_check(old(self).seen.seen(), old(self).seen.capacity(), *tx_id),
            final(self).seen.seen().contains(*tx_id),
            final(self).seen.capacity() == old(self).seen.capacity(),
    {
        self.seen.check(tx_id)
    }

    /// Mark a transaction as seen without checking.
    pub fn mark_seen(&mut self, tx_id: [u8; 32])
        requires
            old(self).seen.wf(),
        ensures
            final(self).seen.wf(),
            final(self).seen.seen() == keys_after_put(old(self).seen.seen(), old(self).seen.capacity(), tx_id),
            final(self).seen.seen().contains(tx_id),
            final(self).seen.capacity() == old(self).seen.capacity(),
    {
        self.seen.mark_seen(tx_id);
    }

    /// Check if we've seen a transaction.
    pub fn has_seen(&self, tx_id: &[u8; 32]) -> (r: bool)
        ensures
            r == self.seen.seen().contains(*tx_id),
    {
        self.seen.contains(tx_id)
    }

    /// The outcome of processing a transaction not seen before, given the
    /// mempool's answer when asked to take it (its error message on
    /// refusal): the transaction's id when taken.
    pub fn transaction_added(tx_id: [u8; 32], added: Result<(), String>) -> (r: P2pResult<Option<[u8; 32]>>)
        ensures
            match added {
                Ok(()) => r == Ok::<Option<[u8; 32]>, P2pError>(Some(tx_id)),
                Err(e) => r == Err::<Option<[u8; 32]>, P2pError>(P2pError::TransactionValidationFailed(e)),
            },
    {
        match added {
            Ok(()) => Ok(Some(tx_id)),
            Err(e) => Err(P2pError::TransactionValidationFailed(e)),
        }
    }

    /// Create a NewTransaction message for broadcasting.
    pub fn create_message(tx: SignedTransaction) -> (r: Message)
        ensures
            r == Message::NewTransaction(NewTransactionMessage { transaction: tx }),
    {
        Message::NewTransaction(NewTransactionMessage { transaction: tx })
    }

    /// Get the number of seen transactions.
    pub fn seen_count(&self) -> (r: usize)
        ensures
            r == self.seen.seen().len(),
    {
        self.seen.len()
    }

    /// Clear the seen filter.
    pub fn clear(&mut self)
        requires
            old(self).seen.wf(),
        ensures
            final(self).seen.wf(),
            final(self).seen.seen().len() == 0,
            final(self).seen.capacity() == old(self).seen.capacity(),
    {
        self.seen.clear();
    }
}

/// How a received block fares before the chain is asked to add it.
#[derive(Clone, Copy, Debug, PartialEq, Eq, Structural)]
pub enum BlockCheck {
    /// Seen before: dropped.
    AlreadySeen,
    /// The chain already holds it: dropped.
    AlreadyKnown,
    /// The chain lacks its parent: dropped (it may prompt a sync).
    UnknownParent,
    /// To be added to the chain.
    Accept,
}

/// The check a received block goes through, given whether it was seen
/// before and the chain's known blocks.
pub open spec fn block_check(seen_before: bool, blocks: Seq<crate::p2p::messages::BlockHeader>, block: Block) -> BlockCheck {
    if seen_before {
        BlockCheck::AlreadySeen
    } else if knows(blocks, block.header.hash) {
        BlockCheck::AlreadyKnown
    } else if !knows(blocks, block.header.prev_block_hash) {
        BlockCheck::UnknownParent
    } else {
        BlockCheck::Accept
    }
}

/// Block relay manager.
pub struct BlockRelay {
    /// Filter for already-seen blocks.
    pub seen: SeenFilter,
}

impl BlockRelay {
    /// Create a new block relay manager.
    pub fn new() -> (r: Self)
        ensures
            r.seen.wf(),
            r.seen.seen().len() == 0,
            r.seen.capacity() == DEFAULT_CAPACITY,
    {
        BlockRelay { seen: SeenFilter::with_default_capacity() }
    }

    /// Create a new block relay with custom capacity.
    pub fn with_capacity(capacity: usize) -> (r: Self)
        ensures
            r.seen.wf(),
            r.seen.seen().len() == 0,
            r.seen.capacity() == (if capacity == 0 { 1 } else { capacity }),
    {
        BlockRelay { seen: SeenFilter::new(capacity) }
    }

    /// Check if a block should be relayed (not seen before), marking it seen.
    pub fn should_relay(&mut self, block_hash: &[u8; 32]) -> (r: bool)
        requires
            old(self).seen.wf(),
        ensures
            final(self).seen.wf(),
            r == !old(self).seen.seen().contains(*block_hash),
            final(self).seen.seen() == keys_after_check(old(self).seen.seen(), old(self).seen.capacity(), *block_hash),
            final(self).seen.seen().contains(*block_hash),
            final(self).seen.capacity() == old(self).seen.capacity(),
    {
        self.seen.check(block_hash)
    }

    /// Mark a block as seen without checking.
    pub fn mark_seen(&mut self, block_hash: [u8; 32])
        requires
            old(self).seen.wf(),
        ensures
            final(self).seen.wf(),
            final(self).seen.seen() == keys_after_put(
                old(self).seen.seen(),
                old(self).seen.capacity(),
                block_hash,
            ),
            final(self).seen.capacity() == old(self).seen.capacity(),
    {
        self.seen.mark_seen(block_hash);
    }

    /// Check if we've seen a block.
    pub fn has_seen(&self, block_hash: &[u8; 32]) -> (r: bool)
        ensures
            r == self.seen.seen().contains(*block_hash),
    {
        self.seen.contains(block_hash)
    }

    /// The first step of processing a received block: one seen before (the
    /// check marks it seen), one the chain already holds, or one whose
    /// parent the chain lacks goes no further; any other is to be added.
    pub fn check_block(&mut self, block: &Block, chain: &ChainView) -> (r: BlockCheck)
        requires
            old(self).seen.wf(),
        ensures
            final(self).seen.wf(),
            final(self).seen.seen() == keys_after_check(old(self).seen.seen(), old(self).seen.capacity(), block.header.hash),
            final(self).seen.seen().contains(block.header.hash),
            final(self).seen.capacity() == old(self).seen.capacity(),
            r == block_check(old(self).seen.seen().contains(block.header.hash), chain.blocks@, *block),
    {
        if !self.should_relay(&block.header.hash) {
            return BlockCheck::AlreadySeen;
        }
        if chain.has_block(&block.header.hash) {
            return BlockCheck::AlreadyKnown;
        }
        if !chain.has_block(&block.header.prev_block_hash) {
            return BlockCheck::UnknownParent;
        }
        BlockCheck::Accept
    }

    /// The outcome of processing a block that passed `check_block`, given
    /// the chain's answer when asked to add it (its error message on
    /// refusal): the block's hash when added, and nothing for an invalid
    /// block, which stays marked seen.
    pub fn block_added(block_hash: [u8; 32], added: Result<(), String>) -> (r: P2pResult<Option<[u8; 32]>>)
        ensures
            match added {
                Ok(()) => r == Ok::<Option<[u8; 32]>, P2pError>(Some(block_hash)),
                Err(_) => r == Ok::<Option<[u8; 32]>, P2pError>(None),
            },
    {
        match added {
            Ok(()) => Ok(Some(block_hash)),
            Err(_) => Ok(None),
        }
    }

    /// Create a NewBlock message for broadcasting.
    pub fn create_message(block: Block) -> (r: Message)
        ensures
            r == Message::NewBlock(NewBlockMessage { block }),
    {
        Message::NewBlock(NewBlockMessage { block })
    }

    /// Get the number of seen blocks.
    pub fn seen_count(&self) -> (r: usize)
        ensures
            r == self.seen.seen().len(),
    {
        self.seen.len()
    }

    /// Clear the seen filter.
    pub fn clear(&mut self)
        requires
            old(self).seen.wf(),
        ensures
            final(self).seen.wf(),
            final(self).seen.seen().len() == 0,
            final(self).seen.capacity() == old(self).seen.capacity(),
    {
        self.seen.clear();
    }
}

/// An orphan block waiting for its parent.
///
/// Times are milliseconds on the node's monotonic clock.
#[derive(Clone, Copy, Debug)]
pub struct OrphanBlock {
    /// The block itself.
    pub block: Block,
    /// When this orphan was received.
    pub received_at: u64,
}

/// Statistics about gossip activity.
#[derive(Clone, Copy, Debug)]
pub struct GossipStats {
    /// Number of seen transactions.
    pub seen_transactions: usize,
    /// Number of seen blocks.
    pub seen_blocks: usize,
}

/// Whether an orphan received at `received_at` is still kept at `now`.
pub open spec fn orphan_alive(received_at: u64, now: u64) -> bool {
    (if now >= received_at { now - received_at } else { 0 }) < ORPHAN_EXPIRY_MS
}

/// The orphans of `s` still kept at `now`, in order.
pub open spec fn unexpired(s: Seq<OrphanBlock>, now: u64) -> Seq<OrphanBlock>
    decreases s.len(),
{
    if s.len() == 0 {
        s
    } else if orphan_alive(s.last().received_at, now) {
        unexpired(s.drop_last(), now).push(s.last())
    } else {
        unexpired(s.drop_last(), now)
    }
}

/// Whether `s` holds an orphan with this parent and this hash.
pub open spec fn holds_orphan(s: Seq<OrphanBlock>, parent: [u8; 32], hash: [u8; 32]) -> bool {
    exists|i: int|
        0 <= i < s.len() && s[i].block.header.prev_block_hash == parent && s[i].block.header.hash
            == hash
}

/// The position of the first orphan whose parent is known.
pub open spec fn first_processable(s: Seq<OrphanBlock>, blocks: Seq<crate::p2p::messages::BlockHeader>) -> int {
    choose|i: int|
        0 <= i < s.len() && knows(blocks, s[i].block.header.prev_block_hash) && forall|j: int|
            0 <= j < i ==> !knows(blocks, #[trigger] s[j].block.header.prev_block_hash)
}

/// The position of the last orphan with parent `parent`.
pub open spec fn last_with_parent(s: Seq<OrphanBlock>, parent: [u8; 32]) -> int {
    choose|i: int|
        0 <= i < s.len() && s[i].block.header.prev_block_hash == parent && forall|j: int|
            i < j < s.len() ==> #[trigger] s[j].block.header.prev_block_hash != parent
}

/// Gossip manager coordinates all gossip operations.
pub struct GossipManager {
    /// Transaction relay.
    tx_relay: TxRelay,
    /// Block relay.
    block_relay: BlockRelay,
    /// Orphan blocks, in the order they were queued.
    orphans: Vec<OrphanBlock>,
}

impl GossipManager {
    /// The queued orphans, oldest first.
    pub closed spec fn orphans(&self) -> Seq<OrphanBlock> {
        self.orphans@
    }

    /// The transactions remembered as seen.
    pub closed spec fn seen_txs(&self) -> Seq<[u8; 32]> {
        self.tx_relay.seen.seen()
    }

    /// The blocks remembered as seen.
    pub closed spec fn seen_blocks(&self) -> Seq<[u8; 32]> {
        self.block_relay.seen.seen()
    }

    /// How many transactions the manager remembers at most.
    pub closed spec fn tx_capacity(&self) -> nat {
        self.tx_relay.seen.capacity()
    }

    /// How many blocks the manager remembers at most.
    pub closed spec fn block_capacity(&self) -> nat {
        self.block_relay.seen.capacity()
    }

    /// Both seen filters are well formed and remember up to
    /// `DEFAULT_CAPACITY` hashes each, and the orphan pool is bounded.
    pub closed spec fn wf(&self) -> bool {
        &&& self.tx_relay.seen.wf()
        &&& self.block_relay.seen.wf()
        &&& self.tx_relay.seen.capacity() == DEFAULT_CAPACITY
        &&& self.block_relay.seen.capacity() == DEFAULT_CAPACITY
        &&& self.orphans@.len() <= MAX_ORPHAN_BLOCKS
    }

    /// A well-formed manager remembers up to `DEFAULT_CAPACITY` hashes of
    /// each kind, and its seen blocks are distinct.
    pub proof fn lemma_seen_blocks_bounded(&self)
        requires
            self.wf(),
        ensures
            self.seen_blocks().no_duplicates(),
            self.seen_blocks().len() <= DEFAULT_CAPACITY,
            self.tx_capacity() == DEFAULT_CAPACITY,
            self.block_capacity() == DEFAULT_CAPACITY,
    {
    }

    /// A well-formed manager holds at most `MAX_ORPHAN_BLOCKS` orphans.
    pub proof fn lemma_orphans_bounded(&self)
        requires
            self.wf(),
        ensures
            self.orphans().len() <= MAX_ORPHAN_BLOCKS,
    {
    }

    /// Create a new gossip manager.
    pub fn new() -> (r: Self)
        ensures
            r.wf(),
            r.orphans().len() == 0,
            r.seen_txs().len() == 0,
            r.seen_blocks().len() == 0,
            r.tx_capacity() == DEFAULT_CAPACITY,
            r.block_capacity() == DEFAULT_CAPACITY,
    {
        GossipManager { tx_relay: TxRelay::new(), block_relay: BlockRelay::new(), orphans: Vec::new() }
    }

    /// Check if a transaction has been seen.
    pub fn has_seen_tx(&self, tx_id: &[u8; 32]) -> (r: bool)
        ensures
            r == self.seen_txs().contains(*tx_id),
    {
        self.tx_relay.has_seen(tx_id)
    }

    /// Check if a block has been seen.
    pub fn has_seen_block(&self, hash: &[u8; 32]) -> (r: bool)
        ensures
            r == self.seen_blocks().contains(*hash),
    {
        self.block_relay.has_seen(hash)
    }

    /// Mark a transaction as seen.
    pub fn mark_tx_seen(&mut self, tx_id: [u8; 32])
        requires
            old(self).wf(),
        ensures
            final(self).wf(),
            final(self).seen_txs() == keys_after_put(old(self).seen_txs(), DEFAULT_CAPACITY as nat, tx_id),
            final(self).seen_txs().contains(tx_id),
            final(self).seen_blocks() == old(self).seen_blocks(),
            final(self).orphans() == old(self).orphans(),
    {
        self.tx_relay.mark_seen(tx_id);
    }

    /// Mark a block as seen.
    pub fn mark_block_seen(&mut self, hash: [u8; 32])
        requires
            old(self).wf(),
        ensures
            final(self).wf(),
            final(self).seen_blocks() == keys_after_put(old(self).seen_blocks(), DEFAULT_CAPACITY as nat, hash),
            final(self).seen_blocks().contains(hash),
            final(self).seen_txs() == old(self).seen_txs(),
            final(self).orphans() == old(self).orphans(),
    {
        self.block_relay.mark_seen(hash);
        proof {
            crate::p2p::filter::lemma_put_keeps_bounds(
                old(self).block_relay.seen.seen(),
                old(self).block_relay.seen.capacity(),
                hash,
            );
        }
    }

    /// Create a message to broadcast a new transaction, marking it seen.
    pub fn create_tx_message(&mut self, tx: SignedTransaction) -> (r: Message)
        requires
            old(self).wf(),
        ensures
            final(self).wf(),
            final(self).seen_txs() == keys_after_put(old(self).seen_txs(), DEFAULT_CAPACITY as nat, tx.hash),
            final(self).seen_txs().contains(tx.hash),
            final(self).seen_blocks() == old(self).seen_blocks(),
            final(self).orphans() == old(self).orphans(),
            r == Message::NewTransaction(NewTransactionMessage { transaction: tx }),
    {
        self.tx_relay.mark_seen(tx.hash);
        TxRelay::create_message(tx)
    }

    /// Create a message to broadcast a new block, marking it seen.
    pub fn create_block_message(&mut self, block: Block) -> (r: Message)
        requires
            old(self).wf(),
        ensures
            final(self).wf(),
            final(self).seen_blocks() == keys_after_put(old(self).seen_blocks(), DEFAULT_CAPACITY as nat, block.header.hash),
            final(self).seen_blocks().contains(block.header.hash),
            final(self).seen_txs() == old(self).seen_txs(),
            final(self).orphans() == old(self).orphans(),
            r == Message::NewBlock(NewBlockMessage { block }),
    {
        self.mark_block_seen(block.header.hash);
        BlockRelay::create_message(block)
    }

    /// The first step of processing a received transaction: whether it
    /// was not seen before (it is marked seen either way).
    pub fn check_transaction(&mut self, tx: &SignedTransaction) -> (r: bool)
        requires
            old(self).wf(),
        ensures
            final(self).wf(),
            r == !old(self).seen_txs().contains(tx.hash),
            final(self).seen_txs() == keys_after_check(old(self).seen_txs(), DEFAULT_CAPACITY as nat, tx.hash),
            final(self).seen_txs().contains(tx.hash),
            final(self).seen_blocks() == old(self).seen_blocks(),
            final(self).orphans() == old(self).orphans(),
    {
        self.tx_relay.should_relay(&tx.hash)
    }

    /// The outcome of processing a transaction not seen before, given the
    /// mempool's answer: its id and the message relaying it when taken.
    pub fn transaction_processed(tx: SignedTransaction, added: Result<(), String>) -> (r: P2pResult<
        Option<([u8; 32], Message)>,
    >)
        ensures
            match added {
                Ok(()) => r == Ok::<Option<([u8; 32], Message)>, P2pError>(
                    Some((tx.hash, Message::NewTransaction(NewTransactionMessage { transaction: tx }))),
                ),
                Err(e) => r == Err::<Option<([u8; 32], Message)>, P2pError>(
                    P2pError::TransactionValidationFailed(e),
                ),
            },
    {
        match TxRelay::transaction_added(tx.hash, added) {
            Ok(Some(id)) => Ok(Some((id, TxRelay::create_message(tx)))),
            Ok(None) => Ok(None),
            Err(e) => Err(e),
        }
    }

    /// The first step of processing a received block (see
    /// `BlockRelay::check_block`).
    pub fn check_block(&mut self, block: &Block, chain: &ChainView) -> (r: BlockCheck)
        requires
            old(self).wf(),
        ensures
            final(self).wf(),
            r == block_check(old(self).seen_blocks().contains(block.header.hash), chain.blocks@, *block),
            final(self).seen_blocks() == keys_after_check(old(self).seen_blocks(), DEFAULT_CAPACITY as nat, block.header.hash),
            final(self).seen_blocks().contains(block.header.hash),
            final(self).seen_txs() == old(self).seen_txs(),
            final(self).orphans() == old(self).orphans(),
    {
        self.block_relay.check_block(block, chain)
    }

    /// The outcome of processing a block that passed `check_block`, given
    /// the chain's answer: its hash and the message relaying it when added,
    /// nothing when the chain refused it.
    pub fn block_processed(block: Block, added: Result<(), String>) -> (r: P2pResult<
        Option<([u8; 32], Message)>,
    >)
        ensures
            match added {
                Ok(()) => r == Ok::<Option<([u8; 32], Message)>, P2pError>(
                    Some((block.header.hash, Message::NewBlock(NewBlockMessage { block }))),
                ),
                Err(_) => r == Ok::<Option<([u8; 32], Message)>, P2pError>(None),
            },
    {
        match BlockRelay::block_added(block.header.hash, added) {
            Ok(Some(hash)) => Ok(Some((hash, BlockRelay::create_message(block)))),
            Ok(None) => Ok(None),
            Err(e) => Err(e),
        }
    }

    /// Drop the orphans that expired by `now`.
    fn clean_expired_orphans(&mut self, now: u64)
        requires
            old(self).wf(),
        ensures
            final(self).wf(),
            final(self).orphans() == unexpired(old(self).orphans(), now),
            final(self).seen_txs() == old(self).seen_txs(),
            final(self).seen_blocks() == old(self).seen_blocks(),
            final(self).block_relay.seen.capacity() == old(self).block_relay.seen.capacity(),
    {
        let mut kept: Vec<OrphanBlock> = Vec::new();
        let mut i: usize = 0;
        proof {
            assert(self.orphans@.take(0) =~= Seq::<OrphanBlock>::empty());
        }
        while i < self.orphans.len()
            invariant
                0 <= i <= self.orphans@.len(),
                kept@ == unexpired(self.orphans@.take(i as int), now),
                kept@.len() <= i,
            decreases self.orphans@.len() - i,
        {
            let o = self.orphans[i];
            proof {
                let t = self.orphans@.take(i + 1);
                assert(t.drop_last() =~= self.orphans@.take(i as int));
                assert(t.last() == o);
            }
            if now.saturating_sub(o.received_at) < ORPHAN_EXPIRY_MS {
                kept.push(o);
            }
            i += 1;
        }
        proof {
            assert(self.orphans@.take(self.orphans@.len() as int) =~= self.orphans@);
        }
        self.orphans = kept;
    }

    /// The orphan pool after queueing `block` at `now`: expired orphans are
    /// dropped; the block is added unless the pool is full or already holds
    /// it under the same parent.
    pub open spec fn orphans_after_queue(&self, block: Block, now: u64) -> Seq<OrphanBlock> {
        let live = unexpired(self.orphans(), now);
        if live.len() >= MAX_ORPHAN_BLOCKS || holds_orphan(
            live,
            block.header.prev_block_hash,
            block.header.hash,
        ) {
            live
        } else {
            live.push(OrphanBlock { block, received_at: now })
        }
    }

    /// Queue an orphan block whose parent we don't have yet, at time `now`.
    /// A queued orphan is marked seen so that it is not requested again.
    pub fn queue_orphan(&mut self, block: Block, now: u64)
        requires
            old(self).wf(),
        ensures
            final(self).wf(),
            final(self).orphans() == old(self).orphans_after_queue(block, now),
            final(self).orphans().len() <= MAX_ORPHAN_BLOCKS,
            final(self).orphans().len() > unexpired(old(self).orphans(), now).len() ==> final(self).seen_blocks() == keys_after_put(
                old(self).seen_blocks(),
                DEFAULT_CAPACITY as nat,
                block.header.hash,
            ),
            final(self).orphans().len() <= unexpired(old(self).orphans(), now).len() ==> final(self).seen_blocks() == old(self).seen_blocks(),
            final(self).seen_txs() == old(self).seen_txs(),
    {
        self.clean_expired_orphans(now);
        if self.orphans.len() >= MAX_ORPHAN_BLOCKS {
            return;
        }
        let parent_hash = block.header.prev_block_hash;
        let block_hash = block.header.hash;
        let mut i: usize = 0;
        while i < self.orphans.len()
            invariant
                0 <= i <= self.orphans@.len(),
                self.wf(),
                self.orphans@ == unexpired(old(self).orphans(), now),
                self.seen_txs() == old(self).seen_txs(),
                self.seen_blocks() == old(self).seen_blocks(),
                self.orphans@.len() < MAX_ORPHAN_BLOCKS,
                parent_hash == block.header.prev_block_hash,
                block_hash == block.header.hash,
                forall|j: int|
                    0 <= j < i ==> !(self.orphans@[j].block.header.prev_block_hash == parent_hash
                        && self.orphans@[j].block.header.hash == block_hash),
            decreases self.orphans@.len() - i,
        {
            let o = self.orphans[i];
            if bytes_eq(&o.block.header.prev_block_hash, &parent_hash) && bytes_eq(
                &o.block.header.hash,
                &block_hash,
            ) {
                assert(self.orphans@[i as int] == o);
                return;
            }
            i += 1;
        }
        proof {
            let live = self.orphans@;
            if holds_orphan(live, parent_hash, block_hash) {
                let j = choose|j: int|
                    0 <= j < live.len() && live[j].block.header.prev_block_hash == parent_hash
                        && live[j].block.header.hash == block_hash;
                assert(!(live[j].block.header.prev_block_hash == parent_hash
                    && live[j].block.header.hash == block_hash));
            }
        }
        self.mark_block_seen(block_hash);
        self.orphans.push(OrphanBlock { block, received_at: now });
    }

    /// Get an orphan block whose parent now exists in the chain, removing it
    /// from the pool: the parent of the oldest such orphan is taken, and of
    /// the orphans with that parent the most recently queued is returned.
    pub fn get_processable_orphan(&mut self, chain: &ChainView) -> (r: Option<Block>)
        requires
            old(self).wf(),
        ensures
            final(self).wf(),
            final(self).seen_txs() == old(self).seen_txs(),
            final(self).seen_blocks() == old(self).seen_blocks(),
            (exists|i: int|
                0 <= i < old(self).orphans().len() && knows(
                    chain.blocks@,
                    #[trigger] old(self).orphans()[i].block.header.prev_block_hash,
                )) ==> {
                let s = old(self).orphans();
                let parent = s[first_processable(s, chain.blocks@)].block.header.prev_block_hash;
                let k = last_with_parent(s, parent);
                &&& r == Some(s[k].block)
                &&& final(self).orphans() == s.remove(k)
            },
            !(exists|i: int|
                0 <= i < old(self).orphans().len() && knows(
                    chain.blocks@,
                    #[trigger] old(self).orphans()[i].block.header.prev_block_hash,
                )) ==> r is None && final(self).orphans() == old(self).orphans(),
    {
        let mut i: usize = 0;
        while i < self.orphans.len()
            invariant
                0 <= i <= self.orphans@.len(),
                self.wf(),
                self.orphans@ == old(self).orphans(),
                self.seen_txs() == old(self).seen_txs(),
                self.seen_blocks() == old(self).seen_blocks(),
                forall|j: int|
                    0 <= j < i ==> !knows(chain.blocks@, #[trigger] self.orphans@[j].block.header.prev_block_hash),
            decreases self.orphans@.len() - i,
        {
            let parent = self.orphans[i].block.header.prev_block_hash;
            if chain.has_block(&parent) {
                proof {
                    let s = self.orphans@;
                    let f = first_processable(s, chain.blocks@);
                    assert(0 <= f < s.len() && knows(chain.blocks@, s[f].block.header.prev_block_hash)
                        && forall|j: int| 0 <= j < f ==> !knows(chain.blocks@, #[trigger] s[j].block.header.prev_block_hash));
                    assert(f == i) by {
                        if f < i {
                            assert(!knows(chain.blocks@, s[f].block.header.prev_block_hash));
                        }
                        if f > i {
                            assert(!knows(chain.blocks@, s[i as int].block.header.prev_block_hash));
                        }
                    }
                }
                let mut k: usize = self.orphans.len() - 1;
                while !bytes_eq(&self.orphans[k].block.header.prev_block_hash, &parent)
                    invariant
                        i <= k < self.orphans@.len(),
                        self.wf(),
                        self.orphans@ == old(self).orphans(),
                        self.seen_txs() == old(self).seen_txs(),
                        self.seen_blocks() == old(self).seen_blocks(),
                        self.orphans@[i as int].block.header.prev_block_hash == parent,
                        forall|j: int| k < j < self.orphans@.len() ==> #[trigger] self.orphans@[j].block.header.prev_block_hash != parent,
                    decreases k,
                {
                    k = k - 1;
                }
                proof {
                    let s = self.orphans@;
                    let l = last_with_parent(s, parent);
                    assert(0 <= l < s.len() && s[l].block.header.prev_block_hash == parent
                        && forall|j: int| l < j < s.len() ==> #[trigger] s[j].block.header.prev_block_hash != parent);
                    assert(l == k) by {
                        if l < k {
                            assert(s[k as int].block.header.prev_block_hash != parent);
                        }
                        if l > k {
                            assert(s[l].block.header.prev_block_hash != parent);
                        }
                    }
                }
                let o = self.orphans.remove(k);
                return Some(o.block);
            }
            i += 1;
        }
        None
    }

    /// Get the number of queued orphan blocks.
    pub fn orphan_count(&self) -> (r: usize)
        ensures
            r == self.orphans().len(),
    {
        self.orphans.len()
    }

    /// Get statistics about seen items.
    pub fn stats(&self) -> (r: GossipStats)
        ensures
            r.seen_transactions == self.seen_txs().len(),
            r.seen_blocks == self.seen_blocks().len(),
    {
        GossipStats {
            seen_transactions: self.tx_relay.seen_count(),
            seen_blocks: self.block_relay.seen_count(),
        }
    }

    /// Clear all seen filters and orphan pool.
    pub fn clear(&mut self)
        requires
            old(self).wf(),
        ensures
            final(self).wf(),
            final(self).orphans().len() == 0,
            final(self).seen_txs().len() == 0,
            final(self).seen_blocks().len() == 0,
    {
        self.tx_relay.clear();
        self.block_relay.clear();
        self.orphans.clear();
    }
}

} // verus!
