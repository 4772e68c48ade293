//! Headers-first sync: block locators, serving header requests, and
//! checking that received headers and blocks extend the known chain.
use vstd::prelude::*;
use crate::assoc_map::bytes_eq;
use crate::p2p::error::{P2pError, P2pResult};
use crate::p2p::messages::{Block, BlockHeader, GetHeadersMessage, HeadersMessage};
use crate::text::{debug_bytes, decimal, push_debug_prefix, push_decimal};

verus! {

broadcast use vstd::array::group_array_axioms;

/// Maximum number of headers per request.
pub const MAX_HEADERS_PER_REQUEST: usize = 2000;

/// Number of block locator hashes to send.
pub const LOCATOR_DEPTH: usize = 32;

/// Locator entries taken one height apart before the step starts doubling.
pub const LOCATOR_DENSE_ENTRIES: usize = 10;

/// What the sync logic reads of the local chain: every known block's
/// header, and the headers of the best chain by height (genesis first).
#[derive(Clone, Debug)]
pub struct ChainView {
    /// Headers of every known block, on any branch.
    pub blocks: Vec<BlockHeader>,
    /// Headers of the best chain, the one at index `h` having height `h`.
    pub main_chain: Vec<BlockHeader>,
}

/// Whether some block in `blocks` has hash `h`.
pub open spec fn knows(blocks: Seq<BlockHeader>, h: [u8; 32]) -> bool {
    exists|i: int| 0 <= i < blocks.len() && blocks[i].hash == h
}

/// The first block in `blocks` with hash `h`.
pub open spec fn first_with_hash(blocks: Seq<BlockHeader>, h: [u8; 32]) -> BlockHeader
    decreases blocks.len(),
{
    if blocks.len() == 0 {
        arbitrary()
    } else if blocks[0].hash == h {
        blocks[0]
    } else {
        first_with_hash(blocks.drop_first(), h)
    }
}

impl ChainView {
    /// The best chain is non-empty, its headers sit at their heights, and
    /// every known block is below the largest height.
    pub open spec fn wf(&self) -> bool {
        &&& self.main_chain@.len() >= 1
        &&& self.main_chain@.len() <= u64::MAX
        &&& forall|h: int| 0 <= h < self.main_chain@.len() ==> #[trigger] self.main_chain@[h].height == h
        &&& forall|i: int| 0 <= i < self.blocks@.len() ==> #[trigger] self.blocks@[i].height < u64::MAX
    }

    /// The height of the tip.
    pub open spec fn tip_height(&self) -> nat {
        (self.main_chain@.len() - 1) as nat
    }

    /// Check that the view is well formed.
    pub fn check_wf(&self) -> (r: bool)
        ensures
            r == self.wf(),
    {
        let n = self.main_chain.len();
        if n < 1 {
            return false;
        }
        let mut h: usize = 0;
        while h < n
            invariant
                0 <= h <= n,
                n == self.main_chain@.len(),
                forall|k: int| 0 <= k < h ==> #[trigger] self.main_chain@[k].height == k,
            decreases n - h,
        {
            if self.main_chain[h].height != h as u64 {
                return false;
            }
            h += 1;
        }
        let mut i: usize = 0;
        while i < self.blocks.len()
            invariant
                0 <= i <= self.blocks@.len(),
                forall|k: int| 0 <= k < i ==> #[trigger] self.blocks@[k].height < u64::MAX,
            decreases self.blocks@.len() - i,
        {
            if self.blocks[i].height == u64::MAX {
                return false;
            }
            i += 1;
        }
        true
    }

    /// The height of the best chain's tip.
    pub fn height(&self) -> (r: u64)
        requires
            self.wf(),
        ensures
            r == self.tip_height(),
    {
        (self.main_chain.len() - 1) as u64
    }

    /// The hash of the genesis block.
    pub fn genesis_hash(&self) -> (r: [u8; 32])
        requires
            self.wf(),
        ensures
            r == self.main_chain@[0].hash,
    {
        self.main_chain[0].hash
    }

    /// Whether a block with this hash is known.
    pub fn has_block(&self, hash: &[u8; 32]) -> (r: bool)
        ensures
            r == knows(self.blocks@, *hash),
    {
        self.get_block(hash).is_some()
    }

    /// The known block with this hash, if any.
    pub fn get_block(&self, hash: &[u8; 32]) -> (r: Option<BlockHeader>)
        ensures
            knows(self.blocks@, *hash) ==> r == Some(first_with_hash(self.blocks@, *hash)),
            !knows(self.blocks@, *hash) ==> r is None,
    {
        let mut i: usize = 0;
        assert(self.blocks@.skip(0) =~= self.blocks@);
        while i < self.blocks.len()
            invariant
                0 <= i <= self.blocks@.len(),
                forall|j: int| 0 <= j < i ==> self.blocks@[j].hash != *hash,
                first_with_hash(self.blocks@, *hash) == first_with_hash(self.blocks@.skip(i as int), *hash),
            decreases self.blocks@.len() - i,
        {
            proof {
                let t = self.blocks@.skip(i as int);
                assert(t[0] == self.blocks@[i as int]);
                assert(t.drop_first() =~= self.blocks@.skip(i + 1));
            }
            if bytes_eq(&self.blocks[i].hash, hash) {
                return Some(self.blocks[i]);
            }
            i += 1;
        }
        proof {
            let b = self.blocks@;
            if knows(b, *hash) {
                let k = choose|k: int| 0 <= k < b.len() && b[k].hash == *hash;
                assert(b[k].hash != *hash);
            }
        }
        None
    }

    /// The best-chain block at `height`, if the chain is that high.
    pub fn get_block_at_height(&self, height: u64) -> (r: Option<BlockHeader>)
        ensures
            height < self.main_chain@.len() ==> r == Some(self.main_chain@[height as int]),
            height >= self.main_chain@.len() ==> r is None,
    {
        if height < self.main_chain.len() as u64 {
            Some(self.main_chain[height as usize])
        } else {
            None
        }
    }
}

/// The locator hashes collected from `height` downwards, given the step to
/// the next height and the hashes collected so far: one hash per height,
/// the step doubling once ten hashes are collected, until genesis or
/// `LOCATOR_DEPTH` hashes.
pub open spec fn locator_from(main: Seq<BlockHeader>, height: nat, step: nat, acc: Seq<[u8; 32]>) -> Seq<[u8; 32]>
    decreases height,
{
    let acc1 = acc.push(main[height as int].hash);
    if height == 0 || step == 0 {
        acc1
    } else {
        let step1 = if acc1.len() >= LOCATOR_DENSE_ENTRIES { step * 2 } else { step };
        let h1 = if height >= step1 { (height - step1) as nat } else { 0nat };
        if acc1.len() >= LOCATOR_DEPTH {
            acc1
        } else {
            locator_from(main, h1, step1, acc1)
        }
    }
}

/// The block locator of a chain: from the tip down at growing distances,
/// always ending with the genesis hash.
pub open spec fn spec_block_locator(main: Seq<BlockHeader>) -> Seq<[u8; 32]> {
    if main.len() == 1 {
        seq![main[0].hash]
    } else {
        let l = locator_from(main, (main.len() - 1) as nat, 1, Seq::empty());
        if l.last() == main[0].hash {
            l
        } else {
            l.push(main[0].hash)
        }
    }
}

/// Build a block locator for a GetHeaders request.
///
/// Returns hashes at exponentially increasing distances from the tip:
/// tip, tip-1, ..., tip-9, then doubling steps, and finally genesis.
pub fn build_block_locator(chain: &ChainView) -> (r: Vec<[u8; 32]>)
    requires
        chain.wf(),
    ensures
        r@ == spec_block_locator(chain.main_chain@),
        r@.len() >= 1,
        r@[0] == chain.main_chain@[chain.main_chain@.len() - 1].hash,
        r@.last() == chain.main_chain@[0].hash,
        r@.len() <= LOCATOR_DEPTH + 1,
{
    let mut locator: Vec<[u8; 32]> = Vec::new();
    let tip_height = chain.height();
    if tip_height == 0 {
        locator.push(chain.genesis_hash());
        assert(locator@ =~= seq![chain.main_chain@[0].hash]);
        return locator;
    }
    let ghost main = chain.main_chain@;
    let mut height: u64 = tip_height;
    let mut step: u64 = 1;
    let ghost total = locator_from(main, tip_height as nat, 1, Seq::empty());
    proof {
        vstd::arithmetic::power2::lemma2_to64();
        assert(locator@ =~= Seq::<[u8; 32]>::empty());
    }
    loop
        invariant_except_break
            chain.wf(),
            main == chain.main_chain@,
            height <= tip_height,
            tip_height == main.len() - 1,
            1 <= step,
            step as nat <= vstd::arithmetic::power2::pow2(locator@.len() as nat),
            locator@.len() < LOCATOR_DEPTH,
            total == locator_from(main, height as nat, step as nat, locator@),
            locator@.len() == 0 ==> height == tip_height,
            locator@.len() > 0 ==> locator@[0] == main[tip_height as int].hash,
        ensures
            locator@ == total,
            locator@.len() >= 1,
            locator@.len() <= LOCATOR_DEPTH,
            locator@[0] == main[tip_height as int].hash,
        decreases height,
    {
        match chain.get_block_at_height(height) {
            Some(b) => {
                locator.push(b.hash);
            },
            None => {},
        }
        if height == 0 {
            break;
        }
        proof {
            vstd::arithmetic::power2::lemma_pow2_unfold((locator@.len()) as nat);
            vstd::arithmetic::power2::lemma_pow2_strictly_increases(
                (locator@.len() - 1) as nat,
                32,
            );
            vstd::arithmetic::power2::lemma2_to64();
            vstd::arithmetic::power2::lemma2_to64_rest();
        }
        if locator.len() >= LOCATOR_DENSE_ENTRIES {
            step = step * 2;
        }
        height = height.saturating_sub(step);
        if locator.len() >= LOCATOR_DEPTH {
            break;
        }
    }
    let genesis = chain.genesis_hash();
    let last = locator[locator.len() - 1];
    if !bytes_eq(&last, &genesis) {
        locator.push(genesis);
    }
    locator
}

/// Create a GetHeaders message.
pub fn create_get_headers(chain: &ChainView, stop_hash: [u8; 32]) -> (r: GetHeadersMessage)
    requires
        chain.wf(),
    ensures
        r.locator_hashes@ == spec_block_locator(chain.main_chain@),
        r.stop_hash == stop_hash,
{
    GetHeadersMessage { locator_hashes: build_block_locator(chain), stop_hash }
}

/// The first hash of `locator` that `blocks` knows, with that block's height.
pub open spec fn spec_fork_point(blocks: Seq<BlockHeader>, locator: Seq<[u8; 32]>) -> Option<([u8; 32], u64)>
    decreases locator.len(),
{
    if locator.len() == 0 {
        None
    } else if knows(blocks, locator[0]) {
        Some((locator[0], first_with_hash(blocks, locator[0]).height))
    } else {
        spec_fork_point(blocks, locator.drop_first())
    }
}

/// Find the first common block from a locator.
///
/// Returns the hash and height of the first block we have from the locator.
pub fn find_fork_point(chain: &ChainView, locator: &[[u8; 32]]) -> (r: Option<([u8; 32], u64)>)
    ensures
        r == spec_fork_point(chain.blocks@, locator@),
{
    let mut i: usize = 0;
    assert(locator@.skip(0) =~= locator@);
    while i < locator.len()
        invariant
            0 <= i <= locator@.len(),
            spec_fork_point(chain.blocks@, locator@) == spec_fork_point(
                chain.blocks@,
                locator@.skip(i as int),
            ),
        decreases locator@.len() - i,
    {
        proof {
            let t = locator@.skip(i as int);
            assert(t[0] == locator@[i as int]);
            assert(t.drop_first() =~= locator@.skip(i + 1));
        }
        match chain.get_block(&locator[i]) {
            Some(b) => {
                return Some((locator[i], b.height));
            },
            None => {},
        }
        i += 1;
    }
    None
}

/// The height from which headers are served for a request.
pub open spec fn serve_start(blocks: Seq<BlockHeader>, locator: Seq<[u8; 32]>) -> nat {
    match spec_fork_point(blocks, locator) {
        Some((_, h)) => (h + 1) as nat,
        None => 0,
    }
}

/// The headers of `main` from height `h` on, stopping after the header with
/// hash `stop`, at the tip, or when `acc` holds the maximum number.
pub open spec fn headers_from(main: Seq<BlockHeader>, h: nat, stop: [u8; 32], acc: Seq<BlockHeader>) -> Seq<BlockHeader>
    decreases main.len() - h,
{
    if h >= main.len() || acc.len() >= MAX_HEADERS_PER_REQUEST {
        acc
    } else if main[h as int].hash == stop {
        acc.push(main[h as int])
    } else {
        headers_from(main, h + 1, stop, acc.push(main[h as int]))
    }
}

/// Generate headers response for a GetHeaders request: the best-chain
/// headers after the fork point (from genesis if none), up to the stop hash.
pub fn respond_to_get_headers(chain: &ChainView, request: &GetHeadersMessage) -> (r: HeadersMessage)
    requires
        chain.wf(),
        forall|i: int| 0 <= i < chain.blocks@.len() ==> #[trigger] chain.blocks@[i].height < u64::MAX,
    ensures
        r.headers@ == headers_from(
            chain.main_chain@,
            serve_start(chain.blocks@, request.locator_hashes@),
            request.stop_hash,
            Seq::empty(),
        ),
{
    let mut headers: Vec<BlockHeader> = Vec::new();
    let start_height: u64 = match find_fork_point(chain, request.locator_hashes.as_slice()) {
        Some((_, height)) => {
            proof {
                lemma_fork_point_known(chain.blocks@, request.locator_hashes@);
            }
            height + 1
        },
        None => 0,
    };
    let tip = chain.height();
    let ghost main = chain.main_chain@;
    let ghost total = headers_from(main, start_height as nat, request.stop_hash, Seq::empty());
    let mut height: u64 = start_height;
    while height <= tip
        invariant_except_break
            main == chain.main_chain@,
            chain.wf(),
            tip == main.len() - 1,
            total == headers_from(main, height as nat, request.stop_hash, headers@),
        ensures
            headers@ == total,
        decreases tip - height + 1,
    {
        if headers.len() >= MAX_HEADERS_PER_REQUEST {
            break;
        }
        match chain.get_block_at_height(height) {
            Some(b) => {
                headers.push(b);
                if bytes_eq(&b.hash, &request.stop_hash) {
                    break;
                }
            },
            None => {},
        }
        if height == tip {
            proof {
                assert(headers_from(main, (height + 1) as nat, request.stop_hash, headers@) == headers@);
            }
            break;
        }
        height = height + 1;
    }
    HeadersMessage { headers }
}

/// The fork point found is a known block, whose height is below the largest.
pub proof fn lemma_fork_point_known(blocks: Seq<BlockHeader>, locator: Seq<[u8; 32]>)
    requires
        forall|i: int| 0 <= i < blocks.len() ==> #[trigger] blocks[i].height < u64::MAX,
    ensures
        spec_fork_point(blocks, locator) matches Some((_, h)) ==> h < u64::MAX,
    decreases locator.len(),
{
    if locator.len() > 0 {
        if knows(blocks, locator[0]) {
            lemma_first_with_hash_in(blocks, locator[0]);
        } else {
            lemma_fork_point_known(blocks, locator.drop_first());
        }
    }
}

/// The first block with a known hash is one of the blocks.
pub proof fn lemma_first_with_hash_in(blocks: Seq<BlockHeader>, h: [u8; 32])
    requires
        knows(blocks, h),
    ensures
        exists|i: int| 0 <= i < blocks.len() && blocks[i] == first_with_hash(blocks, h),
        first_with_hash(blocks, h).hash == h,
    decreases blocks.len(),
{
    if blocks[0].hash != h {
        let k = choose|k: int| 0 <= k < blocks.len() && blocks[k].hash == h;
        assert(blocks.drop_first()[k - 1].hash == h);
        lemma_first_with_hash_in(blocks.drop_first(), h);
        let j = choose|j: int|
            0 <= j < blocks.drop_first().len() && blocks.drop_first()[j] == first_with_hash(
                blocks.drop_first(),
                h,
            );
        assert(blocks[j + 1] == first_with_hash(blocks, h));
    }
}

/// The message that headers do not connect to the known chain.
pub open spec fn unconnected_message(prev: [u8; 32]) -> Seq<char> {
    "Headers don't connect to known chain: "@ + debug_bytes(prev@.take(8))
}

/// The outcome of checking `headers` one by one, from `i` on, against the
/// expected previous hash and height, having accepted `acc` so far.
pub open spec fn check_headers_from(
    headers: Seq<BlockHeader>,
    i: nat,
    prev: [u8; 32],
    expected: nat,
    acc: Seq<[u8; 32]>,
) -> Result<Seq<[u8; 32]>, Seq<char>>
    decreases headers.len() - i,
{
    if i >= headers.len() {
        Ok(acc)
    } else {
        let h = headers[i as int];
        if h.prev_block_hash != prev {
            Err("Header at height "@ + decimal(h.height as nat) + " doesn't connect to previous"@)
        } else if h.height != expected {
            Err("Header has wrong height: expected "@ + decimal(expected) + ", got "@ + decimal(h.height as nat))
        } else if !h.meets_difficulty {
            Err("Header at height "@ + decimal(h.height as nat) + " doesn't meet difficulty"@)
        } else {
            check_headers_from(headers, i + 1, h.hash, expected + 1, acc.push(h.hash))
        }
    }
}

/// The outcome of validating `headers` against the known blocks: the
/// hashes of the headers in order, or the sync error message.
pub open spec fn spec_validate_headers(blocks: Seq<BlockHeader>, headers: Seq<BlockHeader>) -> Result<Seq<[u8; 32]>, Seq<char>> {
    if headers.len() == 0 {
        Ok(Seq::empty())
    } else if !knows(blocks, headers[0].prev_block_hash) {
        Err(unconnected_message(headers[0].prev_block_hash))
    } else {
        check_headers_from(
            headers,
            0,
            headers[0].prev_block_hash,
            (first_with_hash(blocks, headers[0].prev_block_hash).height + 1) as nat,
            Seq::empty(),
        )
    }
}

/// Validate received headers form a valid chain extension: each links to
/// the one before (the first to a known block), heights climb by one, and
/// every header meets its difficulty.
pub fn validate_headers(chain: &ChainView, headers: &[BlockHeader]) -> (r: P2pResult<Vec<[u8; 32]>>)
    requires
        chain.wf(),
        forall|i: int| 0 <= i < headers@.len() ==> #[trigger] headers@[i].height < u64::MAX,
    ensures
        match spec_validate_headers(chain.blocks@, headers@) {
            Ok(hashes) => r matches Ok(v) && v@ == hashes,
            Err(msg) => r matches Err(P2pError::SyncError(m)) && m@ == msg,
        },
{
    if headers.len() == 0 {
        return Ok(Vec::new());
    }
    let mut prev_hash = headers[0].prev_block_hash;
    let first = chain.get_block(&prev_hash);
    proof {
        if knows(chain.blocks@, prev_hash) {
            lemma_first_with_hash_in(chain.blocks@, prev_hash);
        }
    }
    let mut expected: u64 = match first {
        Some(b) => b.height + 1,
        None => {
            let mut msg = String::from_str("Headers don't connect to known chain: ");
            push_debug_prefix(&mut msg, prev_hash.as_slice(), 8);
            return Err(P2pError::SyncError(msg));
        },
    };
    let mut validated: Vec<[u8; 32]> = Vec::new();
    let mut i: usize = 0;
    while i < headers.len()
        invariant
            0 <= i <= headers@.len(),
            forall|j: int| 0 <= j < headers@.len() ==> #[trigger] headers@[j].height < u64::MAX,
            spec_validate_headers(chain.blocks@, headers@) == check_headers_from(
                headers@,
                i as nat,
                prev_hash,
                expected as nat,
                validated@,
            ),
        decreases headers@.len() - i,
    {
        let h = headers[i];
        if !bytes_eq(&h.prev_block_hash, &prev_hash) {
            let mut msg = String::from_str("Header at height ");
            push_decimal(&mut msg, h.height);
            msg.append(" doesn't connect to previous");
            return Err(P2pError::SyncError(msg));
        }
        if h.height != expected {
            let mut msg = String::from_str("Header has wrong height: expected ");
            push_decimal(&mut msg, expected);
            msg.append(", got ");
            push_decimal(&mut msg, h.height);
            return Err(P2pError::SyncError(msg));
        }
        if !h.meets_difficulty {
            let mut msg = String::from_str("Header at height ");
            push_decimal(&mut msg, h.height);
            msg.append(" doesn't meet difficulty");
            return Err(P2pError::SyncError(msg));
        }
        validated.push(h.hash);
        prev_hash = h.hash;
        expected = expected + 1;
        i += 1;
    }
    Ok(validated)
}

/// Whether a received block is accepted against the known chain: a block
/// already known is accepted as is; otherwise its parent must be known, its
/// header must meet its difficulty and its transaction root must match.
pub open spec fn block_acceptable(blocks: Seq<BlockHeader>, block: Block) -> bool {
    ||| knows(blocks, block.header.hash)
    ||| (knows(blocks, block.header.prev_block_hash) && block.header.meets_difficulty
        && block.tx_root_valid)
}

/// Validate a received block.
pub fn validate_block(chain: &ChainView, block: &Block) -> (r: P2pResult<()>)
    ensures
        r is Ok <==> block_acceptable(chain.blocks@, *block),
        !knows(chain.blocks@, block.header.hash) && !knows(chain.blocks@, block.header.prev_block_hash)
            ==> (r matches Err(P2pError::SyncError(m)) && m@ == "Block "@ + decimal(
            block.header.height as nat,
        ) + " has unknown parent "@ + debug_bytes(block.header.prev_block_hash@.take(8))),
        !knows(chain.blocks@, block.header.hash) && knows(chain.blocks@, block.header.prev_block_hash)
            && !block.header.meets_difficulty ==> (r matches Err(P2pError::BlockValidationFailed(m))
            && m@ == "Block "@ + decimal(block.header.height as nat) + " doesn't meet difficulty"@),
        !knows(chain.blocks@, block.header.hash) && knows(chain.blocks@, block.header.prev_block_hash)
            && block.header.meets_difficulty && !block.tx_root_valid ==> (r matches Err(
            P2pError::BlockValidationFailed(m),
        ) && m@ == "Block "@ + decimal(block.header.height as nat)
            + " has invalid transaction root"@),
{
    let hash = block.header.hash;
    if chain.has_block(&hash) {
        return Ok(());
    }
    if !chain.has_block(&block.header.prev_block_hash) {
        let mut msg = String::from_str("Block ");
        push_decimal(&mut msg, block.header.height);
        msg.append(" has unknown parent ");
        push_debug_prefix(&mut msg, block.header.prev_block_hash.as_slice(), 8);
        return Err(P2pError::SyncError(msg));
    }
    if !block.header.meets_difficulty {
        let mut msg = String::from_str("Block ");
        push_decimal(&mut msg, block.header.height);
        msg.append(" doesn't meet difficulty");
        return Err(P2pError::BlockValidationFailed(msg));
    }
    if !block.tx_root_valid {
        let mut msg = String::from_str("Block ");
        push_decimal(&mut msg, block.header.height);
        msg.append(" has invalid transaction root");
        return Err(P2pError::BlockValidationFailed(msg));
    }
    Ok(())
}

/// Accepted headers give back exactly their own hashes, in order: checking
/// from position `i` with `acc` accepted so far either fails or yields `acc`
/// followed by the hashes of the remaining headers.
pub proof fn lemma_checked_hashes(
    headers: Seq<BlockHeader>,
    i: nat,
    prev: [u8; 32],
    expected: nat,
    acc: Seq<[u8; 32]>,
)
    requires
        i <= headers.len(),
    ensures
        check_headers_from(headers, i, prev, expected, acc) matches Ok(hs) ==> hs.len() == acc.len()
            + headers.len() - i && hs.subrange(0, acc.len() as int) == acc && forall|j: int|
            i <= j < headers.len() ==> hs[acc.len() + j - i] == #[trigger] headers[j].hash,
    decreases headers.len() - i,
{
    if i < headers.len() {
        let h = headers[i as int];
        lemma_checked_hashes(headers, i + 1, h.hash, expected + 1, acc.push(h.hash));
        if check_headers_from(headers, i, prev, expected, acc) is Ok {
            let hs = check_headers_from(headers, i, prev, expected, acc)->Ok_0;
            assert(hs.subrange(0, acc.len() as int) =~= acc) by {
                assert(hs.subrange(0, acc.len() as int + 1) == acc.push(h.hash));
                assert forall|k: int| 0 <= k < acc.len() implies hs[k] == acc[k] by {
                    assert(hs.subrange(0, acc.len() as int + 1)[k] == acc.push(h.hash)[k]);
                }
            }
            assert(hs[acc.len() as int] == h.hash) by {
                assert(hs.subrange(0, acc.len() as int + 1)[acc.len() as int] == acc.push(h.hash)[acc.len() as int]);
            }
        }
    } else {
        assert(acc.subrange(0, acc.len() as int) =~= acc);
    }
}

/// Validated headers yield one hash per header: the header's own hash.
pub proof fn lemma_validated_hashes_are_header_hashes(blocks: Seq<BlockHeader>, headers: Seq<BlockHeader>)
    ensures
        spec_validate_headers(blocks, headers) matches Ok(hs) ==> hs.len() == headers.len() && forall|j: int|
            0 <= j < headers.len() ==> hs[j] == #[trigger] headers[j].hash,
{
    if headers.len() > 0 && knows(blocks, headers[0].prev_block_hash) {
        lemma_checked_hashes(
            headers,
            0,
            headers[0].prev_block_hash,
            (first_with_hash(blocks, headers[0].prev_block_hash).height + 1) as nat,
            Seq::empty(),
        );
    }
}

} // verus!
