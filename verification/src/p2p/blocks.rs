//! Block download coordination.
use vstd::prelude::*;
use std::collections::VecDeque;
use crate::assoc_map::bytes_eq;
use crate::p2p::messages::{Block, BlockDataMessage, GetBlockMessage};
use crate::p2p::peer::PeerId;

verus! {

broadcast use vstd::array::group_array_axioms;

/// Maximum blocks to have in flight at once.
pub const MAX_BLOCKS_IN_FLIGHT: usize = 16;

/// Block download request.
///
/// Times are milliseconds on the node's monotonic clock.
#[derive(Clone, Copy, Debug)]
pub struct BlockRequest {
    /// Hash of the block.
    pub hash: [u8; 32],
    /// Height of the block (if known).
    pub height: Option<u64>,
    /// Peer we requested from.
    pub peer_id: PeerId,
    /// When the request was sent.
    pub requested_at: u64,
}

/// The hashes of a sequence of requests, in order.
pub open spec fn hashes_of(s: Seq<BlockRequest>) -> Seq<[u8; 32]> {
    s.map_values(|r: BlockRequest| r.hash)
}

/// The requests of `s` sent to peer `p`, in order.
pub open spec fn requests_from(s: Seq<BlockRequest>, p: PeerId) -> Seq<BlockRequest>
    decreases s.len(),
{
    if s.len() == 0 {
        s
    } else if s.last().peer_id == p {
        requests_from(s.drop_last(), p).push(s.last())
    } else {
        requests_from(s.drop_last(), p)
    }
}

/// The requests of `s` sent to peers other than `p`, in order.
pub open spec fn requests_not_from(s: Seq<BlockRequest>, p: PeerId) -> Seq<BlockRequest>
    decreases s.len(),
{
    if s.len() == 0 {
        s
    } else if s.last().peer_id != p {
        requests_not_from(s.drop_last(), p).push(s.last())
    } else {
        requests_not_from(s.drop_last(), p)
    }
}

/// The hashes of `s`, last first.
pub open spec fn reversed_hashes(s: Seq<BlockRequest>) -> Seq<[u8; 32]>
    decreases s.len(),
{
    if s.len() == 0 {
        Seq::empty()
    } else {
        seq![s.last().hash] + reversed_hashes(s.drop_last())
    }
}

/// The hashes of `new` that are neither in `seen` nor earlier in `new`, in order.
pub open spec fn fresh_hashes(seen: Seq<[u8; 32]>, new: Seq<[u8; 32]>) -> Seq<[u8; 32]>
    decreases new.len(),
{
    if new.len() == 0 {
        Seq::empty()
    } else {
        let prev = fresh_hashes(seen, new.drop_last());
        if seen.contains(new.last()) || prev.contains(new.last()) {
            prev
        } else {
            prev.push(new.last())
        }
    }
}

/// Requests for the hashes `hs`, sent to `p` at time `now`.
pub open spec fn new_requests(hs: Seq<[u8; 32]>, p: PeerId, now: u64) -> Seq<BlockRequest> {
    hs.map_values(|h: [u8; 32]| BlockRequest { hash: h, height: None, peer_id: p, requested_at: now })
}

/// Whether a request sent at `requested_at` is older than `timeout` at `now`.
pub open spec fn is_timed_out(requested_at: u64, now: u64, timeout: u64) -> bool {
    (if now >= requested_at { now - requested_at } else { 0 }) > timeout
}

/// The requests of `s` older than `timeout` at `now`, in order.
pub open spec fn timed_out(s: Seq<BlockRequest>, now: u64, timeout: u64) -> Seq<BlockRequest>
    decreases s.len(),
{
    if s.len() == 0 {
        s
    } else if is_timed_out(s.last().requested_at, now, timeout) {
        timed_out(s.drop_last(), now, timeout).push(s.last())
    } else {
        timed_out(s.drop_last(), now, timeout)
    }
}

/// Get-block messages for the hashes `hs`.
pub open spec fn get_block_messages(hs: Seq<[u8; 32]>) -> Seq<GetBlockMessage> {
    hs.map_values(|h: [u8; 32]| GetBlockMessage { hash: h })
}

/// A sequence without duplicates keeps that property under any reordering.
pub proof fn lemma_permutation_no_duplicates(x: Seq<[u8; 32]>, y: Seq<[u8; 32]>)
    requires
        x.no_duplicates(),
        x.to_multiset() == y.to_multiset(),
    ensures
        y.no_duplicates(),
{
    x.lemma_multiset_has_no_duplicates();
    y.lemma_multiset_has_no_duplicates_conv();
}

/// Removing an element keeps a sequence free of duplicates.
pub proof fn lemma_remove_no_duplicates(s: Seq<[u8; 32]>, i: int)
    requires
        s.no_duplicates(),
        0 <= i < s.len(),
    ensures
        s.remove(i).no_duplicates(),
{
    let t = s.remove(i);
    assert forall|a: int, b: int| 0 <= a < t.len() && 0 <= b < t.len() && a != b implies t[a]
        != t[b] by {
        let a0 = if a < i { a } else { a + 1 };
        let b0 = if b < i { b } else { b + 1 };
        assert(t[a] == s[a0] && t[b] == s[b0]);
    }
}

/// Splitting requests by peer, and reversing the split-off part, keeps
/// every hash exactly as often as before.
pub proof fn lemma_split_multiset(s: Seq<BlockRequest>, p: PeerId)
    ensures
        reversed_hashes(requests_from(s, p)).to_multiset().add(
            hashes_of(requests_not_from(s, p)).to_multiset(),
        ) == hashes_of(s).to_multiset(),
        hashes_of(requests_not_from(s, p)).len() == requests_not_from(s, p).len(),
    decreases s.len(),
{
    broadcast use vstd::seq_lib::group_to_multiset_ensures;
    broadcast use vstd::multiset::group_multiset_axioms;

    if s.len() == 0 {
        assert(reversed_hashes(requests_from(s, p)) =~= Seq::<[u8; 32]>::empty());
        assert(hashes_of(requests_not_from(s, p)) =~= Seq::<[u8; 32]>::empty());
        assert(hashes_of(s) =~= Seq::<[u8; 32]>::empty());
    } else {
        let d = s.drop_last();
        let l = s.last();
        lemma_split_multiset(d, p);
        assert(hashes_of(s) =~= hashes_of(d).push(l.hash));
        if l.peer_id == p {
            let f = requests_from(d, p);
            assert(requests_from(s, p) == f.push(l));
            assert(f.push(l).drop_last() =~= f);
            assert(reversed_hashes(f.push(l)) == seq![l.hash] + reversed_hashes(f));
            vstd::seq_lib::lemma_multiset_commutative(seq![l.hash], reversed_hashes(f));
            assert(seq![l.hash] =~= Seq::<[u8; 32]>::empty().push(l.hash));
            assert(requests_not_from(s, p) == requests_not_from(d, p));
        } else {
            let n = requests_not_from(d, p);
            assert(requests_not_from(s, p) == n.push(l));
            assert(hashes_of(n.push(l)) =~= hashes_of(n).push(l.hash));
            assert(requests_from(s, p) == requests_from(d, p));
        }
        assert(reversed_hashes(requests_from(s, p)).to_multiset().add(
            hashes_of(requests_not_from(s, p)).to_multiset(),
        ) =~= hashes_of(s).to_multiset());
    }
}

/// Coordinates block downloads.
///
/// No hash is ever both queued and in flight, or twice in either place.
#[derive(Debug)]
pub struct BlockDownloader {
    /// Queue of hashes to download.
    queue: VecDeque<[u8; 32]>,
    /// Currently in-flight requests.
    in_flight: Vec<BlockRequest>,
    /// Maximum in-flight requests.
    max_in_flight: usize,
}

impl Default for BlockDownloader {
    fn default() -> (r: Self)
        ensures
            r.wf(),
            r.queue() == Seq::<[u8; 32]>::empty(),
            r.in_flight() == Seq::<BlockRequest>::empty(),
    {
        BlockDownloader::new()
    }
}

impl BlockDownloader {
    /// The hashes waiting to be requested, first to be requested first.
    pub closed spec fn queue(&self) -> Seq<[u8; 32]> {
        self.queue@
    }

    /// The outstanding requests, oldest first.
    pub closed spec fn in_flight(&self) -> Seq<BlockRequest> {
        self.in_flight@
    }

    /// The limit on outstanding requests.
    pub closed spec fn max_in_flight(&self) -> nat {
        self.max_in_flight as nat
    }

    /// Every hash the downloader knows of: queued, then in flight.
    pub open spec fn all_hashes(&self) -> Seq<[u8; 32]> {
        self.queue() + hashes_of(self.in_flight())
    }

    /// No hash is held twice and the limit on outstanding requests holds.
    pub open spec fn wf(&self) -> bool {
        &&& self.all_hashes().no_duplicates()
        &&& self.max_in_flight() == MAX_BLOCKS_IN_FLIGHT
        &&& self.in_flight().len() <= self.max_in_flight()
    }

    /// Create a new block downloader.
    pub fn new() -> (r: Self)
        ensures
            r.wf(),
            r.queue() == Seq::<[u8; 32]>::empty(),
            r.in_flight() == Seq::<BlockRequest>::empty(),
    {
        let r = BlockDownloader {
            queue: VecDeque::new(),
            in_flight: Vec::new(),
            max_in_flight: MAX_BLOCKS_IN_FLIGHT,
        };
        assert(r.all_hashes() =~= Seq::<[u8; 32]>::empty());
        r
    }

    /// Add blocks to the download queue, skipping those already queued or in
    /// flight (and repeats within `hashes`).
    pub fn enqueue(&mut self, hashes: Vec<[u8; 32]>)
        requires
            old(self).wf(),
        ensures
            final(self).wf(),
            final(self).queue() == old(self).queue() + fresh_hashes(old(self).all_hashes(), hashes@),
            final(self).in_flight() == old(self).in_flight(),
    {
        let ghost seen = old(self).all_hashes();
        let ghost q0 = old(self).queue@;
        let mut i: usize = 0;
        proof {
            assert(hashes@.take(0) =~= Seq::<[u8; 32]>::empty());
            assert(self.queue@ =~= q0 + fresh_hashes(seen, hashes@.take(0)));
        }
        while i < hashes.len()
            invariant
                0 <= i <= hashes@.len(),
                seen == q0 + hashes_of(self.in_flight@),
                seen.no_duplicates(),
                self.queue@ == q0 + fresh_hashes(seen, hashes@.take(i as int)),
                self.in_flight@ == old(self).in_flight@,
                self.max_in_flight == old(self).max_in_flight,
                self.all_hashes().no_duplicates(),
            decreases hashes@.len() - i,
        {
            let h = hashes[i];
            let ghost prev = fresh_hashes(seen, hashes@.take(i as int));
            proof {
                let t = hashes@.take(i + 1);
                assert(t.drop_last() =~= hashes@.take(i as int));
                assert(t.last() == h);
            }
            let queued = self.is_queued(&h);
            let flying = self.is_in_flight(&h);
            proof {
                assert(queued == (q0.contains(h) || prev.contains(h))) by {
                    if q0.contains(h) {
                        let k = choose|k: int| 0 <= k < q0.len() && q0[k] == h;
                        assert(self.queue@[k] == h);
                    }
                    if prev.contains(h) {
                        let k = choose|k: int| 0 <= k < prev.len() && prev[k] == h;
                        assert(self.queue@[q0.len() + k] == h);
                    }
                    if self.queue@.contains(h) {
                        let k = choose|k: int| 0 <= k < self.queue@.len() && self.queue@[k] == h;
                        if k < q0.len() {
                            assert(q0[k] == h);
                        } else {
                            assert(prev[k - q0.len()] == h);
                        }
                    }
                }
                assert(seen.contains(h) == (q0.contains(h) || hashes_of(self.in_flight@).contains(h)))
                    by {
                    let hf = hashes_of(self.in_flight@);
                    if seen.contains(h) {
                        let k = choose|k: int| 0 <= k < seen.len() && seen[k] == h;
                        if k < q0.len() {
                            assert(q0[k] == h);
                        } else {
                            assert(hf[k - q0.len()] == h);
                        }
                    }
                    if q0.contains(h) {
                        let k = choose|k: int| 0 <= k < q0.len() && q0[k] == h;
                        assert(seen[k] == h);
                    }
                    if hf.contains(h) {
                        let k = choose|k: int| 0 <= k < hf.len() && hf[k] == h;
                        assert(seen[q0.len() + k] == h);
                    }
                }
            }
            if !queued && !flying {
                let ghost before = self.all_hashes();
                self.queue.push_back(h);
                proof {
                    let hf = hashes_of(self.in_flight@);
                    let after = self.all_hashes();
                    assert(!before.contains(h)) by {
                        if before.contains(h) {
                            let k = choose|k: int| 0 <= k < before.len() && before[k] == h;
                            if k < q0.len() + prev.len() {
                                assert(self.queue@[k] == h);
                            } else {
                                assert(hf[k - q0.len() - prev.len()] == h);
                            }
                        }
                    }
                    vstd::seq_lib::lemma_multiset_commutative(before, seq![h]);
                    assert(before + seq![h] =~= before.push(h));
                    vstd::seq_lib::lemma_seq_union_to_multiset_commutative(
                        q0 + prev,
                        seq![h] + hf,
                    );
                    assert(after =~= (q0 + prev).push(h) + hf);
                    assert(before.push(h).no_duplicates()) by {
                        let bp = before.push(h);
                        assert forall|a: int, b: int|
                            0 <= a < bp.len() && 0 <= b < bp.len() && a != b implies bp[a]
                            != bp[b] by {
                            if a == before.len() {
                                assert(before[b] != h);
                            } else if b == before.len() {
                                assert(before[a] != h);
                            }
                        }
                    }
                    assert(before.push(h).to_multiset() == after.to_multiset()) by {
                        broadcast use vstd::seq_lib::group_to_multiset_ensures;
                        vstd::seq_lib::lemma_multiset_commutative(q0 + prev, hf);
                        vstd::seq_lib::lemma_multiset_commutative((q0 + prev).push(h), hf);
                        assert(before =~= (q0 + prev) + hf);
                        vstd::seq_lib::lemma_multiset_commutative((q0 + prev) + hf, seq![h]);
                        vstd::seq_lib::lemma_multiset_commutative(q0 + prev, seq![h]);
                        assert((q0 + prev).push(h) =~= (q0 + prev) + seq![h]);
                        assert(((q0 + prev) + hf) + seq![h] =~= before.push(h));
                        broadcast use vstd::multiset::group_multiset_axioms;
                        assert(before.push(h).to_multiset() =~= after.to_multiset());
                    }
                    lemma_permutation_no_duplicates(before.push(h), after);
                }
            }
            i += 1;
            proof {
                assert(self.queue@ =~= q0 + fresh_hashes(seen, hashes@.take(i as int)));
            }
        }
        proof {
            assert(hashes@.take(hashes@.len() as int) =~= hashes@);
        }
    }

    /// Check if a block is queued for download.
    pub fn is_queued(&self, hash: &[u8; 32]) -> (r: bool)
        ensures
            r == self.queue().contains(*hash),
    {
        let mut i: usize = 0;
        while i < self.queue.len()
            invariant
                0 <= i <= self.queue@.len(),
                forall|j: int| 0 <= j < i ==> self.queue@[j] != *hash,
            decreases self.queue@.len() - i,
        {
            if bytes_eq(&self.queue[i], hash) {
                return true;
            }
            i += 1;
        }
        false
    }

    /// Check if a block is currently being downloaded.
    pub fn is_in_flight(&self, hash: &[u8; 32]) -> (r: bool)
        ensures
            r == hashes_of(self.in_flight()).contains(*hash),
    {
        let mut i: usize = 0;
        while i < self.in_flight.len()
            invariant
                0 <= i <= self.in_flight@.len(),
                forall|j: int| 0 <= j < i ==> self.in_flight@[j].hash != *hash,
            decreases self.in_flight@.len() - i,
        {
            if bytes_eq(&self.in_flight[i].hash, hash) {
                assert(hashes_of(self.in_flight@)[i as int] == *hash);
                return true;
            }
            i += 1;
        }
        proof {
            let hf = hashes_of(self.in_flight@);
            if hf.contains(*hash) {
                let k = choose|k: int| 0 <= k < hf.len() && hf[k] == *hash;
                assert(self.in_flight@[k].hash == *hash);
            }
        }
        false
    }

    /// How many requests `next_requests` hands out when asked for `max`.
    pub open spec fn request_count(&self, max: usize) -> nat {
        let available = if self.max_in_flight() >= self.in_flight().len() {
            (self.max_in_flight() - self.in_flight().len()) as nat
        } else {
            0nat
        };
        let m = if (max as nat) < available { max as nat } else { available };
        if m < self.queue().len() { m } else { self.queue().len() }
    }

    /// Get the next blocks to request from `peer_id`, at most `max` of
    /// them, sent at time `now`: the front of the queue moves in flight.
    pub fn next_requests(&mut self, peer_id: PeerId, max: usize, now: u64) -> (r: Vec<GetBlockMessage>)
        requires
            old(self).wf(),
        ensures
            final(self).wf(),
            r@ == get_block_messages(old(self).queue().take(old(self).request_count(max) as int)),
            final(self).queue() == old(self).queue().skip(old(self).request_count(max) as int),
            final(self).in_flight() == old(self).in_flight() + new_requests(
                old(self).queue().take(old(self).request_count(max) as int),
                peer_id,
                now,
            ),
    {
        let available = self.max_in_flight.saturating_sub(self.in_flight.len());
        let m = if max < available { max } else { available };
        let count = if m < self.queue.len() { m } else { self.queue.len() };
        let ghost q0 = self.queue@;
        let ghost f0 = self.in_flight@;
        let mut requests: Vec<GetBlockMessage> = Vec::new();
        let mut i: usize = 0;
        proof {
            assert(q0.take(0) =~= Seq::<[u8; 32]>::empty());
            assert(q0.skip(0) =~= q0);
            assert(f0 + new_requests(q0.take(0), peer_id, now) =~= f0);
            assert(requests@ =~= get_block_messages(q0.take(0)));
        }
        while i < count
            invariant
                0 <= i <= count,
                count <= q0.len(),
                count == old(self).request_count(max),
                q0 == old(self).queue(),
                f0 == old(self).in_flight(),
                self.max_in_flight == old(self).max_in_flight,
                self.queue@ == q0.skip(i as int),
                self.in_flight@ == f0 + new_requests(q0.take(i as int), peer_id, now),
                requests@ == get_block_messages(q0.take(i as int)),
            decreases count - i,
        {
            let popped = self.queue.pop_front();
            match popped {
                Some(hash) => {
                    self.in_flight.push(
                        BlockRequest { hash, height: None, peer_id, requested_at: now },
                    );
                    requests.push(GetBlockMessage { hash });
                    proof {
                        assert(hash == q0[i as int]);
                        assert(q0.take(i + 1) =~= q0.take(i as int).push(hash));
                        assert(self.in_flight@ =~= f0 + new_requests(q0.take(i + 1), peer_id, now));
                        assert(requests@ =~= get_block_messages(q0.take(i + 1)));
                        assert(self.queue@ =~= q0.skip(i + 1));
                    }
                },
                None => {},
            }
            i += 1;
        }
        proof {
            let t = q0.take(count as int);
            let sk = q0.skip(count as int);
            let hf0 = hashes_of(f0);
            let after = self.all_hashes();
            assert(hashes_of(self.in_flight@) =~= hf0 + t);
            assert(q0 =~= t + sk);
            assert(old(self).all_hashes() =~= t + (sk + hf0));
            assert(after =~= (sk + hf0) + t);
            vstd::seq_lib::lemma_seq_union_to_multiset_commutative(t, sk + hf0);
            lemma_permutation_no_duplicates(old(self).all_hashes(), after);
        }
        requests
    }

    /// Mark a block as received; the result says whether it was in flight.
    pub fn received(&mut self, hash: &[u8; 32]) -> (r: bool)
        requires
            old(self).wf(),
        ensures
            final(self).wf(),
            r == hashes_of(old(self).in_flight()).contains(*hash),
            r ==> final(self).in_flight() == old(self).in_flight().remove(
                hashes_of(old(self).in_flight()).index_of(*hash),
            ),
            !r ==> final(self).in_flight() == old(self).in_flight(),
            final(self).queue() == old(self).queue(),
    {
        let mut i: usize = 0;
        while i < self.in_flight.len()
            invariant
                0 <= i <= self.in_flight@.len(),
                self.in_flight@ == old(self).in_flight@,
                self.queue@ == old(self).queue@,
                self.max_in_flight == old(self).max_in_flight,
                old(self).wf(),
                forall|j: int| 0 <= j < i ==> self.in_flight@[j].hash != *hash,
            decreases self.in_flight@.len() - i,
        {
            if bytes_eq(&self.in_flight[i].hash, hash) {
                proof {
                    let q = self.queue@;
                    let hf = hashes_of(self.in_flight@);
                    let all = old(self).all_hashes();
                    assert(hf[i as int] == *hash);
                    let k = hf.index_of(*hash);
                    assert(0 <= k < hf.len() && hf[k] == *hash);
                    assert(k == i as int) by {
                        if k != i as int {
                            assert(all[q.len() + k] == all[q.len() + i]);
                        }
                    }
                    assert(hashes_of(self.in_flight@.remove(i as int)) =~= hf.remove(i as int));
                    assert(q + hf.remove(i as int) =~= all.remove(q.len() + i));
                    lemma_remove_no_duplicates(all, q.len() + i);
                }
                self.in_flight.remove(i);
                return true;
            }
            i += 1;
        }
        proof {
            let hf = hashes_of(self.in_flight@);
            if hf.contains(*hash) {
                let k = choose|k: int| 0 <= k < hf.len() && hf[k] == *hash;
                assert(self.in_flight@[k].hash == *hash);
            }
        }
        false
    }

    /// Cancel requests from a specific peer: they go back to the front of
    /// the queue, the last cancelled first.
    pub fn cancel_peer(&mut self, peer_id: &PeerId)
        requires
            old(self).wf(),
        ensures
            final(self).wf(),
            final(self).in_flight() == requests_not_from(old(self).in_flight(), *peer_id),
            final(self).queue() == reversed_hashes(requests_from(old(self).in_flight(), *peer_id))
                + old(self).queue(),
            final(self).all_hashes().to_multiset() == old(self).all_hashes().to_multiset(),
    {
        let ghost f0 = self.in_flight@;
        let ghost q0 = self.queue@;
        let mut from_peer: Vec<BlockRequest> = Vec::new();
        let mut others: Vec<BlockRequest> = Vec::new();
        let mut i: usize = 0;
        proof {
            assert(f0.take(0) =~= Seq::<BlockRequest>::empty());
        }
        while i < self.in_flight.len()
            invariant
                0 <= i <= f0.len(),
                self.in_flight@ == f0,
                from_peer@ == requests_from(f0.take(i as int), *peer_id),
                others@ == requests_not_from(f0.take(i as int), *peer_id),
            decreases f0.len() - i,
        {
            let r = self.in_flight[i];
            proof {
                let t = f0.take(i + 1);
                assert(t.drop_last() =~= f0.take(i as int));
                assert(t.last() == r);
            }
            if r.peer_id.0 == peer_id.0 {
                from_peer.push(r);
            } else {
                others.push(r);
            }
            i += 1;
        }
        proof {
            assert(f0.take(f0.len() as int) =~= f0);
        }
        let ghost others_len = others@.len();
        self.in_flight = others;
        let mut j: usize = 0;
        proof {
            assert(from_peer@.take(0) =~= Seq::<BlockRequest>::empty());
            assert(self.queue@ =~= reversed_hashes(from_peer@.take(0)) + q0);
        }
        while j < from_peer.len()
            invariant
                0 <= j <= from_peer@.len(),
                from_peer@ == requests_from(f0, *peer_id),
                self.in_flight@ == requests_not_from(f0, *peer_id),
                self.max_in_flight == old(self).max_in_flight,
                self.queue@ == reversed_hashes(from_peer@.take(j as int)) + q0,
            decreases from_peer@.len() - j,
        {
            let h = from_peer[j].hash;
            self.queue.push_front(h);
            proof {
                let t = from_peer@.take(j + 1);
                assert(t.drop_last() =~= from_peer@.take(j as int));
                assert(t.last().hash == h);
                assert(self.queue@ =~= reversed_hashes(t) + q0);
            }
            j += 1;
        }
        proof {
            assert(from_peer@.take(from_peer@.len() as int) =~= from_peer@);
            let rf = reversed_hashes(requests_from(f0, *peer_id));
            let hn = hashes_of(requests_not_from(f0, *peer_id));
            lemma_split_multiset(f0, *peer_id);
            lemma_requests_not_from_len(f0, *peer_id);
            assert(self.all_hashes() =~= rf + q0 + hn);
            assert(old(self).all_hashes() =~= q0 + hashes_of(f0));
            vstd::seq_lib::lemma_multiset_commutative(rf + q0, hn);
            vstd::seq_lib::lemma_multiset_commutative(rf, q0);
            vstd::seq_lib::lemma_multiset_commutative(q0, hashes_of(f0));
            vstd::seq_lib::lemma_multiset_commutative(rf, hn);
            broadcast use vstd::multiset::group_multiset_axioms;
            assert(self.all_hashes().to_multiset() =~= old(self).all_hashes().to_multiset());
            lemma_permutation_no_duplicates(old(self).all_hashes(), self.all_hashes());
        }
    }

    /// Get number of queued blocks.
    pub fn queue_len(&self) -> (r: usize)
        ensures
            r == self.queue().len(),
    {
        self.queue.len()
    }

    /// Get number of in-flight requests.
    pub fn in_flight_len(&self) -> (r: usize)
        ensures
            r == self.in_flight().len(),
    {
        self.in_flight.len()
    }

    /// Check if there's more work to do.
    pub fn has_work(&self) -> (r: bool)
        ensures
            r == (self.queue().len() > 0 || self.in_flight().len() > 0),
    {
        self.queue.len() > 0 || self.in_flight.len() > 0
    }

    /// Check if we can make more requests.
    pub fn can_request(&self) -> (r: bool)
        ensures
            r == (self.in_flight().len() < self.max_in_flight() && self.queue().len() > 0),
    {
        self.in_flight.len() < self.max_in_flight && self.queue.len() > 0
    }

    /// Clear all state.
    pub fn clear(&mut self)
        requires
            old(self).wf(),
        ensures
            final(self).wf(),
            final(self).queue() == Seq::<[u8; 32]>::empty(),
            final(self).in_flight() == Seq::<BlockRequest>::empty(),
    {
        self.queue.clear();
        self.in_flight.clear();
        assert(self.all_hashes() =~= Seq::<[u8; 32]>::empty());
    }

    /// Get the requests older than `timeout` milliseconds at time `now`.
    pub fn get_timeouts(&self, now: u64, timeout: u64) -> (r: Vec<BlockRequest>)
        ensures
            r@ == timed_out(self.in_flight(), now, timeout),
    {
        let mut out: Vec<BlockRequest> = Vec::new();
        let mut i: usize = 0;
        proof {
            assert(self.in_flight@.take(0) =~= Seq::<BlockRequest>::empty());
        }
        while i < self.in_flight.len()
            invariant
                0 <= i <= self.in_flight@.len(),
                out@ == timed_out(self.in_flight@.take(i as int), now, timeout),
            decreases self.in_flight@.len() - i,
        {
            let r = self.in_flight[i];
            proof {
                let t = self.in_flight@.take(i + 1);
                assert(t.drop_last() =~= self.in_flight@.take(i as int));
                assert(t.last() == r);
            }
            if now.saturating_sub(r.requested_at) > timeout {
                out.push(r);
            }
            i += 1;
        }
        proof {
            assert(self.in_flight@.take(self.in_flight@.len() as int) =~= self.in_flight@);
        }
        out
    }
}

/// The split-off requests are never more than those they came from.
pub proof fn lemma_requests_not_from_len(s: Seq<BlockRequest>, p: PeerId)
    ensures
        requests_not_from(s, p).len() <= s.len(),
    decreases s.len(),
{
    if s.len() > 0 {
        lemma_requests_not_from_len(s.drop_last(), p);
    }
}

/// Create a GetBlock message.
pub fn create_get_block(hash: [u8; 32]) -> (r: GetBlockMessage)
    ensures
        r.hash == hash,
{
    GetBlockMessage { hash }
}

/// Create a BlockData response.
pub fn create_block_data(block: Block) -> (r: BlockDataMessage)
    ensures
        r.block == block,
{
    BlockDataMessage { block }
}

} // verus!
