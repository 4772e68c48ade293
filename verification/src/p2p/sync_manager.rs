//! Headers-first blockchain synchronisation: the coordinator that ties sync
//! progress to block downloads and detects stalls.
use vstd::prelude::*;
use crate::p2p::blocks::{fresh_hashes, get_block_messages, BlockDownloader};
use crate::p2p::error::{P2pError, P2pResult};
use crate::p2p::headers::{create_get_headers, spec_block_locator, spec_validate_headers, validate_headers, ChainView};
use crate::p2p::messages::{BlockHeader, HeadersMessage};
use crate::p2p::messages::Message;
use crate::p2p::peer::PeerId;
use crate::p2p::sync_state::{SyncProgress, SyncState};

verus! {

/// Default sync stall timeout, in milliseconds.
pub const DEFAULT_SYNC_TIMEOUT_MS: u64 = 30_000;

/// Sync manager coordinates blockchain synchronization.
///
/// Times are milliseconds on the node's monotonic clock.
pub struct SyncManager {
    /// Sync progress tracking.
    progress: SyncProgress,
    /// Block downloader.
    downloader: BlockDownloader,
    /// Timeout for sync operations.
    timeout: u64,
    /// Last time we received sync data.
    last_activity: Option<u64>,
}

/// GetBlock messages wrapped as protocol messages.
pub open spec fn wrap_get_blocks(s: Seq<crate::p2p::messages::GetBlockMessage>) -> Seq<Message> {
    s.map_values(|g: crate::p2p::messages::GetBlockMessage| Message::GetBlock(g))
}

impl Default for SyncManager {
    fn default() -> (r: Self)
        ensures
            r.wf(),
            r.spec_progress().state == SyncState::Idle,
            r.spec_timeout() == DEFAULT_SYNC_TIMEOUT_MS,
            r.spec_last_activity() is None,
            r.spec_downloader().queue().len() == 0,
            r.spec_downloader().in_flight().len() == 0,
    {
        SyncManager::new()
    }
}

impl SyncManager {
    /// The sync progress tracker.
    pub closed spec fn spec_progress(&self) -> SyncProgress {
        self.progress
    }

    /// The block downloader.
    pub closed spec fn spec_downloader(&self) -> BlockDownloader {
        self.downloader
    }

    /// The stall timeout, in milliseconds.
    pub closed spec fn spec_timeout(&self) -> u64 {
        self.timeout
    }

    /// When sync data last arrived.
    pub closed spec fn spec_last_activity(&self) -> Option<u64> {
        self.last_activity
    }

    /// Both the progress tracker and the downloader are well formed.
    pub open spec fn wf(&self) -> bool {
        self.spec_progress().wf() && self.spec_downloader().wf()
    }

    /// Create a new sync manager.
    pub fn new() -> (r: Self)
        ensures
            r.wf(),
            r.spec_progress().state == SyncState::Idle,
            r.spec_timeout() == DEFAULT_SYNC_TIMEOUT_MS,
            r.spec_last_activity() is None,
            r.spec_downloader().queue().len() == 0,
            r.spec_downloader().in_flight().len() == 0,
    {
        SyncManager::with_timeout(DEFAULT_SYNC_TIMEOUT_MS)
    }

    /// Create with a custom timeout, in milliseconds.
    pub fn with_timeout(timeout: u64) -> (r: Self)
        ensures
            r.wf(),
            r.spec_progress().state == SyncState::Idle,
            r.spec_timeout() == timeout,
            r.spec_last_activity() is None,
            r.spec_downloader().queue().len() == 0,
            r.spec_downloader().in_flight().len() == 0,
    {
        SyncManager {
            progress: SyncProgress::new(),
            downloader: BlockDownloader::new(),
            timeout,
            last_activity: None,
        }
    }

    /// Record sync activity (data received from sync peer) at time `now`.
    pub fn record_activity(&mut self, now: u64)
        ensures
            final(self).spec_last_activity() == Some(now),
            final(self).spec_progress() == old(self).spec_progress(),
            final(self).spec_downloader() == old(self).spec_downloader(),
            final(self).spec_timeout() == old(self).spec_timeout(),
    {
        self.last_activity = Some(now);
    }

    /// Whether the sync is stalled at `now`: syncing, with activity recorded,
    /// and more than the timeout since the last of it.
    pub open spec fn spec_is_stalled(&self, now: u64) -> bool {
        &&& self.spec_progress().state.spec_is_syncing()
        &&& match self.spec_last_activity() {
            Some(last) => (if now >= last { now - last } else { 0 }) > self.spec_timeout(),
            None => false,
        }
    }

    /// Check if sync is stalled (no activity within timeout period).
    pub fn is_stalled(&self, now: u64) -> (r: bool)
        ensures
            r == self.spec_is_stalled(now),
    {
        if !self.is_syncing() {
            return false;
        }
        match self.last_activity {
            Some(last) => now.saturating_sub(last) > self.timeout,
            None => false,
        }
    }

    /// Milliseconds since the last activity, as seen at `now`.
    pub fn time_since_activity(&self, now: u64) -> (r: Option<u64>)
        ensures
            r == (match self.spec_last_activity() {
                Some(t) => Some((if now >= t { now - t } else { 0 }) as u64),
                None => None,
            }),
    {
        match self.last_activity {
            Some(t) => Some(now.saturating_sub(t)),
            None => None,
        }
    }

    /// Get the sync timeout, in milliseconds.
    pub fn timeout(&self) -> (r: u64)
        ensures
            r == self.spec_timeout(),
    {
        self.timeout
    }

    /// The sync progress tracker.
    pub fn progress(&self) -> (r: &SyncProgress)
        ensures
            *r == self.spec_progress(),
    {
        &self.progress
    }

    /// Get the current sync state.
    pub fn state(&self) -> (r: &SyncState)
        ensures
            *r == self.spec_progress().state,
    {
        &self.progress.state
    }

    /// Check if we're syncing.
    pub fn is_syncing(&self) -> (r: bool)
        ensures
            r == self.spec_progress().state.spec_is_syncing(),
    {
        self.progress.state.is_syncing()
    }

    /// Check if we're synced.
    pub fn is_synced(&self) -> (r: bool)
        ensures
            r == (self.spec_progress().state is Synced),
    {
        self.progress.state.is_synced()
    }

    /// Get the sync peer if syncing.
    pub fn sync_peer(&self) -> (r: Option<PeerId>)
        ensures
            r == self.spec_progress().state.spec_sync_peer(),
    {
        self.progress.state.sync_peer()
    }

    /// Sync progress as `(done, total)`; see `SyncState::progress_fraction`.
    pub fn progress_fraction(&self) -> (r: Option<(u64, u64)>)
        ensures
            r == self.spec_progress().state.spec_progress_fraction(),
            r matches Some((done, total)) ==> total > 0,
    {
        self.progress.state.progress_fraction()
    }

    /// Start syncing headers from a peer, at time `now`.
    pub fn start_sync(&mut self, peer_id: PeerId, our_height: u64, peer_height: u64, now: u64)
        requires
            old(self).wf(),
        ensures
            final(self).wf(),
            final(self).spec_progress().state == (SyncState::SyncingHeaders {
                peer_id,
                start_height: our_height,
                target_height: peer_height,
            }),
            final(self).spec_progress().started_at == Some(now),
            final(self).spec_progress().in_flight_blocks@ == Set::<[u8; 32]>::empty(),
            final(self).spec_last_activity() == Some(now),
            final(self).spec_downloader() == old(self).spec_downloader(),
            final(self).spec_timeout() == old(self).spec_timeout(),
    {
        self.progress.start_header_sync(peer_id, our_height, peer_height, now);
        self.last_activity = Some(now);
    }

    /// Create a GetHeaders message for the current sync.
    pub fn create_headers_request(&self, chain: &ChainView) -> (r: Message)
        requires
            chain.wf(),
        ensures
            r matches Message::GetHeaders(g) && g.locator_hashes@ == spec_block_locator(
                chain.main_chain@,
            ) && forall|i: int| 0 <= i < 32 ==> g.stop_hash[i] == 0,
    {
        Message::GetHeaders(create_get_headers(chain, [0u8; 32]))
    }

    /// The sync state once an empty headers response ends header sync:
    /// block sync (keeping the heights being synced) while blocks remain to
    /// download, otherwise complete.
    pub open spec fn state_after_headers_done(&self) -> SyncState {
        if self.spec_downloader().queue().len() > 0 || self.spec_downloader().in_flight().len() > 0 {
            match self.spec_progress().state.spec_sync_peer() {
                Some(peer_id) => {
                    let (start, target) = match self.spec_progress().state {
                        SyncState::SyncingHeaders { start_height, target_height, .. } => (
                            start_height,
                            target_height,
                        ),
                        _ => (0u64, 0u64),
                    };
                    SyncState::SyncingBlocks {
                        peer_id,
                        start_height: start,
                        target_height: target,
                        current_height: start,
                    }
                },
                None => self.spec_progress().state,
            }
        } else {
            SyncState::Synced
        }
    }

    /// `after` is this manager once it processed `headers` at `now`
    /// against a chain knowing `blocks`, answering `r`: an empty response
    /// ends header sync; otherwise the headers are validated and their
    /// blocks queued, or refused with the validation's message.
    pub open spec fn after_process_headers(
        &self,
        after: SyncManager,
        blocks: Seq<BlockHeader>,
        headers: Seq<BlockHeader>,
        now: u64,
        r: P2pResult<()>,
    ) -> bool {
        &&& after.wf()
        &&& after.spec_last_activity() == Some(now)
        &&& after.spec_timeout() == self.spec_timeout()
        &&& headers.len() == 0 ==> {
            &&& r is Ok
            &&& after.spec_progress().state == self.state_after_headers_done()
            &&& after.spec_downloader() == self.spec_downloader()
        }
        &&& headers.len() > 0 ==> match spec_validate_headers(blocks, headers) {
            Ok(hashes) => {
                &&& r is Ok
                &&& after.spec_progress().state == self.spec_progress().state
                &&& after.spec_progress().headers_downloaded == self.spec_progress().headers_downloaded
                    + headers.len()
                &&& after.spec_progress().blocks_downloaded == self.spec_progress().blocks_downloaded
                &&& after.spec_downloader().queue() == self.spec_downloader().queue() + fresh_hashes(
                    self.spec_downloader().all_hashes(),
                    hashes,
                )
                &&& after.spec_downloader().in_flight() == self.spec_downloader().in_flight()
            },
            Err(msg) => {
                &&& r matches Err(P2pError::SyncError(m)) && m@ == msg
                &&& after.spec_progress() == self.spec_progress()
                &&& after.spec_downloader() == self.spec_downloader()
            },
        }
    }

    /// Process received headers at time `now`: an empty response ends header
    /// sync; otherwise the headers are validated and their blocks queued.
    pub fn process_headers(&mut self, chain: &ChainView, headers: &HeadersMessage, now: u64) -> (r: P2pResult<()>)
        requires
            old(self).wf(),
            chain.wf(),
            forall|i: int| 0 <= i < headers.headers@.len() ==> #[trigger] headers.headers@[i].height < u64::MAX,
            old(self).spec_progress().headers_downloaded + headers.headers@.len() <= u64::MAX,
        ensures
            final(self).wf(),
            old(self).after_process_headers(*final(self), chain.blocks@, headers.headers@, now, r),
    {
        self.record_activity(now);
        if headers.headers.len() == 0 {
            if self.downloader.has_work() {
                match self.sync_peer() {
                    Some(peer_id) => {
                        let (start, target) = match self.progress.state {
                            SyncState::SyncingHeaders { start_height, target_height, .. } => (
                                start_height,
                                target_height,
                            ),
                            _ => (0, 0),
                        };
                        self.progress.start_block_sync(peer_id, start, target);
                    },
                    None => {},
                }
            } else {
                self.progress.complete();
            }
            return Ok(());
        }
        let hashes = match validate_headers(chain, headers.headers.as_slice()) {
            Ok(h) => h,
            Err(e) => {
                return Err(e);
            },
        };
        self.progress.headers_downloaded = self.progress.headers_downloaded
            + headers.headers.len() as u64;
        self.downloader.enqueue(hashes);
        Ok(())
    }

    /// `after` is this manager once it handed out the block requests `r`,
    /// at most `max` (within the in-flight limit), from the front of the
    /// queue.
    pub open spec fn after_next_block_requests(&self, after: SyncManager, max: usize, r: Seq<Message>) -> bool {
        &&& after.wf()
        &&& r == wrap_get_blocks(
            get_block_messages(self.spec_downloader().queue().take(self.spec_downloader().request_count(max) as int)),
        )
        &&& after.spec_downloader().queue() == self.spec_downloader().queue().skip(
            self.spec_downloader().request_count(max) as int,
        )
        &&& after.spec_progress() == self.spec_progress()
        &&& after.spec_last_activity() == self.spec_last_activity()
        &&& after.spec_timeout() == self.spec_timeout()
    }

    /// Get the next block requests to send to `peer_id`, at time `now`.
    pub fn next_block_requests(&mut self, peer_id: PeerId, max: usize, now: u64) -> (r: Vec<Message>)
        requires
            old(self).wf(),
        ensures
            final(self).wf(),
            old(self).after_next_block_requests(*final(self), max, r@),
    {
        let requests = self.downloader.next_requests(peer_id, max, now);
        let mut out: Vec<Message> = Vec::new();
        let mut i: usize = 0;
        while i < requests.len()
            invariant
                0 <= i <= requests@.len(),
                out@ == wrap_get_blocks(requests@.take(i as int)),
            decreases requests@.len() - i,
        {
            out.push(Message::GetBlock(requests[i]));
            i += 1;
            assert(out@ =~= wrap_get_blocks(requests@.take(i as int)));
        }
        assert(requests@.take(requests@.len() as int) =~= requests@);
        out
    }

    /// `after` is this manager once it processed a received block `hash`
    /// at height `height`, at `now`.
    pub open spec fn after_process_block(&self, after: SyncManager, hash: [u8; 32], height: u64, now: u64) -> bool {
        &&& after.wf()
        &&& after.spec_last_activity() == Some(now)
        &&& after.spec_progress().blocks_downloaded == self.spec_progress().blocks_downloaded + 2
        &&& after.spec_downloader().queue() == self.spec_downloader().queue()
        &&& after.spec_downloader().in_flight() == (if crate::p2p::blocks::hashes_of(
            self.spec_downloader().in_flight(),
        ).contains(hash) {
            self.spec_downloader().in_flight().remove(
                crate::p2p::blocks::hashes_of(
                    self.spec_downloader().in_flight(),
                ).index_of(hash),
            )
        } else {
            self.spec_downloader().in_flight()
        })
        &&& (after.spec_downloader().queue().len() == 0 && after.spec_downloader().in_flight().len() == 0)
            ==> after.spec_progress().state == SyncState::Synced
        &&& !(after.spec_downloader().queue().len() == 0 && after.spec_downloader().in_flight().len() == 0)
            ==> after.spec_progress().state == (match self.spec_progress().state {
            SyncState::SyncingBlocks { peer_id, start_height, target_height, .. } => {
                SyncState::SyncingBlocks { peer_id, start_height, target_height, current_height: height }
            },
            other => other,
        })
        &&& after.spec_timeout() == self.spec_timeout()
    }

    /// Process a received block at height `height`, at time `now`. The block
    /// counter advances twice: once with the progress, once for the block.
    pub fn process_block(&mut self, hash: &[u8; 32], height: u64, now: u64)
        requires
            old(self).wf(),
            old(self).spec_progress().blocks_downloaded + 2 <= u64::MAX,
        ensures
            final(self).wf(),
            old(self).after_process_block(*final(self), *hash, height, now),
    {
        self.record_activity(now);
        self.downloader.received(hash);
        self.progress.update_block_progress(height);
        self.progress.blocks_downloaded = self.progress.blocks_downloaded + 1;
        if !self.downloader.has_work() {
            self.progress.complete();
        }
    }

    /// `after` is this manager once `peer_id` disconnected: when it is the
    /// sync peer, its requests go back to the front of the queue and the
    /// sync returns to idle; otherwise nothing changes.
    pub open spec fn after_peer_disconnected(&self, after: SyncManager, peer_id: PeerId) -> bool {
        &&& after.wf()
        &&& self.spec_progress().state.spec_sync_peer() == Some(peer_id) ==> {
            &&& after.spec_progress().state == SyncState::Idle
            &&& after.spec_downloader().in_flight() == crate::p2p::blocks::requests_not_from(
                self.spec_downloader().in_flight(),
                peer_id,
            )
            &&& after.spec_downloader().queue() == crate::p2p::blocks::reversed_hashes(
                crate::p2p::blocks::requests_from(self.spec_downloader().in_flight(), peer_id),
            ) + self.spec_downloader().queue()
        }
        &&& self.spec_progress().state.spec_sync_peer() != Some(peer_id) ==> {
            &&& after.spec_progress() == self.spec_progress()
            &&& after.spec_downloader() == self.spec_downloader()
        }
        &&& after.spec_last_activity() == self.spec_last_activity()
        &&& after.spec_timeout() == self.spec_timeout()
    }

    /// Handle sync peer disconnection: when `peer_id` is the sync peer, its
    /// requests go back to the queue and the sync returns to idle.
    pub fn peer_disconnected(&mut self, peer_id: &PeerId)
        requires
            old(self).wf(),
        ensures
            final(self).wf(),
            old(self).after_peer_disconnected(*final(self), *peer_id),
    {
        match self.sync_peer() {
            Some(p) => {
                if p.0 == peer_id.0 {
                    self.downloader.cancel_peer(peer_id);
                    self.progress.reset();
                }
            },
            None => {},
        }
    }

    /// Check if we need to sync based on our height and peer heights.
    pub fn needs_sync(&self, our_height: u64, best_peer_height: u64) -> (r: bool)
        ensures
            r == (!self.spec_progress().state.spec_is_syncing() && best_peer_height > our_height),
    {
        !self.is_syncing() && best_peer_height > our_height
    }

    /// Check if there are pending blocks to download.
    pub fn has_pending_blocks(&self) -> (r: bool)
        ensures
            r == (self.spec_downloader().queue().len() > 0
                || self.spec_downloader().in_flight().len() > 0),
    {
        self.downloader.has_work()
    }

    /// Reset sync state.
    pub fn reset(&mut self)
        requires
            old(self).wf(),
        ensures
            final(self).wf(),
            final(self).spec_progress().state == SyncState::Idle,
            final(self).spec_progress().started_at is None,
            final(self).spec_downloader().queue().len() == 0,
            final(self).spec_downloader().in_flight().len() == 0,
            final(self).spec_last_activity() is None,
            final(self).spec_timeout() == old(self).spec_timeout(),
    {
        self.progress.reset();
        self.downloader.clear();
        self.last_activity = None;
    }

    /// Get the block downloader.
    pub fn downloader(&self) -> (r: &BlockDownloader)
        ensures
            *r == self.spec_downloader(),
    {
        &self.downloader
    }

    /// Get mutable block downloader.
    pub fn downloader_mut(&mut self) -> (r: &mut BlockDownloader)
        ensures
            *r == old(self).spec_downloader(),
            final(self).spec_downloader() == *final(r),
            final(self).spec_progress() == old(self).spec_progress(),
            final(self).spec_last_activity() == old(self).spec_last_activity(),
            final(self).spec_timeout() == old(self).spec_timeout(),
    {
        &mut self.downloader
    }
}

} // verus!
