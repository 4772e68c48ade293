//! Sync state tracking.
use vstd::prelude::*;
use crate::p2p::peer::PeerId;
use crate::vec_set::VecSet;

verus! {

/// Current sync state.
#[derive(Clone, Copy, Debug, PartialEq, Eq, Structural)]
pub enum SyncState {
    /// Not syncing, waiting to determine if sync is needed.
    Idle,
    /// Syncing headers from peers.
    SyncingHeaders {
        /// Peer we're syncing from.
        peer_id: PeerId,
        /// Height we started at.
        start_height: u64,
        /// Target height (peer's best height).
        target_height: u64,
    },
    /// Syncing blocks after headers.
    SyncingBlocks {
        /// Peer we're syncing from.
        peer_id: PeerId,
        /// Height we started at.
        start_height: u64,
        /// Target height.
        target_height: u64,
        /// Current height being downloaded.
        current_height: u64,
    },
    /// Fully synced.
    Synced,
}

impl Default for SyncState {
    fn default() -> (r: Self)
        ensures
            r == SyncState::Idle,
    {
        SyncState::Idle
    }
}

impl SyncState {
    /// Whether headers or blocks are being synced.
    pub open spec fn spec_is_syncing(self) -> bool {
        self is SyncingHeaders || self is SyncingBlocks
    }

    /// The peer being synced from, if any.
    pub open spec fn spec_sync_peer(self) -> Option<PeerId> {
        match self {
            SyncState::SyncingHeaders { peer_id, .. } => Some(peer_id),
            SyncState::SyncingBlocks { peer_id, .. } => Some(peer_id),
            _ => None,
        }
    }

    /// Check if we're currently syncing.
    pub fn is_syncing(&self) -> (r: bool)
        ensures
            r == self.spec_is_syncing(),
    {
        matches!(self, SyncState::SyncingHeaders { .. } | SyncState::SyncingBlocks { .. })
    }

    /// Check if we're synced.
    pub fn is_synced(&self) -> (r: bool)
        ensures
            r == (*self is Synced),
    {
        matches!(self, SyncState::Synced)
    }

    /// Get the sync peer if syncing.
    pub fn sync_peer(&self) -> (r: Option<PeerId>)
        ensures
            r == self.spec_sync_peer(),
    {
        match self {
            SyncState::SyncingHeaders { peer_id, .. } => Some(*peer_id),
            SyncState::SyncingBlocks { peer_id, .. } => Some(*peer_id),
            _ => None,
        }
    }

    /// Progress as a fraction `(done, total)` (see `progress_fraction`).
    pub open spec fn spec_progress_fraction(self) -> Option<(u64, u64)> {
        match self {
            SyncState::SyncingBlocks { start_height, target_height, current_height, .. } => {
                if target_height > start_height {
                    Some(
                        (
                            (if current_height >= start_height {
                                current_height - start_height
                            } else {
                                0
                            }) as u64,
                            (target_height - start_height) as u64,
                        ),
                    )
                } else {
                    Some((1u64, 1u64))
                }
            },
            SyncState::Synced => Some((1u64, 1u64)),
            _ => None,
        }
    }

    /// Progress as a fraction `(done, total)`: while blocks are synced with a
    /// target above the start, the heights downloaded so far over those to
    /// download; `(1, 1)` when there is nothing left to download or the chain
    /// is synced; `None` otherwise. The percentage is `100 * done / total`.
    pub fn progress_fraction(&self) -> (r: Option<(u64, u64)>)
        ensures
            r == self.spec_progress_fraction(),
            r matches Some((done, total)) ==> total > 0,
    {
        match self {
            SyncState::SyncingBlocks { start_height, target_height, current_height, .. } => {
                if *target_height > *start_height {
                    let total = *target_height - *start_height;
                    let done = current_height.saturating_sub(*start_height);
                    Some((done, total))
                } else {
                    Some((1, 1))
                }
            },
            SyncState::Synced => Some((1, 1)),
            _ => None,
        }
    }
}

/// Tracks sync progress and coordinates block downloads.
///
/// Times are milliseconds on the node's monotonic clock.
#[derive(Debug)]
pub struct SyncProgress {
    /// Current sync state.
    pub state: SyncState,
    /// Headers we've received but not yet downloaded blocks for.
    pub pending_headers: Vec<[u8; 32]>,
    /// Block hashes we've requested but not yet received.
    pub in_flight_blocks: VecSet<[u8; 32]>,
    /// When the current sync operation started.
    pub started_at: Option<u64>,
    /// Number of blocks downloaded in current sync.
    pub blocks_downloaded: u64,
    /// Number of headers downloaded in current sync.
    pub headers_downloaded: u64,
}

impl Default for SyncProgress {
    fn default() -> (r: Self)
        ensures
            r.wf(),
            r.state == SyncState::Idle,
            r.pending_headers@.len() == 0,
            r.in_flight_blocks@ == Set::<[u8; 32]>::empty(),
            r.started_at is None,
            r.blocks_downloaded == 0,
            r.headers_downloaded == 0,
    {
        SyncProgress::new()
    }
}

impl SyncProgress {
    /// The set of in-flight blocks is well formed.
    pub open spec fn wf(&self) -> bool {
        self.in_flight_blocks.wf()
    }

    /// Create new sync progress tracker.
    pub fn new() -> (r: Self)
        ensures
            r.wf(),
            r.state == SyncState::Idle,
            r.pending_headers@.len() == 0,
            r.in_flight_blocks@ == Set::<[u8; 32]>::empty(),
            r.started_at is None,
            r.blocks_downloaded == 0,
            r.headers_downloaded == 0,
    {
        SyncProgress {
            state: SyncState::Idle,
            pending_headers: Vec::new(),
            in_flight_blocks: VecSet::new(),
            started_at: None,
            blocks_downloaded: 0,
            headers_downloaded: 0,
        }
    }

    /// Start syncing headers from a peer, at time `now`.
    pub fn start_header_sync(&mut self, peer_id: PeerId, start_height: u64, target_height: u64, now: u64)
        ensures
            final(self).wf(),
            final(self).state == (SyncState::SyncingHeaders { peer_id, start_height, target_height }),
            final(self).started_at == Some(now),
            final(self).headers_downloaded == 0,
            final(self).blocks_downloaded == 0,
            final(self).pending_headers@.len() == 0,
            final(self).in_flight_blocks@ == Set::<[u8; 32]>::empty(),
    {
        self.state = SyncState::SyncingHeaders { peer_id, start_height, target_height };
        self.started_at = Some(now);
        self.headers_downloaded = 0;
        self.blocks_downloaded = 0;
        self.pending_headers.clear();
        self.in_flight_blocks.clear();
    }

    /// Transition to block sync after headers are received.
    pub fn start_block_sync(&mut self, peer_id: PeerId, start_height: u64, target_height: u64)
        ensures
            final(self).state == (SyncState::SyncingBlocks {
                peer_id,
                start_height,
                target_height,
                current_height: start_height,
            }),
            final(self).pending_headers@ == old(self).pending_headers@,
            final(self).in_flight_blocks == old(self).in_flight_blocks,
            final(self).started_at == old(self).started_at,
            final(self).blocks_downloaded == old(self).blocks_downloaded,
            final(self).headers_downloaded == old(self).headers_downloaded,
    {
        self.state = SyncState::SyncingBlocks {
            peer_id,
            start_height,
            target_height,
            current_height: start_height,
        };
    }

    /// Update block sync progress.
    pub fn update_block_progress(&mut self, height: u64)
        requires
            old(self).blocks_downloaded < u64::MAX,
        ensures
            final(self).state == (match old(self).state {
                SyncState::SyncingBlocks { peer_id, start_height, target_height, .. } => {
                    SyncState::SyncingBlocks {
                        peer_id,
                        start_height,
                        target_height,
                        current_height: height,
                    }
                },
                other => other,
            }),
            final(self).blocks_downloaded == old(self).blocks_downloaded + 1,
            final(self).pending_headers@ == old(self).pending_headers@,
            final(self).in_flight_blocks == old(self).in_flight_blocks,
            final(self).started_at == old(self).started_at,
            final(self).headers_downloaded == old(self).headers_downloaded,
    {
        match self.state {
            SyncState::SyncingBlocks { peer_id, start_height, target_height, .. } => {
                self.state = SyncState::SyncingBlocks {
                    peer_id,
                    start_height,
                    target_height,
                    current_height: height,
                };
            },
            _ => {},
        }
        self.blocks_downloaded = self.blocks_downloaded + 1;
    }

    /// Mark sync as complete.
    pub fn complete(&mut self)
        ensures
            final(self).wf(),
            final(self).state == SyncState::Synced,
            final(self).pending_headers@.len() == 0,
            final(self).in_flight_blocks@ == Set::<[u8; 32]>::empty(),
            final(self).started_at == old(self).started_at,
            final(self).blocks_downloaded == old(self).blocks_downloaded,
            final(self).headers_downloaded == old(self).headers_downloaded,
    {
        self.state = SyncState::Synced;
        self.pending_headers.clear();
        self.in_flight_blocks.clear();
    }

    /// Reset to idle state (e.g., when sync peer disconnects).
    pub fn reset(&mut self)
        ensures
            final(self).wf(),
            final(self).state == SyncState::Idle,
            final(self).pending_headers@.len() == 0,
            final(self).in_flight_blocks@ == Set::<[u8; 32]>::empty(),
            final(self).started_at is None,
            final(self).blocks_downloaded == old(self).blocks_downloaded,
            final(self).headers_downloaded == old(self).headers_downloaded,
    {
        self.state = SyncState::Idle;
        self.pending_headers.clear();
        self.in_flight_blocks.clear();
        self.started_at = None;
    }

    /// Add a block to in-flight requests.
    pub fn request_block(&mut self, hash: [u8; 32])
        requires
            old(self).wf(),
        ensures
            final(self).wf(),
            final(self).in_flight_blocks@ == old(self).in_flight_blocks@.insert(hash),
            final(self).state == old(self).state,
            final(self).pending_headers@ == old(self).pending_headers@,
            final(self).started_at == old(self).started_at,
            final(self).blocks_downloaded == old(self).blocks_downloaded,
            final(self).headers_downloaded == old(self).headers_downloaded,
    {
        self.in_flight_blocks.insert(hash);
    }

    /// Remove a block from in-flight requests; the result says whether it was there.
    pub fn received_block(&mut self, hash: &[u8; 32]) -> (r: bool)
        requires
            old(self).wf(),
        ensures
            final(self).wf(),
            r == old(self).in_flight_blocks@.contains(*hash),
            final(self).in_flight_blocks@ == old(self).in_flight_blocks@.remove(*hash),
            final(self).state == old(self).state,
            final(self).pending_headers@ == old(self).pending_headers@,
            final(self).started_at == old(self).started_at,
            final(self).blocks_downloaded == old(self).blocks_downloaded,
            final(self).headers_downloaded == old(self).headers_downloaded,
    {
        self.in_flight_blocks.remove(hash)
    }

    /// Get the number of in-flight block requests.
    pub fn in_flight_count(&self) -> (r: usize)
        requires
            self.wf(),
        ensures
            r == self.in_flight_blocks@.len(),
    {
        self.in_flight_blocks.len()
    }

    /// Check if a block is being requested.
    pub fn is_block_in_flight(&self, hash: &[u8; 32]) -> (r: bool)
        ensures
            r == self.in_flight_blocks@.contains(*hash),
    {
        self.in_flight_blocks.contains(hash)
    }

    /// Milliseconds since the sync started, as seen at `now` (zero if `now`
    /// is earlier); `None` when no sync has started.
    pub fn elapsed(&self, now: u64) -> (r: Option<u64>)
        ensures
            r == (match self.started_at {
                Some(t) => Some((if now >= t { now - t } else { 0 }) as u64),
                None => None,
            }),
    {
        match self.started_at {
            Some(t) => Some(now.saturating_sub(t)),
            None => None,
        }
    }
}

} // verus!
