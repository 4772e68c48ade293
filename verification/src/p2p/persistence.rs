//! Persistent peer list: the stored format and the bookkeeping of when the
//! list needs saving. Reading and writing the file is done by the node.
use vstd::prelude::*;

verus! {

/// Version of the peer storage format.
pub const PEER_STORE_VERSION: u32 = 1;

/// A stored peer entry.
#[derive(Clone, Debug, PartialEq, Eq)]
pub struct StoredPeer {
    /// The peer address, as text.
    pub addr: String,
    /// Last time the peer was seen.
    pub last_seen: u64,
    /// Number of successful connections.
    pub success_count: u32,
    /// Number of failed connection attempts.
    pub failure_count: u32,
}

impl StoredPeer {
    /// The entry for a peer address (given as text) last seen at
    /// `last_seen`: one successful connection, no failures.
    pub fn from_seen(addr: String, last_seen: u64) -> (r: Self)
        ensures
            r.addr == addr,
            r.last_seen == last_seen,
            r.success_count == 1,
            r.failure_count == 0,
    {
        StoredPeer { addr, last_seen, success_count: 1, failure_count: 0 }
    }
}

/// Persistent peer storage format.
#[derive(Clone, Debug)]
pub struct PeerStore {
    /// Version of the storage format.
    pub version: u32,
    /// Stored peer addresses.
    pub peers: Vec<StoredPeer>,
}

impl Default for PeerStore {
    fn default() -> (r: Self)
        ensures
            r.version == PEER_STORE_VERSION,
            r.peers@.len() == 0,
    {
        PeerStore { version: PEER_STORE_VERSION, peers: Vec::new() }
    }
}

/// Peer persistence manager.
pub struct PeerPersistence {
    /// Path to the peers file.
    path: String,
    /// Whether dirty (needs saving).
    dirty: bool,
}

impl PeerPersistence {
    /// The path of the peers file.
    pub closed spec fn spec_path(&self) -> Seq<char> {
        self.path@
    }

    /// Whether the list changed since it was last saved.
    pub closed spec fn spec_dirty(&self) -> bool {
        self.dirty
    }

    /// Create a new persistence manager.
    pub fn new(path: String) -> (r: Self)
        ensures
            r.spec_path() == path@,
            !r.spec_dirty(),
    {
        PeerPersistence { path, dirty: false }
    }

    /// Record that the list was written to disk.
    pub fn mark_saved(&mut self)
        ensures
            !final(self).spec_dirty(),
            final(self).spec_path() == old(self).spec_path(),
    {
        self.dirty = false;
    }

    /// Mark as dirty (needs saving).
    pub fn mark_dirty(&mut self)
        ensures
            final(self).spec_dirty(),
            final(self).spec_path() == old(self).spec_path(),
    {
        self.dirty = true;
    }

    /// Check if dirty.
    pub fn is_dirty(&self) -> (r: bool)
        ensures
            r == self.spec_dirty(),
    {
        self.dirty
    }

    /// Get the path.
    pub fn path(&self) -> (r: &str)
        ensures
            r@ == self.spec_path(),
    {
        self.path.as_str()
    }
}

} // verus!
