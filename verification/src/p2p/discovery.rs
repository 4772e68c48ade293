//! Peer discovery: bootstrap peers, exchanged addresses and the persisted
//! peer list. Resolving DNS seeds and reading or writing the peer file are
//! done by the node; their results come in here.
use vstd::prelude::*;
use crate::p2p::clock::unix_time_secs;
use crate::p2p::config::P2pConfig;
use crate::p2p::exchange::{addrs_of, after_add, after_add_all, by_recency, first_n, fresh_records, seen_at, PeerExchange};
use crate::p2p::messages::PeerAddress;
use crate::p2p::net::SocketAddress;
use crate::p2p::persistence::PeerPersistence;
use crate::vec_set::VecSet;

verus! {

/// The bootstrap peers of `s` not in `connected`, in order, at most `max`.
pub open spec fn bootstrap_candidates(s: Seq<SocketAddress>, connected: Set<SocketAddress>, max: nat) -> Seq<SocketAddress>
    decreases s.len(),
{
    if s.len() == 0 {
        Seq::empty()
    } else {
        let prev = bootstrap_candidates(s.drop_last(), connected, max);
        if !connected.contains(s.last()) && prev.len() < max {
            prev.push(s.last())
        } else {
            prev
        }
    }
}

/// Discovery coordinator.
pub struct Discovery {
    /// Peer exchange manager.
    exchange: PeerExchange,
    /// Peer persistence.
    persistence: PeerPersistence,
    /// DNS seeds.
    dns_seeds: Vec<String>,
    /// Bootstrap peers.
    bootstrap_peers: Vec<SocketAddress>,
}

impl Discovery {
    /// The address book.
    pub closed spec fn spec_exchange(&self) -> PeerExchange {
        self.exchange
    }

    /// The bootstrap peers.
    pub closed spec fn spec_bootstrap(&self) -> Seq<SocketAddress> {
        self.bootstrap_peers@
    }

    /// Whether the address book changed since it was saved.
    pub closed spec fn spec_dirty(&self) -> bool {
        self.persistence.spec_dirty()
    }

    /// The address book is well formed.
    pub open spec fn wf(&self) -> bool {
        self.spec_exchange().wf()
    }

    /// Create a new discovery coordinator.
    pub fn new(config: &P2pConfig) -> (r: Self)
        ensures
            r.wf(),
            r.spec_exchange().known().len() == 0,
            r.spec_exchange().validates(),
            r.spec_bootstrap() == config.bootstrap_peers@,
            r.spec_dns_seeds() == config.dns_seeds@,
            r.spec_peers_file() == config.peers_file@,
            !r.spec_dirty(),
    {
        let mut seeds: Vec<String> = Vec::new();
        let mut i: usize = 0;
        while i < config.dns_seeds.len()
            invariant
                0 <= i <= config.dns_seeds@.len(),
                seeds@ == config.dns_seeds@.take(i as int),
            decreases config.dns_seeds@.len() - i,
        {
            seeds.push(config.dns_seeds[i].clone());
            i += 1;
            assert(seeds@ =~= config.dns_seeds@.take(i as int));
        }
        assert(config.dns_seeds@.take(config.dns_seeds@.len() as int) =~= config.dns_seeds@);
        let mut boot: Vec<SocketAddress> = Vec::new();
        let mut j: usize = 0;
        while j < config.bootstrap_peers.len()
            invariant
                0 <= j <= config.bootstrap_peers@.len(),
                boot@ == config.bootstrap_peers@.take(j as int),
            decreases config.bootstrap_peers@.len() - j,
        {
            boot.push(config.bootstrap_peers[j]);
            j += 1;
            assert(boot@ =~= config.bootstrap_peers@.take(j as int));
        }
        assert(config.bootstrap_peers@.take(config.bootstrap_peers@.len() as int) =~= config.bootstrap_peers@);
        Discovery {
            exchange: PeerExchange::new(),
            persistence: PeerPersistence::new(config.peers_file.clone()),
            dns_seeds: seeds,
            bootstrap_peers: boot,
        }
    }

    /// The path of the peer file.
    pub closed spec fn spec_peers_file(&self) -> Seq<char> {
        self.persistence.spec_path()
    }

    /// The DNS seed hostnames.
    pub closed spec fn spec_dns_seeds(&self) -> Seq<String> {
        self.dns_seeds@
    }

    /// The DNS seed hostnames to resolve.
    pub fn dns_seeds(&self) -> (r: &Vec<String>)
        ensures
            r@ == self.spec_dns_seeds(),
    {
        &self.dns_seeds
    }

    /// Bootstrap peers not in `connected` first, then the freshest known
    /// addresses at `now` not in `connected`, at most `max` in all.
    pub open spec fn spec_addresses_to_connect(&self, connected: Set<SocketAddress>, max: nat, now: u64) -> Seq<SocketAddress> {
        let boot = bootstrap_candidates(self.spec_bootstrap(), connected, max);
        boot + (if boot.len() < max {
            addrs_of(
                first_n(
                    by_recency(fresh_records(self.spec_exchange().known(), now, connected)),
                    (max - boot.len()) as nat,
                ),
            )
        } else {
            Seq::empty()
        })
    }

    /// Addresses to connect to at time `now`: bootstrap peers first, then
    /// the freshest known addresses, skipping those in `connected`, at most
    /// `max` in all.
    pub fn get_addresses_to_connect_at(&self, connected: &VecSet<SocketAddress>, max: usize, now: u64) -> (r: Vec<SocketAddress>)
        ensures
            r@ == self.spec_addresses_to_connect(connected@, max as nat, now),
    {
        let mut addrs: Vec<SocketAddress> = Vec::new();
        let mut i: usize = 0;
        proof {
            assert(self.bootstrap_peers@.take(0) =~= Seq::<SocketAddress>::empty());
        }
        while i < self.bootstrap_peers.len()
            invariant
                0 <= i <= self.bootstrap_peers@.len(),
                addrs@ == bootstrap_candidates(self.bootstrap_peers@.take(i as int), connected@, max as nat),
                addrs@.len() <= max,
            decreases self.bootstrap_peers@.len() - i,
        {
            let a = self.bootstrap_peers[i];
            proof {
                let t = self.bootstrap_peers@.take(i + 1);
                assert(t.drop_last() =~= self.bootstrap_peers@.take(i as int));
                assert(t.last() == a);
            }
            if !connected.contains(&a) && addrs.len() < max {
                addrs.push(a);
            }
            i += 1;
        }
        proof {
            assert(self.bootstrap_peers@.take(self.bootstrap_peers@.len() as int) =~= self.bootstrap_peers@);
        }
        let ghost boot = addrs@;
        if addrs.len() < max {
            let more = self.exchange.get_addresses_to_try_at(connected, max - addrs.len(), now);
            let mut k: usize = 0;
            while k < more.len()
                invariant
                    0 <= k <= more@.len(),
                    addrs@ == boot + more@.take(k as int),
                decreases more@.len() - k,
            {
                addrs.push(more[k]);
                k += 1;
                assert(addrs@ =~= boot + more@.take(k as int));
            }
            assert(more@.take(more@.len() as int) =~= more@);
        } else {
            assert(addrs@ =~= boot + Seq::<SocketAddress>::empty());
        }
        addrs
    }

    /// Addresses to connect to, by the current time.
    pub fn get_addresses_to_connect(&self, connected: &VecSet<SocketAddress>, max: usize) -> (r: Vec<SocketAddress>)
        ensures
            exists|now: u64| r@ == self.spec_addresses_to_connect(connected@, max as nat, now),
            bootstrap_candidates(self.spec_bootstrap(), connected@, max as nat).is_prefix_of(r@),
    {
        let now = unix_time_secs();
        let r = self.get_addresses_to_connect_at(connected, max, now);
        proof {
            let boot = bootstrap_candidates(self.spec_bootstrap(), connected@, max as nat);
            assert(r@.subrange(0, boot.len() as int) =~= boot);
        }
        r
    }

    /// Store the addresses resolved from the DNS seeds, seen at `now`.
    pub fn add_resolved_seeds(&mut self, addrs: &Vec<SocketAddress>, now: u64)
        requires
            old(self).wf(),
        ensures
            final(self).wf(),
            final(self).spec_exchange().known() == after_add_all(
                old(self).spec_exchange().known(),
                old(self).spec_exchange().max_addresses(),
                old(self).spec_exchange().our_addr(),
                old(self).spec_exchange().validates(),
                seen_at(addrs@, now),
            ),
            final(self).spec_exchange().max_addresses() == old(self).spec_exchange().max_addresses(),
            final(self).spec_exchange().our_addr() == old(self).spec_exchange().our_addr(),
            final(self).spec_exchange().validates() == old(self).spec_exchange().validates(),
            final(self).spec_dirty(),
            final(self).spec_bootstrap() == old(self).spec_bootstrap(),
    {
        let mut i: usize = 0;
        proof {
            assert(seen_at(addrs@.take(0), now) =~= Seq::<PeerAddress>::empty());
        }
        while i < addrs.len()
            invariant
                0 <= i <= addrs@.len(),
                self.wf(),
                self.spec_bootstrap() == old(self).spec_bootstrap(),
                self.spec_exchange().known() == after_add_all(
                    old(self).spec_exchange().known(),
                    old(self).spec_exchange().max_addresses(),
                    old(self).spec_exchange().our_addr(),
                    old(self).spec_exchange().validates(),
                    seen_at(addrs@.take(i as int), now),
                ),
                self.spec_exchange().max_addresses() == old(self).spec_exchange().max_addresses(),
                self.spec_exchange().our_addr() == old(self).spec_exchange().our_addr(),
                self.spec_exchange().validates() == old(self).spec_exchange().validates(),
            decreases addrs@.len() - i,
        {
            self.exchange.add_address(addrs[i], now);
            proof {
                let s = seen_at(addrs@.take(i + 1), now);
                assert(s.drop_last() =~= seen_at(addrs@.take(i as int), now));
                assert(s.last() == PeerAddress { addr: addrs@[i as int], last_seen: now });
            }
            i += 1;
        }
        proof {
            assert(addrs@.take(addrs@.len() as int) =~= addrs@);
        }
        self.persistence.mark_dirty();
    }

    /// Add a peer address (e.g., from GetPeers response).
    pub fn add_address(&mut self, addr: SocketAddress, last_seen: u64)
        requires
            old(self).wf(),
        ensures
            final(self).wf(),
            final(self).spec_exchange().known() == after_add(
                old(self).spec_exchange().known(),
                old(self).spec_exchange().max_addresses(),
                old(self).spec_exchange().our_addr(),
                old(self).spec_exchange().validates(),
                addr,
                last_seen,
            ),
            final(self).spec_dirty(),
            final(self).spec_bootstrap() == old(self).spec_bootstrap(),
    {
        self.exchange.add_address(addr, last_seen);
        self.persistence.mark_dirty();
    }

    /// Take in the addresses kept in the peer file, as the node starts;
    /// the address book does not count as changed.
    pub fn add_persisted(&mut self, addresses: Vec<PeerAddress>)
        requires
            old(self).wf(),
        ensures
            final(self).wf(),
            final(self).spec_exchange().known() == after_add_all(
                old(self).spec_exchange().known(),
                old(self).spec_exchange().max_addresses(),
                old(self).spec_exchange().our_addr(),
                old(self).spec_exchange().validates(),
                addresses@,
            ),
            final(self).spec_dirty() == old(self).spec_dirty(),
            final(self).spec_bootstrap() == old(self).spec_bootstrap(),
            final(self).spec_peers_file() == old(self).spec_peers_file(),
    {
        self.exchange.add_addresses(addresses);
    }

    /// Add multiple addresses.
    pub fn add_addresses(&mut self, addresses: Vec<PeerAddress>)
        requires
            old(self).wf(),
        ensures
            final(self).wf(),
            final(self).spec_exchange().known() == after_add_all(
                old(self).spec_exchange().known(),
                old(self).spec_exchange().max_addresses(),
                old(self).spec_exchange().our_addr(),
                old(self).spec_exchange().validates(),
                addresses@,
            ),
            final(self).spec_dirty(),
            final(self).spec_bootstrap() == old(self).spec_bootstrap(),
    {
        self.exchange.add_addresses(addresses);
        self.persistence.mark_dirty();
    }

    /// Mark a peer as seen (successful connection) at `now`, in seconds
    /// since the Unix epoch.
    pub fn mark_seen_at(&mut self, addr: SocketAddress, now: u64)
        requires
            old(self).wf(),
        ensures
            final(self).wf(),
            final(self).spec_exchange().known() == after_add(
                old(self).spec_exchange().known(),
                old(self).spec_exchange().max_addresses(),
                old(self).spec_exchange().our_addr(),
                old(self).spec_exchange().validates(),
                addr,
                now,
            ),
            final(self).spec_dirty(),
            final(self).spec_bootstrap() == old(self).spec_bootstrap(),
    {
        self.add_address(addr, now);
    }

    /// Mark a peer as seen (successful connection).
    pub fn mark_seen(&mut self, addr: SocketAddress)
        requires
            old(self).wf(),
        ensures
            final(self).wf(),
            exists|now: u64|
                final(self).spec_exchange().known() == after_add(
                    old(self).spec_exchange().known(),
                    old(self).spec_exchange().max_addresses(),
                    old(self).spec_exchange().our_addr(),
                    old(self).spec_exchange().validates(),
                    addr,
                    now,
                ),
            final(self).spec_exchange().max_addresses() == old(self).spec_exchange().max_addresses(),
            final(self).spec_exchange().our_addr() == old(self).spec_exchange().our_addr(),
            final(self).spec_exchange().validates() == old(self).spec_exchange().validates(),
            final(self).spec_dirty(),
            final(self).spec_bootstrap() == old(self).spec_bootstrap(),
    {
        self.exchange.mark_seen(addr);
        self.persistence.mark_dirty();
    }

    /// The addresses to write to the peer file, when the book changed since
    /// it was last saved.
    pub fn peers_to_save(&self) -> (r: Option<&[PeerAddress]>)
        ensures
            self.spec_dirty() ==> (r matches Some(v) && v@ == self.spec_exchange().known()),
            !self.spec_dirty() ==> r is None,
    {
        if self.persistence.is_dirty() {
            Some(self.exchange.all_addresses())
        } else {
            None
        }
    }

    /// Record that the peer file was written.
    pub fn mark_saved(&mut self)
        ensures
            !final(self).spec_dirty(),
            final(self).spec_exchange() == old(self).spec_exchange(),
            final(self).spec_bootstrap() == old(self).spec_bootstrap(),
    {
        self.persistence.mark_saved();
    }

    /// The path of the peer file.
    pub fn peers_file(&self) -> (r: &str)
        ensures
            r@ == self.spec_peers_file(),
    {
        self.persistence.path()
    }

    /// Get the peer exchange manager.
    pub fn exchange(&self) -> (r: &PeerExchange)
        ensures
            *r == self.spec_exchange(),
    {
        &self.exchange
    }

    /// Get mutable peer exchange manager.
    pub fn exchange_mut(&mut self) -> (r: &mut PeerExchange)
        ensures
            *r == old(self).spec_exchange(),
            final(self).spec_exchange() == *final(r),
            final(self).spec_dirty() == old(self).spec_dirty(),
            final(self).spec_bootstrap() == old(self).spec_bootstrap(),
    {
        &mut self.exchange
    }

    /// Get the number of known addresses.
    pub fn known_count(&self) -> (r: usize)
        ensures
            r == self.spec_exchange().known().len(),
    {
        self.exchange.len()
    }
}

} // verus!
