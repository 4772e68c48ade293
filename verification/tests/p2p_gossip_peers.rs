use tunnels::p2p::exchange::PeerExchange;
use tunnels::p2p::filter::SeenFilter;
use tunnels::p2p::gossip::{BlockRelay, GossipManager, TxRelay};
use tunnels::p2p::headers::ChainView;
use tunnels::p2p::messages::{Block, BlockHeader, Message, PeerAddress, PeersMessage};
use tunnels::p2p::net::{address_le, distinct_sorted, is_private_or_local, is_valid_peer_address, SocketAddress};
use tunnels::p2p::peer::{ConnectionDirection, PeerId, PeerInfo};
use tunnels::p2p::slots::ConnectionSlots;
use tunnels::vec_set::VecSet;

const NOW: u64 = 1_700_000_000;

#[test]
fn test_seen_filter() {
    let mut filter = SeenFilter::new(100);

    let hash1 = [1u8; 32];
    let hash2 = [2u8; 32];

    assert!(filter.check(&hash1));
    assert!(!filter.check(&hash1));
    assert!(filter.check(&hash2));

    assert_eq!(filter.len(), 2);
}

#[test]
fn test_lru_eviction() {
    let mut filter = SeenFilter::new(2);

    let hash1 = [1u8; 32];
    let hash2 = [2u8; 32];
    let hash3 = [3u8; 32];

    filter.check(&hash1);
    filter.check(&hash2);
    filter.check(&hash3);

    assert!(!filter.contains(&hash1));
    assert!(filter.contains(&hash2));
    assert!(filter.contains(&hash3));
}

#[test]
fn filter_test_mark_seen() {
    let mut filter = SeenFilter::new(100);
    let hash = [1u8; 32];

    filter.mark_seen(hash);
    assert!(filter.contains(&hash));
    assert!(!filter.check(&hash));
}

#[test]
fn filter_zero_capacity_and_clear() {
    let mut filter = SeenFilter::new(0);
    assert!(filter.is_empty());
    assert!(filter.check(&[1u8; 32]));
    assert!(filter.check(&[2u8; 32]));
    assert_eq!(filter.len(), 1);
    assert!(!filter.contains(&[1u8; 32]));
    filter.clear();
    assert!(filter.is_empty());
    assert!(SeenFilter::with_default_capacity().is_empty());
}

#[test]
fn filter_recently_seen_survives_eviction() {
    let mut filter = SeenFilter::new(2);
    filter.check(&[1u8; 32]);
    filter.check(&[2u8; 32]);
    filter.mark_seen([1u8; 32]);
    filter.check(&[3u8; 32]);
    assert!(filter.contains(&[1u8; 32]));
    assert!(!filter.contains(&[2u8; 32]));
}

#[test]
fn test_block_relay_dedup() {
    let mut relay = BlockRelay::new();
    let hash = [1u8; 32];

    assert!(relay.should_relay(&hash));
    assert!(!relay.should_relay(&hash));
}

#[test]
fn block_test_mark_seen() {
    let mut relay = BlockRelay::new();
    let hash = [1u8; 32];

    relay.mark_seen(hash);
    assert!(relay.has_seen(&hash));
    assert!(!relay.should_relay(&hash));
}

#[test]
fn test_tx_relay_dedup() {
    let mut relay = TxRelay::new();
    let tx_id = [1u8; 32];

    assert!(relay.should_relay(&tx_id));
    assert!(!relay.should_relay(&tx_id));
}

#[test]
fn tx_test_mark_seen() {
    let mut relay = TxRelay::new();
    let tx_id = [1u8; 32];

    relay.mark_seen(tx_id);
    assert!(relay.has_seen(&tx_id));
    assert!(!relay.should_relay(&tx_id));
}

#[test]
fn relay_counts_and_clear() {
    let mut relay = TxRelay::with_capacity(3);
    for i in 0..5u8 {
        relay.should_relay(&[i; 32]);
    }
    assert_eq!(relay.seen_count(), 3);
    relay.clear();
    assert_eq!(relay.seen_count(), 0);
    let mut blocks = BlockRelay::with_capacity(1);
    blocks.mark_seen([1u8; 32]);
    blocks.mark_seen([2u8; 32]);
    assert_eq!(blocks.seen_count(), 1);
    assert!(!blocks.has_seen(&[1u8; 32]));
}

#[test]
fn test_gossip_manager() {
    let mut gossip = GossipManager::new();

    let tx_id = [1u8; 32];
    let block_hash = [2u8; 32];

    assert!(!gossip.has_seen_tx(&tx_id));
    assert!(!gossip.has_seen_block(&block_hash));

    gossip.mark_tx_seen(tx_id);
    gossip.mark_block_seen(block_hash);

    assert!(gossip.has_seen_tx(&tx_id));
    assert!(gossip.has_seen_block(&block_hash));

    let stats = gossip.stats();
    assert_eq!(stats.seen_transactions, 1);
    assert_eq!(stats.seen_blocks, 1);
}

fn block(hash: u8, prev: u8, height: u64) -> Block {
    Block {
        header: BlockHeader { hash: [hash; 32], prev_block_hash: [prev; 32], height, meets_difficulty: true },
        tx_root_valid: true,
    }
}

#[test]
fn orphan_pool_queue_expire_and_release() {
    let mut gossip = GossipManager::new();
    gossip.queue_orphan(block(10, 5, 6), 0);
    gossip.queue_orphan(block(11, 5, 6), 1_000);
    gossip.queue_orphan(block(10, 5, 6), 2_000);
    gossip.queue_orphan(block(20, 9, 6), 3_000);
    assert_eq!(gossip.orphan_count(), 3);
    assert!(gossip.has_seen_block(&[11u8; 32]));

    let parent = BlockHeader { hash: [5u8; 32], prev_block_hash: [4u8; 32], height: 5, meets_difficulty: true };
    let chain = ChainView { blocks: vec![parent], main_chain: vec![parent] };
    let first = gossip.get_processable_orphan(&chain).unwrap();
    assert_eq!(first.header.hash, [11u8; 32]);
    let second = gossip.get_processable_orphan(&chain).unwrap();
    assert_eq!(second.header.hash, [10u8; 32]);
    assert!(gossip.get_processable_orphan(&chain).is_none());
    assert_eq!(gossip.orphan_count(), 1);

    gossip.queue_orphan(block(30, 8, 6), 400_000);
    assert_eq!(gossip.orphan_count(), 1);

    for i in 0..120u8 {
        gossip.queue_orphan(block(i, 200, 6), 400_001);
    }
    assert_eq!(gossip.orphan_count(), 100);
    gossip.clear();
    assert_eq!(gossip.orphan_count(), 0);
}

fn make_peer(id: u64, addr: SocketAddress, direction: ConnectionDirection) -> PeerInfo {
    PeerInfo::new(PeerId::new(id), addr, direction, 0)
}

#[test]
fn test_slot_tracking() {
    let mut slots = ConnectionSlots::new(2, 2);

    assert!(slots.can_connect_outbound());
    assert!(slots.can_accept_inbound());
    assert_eq!(slots.available_outbound(), 2);

    let peer1 = make_peer(1, SocketAddress::v4(127, 0, 0, 1, 8333), ConnectionDirection::Outbound);
    slots.add_peer(peer1);

    assert!(slots.can_connect_outbound());
    assert_eq!(slots.outbound_count(), 1);
    assert_eq!(slots.available_outbound(), 1);

    let peer2 = make_peer(2, SocketAddress::v4(127, 0, 0, 2, 8333), ConnectionDirection::Outbound);
    slots.add_peer(peer2);

    assert!(!slots.can_connect_outbound());
    assert_eq!(slots.outbound_count(), 2);
}

#[test]
fn test_connecting_state() {
    let mut slots = ConnectionSlots::new(2, 2);
    let addr = SocketAddress::v4(127, 0, 0, 1, 8333);

    assert!(slots.should_connect(&addr));

    slots.start_connecting(addr);
    assert!(!slots.should_connect(&addr));
    assert!(slots.is_connecting(&addr));

    slots.stop_connecting(&addr);
    assert!(slots.should_connect(&addr));
}

#[test]
fn test_remove_peer() {
    let mut slots = ConnectionSlots::new(2, 2);

    let peer = make_peer(1, SocketAddress::v4(127, 0, 0, 1, 8333), ConnectionDirection::Outbound);
    let addr = peer.addr;
    let peer_id = peer.id;

    slots.add_peer(peer);
    assert!(slots.is_connected(&addr));
    assert_eq!(slots.outbound_count(), 1);

    let removed = slots.remove_peer(&peer_id);
    assert!(removed.is_some());
    assert!(!slots.is_connected(&addr));
    assert_eq!(slots.outbound_count(), 0);
}

#[test]
fn slots_lookup_and_best_peer() {
    let mut slots = ConnectionSlots::new(4, 4);
    assert!(slots.best_peer().is_none());
    let a = SocketAddress::v4(8, 8, 8, 8, 1);
    let b = SocketAddress::v4(8, 8, 4, 4, 2);
    let mut p1 = make_peer(1, a, ConnectionDirection::Inbound);
    p1.best_height = 50;
    let mut p2 = make_peer(2, b, ConnectionDirection::Outbound);
    p2.best_height = 80;
    slots.start_connecting(a);
    slots.add_peer(p1);
    slots.add_peer(p2);
    assert_eq!(slots.connecting_count(), 0);
    assert_eq!(slots.total_count(), 2);
    assert_eq!(slots.inbound_count(), 1);
    assert_eq!(slots.available_inbound(), 3);
    assert_eq!(slots.best_peer(), Some(PeerId::new(2)));
    assert_eq!(slots.peers_at_height(60), vec![PeerId::new(2)]);
    assert_eq!(slots.peer_ids(), vec![PeerId::new(1), PeerId::new(2)]);
    assert_eq!(slots.peer_addrs().len(), 2);
    assert_eq!(slots.get_peer_by_addr(&b).unwrap().id, PeerId::new(2));
    assert_eq!(slots.get_peer(&PeerId::new(1)).unwrap().best_height, 50);
    assert_eq!(slots.iter().len(), 2);
    assert!(slots.remove_peer(&PeerId::new(9)).is_none());
}

fn addr(a: u8, b: u8, c: u8, d: u8, port: u16) -> SocketAddress {
    SocketAddress::v4(a, b, c, d, port)
}

#[test]
fn test_add_address() {
    let mut exchange = PeerExchange::new();
    let addr = addr(8, 8, 8, 8, 8333);

    exchange.add_address(addr, NOW);
    assert_eq!(exchange.len(), 1);
    assert!(exchange.contains(&addr));

    exchange.add_address(addr, NOW + 100);
    assert_eq!(exchange.len(), 1);
}

#[test]
fn test_get_addresses_excludes() {
    let mut exchange = PeerExchange::new();

    let addr1 = addr(8, 8, 8, 8, 8333);
    let addr2 = addr(1, 1, 1, 1, 8333);

    exchange.add_address(addr1, NOW);
    exchange.add_address(addr2, NOW);

    let mut exclude = VecSet::new();
    exclude.insert(addr1);

    let addrs = exchange.get_addresses_to_try_at(&exclude, 10, NOW);
    assert_eq!(addrs.len(), 1);
    assert_eq!(addrs[0], addr2);
}

#[test]
fn exchange_test_mark_seen() {
    let mut exchange = PeerExchange::new();
    let addr = addr(8, 8, 8, 8, 8333);

    exchange.mark_seen(addr);
    assert!(exchange.contains(&addr));
}

#[test]
fn test_is_private_or_local() {
    assert!(is_private_or_local(&addr(10, 0, 0, 1, 8333)));
    assert!(is_private_or_local(&addr(172, 16, 0, 1, 8333)));
    assert!(is_private_or_local(&addr(192, 168, 1, 1, 8333)));

    assert!(is_private_or_local(&addr(127, 0, 0, 1, 8333)));
    assert!(is_private_or_local(&SocketAddress::v6([0, 0, 0, 0, 0, 0, 0, 1], 8333)));

    assert!(is_private_or_local(&addr(169, 254, 1, 1, 8333)));

    assert!(!is_private_or_local(&addr(8, 8, 8, 8, 8333)));
    assert!(!is_private_or_local(&addr(1, 1, 1, 1, 443)));
}

#[test]
fn private_ranges_edges() {
    assert!(!is_private_or_local(&addr(172, 32, 0, 1, 1)));
    assert!(is_private_or_local(&addr(172, 31, 255, 1, 1)));
    assert!(is_private_or_local(&addr(255, 255, 255, 255, 1)));
    assert!(is_private_or_local(&addr(198, 51, 100, 7, 1)));
    assert!(is_private_or_local(&addr(0, 0, 0, 0, 1)));
    assert!(is_private_or_local(&SocketAddress::v6([0xfe80, 0, 0, 0, 0, 0, 0, 1], 1)));
    assert!(is_private_or_local(&SocketAddress::v6([0xfd00, 0, 0, 0, 0, 0, 0, 1], 1)));
    assert!(!is_private_or_local(&SocketAddress::v6([0x2001, 0xdb8, 0, 0, 0, 0, 0, 1], 1)));
}

#[test]
fn test_is_valid_peer_address() {
    let our_addr = addr(203, 0, 113, 1, 8333);

    assert!(!is_valid_peer_address(&our_addr, Some(&our_addr)));
    assert!(!is_valid_peer_address(&addr(8, 8, 8, 8, 0), None));
    assert!(is_valid_peer_address(&addr(8, 8, 8, 8, 8333), Some(&our_addr)));
}

#[test]
fn test_exchange_rejects_invalid_addresses() {
    let mut exchange = PeerExchange::new();

    exchange.add_address(addr(127, 0, 0, 1, 8333), NOW);
    exchange.add_address(addr(192, 168, 1, 1, 8333), NOW);
    exchange.add_address(addr(10, 0, 0, 1, 8333), NOW);

    assert_eq!(exchange.len(), 0, "Invalid addresses should be rejected");

    exchange.add_address(addr(8, 8, 8, 8, 8333), NOW);
    assert_eq!(exchange.len(), 1, "Valid address should be accepted");
}

#[test]
fn test_exchange_with_validation_disabled() {
    let mut exchange = PeerExchange::new();
    exchange.disable_validation();

    exchange.add_address(addr(127, 0, 0, 1, 8333), NOW);
    assert_eq!(exchange.len(), 1, "Address should be accepted when validation disabled");
}

#[test]
fn exchange_replaces_oldest_when_full_and_orders_by_recency() {
    let mut exchange = PeerExchange::with_max_addresses(2);
    exchange.add_address(addr(8, 8, 8, 1, 1), NOW - 50);
    exchange.add_address(addr(8, 8, 8, 2, 1), NOW - 10);
    exchange.add_address(addr(8, 8, 8, 3, 1), NOW - 60);
    assert_eq!(exchange.len(), 2);
    assert!(!exchange.contains(&addr(8, 8, 8, 3, 1)));
    exchange.add_address(addr(8, 8, 8, 3, 1), NOW);
    assert!(exchange.contains(&addr(8, 8, 8, 3, 1)));
    assert!(!exchange.contains(&addr(8, 8, 8, 1, 1)));

    let fresh = exchange.get_addresses_for_peer_at(10, NOW);
    assert_eq!(fresh.len(), 2);
    assert_eq!(fresh[0].addr, addr(8, 8, 8, 3, 1));
    assert_eq!(fresh[1].addr, addr(8, 8, 8, 2, 1));
    assert_eq!(exchange.get_addresses_for_peer_at(1, NOW).len(), 1);
    assert!(exchange.get_addresses_for_peer_at(10, NOW + 20_000).is_empty());

    exchange.add_address(addr(8, 8, 8, 2, 1), NOW - 1_000);
    assert_eq!(exchange.all_addresses()[1].last_seen, NOW - 10);

    let mut other = PeerExchange::new();
    other.set_our_addr(addr(9, 9, 9, 9, 9));
    other.process_peers(&PeersMessage {
        peers: vec![
            PeerAddress { addr: addr(9, 9, 9, 9, 9), last_seen: NOW },
            PeerAddress { addr: addr(4, 4, 4, 4, 4), last_seen: NOW },
        ],
    });
    assert_eq!(other.len(), 1);
    assert!(matches!(PeerExchange::create_get_peers(), Message::GetPeers));
    match other.create_peers_response_at(NOW) {
        Message::Peers(m) => assert_eq!(m.peers.len(), 1),
        _ => panic!("expected peers"),
    }
    assert!(other.remove(&addr(4, 4, 4, 4, 4)));
    assert!(!other.remove(&addr(4, 4, 4, 4, 4)));
    assert!(other.is_empty());
    exchange.clear();
    assert!(exchange.is_empty());
}

#[test]
fn refused_block_stays_seen_and_is_not_relayed() {
    let mut relay = BlockRelay::new();
    let b = block(7, 0, 1);
    relay.mark_seen(b.header.hash);
    assert_eq!(BlockRelay::block_added(b.header.hash, Err("bad root".to_string())), Ok(None));
    assert!(relay.has_seen(&b.header.hash));
    assert_eq!(BlockRelay::block_added(b.header.hash, Ok(())), Ok(Some(b.header.hash)));
}

#[test]
fn refused_block_gives_no_relay_message() {
    let b = block(8, 0, 1);
    assert!(matches!(GossipManager::block_processed(b, Err("bad".to_string())), Ok(None)));
    assert!(matches!(GossipManager::block_processed(b, Ok(())), Ok(Some((h, Message::NewBlock(_)))) if h == b.header.hash));
}

#[test]
fn resolved_addresses_sorted_and_deduplicated() {
    let v6 = SocketAddress::v6([0x2001, 0xdb8, 0, 0, 0, 0, 0, 1], 80);
    let a = SocketAddress::v4(10, 0, 0, 2, 1);
    let b = SocketAddress::v4(10, 0, 0, 1, 5);
    let c = SocketAddress::v4(10, 0, 0, 2, 0);
    let out = distinct_sorted(&vec![v6, a, b, a, c, v6]);
    assert_eq!(out, vec![b, c, a, v6]);
    assert!(address_le(&b, &a));
    assert!(!address_le(&v6, &a));
    assert!(distinct_sorted(&Vec::new()).is_empty());
}

#[test]
fn marking_one_hash_keeps_the_others_seen() {
    let mut gossip = GossipManager::new();
    gossip.mark_tx_seen([1u8; 32]);
    gossip.mark_tx_seen([2u8; 32]);
    gossip.mark_block_seen([3u8; 32]);
    gossip.mark_block_seen([4u8; 32]);
    assert!(gossip.has_seen_tx(&[1u8; 32]) && gossip.has_seen_tx(&[2u8; 32]));
    assert!(gossip.has_seen_block(&[3u8; 32]) && gossip.has_seen_block(&[4u8; 32]));
    assert!(!gossip.has_seen_tx(&[3u8; 32]));
    assert_eq!(gossip.stats().seen_transactions, 2);
    assert_eq!(gossip.stats().seen_blocks, 2);
}
