use tunnels::p2p::config::P2pConfig;
use tunnels::p2p::gossip::BlockCheck;
use tunnels::p2p::headers::ChainView;
use tunnels::p2p::manager::{OutboundManager, PeerManager};
use tunnels::p2p::messages::{
    Block, BlockDataMessage, BlockHeader, GetBlockMessage, GetHeadersMessage, HeadersMessage, Message,
    NewBlockMessage, PeerAddress,
};
use tunnels::p2p::net::{is_private_or_local, is_valid_peer_address, SocketAddress};
use tunnels::p2p::node::{NodeAction, P2pNode};
use tunnels::p2p::peer::{ConnectionDirection, PeerId, PeerInfo};
use tunnels::p2p::sync_manager::SyncManager;

fn make_peer(id: u64, addr: SocketAddress, direction: ConnectionDirection) -> PeerInfo {
    PeerInfo::new(PeerId::new(id), addr, direction, 0)
}

fn header(hash: u8, prev: u8, height: u64) -> BlockHeader {
    BlockHeader { hash: [hash; 32], prev_block_hash: [prev; 32], height, meets_difficulty: true }
}

fn chain_to(tip: u64) -> ChainView {
    let headers: Vec<BlockHeader> =
        (0..=tip).map(|h| header(h as u8 + 1, h as u8, h)).collect();
    ChainView { blocks: headers.clone(), main_chain: headers }
}

fn node() -> P2pNode {
    let mut node = P2pNode::new(P2pConfig::default());
    node.start(&chain_to(0));
    node
}

fn connected(node: &mut P2pNode, id: u64, port: u16, height: u64) -> Vec<NodeAction> {
    let mut info = make_peer(id, SocketAddress::v4(93, 184, 216, 34, port), ConnectionDirection::Outbound);
    info.best_height = height;
    node.handle_peer_connected(PeerId::new(id), info, &chain_to(0), 1_000, 1_700_000_000)
}

#[test]
fn test_peer_manager() {
    let config = P2pConfig::default();
    let mut manager = PeerManager::new(&config);

    assert!(manager.needs_outbound());

    let addr = SocketAddress::v4(127, 0, 0, 1, 8333);
    let peer = make_peer(1, addr, ConnectionDirection::Outbound);
    let peer_id = peer.id;

    manager.add_peer(peer);

    assert!(manager.is_connected(&addr));
    assert!(manager.get_peer(&peer_id).is_some());

    let removed = manager.remove_peer(&peer_id);
    assert!(removed.is_some());
    assert!(!manager.is_connected(&addr));
}

#[test]
fn test_outbound_manager() {
    let config = P2pConfig::default();
    let mut manager = OutboundManager::new(&config);

    assert_eq!(manager.target(), 8);

    let id1 = manager.next_peer_id();
    let id2 = manager.next_peer_id();

    assert_eq!(id1, PeerId::new(1));
    assert_eq!(id2, PeerId::new(2));
}

#[test]
fn test_node_creation() {
    let node = P2pNode::new(P2pConfig::new(SocketAddress::v4(127, 0, 0, 1, 0)));
    assert_eq!(node.connection_info(), (0, 0));
    assert!(!node.is_syncing());
}

#[test]
fn peer_manager_tracks_tips_and_outbound_need() {
    let config = P2pConfig::default().with_target_outbound(1);
    let mut manager = PeerManager::new(&config);
    assert!(manager.needs_outbound());
    manager.start_connecting(SocketAddress::v4(10, 0, 0, 9, 1));
    assert!(!manager.needs_outbound());
    manager.stop_connecting(&SocketAddress::v4(10, 0, 0, 9, 1));

    let peer = make_peer(7, SocketAddress::v4(10, 0, 0, 7, 1), ConnectionDirection::Inbound);
    manager.add_peer(peer);
    manager.update_peer_tip(&PeerId::new(7), 42, [9; 32]);
    let info = manager.get_peer(&PeerId::new(7)).unwrap();
    assert_eq!(info.best_height, 42);
    assert_eq!(info.best_hash, [9; 32]);
    assert_eq!(manager.connection_counts(), (0, 1));
    assert_eq!(manager.best_peer(), Some(PeerId::new(7)));
    assert_eq!(manager.peers_at_height(43), Vec::<PeerId>::new());
}

#[test]
fn inbound_connections_respect_the_limit() {
    let config = P2pConfig::default().with_max_inbound(1);
    let mut node = P2pNode::new(config);
    let first = node.accept_inbound(SocketAddress::v4(10, 0, 0, 2, 5000), 7);
    assert_eq!(first, Some(PeerId::new(1)));
    assert_eq!(node.accept_inbound(SocketAddress::v4(10, 0, 0, 3, 5000), 8), None);
    assert_eq!(node.connection_info(), (0, 1));
    let info = node.peers().get_peer(&PeerId::new(1)).unwrap();
    assert_eq!(info.connected_at, 7);
    assert_eq!(info.direction, ConnectionDirection::Inbound);
}

#[test]
fn connection_attempts_go_to_bootstrap_peers_first() {
    let a = SocketAddress::v4(192, 168, 1, 10, 9333);
    let b = SocketAddress::v4(192, 168, 1, 11, 9333);
    let config = P2pConfig::default().with_bootstrap_peers(vec![a, b]);
    let mut node = P2pNode::new(config);
    let actions = node.try_connect_peers(1_700_000_000);
    assert_eq!(actions.len(), 2);
    assert!(matches!(&actions[0], NodeAction::Connect(id, addr) if *id == PeerId::new(1) && *addr == a));
    assert!(matches!(&actions[1], NodeAction::Connect(id, addr) if *id == PeerId::new(2) && *addr == b));
    // Both are now being connected to, so a second round asks for nothing new.
    let again = node.try_connect_peers(1_700_000_000);
    assert!(again.is_empty());
}

#[test]
fn connected_peer_ahead_of_us_starts_sync() {
    let mut node = node();
    let actions = connected(&mut node, 3, 9000, 10);
    assert_eq!(actions.len(), 3);
    match &actions[0] {
        NodeAction::Send(p, Message::GetHeaders(g)) => {
            assert_eq!(*p, PeerId::new(3));
            assert_eq!(g.locator_hashes, vec![[1u8; 32]]);
            assert_eq!(g.stop_hash, [0u8; 32]);
        }
        other => panic!("unexpected {:?}", other),
    }
    assert!(matches!(&actions[1], NodeAction::Send(p, Message::GetPeers) if *p == PeerId::new(3)));
    match &actions[2] {
        NodeAction::Notify(update) => {
            assert_eq!(update.outbound_connections, 1);
            assert!(update.syncing);
            assert_eq!(update.peers.len(), 1);
            assert_eq!(update.peers[0].id, "0000000000000003");
            assert_eq!(update.peers[0].direction, "outbound");
            assert_eq!(update.peers[0].best_height, 10);
        }
        other => panic!("unexpected {:?}", other),
    }
    assert!(node.is_syncing());
}

#[test]
fn connected_peer_at_our_height_does_not_start_sync() {
    let mut node = node();
    let actions = connected(&mut node, 3, 9000, 0);
    assert_eq!(actions.len(), 2);
    assert!(!node.is_syncing());
}

#[test]
fn disconnect_reports_and_forgets_the_peer() {
    let mut node = node();
    connected(&mut node, 3, 9000, 10);
    let actions = node.handle_peer_disconnected(PeerId::new(3));
    assert_eq!(actions.len(), 1);
    assert!(matches!(&actions[0], NodeAction::Notify(u) if u.peers.is_empty() && !u.syncing));
    assert_eq!(node.connection_info(), (0, 0));
    assert!(!node.is_syncing());
}

#[test]
fn repeated_misbehavior_gets_a_peer_banned() {
    let mut node = node();
    connected(&mut node, 4, 9001, 0);
    for _ in 0..3 {
        assert!(node.record_peer_misbehavior(PeerId::new(4)).is_empty());
    }
    let actions = node.record_peer_misbehavior(PeerId::new(4));
    assert!(matches!(&actions[..], [NodeAction::Disconnect(p)] if *p == PeerId::new(4)));
    // A peer without a context is left alone.
    assert!(node.record_peer_misbehavior(PeerId::new(99)).is_empty());
}

#[test]
fn stalled_sync_switches_to_the_best_peer() {
    let mut node = node();
    connected(&mut node, 3, 9000, 10);
    connected(&mut node, 5, 9002, 20);
    assert_eq!(node.sync().sync_peer(), Some(PeerId::new(3)));
    assert!(node.check_sync_stall(&chain_to(0), 2_000, 1_700_000_000).is_empty());
    let actions = node.check_sync_stall(&chain_to(0), 1_000 + 30_001, 1_700_000_000);
    assert_eq!(actions.len(), 2);
    assert!(matches!(&actions[0], NodeAction::Disconnect(p) if *p == PeerId::new(3)));
    assert!(matches!(&actions[1], NodeAction::Send(p, Message::GetHeaders(_)) if *p == PeerId::new(5)));
    assert_eq!(node.sync().sync_peer(), Some(PeerId::new(5)));
}

#[test]
fn messages_from_peers_are_routed() {
    let mut node = node();
    connected(&mut node, 3, 9000, 0);
    let chain = chain_to(3);
    let peer = PeerId::new(3);

    let get_headers = Message::GetHeaders(GetHeadersMessage { locator_hashes: vec![[2u8; 32]], stop_hash: [0; 32] });
    let actions = node.handle_peer_message(peer, get_headers, &chain, 1_000, 1_700_000_000);
    match &actions[..] {
        [NodeAction::Send(p, Message::Headers(h))] => {
            assert_eq!(*p, peer);
            let heights: Vec<u64> = h.headers.iter().map(|x| x.height).collect();
            assert_eq!(heights, vec![2, 3]);
        }
        other => panic!("unexpected {:?}", other),
    }

    let actions = node.handle_peer_message(peer, Message::GetBlock(GetBlockMessage { hash: [7; 32] }), &chain, 1_000, 0);
    assert!(matches!(&actions[..], [NodeAction::ServeBlock(p, h)] if *p == peer && *h == [7; 32]));

    // Headers from a peer that is not the sync peer are dropped.
    let actions = node.handle_peer_message(peer, Message::Headers(HeadersMessage { headers: vec![] }), &chain, 1_000, 0);
    assert!(actions.is_empty());

    assert!(node.handle_peer_message(peer, Message::Ping(1), &chain, 1_000, 0).is_empty());

    let actions = node.handle_peer_message(peer, Message::GetPeers, &chain, 1_000, 1_700_000_000);
    match &actions[..] {
        [NodeAction::Send(p, Message::Peers(m))] => {
            assert_eq!(*p, peer);
            assert_eq!(m.peers.len(), 1);
            assert_eq!(m.peers[0].addr, SocketAddress::v4(93, 184, 216, 34, 9000));
        }
        other => panic!("unexpected {:?}", other),
    }
}

#[test]
fn block_data_goes_to_the_chain_unless_known() {
    let mut node = node();
    let peer = PeerId::new(3);
    let chain = chain_to(1);
    let fresh = Block { header: header(9, 2, 2), tx_root_valid: true };
    let actions = node.handle_peer_message(peer, Message::BlockData(BlockDataMessage { block: fresh }), &chain, 5, 0);
    assert!(matches!(&actions[..], [NodeAction::AddSyncedBlock(p, b)] if *p == peer && *b == fresh));

    let known = Block { header: header(2, 1, 1), tx_root_valid: true };
    let actions = node.handle_peer_message(peer, Message::BlockData(BlockDataMessage { block: known }), &chain, 5, 0);
    assert!(actions.is_empty());

    let actions = node.synced_block_added(peer, [9; 32], 2, true, 6);
    assert!(matches!(&actions[..], [NodeAction::ProcessOrphans]));
    assert!(node.synced_block_added(peer, [9; 32], 2, false, 6).is_empty());
}

#[test]
fn orphan_block_is_queued_and_triggers_sync() {
    let mut node = node();
    connected(&mut node, 3, 9000, 0);
    // Make the peer ahead of us through a relayed block it announced.
    node.relayed_block_added(PeerId::new(3), Block { header: header(50, 1, 9), tx_root_valid: true }, Ok(()), 9);
    let orphan = Block { header: header(60, 55, 10), tx_root_valid: true };
    let actions = node.handle_new_block(PeerId::new(3), orphan, &chain_to(0), 100);
    assert!(matches!(&actions[..], [NodeAction::Send(p, Message::GetHeaders(_))] if *p == PeerId::new(3)));

    let chain = ChainView {
        blocks: vec![header(1, 0, 0), header(55, 1, 1)],
        main_chain: vec![header(1, 0, 0), header(55, 1, 1)],
    };
    assert_eq!(node.next_orphan(&chain), Some(orphan));
    assert_eq!(node.next_orphan(&chain), None);
}

#[test]
fn new_blocks_are_checked_then_relayed() {
    let mut node = node();
    connected(&mut node, 3, 9000, 0);
    let chain = chain_to(0);
    let block = Block { header: header(70, 1, 1), tx_root_valid: true };
    let actions = node.handle_new_block(PeerId::new(3), block, &chain, 100);
    assert!(matches!(&actions[..], [NodeAction::AddRelayedBlock(p, b)] if *p == PeerId::new(3) && *b == block));
    // Seen now: announced again, it is dropped.
    assert!(node.handle_new_block(PeerId::new(5), block, &chain, 100).is_empty());
    assert_eq!(node.check_block(&block, &chain), BlockCheck::AlreadySeen);

    let actions = node.relayed_block_added(PeerId::new(3), block, Ok(()), 1);
    assert_eq!(actions.len(), 3);
    assert!(matches!(&actions[0], NodeAction::BroadcastExcept(Message::NewBlock(NewBlockMessage { block: b }), p) if *b == block && *p == PeerId::new(3)));
    assert!(matches!(&actions[1], NodeAction::ProcessOrphans));
    assert!(matches!(&actions[2], NodeAction::RemoveConfirmed(h) if *h == [70; 32]));
    assert_eq!(node.peers().get_peer(&PeerId::new(3)).unwrap().best_height, 1);

    // A refused block counts against its sender.
    assert!(node.relayed_block_added(PeerId::new(3), block, Err("bad".to_string()), 1).is_empty());
}

#[test]
fn local_blocks_are_broadcast_to_everyone() {
    let mut node = node();
    let block = Block { header: header(80, 1, 1), tx_root_valid: true };
    let actions = node.handle_block_submission(block);
    assert!(matches!(&actions[..], [NodeAction::Broadcast(Message::NewBlock(NewBlockMessage { block: b }))] if *b == block));
    let orphan_actions = node.orphan_added(block, Ok(()));
    assert!(matches!(&orphan_actions[..], [NodeAction::Broadcast(_)]));
    assert!(node.orphan_added(block, Err("no".to_string())).is_empty());
}

#[test]
fn state_update_snapshots_each_peer() {
    let mut node = node();
    node.accept_inbound(SocketAddress::v4(10, 0, 0, 2, 5000), 0);
    let update = node.state_update();
    assert_eq!(update.inbound_connections, 1);
    assert_eq!(update.peers[0].id, "0000000000000001");
    assert_eq!(update.peers[0].direction, "inbound");
    assert_eq!(node.peer_count(), 1);
}

#[test]
fn test_sync_timeout_exists() {
    let sync = SyncManager::with_timeout(100);
    assert_eq!(sync.timeout(), 100);

    let mut sync = SyncManager::new();
    assert!(!sync.is_stalled(0)); // Not syncing, not stalled

    sync.start_sync(PeerId::new(1), 0, 100, 0);
    assert!(!sync.is_stalled(0)); // Just started

    assert!(sync.time_since_activity(0).is_some());
}

#[test]
fn test_address_validation() {
    assert!(is_private_or_local(&SocketAddress::v4(10, 0, 0, 1, 8333)));
    assert!(is_private_or_local(&SocketAddress::v4(192, 168, 1, 1, 8333)));
    assert!(is_private_or_local(&SocketAddress::v4(172, 16, 0, 1, 8333)));

    assert!(is_private_or_local(&SocketAddress::v4(127, 0, 0, 1, 8333)));
    assert!(is_private_or_local(&SocketAddress::v6([0, 0, 0, 0, 0, 0, 0, 1], 8333)));

    assert!(!is_private_or_local(&SocketAddress::v4(8, 8, 8, 8, 8333)));
    assert!(!is_private_or_local(&SocketAddress::v4(1, 1, 1, 1, 443)));

    let our_addr = SocketAddress::v4(8, 8, 8, 8, 8333);
    assert!(!is_valid_peer_address(&our_addr, Some(&our_addr)));

    assert!(!is_valid_peer_address(&SocketAddress::v4(8, 8, 8, 8, 0), None));
}

#[test]
fn shutdown_disconnects_every_peer() {
    let mut node = node();
    connected(&mut node, 3, 9000, 0);
    connected(&mut node, 5, 9002, 0);
    let actions = node.shutdown_peers();
    assert_eq!(actions.len(), 2);
    assert!(matches!(&actions[0], NodeAction::Disconnect(p) if *p == PeerId::new(3)));
    assert!(matches!(&actions[1], NodeAction::Disconnect(p) if *p == PeerId::new(5)));
}

#[test]
fn headers_first_sync_runs_to_completion() {
    let mut node = node();
    let peer = PeerId::new(3);
    connected(&mut node, 3, 9000, 2);
    assert_eq!(node.sync().sync_peer(), Some(peer));
    let chain = chain_to(0);

    let headers = Message::Headers(HeadersMessage { headers: vec![header(2, 1, 1), header(3, 2, 2)] });
    let actions = node.handle_peer_message(peer, headers, &chain, 2_000, 0);
    assert_eq!(actions.len(), 3);
    assert!(matches!(&actions[0], NodeAction::Send(p, Message::GetBlock(g)) if *p == peer && g.hash == [2; 32]));
    assert!(matches!(&actions[1], NodeAction::Send(p, Message::GetBlock(g)) if *p == peer && g.hash == [3; 32]));
    assert!(matches!(&actions[2], NodeAction::Send(p, Message::GetHeaders(_)) if *p == peer));

    // No more headers: block sync goes on with the blocks still expected.
    let done = node.handle_peer_message(peer, Message::Headers(HeadersMessage { headers: vec![] }), &chain, 2_100, 0);
    assert!(done.is_empty());
    assert!(node.is_syncing());

    let first = node.synced_block_added(peer, [2; 32], 1, true, 2_200);
    assert!(matches!(&first[..], [NodeAction::ProcessOrphans]));
    assert!(node.is_syncing());
    node.synced_block_added(peer, [3; 32], 2, true, 2_300);
    assert!(node.is_synced());
}

#[test]
fn invalid_headers_count_against_the_sync_peer() {
    let mut node = node();
    let peer = PeerId::new(3);
    connected(&mut node, 3, 9000, 2);
    // The first header does not connect to anything we know.
    let bad = Message::Headers(HeadersMessage { headers: vec![header(9, 8, 1)] });
    let actions = node.handle_peer_message(peer, bad, &chain_to(0), 2_000, 0);
    assert!(actions.is_empty());
    assert!(!node.is_syncing());
}

#[test]
fn loaded_peers_are_not_saved_again_but_resolved_seeds_are() {
    let mut node = node();
    let addr = SocketAddress::v4(93, 184, 216, 34, 9333);
    node.load_known_addresses(vec![PeerAddress { addr, last_seen: 1_700_000_000 }]);
    assert_eq!(node.discovery().known_count(), 1);
    assert!(node.discovery().peers_to_save().is_none());

    node.add_resolved_seeds(&vec![SocketAddress::v4(93, 184, 216, 35, 9333)], 1_700_000_000);
    let pending = node.discovery().peers_to_save().unwrap();
    assert_eq!(pending.len(), 2);
    node.mark_peers_saved();
    assert!(node.discovery().peers_to_save().is_none());
}

#[test]
fn chain_views_are_checked() {
    assert!(chain_to(2).check_wf());
    assert!(!ChainView { blocks: vec![], main_chain: vec![] }.check_wf());
    let skewed = ChainView { blocks: vec![header(1, 0, 0)], main_chain: vec![header(1, 0, 0), header(2, 1, 5)] };
    assert!(!skewed.check_wf());
    let top = ChainView { blocks: vec![header(1, 0, u64::MAX)], main_chain: vec![header(1, 0, 0)] };
    assert!(!top.check_wf());
}

#[test]
fn resolved_seeds_are_stored_as_seen_then() {
    let mut node = node();
    let a = SocketAddress::v4(8, 8, 4, 4, 9333);
    let b = SocketAddress::v4(1, 1, 1, 1, 9333);
    node.add_resolved_seeds(&vec![a, b, a], 1_700_000_000);
    let stored = node.discovery().exchange().all_addresses();
    assert_eq!(stored.len(), 2);
    assert!(stored.iter().all(|p| p.last_seen == 1_700_000_000));
    assert!(node.discovery().exchange().contains(&a) && node.discovery().exchange().contains(&b));
}
