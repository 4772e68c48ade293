use tunnels::p2p::blocks::BlockDownloader;
use tunnels::p2p::peer::{ConnectionDirection, PeerContext, PeerId, PeerInfo, PeerState};
use tunnels::p2p::net::SocketAddress;
use tunnels::p2p::seeds::{get_seeds, Network, DEFAULT_P2P_PORT, DEVNET_SEEDS, MAINNET_SEEDS, TESTNET_SEEDS};
use tunnels::p2p::sync_manager::SyncManager;
use tunnels::p2p::sync_state::{SyncProgress, SyncState};

#[test]
fn test_get_seeds() {
    assert_eq!(get_seeds(Network::Mainnet), MAINNET_SEEDS);
    assert_eq!(get_seeds(Network::Testnet), TESTNET_SEEDS);
    assert_eq!(get_seeds(Network::Devnet), DEVNET_SEEDS);
}

#[test]
fn test_network_display() {
    assert_eq!(Network::Mainnet.to_string(), "mainnet");
    assert_eq!(Network::Testnet.to_string(), "testnet");
    assert_eq!(Network::Devnet.to_string(), "devnet");
}

#[test]
fn test_default_port() {
    assert_eq!(DEFAULT_P2P_PORT, 9333);
}

#[test]
fn test_mainnet_seeds_format() {
    for seed in MAINNET_SEEDS {
        assert!(!seed.contains(':'), "Seed should be hostname only: {}", seed);
        assert!(
            !seed.chars().next().map(|c| c.is_ascii_digit()).unwrap_or(false),
            "Seed should be hostname, not IP: {}",
            seed
        );
    }
}

#[test]
fn network_default_is_mainnet() {
    assert_eq!(Network::default(), Network::Mainnet);
}

#[test]
fn test_peer_id_display() {
    let id = PeerId::new(42);
    assert_eq!(id.to_string(), "peer-42");
}

#[test]
fn peer_id_display_zero_and_large() {
    assert_eq!(PeerId::new(0).to_string(), "peer-0");
    assert_eq!(PeerId::new(u64::MAX).to_string(), "peer-18446744073709551615");
}

#[test]
fn test_peer_info_new() {
    let info = PeerInfo::new(
        PeerId::new(1),
        SocketAddress::v4(127, 0, 0, 1, 8333),
        ConnectionDirection::Outbound,
        0,
    );

    assert_eq!(info.id, PeerId::new(1));
    assert!(info.is_outbound());
    assert!(!info.is_inbound());
    assert!(info.protocol_version.is_none());
}

#[test]
fn test_complete_handshake() {
    let mut info = PeerInfo::new(
        PeerId::new(1),
        SocketAddress::v4(127, 0, 0, 1, 8333),
        ConnectionDirection::Inbound,
        0,
    );

    info.complete_handshake(1, "test/1.0".to_string(), 100, [1u8; 32]);

    assert_eq!(info.protocol_version, Some(1));
    assert_eq!(info.user_agent, Some("test/1.0".to_string()));
    assert_eq!(info.best_height, 100);
}

#[test]
fn peer_info_counters_and_duration() {
    let mut info = PeerInfo::new(
        PeerId::new(3),
        SocketAddress::v4(8, 8, 8, 8, 8333),
        ConnectionDirection::Outbound,
        1_000,
    );
    info.record_recv(100, 1_500);
    info.record_send(40, 1_700);
    assert_eq!(info.bytes_recv, 100);
    assert_eq!(info.messages_recv, 1);
    assert_eq!(info.last_recv, 1_500);
    assert_eq!(info.bytes_sent, 40);
    assert_eq!(info.messages_sent, 1);
    assert_eq!(info.connection_duration(3_000), 2_000);
    assert_eq!(info.connection_duration(500), 0);
    assert_eq!(ConnectionDirection::Inbound.to_string(), "inbound");
    assert_eq!(ConnectionDirection::Outbound.to_string(), "outbound");
}

#[test]
fn test_peer_state_checks() {
    assert!(!PeerState::Connecting.is_connected());
    assert!(!PeerState::VersionSent.is_connected());
    assert!(PeerState::Connected.is_connected());
    assert!(PeerState::Live.is_connected());

    assert!(!PeerState::Connected.is_syncing());
    assert!(PeerState::SyncingHeaders.is_syncing());
    assert!(PeerState::SyncingBlocks.is_syncing());

    assert!(PeerState::Live.is_live());
    assert!(!PeerState::Connected.is_live());
}

#[test]
fn peer_state_gossip_and_names() {
    assert!(PeerState::Connected.can_receive_gossip());
    assert!(!PeerState::Connecting.can_receive_gossip());
    assert!(!PeerState::Disconnecting.can_receive_gossip());
    assert!(PeerState::Disconnecting.is_disconnecting());
    assert_eq!(PeerState::SyncingHeaders.to_string(), "syncing_headers");
    assert_eq!(PeerState::VersionSent.to_string(), "version_sent");
    assert_eq!(PeerState::default(), PeerState::Connecting);
}

#[test]
fn test_peer_context() {
    let mut ctx = PeerContext::new();
    assert_eq!(ctx.state, PeerState::Connecting);
    assert_eq!(ctx.score, 0);

    ctx.record_success();
    assert_eq!(ctx.score, 1);

    ctx.record_failure();
    assert_eq!(ctx.score, -9);
}

#[test]
fn peer_context_ban_rules() {
    let mut ctx = PeerContext::new();
    for _ in 0..3 {
        ctx.record_invalid();
    }
    assert!(!ctx.should_ban());
    ctx.record_invalid();
    assert_eq!(ctx.invalid_messages, 4);
    assert!(ctx.should_ban());

    let mut low = PeerContext::new();
    for _ in 0..10 {
        low.record_failure();
    }
    assert_eq!(low.score, -100);
    assert!(!low.should_ban());
    low.record_failure();
    assert!(low.should_ban());

    let mut floor = PeerContext::new();
    floor.score = i32::MIN + 5;
    floor.record_failure();
    assert_eq!(floor.score, i32::MIN);
    let mut top = PeerContext::new();
    top.score = i32::MAX;
    top.record_success();
    assert_eq!(top.score, i32::MAX);
    top.transition_to(PeerState::Live);
    assert_eq!(top.state, PeerState::Live);
}

#[test]
fn test_pending_blocks() {
    let mut ctx = PeerContext::new();
    let hash = [1u8; 32];

    assert!(!ctx.is_block_pending(&hash));

    ctx.add_pending_block(hash);
    assert!(ctx.is_block_pending(&hash));
    assert_eq!(ctx.blocks_requested, 1);

    assert!(ctx.remove_pending_block(&hash));
    assert!(!ctx.is_block_pending(&hash));
}

#[test]
fn pending_block_removes_first_occurrence_only() {
    let mut ctx = PeerContext::new();
    ctx.add_pending_block([1u8; 32]);
    ctx.add_pending_block([2u8; 32]);
    ctx.add_pending_block([1u8; 32]);
    assert!(ctx.remove_pending_block(&[1u8; 32]));
    assert_eq!(ctx.pending_blocks, vec![[2u8; 32], [1u8; 32]]);
    assert!(!ctx.remove_pending_block(&[3u8; 32]));
    assert_eq!(ctx.blocks_requested, 3);
}

#[test]
fn test_block_downloader() {
    let mut downloader = BlockDownloader::new();

    let hashes = vec![[1u8; 32], [2u8; 32], [3u8; 32]];
    downloader.enqueue(hashes.clone());

    assert_eq!(downloader.queue_len(), 3);
    assert!(downloader.is_queued(&[1u8; 32]));

    let requests = downloader.next_requests(PeerId::new(1), 2, 0);
    assert_eq!(requests.len(), 2);
    assert_eq!(downloader.queue_len(), 1);
    assert_eq!(downloader.in_flight_len(), 2);

    assert!(downloader.received(&[1u8; 32]));
    assert_eq!(downloader.in_flight_len(), 1);

    downloader.enqueue(vec![[2u8; 32]]);
    assert_eq!(downloader.queue_len(), 1);
}

#[test]
fn test_cancel_peer() {
    let mut downloader = BlockDownloader::new();
    downloader.enqueue(vec![[1u8; 32], [2u8; 32]]);

    let _ = downloader.next_requests(PeerId::new(1), 2, 0);
    assert_eq!(downloader.in_flight_len(), 2);

    downloader.cancel_peer(&PeerId::new(1));
    assert_eq!(downloader.in_flight_len(), 0);
    assert_eq!(downloader.queue_len(), 2);
}

#[test]
fn downloader_limits_and_order() {
    let mut downloader = BlockDownloader::new();
    let hashes: Vec<[u8; 32]> = (0..20u8).map(|i| [i; 32]).collect();
    downloader.enqueue(hashes);
    downloader.enqueue(vec![[5u8; 32], [30u8; 32], [30u8; 32]]);
    assert_eq!(downloader.queue_len(), 21);

    let first = downloader.next_requests(PeerId::new(1), 100, 10);
    assert_eq!(first.len(), 16);
    assert_eq!(first[0].hash, [0u8; 32]);
    assert!(!downloader.can_request());
    assert!(downloader.next_requests(PeerId::new(2), 5, 20).is_empty());

    assert!(downloader.received(&[3u8; 32]));
    assert!(!downloader.received(&[3u8; 32]));
    let more = downloader.next_requests(PeerId::new(2), 5, 20);
    assert_eq!(more.len(), 1);
    assert_eq!(more[0].hash, [16u8; 32]);

    let timed_out = downloader.get_timeouts(1_000, 985);
    assert_eq!(timed_out.len(), 15);
    assert!(timed_out.iter().all(|r| r.peer_id == PeerId::new(1)));

    downloader.cancel_peer(&PeerId::new(1));
    assert_eq!(downloader.in_flight_len(), 1);
    assert_eq!(downloader.queue_len(), 4 + 15);
    assert!(downloader.is_queued(&[15u8; 32]));
    assert!(downloader.has_work());
    downloader.clear();
    assert!(!downloader.has_work());
}

#[test]
fn test_sync_manager() {
    let mut sync = SyncManager::new();

    assert!(!sync.is_syncing());
    assert!(!sync.is_synced());
    assert!(sync.needs_sync(0, 100));

    sync.start_sync(PeerId::new(1), 0, 100, 0);
    assert!(sync.is_syncing());
    assert_eq!(sync.sync_peer(), Some(PeerId::new(1)));
    assert!(!sync.needs_sync(0, 100));

    sync.peer_disconnected(&PeerId::new(1));
    assert!(!sync.is_syncing());
}

#[test]
fn test_sync_stall_detection() {
    let mut sync = SyncManager::with_timeout(10);

    assert!(!sync.is_stalled(0));

    sync.start_sync(PeerId::new(1), 0, 100, 0);
    assert!(!sync.is_stalled(0));

    sync.record_activity(5);
    assert!(!sync.is_stalled(5));

    assert!(sync.is_stalled(25));

    sync.record_activity(25);
    assert!(!sync.is_stalled(25));

    sync.reset();
    assert!(!sync.is_stalled(100));
    assert!(sync.time_since_activity(100).is_none());
}

#[test]
fn sync_manager_blocks_complete_sync() {
    let mut sync = SyncManager::new();
    assert_eq!(sync.timeout(), 30_000);
    sync.start_sync(PeerId::new(7), 10, 12, 0);
    sync.downloader_mut().enqueue(vec![[1u8; 32], [2u8; 32]]);
    let msgs = sync.next_block_requests(PeerId::new(7), 8, 1);
    assert_eq!(msgs.len(), 2);
    assert_eq!(msgs[0].name(), "getblock");
    assert!(sync.has_pending_blocks());
    sync.process_block(&[1u8; 32], 11, 2);
    assert!(!sync.is_synced());
    sync.process_block(&[2u8; 32], 12, 3);
    assert!(sync.is_synced());
    assert_eq!(sync.time_since_activity(10), Some(7));
    sync.peer_disconnected(&PeerId::new(9));
    assert!(sync.is_synced());
}

#[test]
fn test_sync_state() {
    let state = SyncState::Idle;
    assert!(!state.is_syncing());
    assert!(!state.is_synced());

    let state = SyncState::SyncingHeaders {
        peer_id: PeerId::new(1),
        start_height: 0,
        target_height: 100,
    };
    assert!(state.is_syncing());
    assert_eq!(state.sync_peer(), Some(PeerId::new(1)));
}

#[test]
fn test_sync_progress() {
    let state = SyncState::SyncingBlocks {
        peer_id: PeerId::new(1),
        start_height: 0,
        target_height: 100,
        current_height: 50,
    };

    let (done, total) = state.progress_fraction().unwrap();
    assert_eq!((done as f64 / total as f64) * 100.0, 50.0);
}

#[test]
fn sync_progress_edge_cases() {
    assert_eq!(SyncState::Synced.progress_fraction(), Some((1, 1)));
    assert_eq!(SyncState::Idle.progress_fraction(), None);
    let behind = SyncState::SyncingBlocks {
        peer_id: PeerId::new(1),
        start_height: 50,
        target_height: 100,
        current_height: 20,
    };
    assert_eq!(behind.progress_fraction(), Some((0, 50)));
    let empty = SyncState::SyncingBlocks {
        peer_id: PeerId::new(1),
        start_height: 100,
        target_height: 100,
        current_height: 100,
    };
    assert_eq!(empty.progress_fraction(), Some((1, 1)));
}

#[test]
fn test_sync_tracker() {
    let mut tracker = SyncProgress::new();

    tracker.start_header_sync(PeerId::new(1), 0, 100, 0);
    assert!(tracker.state.is_syncing());

    tracker.start_block_sync(PeerId::new(1), 0, 100);
    tracker.update_block_progress(50);

    if let SyncState::SyncingBlocks { current_height, .. } = tracker.state {
        assert_eq!(current_height, 50);
    } else {
        panic!("Expected SyncingBlocks state");
    }

    tracker.complete();
    assert!(tracker.state.is_synced());
}

#[test]
fn sync_tracker_in_flight_set() {
    let mut tracker = SyncProgress::new();
    tracker.request_block([1u8; 32]);
    tracker.request_block([1u8; 32]);
    tracker.request_block([2u8; 32]);
    assert_eq!(tracker.in_flight_count(), 2);
    assert!(tracker.is_block_in_flight(&[2u8; 32]));
    assert!(tracker.received_block(&[2u8; 32]));
    assert!(!tracker.received_block(&[2u8; 32]));
    assert_eq!(tracker.elapsed(10), None);
    tracker.start_header_sync(PeerId::new(1), 0, 5, 100);
    assert_eq!(tracker.elapsed(160), Some(60));
    assert_eq!(tracker.in_flight_count(), 0);
    tracker.reset();
    assert_eq!(tracker.state, SyncState::Idle);
}
