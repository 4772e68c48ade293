use tunnels::p2p::config::{
    P2pConfig, DEFAULT_MAX_INBOUND, DEFAULT_MAX_OUTBOUND, DEFAULT_TARGET_OUTBOUND,
};
use tunnels::p2p::discovery::Discovery;
use tunnels::p2p::messages::PeerAddress;
use tunnels::p2p::net::SocketAddress;
use tunnels::vec_set::VecSet;

#[test]
fn test_default_config() {
    let config = P2pConfig::default();
    assert_eq!(config.target_outbound, DEFAULT_TARGET_OUTBOUND);
    assert_eq!(config.max_outbound, DEFAULT_MAX_OUTBOUND);
    assert_eq!(config.max_inbound, DEFAULT_MAX_INBOUND);
    assert_eq!(config.max_connections(), DEFAULT_MAX_OUTBOUND + DEFAULT_MAX_INBOUND);
}

#[test]
fn test_config_builder() {
    let config = P2pConfig::new(SocketAddress::v4(127, 0, 0, 1, 9999))
        .with_target_outbound(4)
        .with_max_outbound(6)
        .with_max_inbound(4)
        .with_user_agent("test/1.0".to_string());

    assert_eq!(config.bind_addr.port(), 9999);
    assert_eq!(config.target_outbound, 4);
    assert_eq!(config.max_outbound, 6);
    assert_eq!(config.max_inbound, 4);
    assert_eq!(config.user_agent, "test/1.0");
}

#[test]
fn config_defaults_and_other_builders() {
    let config = P2pConfig::default()
        .with_connect_timeout(1)
        .with_handshake_timeout(2)
        .with_dns_seeds(vec!["seed.example".to_string()])
        .with_peers_file("data/peers.json".to_string())
        .with_bootstrap_peers(vec![SocketAddress::v4(8, 8, 8, 8, 1)]);
    assert_eq!(config.bind_addr, SocketAddress::v4(0, 0, 0, 0, 8333));
    assert_eq!((config.connect_timeout, config.handshake_timeout), (1, 2));
    assert_eq!(config.ping_interval, 60_000);
    assert_eq!(config.ping_timeout, 120_000);
    assert_eq!(config.dns_seeds, vec!["seed.example".to_string()]);
    assert_eq!(config.peers_file, "data/peers.json");
    assert_eq!(P2pConfig::default().user_agent, "tunnels-p2p/0.1.0");
    assert_eq!(P2pConfig::default().peers_file, "peers.json");
}

#[test]
fn test_discovery_creation() {
    let mut config = P2pConfig::default();
    config.peers_file = "target/peers.json".to_string();

    let discovery = Discovery::new(&config);
    assert_eq!(discovery.known_count(), 0);
    assert_eq!(discovery.peers_file(), "target/peers.json");
}

#[test]
fn test_get_addresses_bootstrap() {
    let mut config = P2pConfig::default();
    config.bootstrap_peers = vec![SocketAddress::v4(127, 0, 0, 1, 8333)];

    let discovery = Discovery::new(&config);
    let connected = VecSet::new();

    let addrs = discovery.get_addresses_to_connect(&connected, 10);
    assert_eq!(addrs.len(), 1);
    assert_eq!(addrs[0], config.bootstrap_peers[0]);
}

#[test]
fn discovery_orders_bootstrap_then_known_and_tracks_saving() {
    let now = 1_700_000_000;
    let mut config = P2pConfig::default();
    config.bootstrap_peers =
        vec![SocketAddress::v4(9, 9, 9, 1, 1), SocketAddress::v4(9, 9, 9, 2, 1), SocketAddress::v4(9, 9, 9, 3, 1)];
    let mut discovery = Discovery::new(&config);
    assert!(discovery.peers_to_save().is_none());
    discovery.add_addresses(vec![
        PeerAddress { addr: SocketAddress::v4(8, 8, 8, 1, 1), last_seen: now - 5 },
        PeerAddress { addr: SocketAddress::v4(8, 8, 8, 2, 1), last_seen: now - 1 },
    ]);
    discovery.add_resolved_seeds(&vec![SocketAddress::v4(8, 8, 8, 3, 1)], now - 100);
    assert_eq!(discovery.known_count(), 3);
    assert_eq!(discovery.peers_to_save().unwrap().len(), 3);
    discovery.mark_saved();
    assert!(discovery.peers_to_save().is_none());

    let mut connected = VecSet::new();
    connected.insert(SocketAddress::v4(9, 9, 9, 2, 1));
    let addrs = discovery.get_addresses_to_connect_at(&connected, 4, now);
    assert_eq!(
        addrs,
        vec![
            SocketAddress::v4(9, 9, 9, 1, 1),
            SocketAddress::v4(9, 9, 9, 3, 1),
            SocketAddress::v4(8, 8, 8, 2, 1),
            SocketAddress::v4(8, 8, 8, 1, 1),
        ]
    );
    assert_eq!(discovery.get_addresses_to_connect_at(&connected, 1, now).len(), 1);
    discovery.mark_seen(SocketAddress::v4(8, 8, 8, 9, 1));
    assert!(discovery.exchange().contains(&SocketAddress::v4(8, 8, 8, 9, 1)));
    assert!(discovery.peers_to_save().is_some());
}
