use tunnels::p2p::dispatch::{block_request_response, route_peer_message, PeerMessageAction};
use tunnels::p2p::error::P2pError;
use tunnels::p2p::framing::{MessageCodec, MAX_MESSAGE_SIZE, NETWORK_MAGIC};
use tunnels::p2p::headers::{
    build_block_locator, create_get_headers, respond_to_get_headers, validate_block,
    validate_headers, ChainView,
};
use tunnels::p2p::messages::{Block, BlockHeader, GetHeadersMessage, HeadersMessage, Message, PeersMessage};
use tunnels::p2p::peer::PeerId;
use tunnels::p2p::version::{
    create_version_message, hex_encode, validate_version, HandshakeResult, HandshakeState,
    PROTOCOL_VERSION,
};

fn test_genesis_hash() -> [u8; 32] {
    [0u8; 32]
}

fn test_version() -> tunnels::p2p::messages::VersionMessage {
    create_version_message(test_genesis_hash(), 100, [1u8; 32], "test/1.0", None)
}

#[test]
fn test_validate_version_success() {
    let msg = test_version();
    assert!(validate_version(&msg, test_genesis_hash()).is_ok());
}

#[test]
fn test_validate_version_genesis_mismatch() {
    let msg = test_version();
    let different_genesis = [1u8; 32];
    let result = validate_version(&msg, different_genesis);
    assert!(matches!(result, Err(P2pError::GenesisMismatch { .. })));
}

#[test]
fn validate_version_reports_hashes_and_versions() {
    let mut msg = test_version();
    match validate_version(&msg, [0xabu8; 32]) {
        Err(P2pError::GenesisMismatch { expected, actual }) => {
            assert_eq!(expected, "ab".repeat(32));
            assert_eq!(actual, "00".repeat(32));
        }
        other => panic!("unexpected {:?}", other),
    }
    msg.protocol_version = 7;
    assert_eq!(
        validate_version(&msg, test_genesis_hash()),
        Err(P2pError::IncompatibleVersion { peer_version: 7, our_version: PROTOCOL_VERSION })
    );
    assert_eq!(hex_encode(&[0x0fu8; 32]), "0f".repeat(32));
}

#[test]
fn test_handshake_outbound() {
    let mut state = HandshakeState::new();

    state.sent_version().unwrap();
    assert!(matches!(state, HandshakeState::VersionSent));

    state.received_version(test_version(), test_genesis_hash()).unwrap();
    assert!(matches!(state, HandshakeState::AwaitingAck(_)));

    state.sent_version_ack().unwrap();

    state.received_version_ack().unwrap();
    assert!(state.is_complete());
}

#[test]
fn test_handshake_inbound() {
    let mut state = HandshakeState::new();

    state.received_version(test_version(), test_genesis_hash()).unwrap();
    assert!(matches!(state, HandshakeState::VersionReceived(_)));

    state.sent_version().unwrap();
    assert!(matches!(state, HandshakeState::AwaitingAck(_)));

    state.sent_version_ack().unwrap();

    state.received_version_ack().unwrap();
    assert!(state.is_complete());
}

#[test]
fn handshake_rejects_out_of_order_events() {
    let mut state = HandshakeState::new();
    assert!(matches!(state.received_version_ack(), Err(P2pError::HandshakeFailed(_))));
    assert!(matches!(state.sent_version_ack(), Err(P2pError::HandshakeFailed(_))));
    state.sent_version().unwrap();
    assert!(matches!(state.sent_version(), Err(P2pError::HandshakeFailed(_))));
    assert!(matches!(
        state.received_version(test_version(), [9u8; 32]),
        Err(P2pError::GenesisMismatch { .. })
    ));
    assert!(matches!(state, HandshakeState::VersionSent));
    assert!(state.result().is_none());
    state.received_version(test_version(), test_genesis_hash()).unwrap();
    assert!(matches!(
        state.next_message(test_genesis_hash(), 1, [0u8; 32], "a", None),
        Some(Message::VersionAck)
    ));
    state.received_version_ack().unwrap();
    let result = state.result().unwrap().clone();
    assert_eq!(result, HandshakeResult::from(test_version()));
    assert_eq!(result.best_height, 100);
    assert!(state.next_message(test_genesis_hash(), 1, [0u8; 32], "a", None).is_none());
}

#[test]
fn handshake_first_message_is_version() {
    let state = HandshakeState::new();
    match state.next_message_at([2u8; 32], 5, [3u8; 32], "agent/2", None, 77) {
        Some(Message::Version(v)) => {
            assert_eq!(v.protocol_version, PROTOCOL_VERSION);
            assert_eq!(v.best_height, 5);
            assert_eq!(v.user_agent, "agent/2");
            assert_eq!(v.timestamp, 77);
        }
        other => panic!("unexpected {:?}", other),
    }
}

#[test]
fn test_message_names() {
    assert_eq!(Message::VersionAck.name(), "verack");
    assert_eq!(Message::GetPeers.name(), "getpeers");
    assert_eq!(Message::Ping(42).name(), "ping");
}

fn frame(payload: &[u8]) -> Vec<u8> {
    let mut out = MessageCodec::encode_header(payload.len()).unwrap().to_vec();
    out.extend_from_slice(payload);
    out
}

#[test]
fn test_partial_header() {
    let mut codec = MessageCodec::new();
    let buf = NETWORK_MAGIC.to_vec();
    let result = codec.decode_frame(&buf).unwrap();
    assert!(result.is_none());
}

#[test]
fn test_partial_message() {
    let mut codec = MessageCodec::new();
    let mut buf = NETWORK_MAGIC.to_vec();
    buf.extend_from_slice(&100u32.to_be_bytes());
    buf.extend_from_slice(&[0u8; 50]);

    let result = codec.decode_frame(&buf).unwrap();
    assert!(result.is_none());
}

#[test]
fn test_invalid_magic() {
    let mut codec = MessageCodec::new();
    let mut buf = vec![0xFF, 0xFF, 0xFF, 0xFF];
    buf.extend_from_slice(&10u32.to_be_bytes());
    buf.extend_from_slice(&[0u8; 10]);

    let result = codec.decode_frame(&buf);
    assert!(matches!(result, Err(P2pError::InvalidMagic { .. })));
}

#[test]
fn test_message_too_large() {
    let mut codec = MessageCodec::new();
    let mut buf = NETWORK_MAGIC.to_vec();
    buf.extend_from_slice(&((MAX_MESSAGE_SIZE + 1) as u32).to_be_bytes());

    let result = codec.decode_frame(&buf);
    assert!(matches!(result, Err(P2pError::MessageTooLarge { .. })));
}

#[test]
fn framed_payloads_decode_in_sequence() {
    let mut codec = MessageCodec::new();
    let mut buf = frame(&[1, 2, 3]);
    buf.extend_from_slice(&frame(&[9; 300]));
    assert_eq!(codec.decode_frame(&buf), Ok(Some(3)));
    assert_eq!(&buf[8..11], &[1, 2, 3]);
    let rest = buf[11..].to_vec();
    assert_eq!(codec.decode_frame(&rest[..100]), Ok(None));
    assert_eq!(codec.decode_frame(&rest), Ok(Some(300)));
    assert_eq!(rest.len(), 308);
    assert_eq!(
        MessageCodec::encode_header(MAX_MESSAGE_SIZE + 1),
        Err(P2pError::MessageTooLarge { size: MAX_MESSAGE_SIZE + 1, max: MAX_MESSAGE_SIZE })
    );
    assert_eq!(
        MessageCodec::encode_header(258).unwrap(),
        [0x54, 0x55, 0x4E, 0x4C, 0, 0, 1, 2]
    );
}

fn header(hash: u8, prev: u8, height: u64) -> BlockHeader {
    BlockHeader { hash: [hash; 32], prev_block_hash: [prev; 32], height, meets_difficulty: true }
}

fn genesis_chain() -> ChainView {
    let genesis = header(0xee, 0, 0);
    ChainView { blocks: vec![genesis], main_chain: vec![genesis] }
}

fn long_chain(tip: u64) -> ChainView {
    let headers: Vec<BlockHeader> =
        (0..=tip).map(|h| header(h as u8, h.saturating_sub(1) as u8, h)).collect();
    ChainView { blocks: headers.clone(), main_chain: headers }
}

#[test]
fn test_build_block_locator_genesis_only() {
    let chain = genesis_chain();
    let locator = build_block_locator(&chain);

    assert_eq!(locator.len(), 1);
    assert_eq!(locator[0], chain.genesis_hash());
}

#[test]
fn test_create_get_headers() {
    let chain = genesis_chain();
    let msg = create_get_headers(&chain, [0u8; 32]);

    assert!(!msg.locator_hashes.is_empty());
    assert_eq!(msg.stop_hash, [0u8; 32]);
}

#[test]
fn test_respond_to_get_headers_empty() {
    let chain = genesis_chain();
    let request = GetHeadersMessage { locator_hashes: vec![chain.genesis_hash()], stop_hash: [0u8; 32] };

    let response = respond_to_get_headers(&chain, &request);

    assert!(response.headers.is_empty());
}

#[test]
fn test_validate_headers_empty() {
    let chain = genesis_chain();
    let result = validate_headers(&chain, &[]);
    assert!(result.is_ok());
    assert!(result.unwrap().is_empty());
}

#[test]
fn block_locator_steps_double_after_ten() {
    let chain = long_chain(100);
    let locator = build_block_locator(&chain);
    let heights: Vec<u8> = locator.iter().map(|h| h[0]).collect();
    assert_eq!(
        heights,
        vec![100, 99, 98, 97, 96, 95, 94, 93, 92, 91, 89, 85, 77, 61, 29, 0]
    );
}

#[test]
fn headers_served_after_fork_point_until_stop() {
    let chain = long_chain(20);
    let request = GetHeadersMessage { locator_hashes: vec![[99u8; 32], [5u8; 32]], stop_hash: [8u8; 32] };
    let response = respond_to_get_headers(&chain, &request);
    let heights: Vec<u64> = response.headers.iter().map(|h| h.height).collect();
    assert_eq!(heights, vec![6, 7, 8]);
    let unknown = GetHeadersMessage { locator_hashes: vec![[99u8; 32]], stop_hash: [200u8; 32] };
    assert_eq!(respond_to_get_headers(&chain, &unknown).headers.len(), 21);
}

#[test]
fn headers_validation_errors() {
    let chain = long_chain(3);
    let good = vec![header(10, 3, 4), header(11, 10, 5)];
    assert_eq!(validate_headers(&chain, &good), Ok(vec![[10u8; 32], [11u8; 32]]));
    assert_eq!(
        validate_headers(&chain, &[header(10, 3, 7)]),
        Err(P2pError::SyncError("Header has wrong height: expected 4, got 7".to_string()))
    );
    assert_eq!(
        validate_headers(&chain, &[header(10, 3, 4), header(11, 12, 5)]),
        Err(P2pError::SyncError("Header at height 5 doesn't connect to previous".to_string()))
    );
    let mut weak = header(10, 3, 4);
    weak.meets_difficulty = false;
    assert_eq!(
        validate_headers(&chain, &[weak]),
        Err(P2pError::SyncError("Header at height 4 doesn't meet difficulty".to_string()))
    );
    assert_eq!(
        validate_headers(&chain, &[header(10, 77, 4)]),
        Err(P2pError::SyncError(
            "Headers don't connect to known chain: [77, 77, 77, 77, 77, 77, 77, 77]".to_string()
        ))
    );
}

#[test]
fn block_validation_outcomes() {
    let chain = long_chain(3);
    let known = Block { header: header(2, 1, 2), tx_root_valid: false };
    assert_eq!(validate_block(&chain, &known), Ok(()));
    let orphan = Block { header: header(50, 40, 9), tx_root_valid: true };
    assert_eq!(
        validate_block(&chain, &orphan),
        Err(P2pError::SyncError("Block 9 has unknown parent [40, 40, 40, 40, 40, 40, 40, 40]".to_string()))
    );
    let bad_root = Block { header: header(50, 3, 4), tx_root_valid: false };
    assert_eq!(
        validate_block(&chain, &bad_root),
        Err(P2pError::BlockValidationFailed("Block 4 has invalid transaction root".to_string()))
    );
    let mut weak = header(50, 3, 4);
    weak.meets_difficulty = false;
    assert_eq!(
        validate_block(&chain, &Block { header: weak, tx_root_valid: true }),
        Err(P2pError::BlockValidationFailed("Block 4 doesn't meet difficulty".to_string()))
    );
    assert_eq!(validate_block(&chain, &Block { header: header(50, 3, 4), tx_root_valid: true }), Ok(()));
}

#[test]
fn routing_of_peer_messages() {
    let me = PeerId::new(1);
    let headers = Message::Headers(HeadersMessage { headers: vec![] });
    assert!(matches!(route_peer_message(me, Some(me), headers.clone()), PeerMessageAction::ProcessHeaders(_)));
    assert!(matches!(route_peer_message(me, Some(PeerId::new(2)), headers), PeerMessageAction::Ignore));
    assert!(matches!(route_peer_message(me, None, Message::Ping(1)), PeerMessageAction::Ignore));
    assert!(matches!(route_peer_message(me, None, Message::GetPeers), PeerMessageAction::SendPeers));
    assert!(matches!(
        route_peer_message(me, None, Message::Peers(PeersMessage { peers: vec![] })),
        PeerMessageAction::AddPeers(_)
    ));
    match block_request_response([4u8; 32], None) {
        Message::NotFound(n) => {
            assert_eq!(n.item_type, "block");
            assert_eq!(n.hash, [4u8; 32]);
        }
        other => panic!("unexpected {:?}", other),
    }
    let block = Block { header: header(4, 3, 4), tx_root_valid: true };
    assert!(matches!(block_request_response([4u8; 32], Some(block)), Message::BlockData(_)));
}

#[test]
fn test_message_display() {
    let msg = Message::Ping(12345);
    assert_eq!(msg.to_string(), "Ping(12345)");

    let msg = Message::VersionAck;
    assert_eq!(msg.to_string(), "VersionAck");
}

#[test]
fn message_display_shows_counts_heights_and_hash_prefixes() {
    let get = Message::GetHeaders(GetHeadersMessage { locator_hashes: vec![[1; 32], [2; 32]], stop_hash: [7; 32] });
    assert_eq!(get.to_string(), "GetHeaders(locators=2, stop=[7, 7, 7, 7, 7, 7, 7, 7])");
    let headers = Message::Headers(HeadersMessage { headers: vec![header(1, 0, 0)] });
    assert_eq!(headers.to_string(), "Headers(count=1)");
    let data = Message::BlockData(tunnels::p2p::messages::BlockDataMessage {
        block: Block { header: header(3, 2, 17), tx_root_valid: true },
    });
    assert_eq!(data.to_string(), "BlockData(height=17)");
    let missing = Message::NotFound(tunnels::p2p::messages::NotFoundMessage {
        item_type: "block".to_string(),
        hash: [0xab; 32],
    });
    assert_eq!(missing.to_string(), "NotFound(type=block, hash=[171, 171, 171, 171, 171, 171, 171, 171])");
    assert_eq!(Message::Peers(PeersMessage { peers: vec![] }).to_string(), "Peers(count=0)");
    assert_eq!(Message::Pong(0).to_string(), "Pong(0)");
    assert_eq!(Message::GetPeers.to_string(), "GetPeers");
    let mut version = test_version();
    version.best_height = 5;
    version.user_agent = "/tunnels:0.1.0/".to_string();
    assert_eq!(
        Message::Version(version).to_string(),
        format!("Version(version={}, height=5, agent=/tunnels:0.1.0/)", PROTOCOL_VERSION)
    );
}

/// Frames `payload`, decodes the frame and returns the payload it carries.
fn frame_roundtrip(payload: &[u8]) -> Vec<u8> {
    let mut codec = MessageCodec::new();
    let buf = frame(payload);
    let n = codec.decode_frame(&buf).unwrap().unwrap();
    assert_eq!(buf.len(), 8 + n);
    buf[8..8 + n].to_vec()
}

#[test]
fn test_roundtrip_ping() {
    // Message serialization lives in the core crate; a ping's nonce 42
    // stands in for its serialized bytes.
    let payload = 42u64.to_le_bytes().to_vec();
    assert_eq!(frame_roundtrip(&payload), payload);
}

#[test]
fn test_roundtrip_version_ack() {
    // A one-byte payload stands in for the serialized acknowledgement.
    let payload = vec![1u8];
    assert_eq!(frame_roundtrip(&payload), payload);
}

#[test]
fn roundtrip_empty_payload() {
    assert_eq!(frame_roundtrip(&[]), Vec::<u8>::new());
}
