use tunnels::core_types::IdentityType;
use tunnels::execute::context::{ExecutionContext, DEFAULT_MIN_VERIFICATION_WINDOW, DEVNET_MIN_VERIFICATION_WINDOW};
use tunnels::execute::identity::{
    execute_create_agent, execute_create_identity, execute_deactivate_agent,
    execute_update_profile_hash,
};
use tunnels::protocol_state::ProtocolState;
use tunnels::state_error::StateError;

fn test_context() -> ExecutionContext {
    ExecutionContext::test_context()
}

/// A key pair stand-in: the public key and the address derived from it.
fn keys(seed: u8) -> ([u8; 32], [u8; 20]) {
    ([seed; 32], [seed; 20])
}

#[test]
fn test_execution_context_new() {
    let ctx = ExecutionContext::new(1700000000, 100, 16);
    assert_eq!(ctx.timestamp, 1700000000);
    assert_eq!(ctx.block_height, 100);
    assert_eq!(ctx.tx_difficulty, 16);
}

#[test]
fn test_execution_context_clone() {
    let ctx = ExecutionContext::new(1700000000, 100, 16);
    let cloned = ctx.clone();
    assert_eq!(ctx.timestamp, cloned.timestamp);
    assert_eq!(ctx.block_height, cloned.block_height);
    assert_eq!(ctx.tx_difficulty, cloned.tx_difficulty);
}

#[test]
fn execution_context_variants() {
    let ctx = ExecutionContext::with_timestamp(42);
    assert_eq!((ctx.timestamp, ctx.block_height, ctx.tx_difficulty), (42, 0, 1));
    assert_eq!(ctx.min_verification_window, DEFAULT_MIN_VERIFICATION_WINDOW);
    let dev = ExecutionContext::devnet(1, 2, 3);
    assert_eq!(dev.min_verification_window, DEVNET_MIN_VERIFICATION_WINDOW);
    assert_eq!(test_context().timestamp, 1_700_000_000);
    assert_eq!(test_context().block_height, 1);
}

#[test]
fn test_create_identity() {
    let mut state = ProtocolState::new();
    let ctx = test_context();
    let (pk, addr) = keys(1);

    let address = execute_create_identity(&mut state, &ctx, &pk, &addr).unwrap();

    let identity = state.get_identity(&address).unwrap();
    assert_eq!(identity.identity_type, IdentityType::Human);
    assert!(identity.active);
    assert!(identity.parent.is_none());
}

#[test]
fn test_create_identity_duplicate_fails() {
    let mut state = ProtocolState::new();
    let ctx = test_context();
    let (pk, addr) = keys(1);

    execute_create_identity(&mut state, &ctx, &pk, &addr).unwrap();
    let result = execute_create_identity(&mut state, &ctx, &pk, &addr);

    assert!(matches!(result, Err(StateError::IdentityAlreadyExists { .. })));
}

#[test]
fn test_create_agent() {
    let mut state = ProtocolState::new();
    let ctx = test_context();

    let (parent_pk, parent_addr) = keys(1);
    let parent_address = execute_create_identity(&mut state, &ctx, &parent_pk, &parent_addr).unwrap();

    let (agent_pk, agent_addr) = keys(2);
    let agent_address =
        execute_create_agent(&mut state, &ctx, &parent_address, &parent_address, &agent_pk, &agent_addr)
            .unwrap();

    let agent = state.get_identity(&agent_address).unwrap();
    assert_eq!(agent.identity_type, IdentityType::Agent);
    assert_eq!(agent.parent, Some(parent_address));
    assert!(agent.active);
}

#[test]
fn test_create_agent_parent_not_human_fails() {
    let mut state = ProtocolState::new();
    let ctx = test_context();

    let (parent_pk, parent_addr) = keys(1);
    let parent_address = execute_create_identity(&mut state, &ctx, &parent_pk, &parent_addr).unwrap();

    let (agent1_pk, agent1_addr) = keys(2);
    let agent1_address =
        execute_create_agent(&mut state, &ctx, &parent_address, &parent_address, &agent1_pk, &agent1_addr)
            .unwrap();

    let (agent2_pk, agent2_addr) = keys(3);
    let result =
        execute_create_agent(&mut state, &ctx, &agent1_address, &agent1_address, &agent2_pk, &agent2_addr);

    assert!(matches!(result, Err(StateError::NotHumanIdentity { .. })));
}

#[test]
fn test_create_agent_wrong_signer_fails() {
    let mut state = ProtocolState::new();
    let ctx = test_context();

    let (parent_pk, parent_addr) = keys(1);
    let parent_address = execute_create_identity(&mut state, &ctx, &parent_pk, &parent_addr).unwrap();

    let (other_pk, other_addr) = keys(2);
    let other_address = execute_create_identity(&mut state, &ctx, &other_pk, &other_addr).unwrap();

    let (agent_pk, agent_addr) = keys(3);
    let result =
        execute_create_agent(&mut state, &ctx, &other_address, &parent_address, &agent_pk, &agent_addr);

    assert!(matches!(result, Err(StateError::UnauthorizedSigner { .. })));
}

#[test]
fn test_update_profile_hash() {
    let mut state = ProtocolState::new();
    let ctx = test_context();
    let (pk, addr) = keys(1);
    let address = execute_create_identity(&mut state, &ctx, &pk, &addr).unwrap();

    let hash = [0xAB; 32];
    execute_update_profile_hash(&mut state, &ctx, &address, &address, &hash).unwrap();

    let identity = state.get_identity(&address).unwrap();
    assert_eq!(identity.profile_hash, Some(hash));
}

#[test]
fn test_deactivate_agent() {
    let mut state = ProtocolState::new();
    let ctx = test_context();

    let (parent_pk, parent_addr) = keys(1);
    let parent_address = execute_create_identity(&mut state, &ctx, &parent_pk, &parent_addr).unwrap();
    let (agent_pk, agent_addr) = keys(2);
    let agent_address =
        execute_create_agent(&mut state, &ctx, &parent_address, &parent_address, &agent_pk, &agent_addr)
            .unwrap();

    assert!(state.get_identity(&agent_address).unwrap().active);

    execute_deactivate_agent(&mut state, &ctx, &parent_address, &agent_address).unwrap();

    assert!(!state.get_identity(&agent_address).unwrap().active);
}

#[test]
fn test_deactivate_human_fails() {
    let mut state = ProtocolState::new();
    let ctx = test_context();
    let (pk, addr) = keys(1);
    let address = execute_create_identity(&mut state, &ctx, &pk, &addr).unwrap();

    let result = execute_deactivate_agent(&mut state, &ctx, &address, &address);

    assert!(matches!(result, Err(StateError::NotAgentIdentity { .. })));
}

#[test]
fn identity_error_cases() {
    let mut state = ProtocolState::new();
    let ctx = test_context();
    let (pk, addr) = keys(1);
    let human = execute_create_identity(&mut state, &ctx, &pk, &addr).unwrap();
    assert_eq!(
        execute_update_profile_hash(&mut state, &ctx, &[9; 20], &[9; 20], &[0; 32]),
        Err(StateError::IdentityNotFound { address: [9; 20] })
    );
    assert!(matches!(
        execute_create_agent(&mut state, &ctx, &[7; 20], &[7; 20], &[8; 32], &[8; 20]),
        Err(StateError::ParentNotFound { .. })
    ));
    let (agent_pk, agent_addr) = keys(2);
    let agent = execute_create_agent(&mut state, &ctx, &human, &human, &agent_pk, &agent_addr).unwrap();
    execute_deactivate_agent(&mut state, &ctx, &human, &agent).unwrap();
    assert!(matches!(
        execute_update_profile_hash(&mut state, &ctx, &agent, &agent, &[1; 32]),
        Err(StateError::IdentityDeactivated { .. })
    ));
}
