use tunnels::accumulator::distribute_to_labor_pool;
use tunnels::core_types::{Denomination, RecipientType};
use tunnels::execute::context::ExecutionContext;
use tunnels::execute::identity::execute_create_identity;
use tunnels::execute::project::{execute_register_project, ProjectParams, MIN_VERIFICATION_WINDOW};
use tunnels::execute::revenue::{execute_claim_reserve, execute_claim_revenue, execute_deposit_revenue};
use tunnels::protocol_state::ProtocolState;
use tunnels::state_error::StateError;
use tunnels::u256::U256;

fn test_context() -> ExecutionContext {
    ExecutionContext::test_context()
}

fn test_denom() -> Denomination {
    *b"USD\0\0\0\0\0"
}

fn create_identity(state: &mut ProtocolState, ctx: &ExecutionContext, seed: u8) -> [u8; 20] {
    execute_create_identity(state, ctx, &[seed; 32], &[seed; 20]).unwrap()
}

fn create_project(state: &mut ProtocolState, ctx: &ExecutionContext, creator: &[u8; 20]) -> [u8; 20] {
    let params = ProjectParams {
        creator: *creator,
        rho: 1000,
        phi: 500,
        gamma: 1500,
        delta: 0,
        phi_recipient: *creator,
        gamma_recipient: *creator,
        gamma_recipient_type: RecipientType::Identity,
        reserve_authority: *creator,
        deposit_authority: *creator,
        adjudicator: *creator,
        predecessor: None,
        verification_window: MIN_VERIFICATION_WINDOW,
        attestation_bond: 100,
        challenge_bond: 0,
        evidence_hash: None,
    };
    execute_register_project(state, ctx, creator, &params, &[0x70; 20]).unwrap()
}

#[test]
fn test_deposit_revenue() {
    let mut state = ProtocolState::new();
    let ctx = test_context();

    let creator_addr = create_identity(&mut state, &ctx, 1);
    let project_id = create_project(&mut state, &ctx, &creator_addr);

    let amount = U256::from(10000u64);
    execute_deposit_revenue(&mut state, &ctx, &creator_addr, &project_id, amount, &test_denom()).unwrap();

    let acc = state.get_accumulator(&project_id, &test_denom()).unwrap();
    assert_eq!(acc.reserve_balance, U256::from(1000u64));
    assert_eq!(acc.unallocated, U256::from(7268u64));
    assert_eq!(state.get_claimable(&creator_addr, &test_denom()), U256::from(1732u64));
}

#[test]
fn test_deposit_revenue_zero_fails() {
    let mut state = ProtocolState::new();
    let ctx = test_context();

    let creator_addr = create_identity(&mut state, &ctx, 1);
    let project_id = create_project(&mut state, &ctx, &creator_addr);

    let result = execute_deposit_revenue(&mut state, &ctx, &creator_addr, &project_id, U256::zero(), &test_denom());

    assert!(matches!(result, Err(StateError::ZeroDeposit)));
}

#[test]
fn test_deposit_revenue_wrong_authority_fails() {
    let mut state = ProtocolState::new();
    let ctx = test_context();

    let creator_addr = create_identity(&mut state, &ctx, 1);
    let project_id = create_project(&mut state, &ctx, &creator_addr);

    let other_addr = create_identity(&mut state, &ctx, 2);

    let result = execute_deposit_revenue(
        &mut state,
        &ctx,
        &other_addr,
        &project_id,
        U256::from(1000u64),
        &test_denom(),
    );

    assert!(matches!(result, Err(StateError::NotDepositAuthority { .. })));
}

#[test]
fn test_claim_reserve() {
    let mut state = ProtocolState::new();
    let ctx = test_context();

    let creator_addr = create_identity(&mut state, &ctx, 1);
    let project_id = create_project(&mut state, &ctx, &creator_addr);

    execute_deposit_revenue(&mut state, &ctx, &creator_addr, &project_id, U256::from(10000u64), &test_denom())
        .unwrap();

    let acc = state.get_accumulator(&project_id, &test_denom()).unwrap();
    assert_eq!(acc.reserve_balance, U256::from(1000u64));

    execute_claim_reserve(
        &mut state,
        &ctx,
        &creator_addr,
        &project_id,
        &creator_addr,
        U256::from(500u64),
        &test_denom(),
    )
    .unwrap();

    let acc = state.get_accumulator(&project_id, &test_denom()).unwrap();
    assert_eq!(acc.reserve_balance, U256::from(500u64));

    assert_eq!(state.get_claimable(&creator_addr, &test_denom()), U256::from(2232u64));
}

#[test]
fn test_claim_reserve_insufficient_fails() {
    let mut state = ProtocolState::new();
    let ctx = test_context();

    let creator_addr = create_identity(&mut state, &ctx, 1);
    let project_id = create_project(&mut state, &ctx, &creator_addr);

    execute_deposit_revenue(&mut state, &ctx, &creator_addr, &project_id, U256::from(10000u64), &test_denom())
        .unwrap();

    let result = execute_claim_reserve(
        &mut state,
        &ctx,
        &creator_addr,
        &project_id,
        &creator_addr,
        U256::from(2000u64),
        &test_denom(),
    );

    assert!(matches!(result, Err(StateError::InsufficientReserve { .. })));
}

#[test]
fn test_claim_revenue_from_labor_pool() {
    let mut state = ProtocolState::new();
    let ctx = test_context();

    let creator_addr = create_identity(&mut state, &ctx, 1);
    let project_id = create_project(&mut state, &ctx, &creator_addr);

    let contributor_addr = create_identity(&mut state, &ctx, 2);

    let mut acc = state.get_or_create_accumulator(&project_id, &test_denom());
    acc.total_finalized_units = 100;
    state.set_accumulator(&project_id, &test_denom(), acc);
    let mut balance = state.get_or_create_balance(&project_id, &contributor_addr, &test_denom());
    balance.units = 100;
    state.set_balance(&project_id, &contributor_addr, &test_denom(), balance);

    distribute_to_labor_pool(&mut state, &project_id, U256::from(1000u64), &test_denom()).unwrap();

    let claimed = execute_claim_revenue(
        &mut state,
        &ctx,
        &contributor_addr,
        &project_id,
        &contributor_addr,
        &test_denom(),
    )
    .unwrap();

    assert_eq!(claimed, U256::from(1000u64));
    assert_eq!(state.get_claimable(&contributor_addr, &test_denom()), U256::from(1000u64));
}

#[test]
fn test_claim_revenue_nothing_to_claim() {
    let mut state = ProtocolState::new();
    let ctx = test_context();

    let creator_addr = create_identity(&mut state, &ctx, 1);
    let project_id = create_project(&mut state, &ctx, &creator_addr);

    let contributor_addr = create_identity(&mut state, &ctx, 2);

    let result = execute_claim_revenue(
        &mut state,
        &ctx,
        &contributor_addr,
        &project_id,
        &contributor_addr,
        &test_denom(),
    );

    assert!(matches!(result, Err(StateError::NothingToClaim { .. })));
}

#[test]
fn revenue_authority_checks() {
    let mut state = ProtocolState::new();
    let ctx = test_context();
    let creator_addr = create_identity(&mut state, &ctx, 1);
    let project_id = create_project(&mut state, &ctx, &creator_addr);
    let other = create_identity(&mut state, &ctx, 2);
    execute_deposit_revenue(&mut state, &ctx, &creator_addr, &project_id, U256::from(10000u64), &test_denom())
        .unwrap();
    assert!(matches!(
        execute_claim_reserve(&mut state, &ctx, &other, &project_id, &other, U256::from(1u64), &test_denom()),
        Err(StateError::NotReserveAuthority { .. })
    ));
    assert!(matches!(
        execute_claim_reserve(&mut state, &ctx, &creator_addr, &project_id, &creator_addr, U256::zero(), &test_denom()),
        Err(StateError::ZeroClaim)
    ));
    assert!(matches!(
        execute_deposit_revenue(&mut state, &ctx, &creator_addr, &[0x55; 20], U256::from(1u64), &test_denom()),
        Err(StateError::ProjectNotFound { .. })
    ));
    assert!(matches!(
        execute_claim_revenue(&mut state, &ctx, &other, &project_id, &creator_addr, &test_denom()),
        Err(StateError::UnauthorizedSigner { .. })
    ));
}
