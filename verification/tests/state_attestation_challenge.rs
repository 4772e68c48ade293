use tunnels::core_types::{
    AttestationStatus, ChallengeRuling, ChallengeStatus, Denomination, RecipientType,
};
use tunnels::execute::attestation::{
    execute_finalize_attestation, execute_submit_attestation, AttestationParams,
};
use tunnels::execute::challenge::{
    execute_challenge_attestation, execute_resolve_challenge, execute_respond_to_challenge,
};
use tunnels::execute::context::ExecutionContext;
use tunnels::execute::identity::execute_create_identity;
use tunnels::execute::project::{execute_register_project, ProjectParams, MIN_VERIFICATION_WINDOW};
use tunnels::protocol_state::ProtocolState;
use tunnels::state_error::StateError;
use tunnels::u256::U256;

fn test_context() -> ExecutionContext {
    ExecutionContext::test_context()
}

fn test_denom() -> Denomination {
    *b"USD\0\0\0\0\0"
}

/// Registers an identity whose key and address are derived from `seed`.
fn create_identity(state: &mut ProtocolState, ctx: &ExecutionContext, seed: u8) -> [u8; 20] {
    execute_create_identity(state, ctx, &[seed; 32], &[seed; 20]).unwrap()
}

fn project_params(creator: [u8; 20], challenge_bond: u64) -> ProjectParams {
    ProjectParams {
        creator,
        rho: 1000,
        phi: 500,
        gamma: 1500,
        delta: 0,
        phi_recipient: creator,
        gamma_recipient: creator,
        gamma_recipient_type: RecipientType::Identity,
        reserve_authority: creator,
        deposit_authority: creator,
        adjudicator: creator,
        predecessor: None,
        verification_window: MIN_VERIFICATION_WINDOW,
        attestation_bond: 100,
        challenge_bond,
        evidence_hash: None,
    }
}

fn create_project(state: &mut ProtocolState, ctx: &ExecutionContext, creator: &[u8; 20]) -> [u8; 20] {
    execute_register_project(state, ctx, creator, &project_params(*creator, 50), &[0x70; 20]).unwrap()
}

fn create_project_with_challenge_bond(
    state: &mut ProtocolState,
    ctx: &ExecutionContext,
    creator: &[u8; 20],
    challenge_bond: u64,
) -> [u8; 20] {
    execute_register_project(state, ctx, creator, &project_params(*creator, challenge_bond), &[0x70; 20])
        .unwrap()
}

fn attestation_params(project_id: [u8; 20], units: u64, bond_poster: [u8; 20], bond_amount: U256) -> AttestationParams {
    AttestationParams {
        project_id,
        units,
        evidence_hash: [0xAB; 32],
        bond_poster,
        bond_amount,
        bond_denomination: test_denom(),
    }
}

fn submit_attestation(
    state: &mut ProtocolState,
    ctx: &ExecutionContext,
    project_id: &[u8; 20],
    contributor: &[u8; 20],
    units: u64,
) -> [u8; 20] {
    let params = attestation_params(*project_id, units, *contributor, U256::from(1000u64));
    execute_submit_attestation(state, ctx, contributor, &params, &[0x80; 20]).unwrap()
}

#[test]
fn test_submit_attestation() {
    let mut state = ProtocolState::new();
    let ctx = test_context();

    let creator_addr = create_identity(&mut state, &ctx, 1);
    let project_id = create_project(&mut state, &ctx, &creator_addr);

    let contributor_addr = create_identity(&mut state, &ctx, 2);
    let params = attestation_params(project_id, 100, contributor_addr, U256::from(1000u64));

    let attestation_id =
        execute_submit_attestation(&mut state, &ctx, &contributor_addr, &params, &[0x80; 20]).unwrap();

    let attestation = state.get_attestation(&attestation_id).unwrap();
    assert_eq!(attestation.status, AttestationStatus::Pending);
    assert_eq!(attestation.units, 100);
    assert_eq!(attestation.contributor, contributor_addr);

    assert_eq!(state.get_locked_bond(&attestation_id), Some(U256::from(1000u64)));
}

#[test]
fn test_submit_attestation_zero_units_fails() {
    let mut state = ProtocolState::new();
    let ctx = test_context();

    let creator_addr = create_identity(&mut state, &ctx, 1);
    let project_id = create_project(&mut state, &ctx, &creator_addr);

    let contributor_addr = create_identity(&mut state, &ctx, 2);
    let params = attestation_params(project_id, 0, contributor_addr, U256::from(1000u64));

    let result = execute_submit_attestation(&mut state, &ctx, &contributor_addr, &params, &[0x80; 20]);

    assert!(matches!(result, Err(StateError::ZeroUnits)));
}

#[test]
fn test_submit_attestation_bond_below_minimum_fails() {
    let mut state = ProtocolState::new();
    let ctx = test_context();

    let creator_addr = create_identity(&mut state, &ctx, 1);
    let project_id = create_project(&mut state, &ctx, &creator_addr);

    let contributor_addr = create_identity(&mut state, &ctx, 2);
    let params = attestation_params(project_id, 100, contributor_addr, U256::from(50u64));

    let result = execute_submit_attestation(&mut state, &ctx, &contributor_addr, &params, &[0x80; 20]);

    assert!(matches!(result, Err(StateError::BondBelowMinimum { .. })));
}

#[test]
fn submit_attestation_error_cases() {
    let mut state = ProtocolState::new();
    let ctx = test_context();
    let creator_addr = create_identity(&mut state, &ctx, 1);
    let project_id = create_project(&mut state, &ctx, &creator_addr);
    let contributor_addr = create_identity(&mut state, &ctx, 2);

    let unknown_project = attestation_params([0x55; 20], 1, contributor_addr, U256::from(1000u64));
    assert!(matches!(
        execute_submit_attestation(&mut state, &ctx, &contributor_addr, &unknown_project, &[0x80; 20]),
        Err(StateError::ProjectNotFound { .. })
    ));
    let stranger = attestation_params(project_id, 1, contributor_addr, U256::from(1000u64));
    assert!(matches!(
        execute_submit_attestation(&mut state, &ctx, &[0x66; 20], &stranger, &[0x80; 20]),
        Err(StateError::IdentityNotFound { .. })
    ));
    let ok = submit_attestation(&mut state, &ctx, &project_id, &contributor_addr, 5);
    let again = attestation_params(project_id, 1, contributor_addr, U256::from(1000u64));
    assert_eq!(
        execute_submit_attestation(&mut state, &ctx, &contributor_addr, &again, &ok),
        Err(StateError::AttestationAlreadyExists { attestation_id: ok })
    );
}

#[test]
fn test_finalize_attestation() {
    let mut state = ProtocolState::new();
    let ctx = test_context();

    let creator_addr = create_identity(&mut state, &ctx, 1);
    let project_id = create_project(&mut state, &ctx, &creator_addr);

    let contributor_addr = create_identity(&mut state, &ctx, 2);
    let attestation_id = submit_attestation(&mut state, &ctx, &project_id, &contributor_addr, 100);

    let finalize_ctx = ExecutionContext::with_timestamp(ctx.timestamp + MIN_VERIFICATION_WINDOW + 1);

    let units = execute_finalize_attestation(&mut state, &finalize_ctx, &attestation_id).unwrap();
    assert_eq!(units, 100);

    let attestation = state.get_attestation(&attestation_id).unwrap();
    assert_eq!(attestation.status, AttestationStatus::Finalized);

    assert!(state.get_locked_bond(&attestation_id).is_none());
    assert_eq!(state.get_claimable(&contributor_addr, &test_denom()), U256::from(1000u64));
}

#[test]
fn test_finalize_attestation_window_not_expired_fails() {
    let mut state = ProtocolState::new();
    let ctx = test_context();

    let creator_addr = create_identity(&mut state, &ctx, 1);
    let project_id = create_project(&mut state, &ctx, &creator_addr);

    let contributor_addr = create_identity(&mut state, &ctx, 2);
    let attestation_id = submit_attestation(&mut state, &ctx, &project_id, &contributor_addr, 100);

    let result = execute_finalize_attestation(&mut state, &ctx, &attestation_id);

    assert!(matches!(result, Err(StateError::VerificationWindowNotExpired { .. })));
}

#[test]
fn finalize_twice_is_refused() {
    let mut state = ProtocolState::new();
    let ctx = test_context();
    let creator_addr = create_identity(&mut state, &ctx, 1);
    let project_id = create_project(&mut state, &ctx, &creator_addr);
    let contributor_addr = create_identity(&mut state, &ctx, 2);
    let attestation_id = submit_attestation(&mut state, &ctx, &project_id, &contributor_addr, 100);
    let later = ExecutionContext::with_timestamp(ctx.timestamp + MIN_VERIFICATION_WINDOW + 1);
    execute_finalize_attestation(&mut state, &later, &attestation_id).unwrap();
    assert!(matches!(
        execute_finalize_attestation(&mut state, &later, &attestation_id),
        Err(StateError::AttestationNotPending { .. })
    ));
    assert!(matches!(
        execute_finalize_attestation(&mut state, &later, &[0x99; 20]),
        Err(StateError::AttestationNotFound { .. })
    ));
}

#[test]
fn test_challenge_attestation() {
    let mut state = ProtocolState::new();
    let ctx = test_context();

    let creator_addr = create_identity(&mut state, &ctx, 1);
    let project_id = create_project_with_challenge_bond(&mut state, &ctx, &creator_addr, 0);

    let contributor_addr = create_identity(&mut state, &ctx, 2);
    let attestation_id = submit_attestation(&mut state, &ctx, &project_id, &contributor_addr, 100);

    let challenger_addr = create_identity(&mut state, &ctx, 3);

    let challenge_id = execute_challenge_attestation(
        &mut state,
        &ctx,
        &challenger_addr,
        &attestation_id,
        &[0xCD; 32],
        None,
        U256::zero(),
        &[0x90; 20],
    )
    .unwrap();

    let challenge = state.get_challenge(&challenge_id).unwrap();
    assert_eq!(challenge.status, ChallengeStatus::Open);
    assert_eq!(challenge.challenger, challenger_addr);

    let attestation = state.get_attestation(&attestation_id).unwrap();
    assert_eq!(attestation.status, AttestationStatus::Challenged);
}

#[test]
fn test_resolve_challenge_valid() {
    let mut state = ProtocolState::new();
    let ctx = test_context();

    let creator_addr = create_identity(&mut state, &ctx, 1);
    let project_id = create_project_with_challenge_bond(&mut state, &ctx, &creator_addr, 0);

    let contributor_addr = create_identity(&mut state, &ctx, 2);
    let attestation_id = submit_attestation(&mut state, &ctx, &project_id, &contributor_addr, 100);

    let challenger_addr = create_identity(&mut state, &ctx, 3);

    let challenge_id = execute_challenge_attestation(
        &mut state,
        &ctx,
        &challenger_addr,
        &attestation_id,
        &[0xCD; 32],
        None,
        U256::zero(),
        &[0x90; 20],
    )
    .unwrap();

    execute_resolve_challenge(&mut state, &ctx, &creator_addr, &challenge_id, &ChallengeRuling::Valid)
        .unwrap();

    let challenge = state.get_challenge(&challenge_id).unwrap();
    assert_eq!(challenge.status, ChallengeStatus::ResolvedValid);

    let attestation = state.get_attestation(&attestation_id).unwrap();
    assert_eq!(attestation.status, AttestationStatus::Finalized);

    assert_eq!(state.get_claimable(&contributor_addr, &test_denom()), U256::from(1000u64));
}

#[test]
fn test_resolve_challenge_invalid() {
    let mut state = ProtocolState::new();
    let ctx = test_context();

    let creator_addr = create_identity(&mut state, &ctx, 1);
    let project_id = create_project_with_challenge_bond(&mut state, &ctx, &creator_addr, 0);

    let contributor_addr = create_identity(&mut state, &ctx, 2);
    let attestation_id = submit_attestation(&mut state, &ctx, &project_id, &contributor_addr, 100);

    let challenger_addr = create_identity(&mut state, &ctx, 3);

    let challenge_id = execute_challenge_attestation(
        &mut state,
        &ctx,
        &challenger_addr,
        &attestation_id,
        &[0xCD; 32],
        None,
        U256::zero(),
        &[0x90; 20],
    )
    .unwrap();

    execute_resolve_challenge(&mut state, &ctx, &creator_addr, &challenge_id, &ChallengeRuling::Invalid)
        .unwrap();

    let challenge = state.get_challenge(&challenge_id).unwrap();
    assert_eq!(challenge.status, ChallengeStatus::ResolvedInvalid);

    let attestation = state.get_attestation(&attestation_id).unwrap();
    assert_eq!(attestation.status, AttestationStatus::Rejected);

    assert_eq!(state.get_claimable(&challenger_addr, &test_denom()), U256::from(1000u64));
}

#[test]
fn test_challenger_cannot_be_contributor() {
    let mut state = ProtocolState::new();
    let ctx = test_context();

    let creator_addr = create_identity(&mut state, &ctx, 1);
    let project_id = create_project_with_challenge_bond(&mut state, &ctx, &creator_addr, 0);

    let contributor_addr = create_identity(&mut state, &ctx, 2);
    let attestation_id = submit_attestation(&mut state, &ctx, &project_id, &contributor_addr, 100);

    let result = execute_challenge_attestation(
        &mut state,
        &ctx,
        &contributor_addr,
        &attestation_id,
        &[0xCD; 32],
        None,
        U256::zero(),
        &[0x90; 20],
    );

    assert!(matches!(result, Err(StateError::ChallengerIsContributor { .. })));
}

#[test]
fn challenge_response_and_adjudicator_checks() {
    let mut state = ProtocolState::new();
    let ctx = test_context();
    let creator_addr = create_identity(&mut state, &ctx, 1);
    let project_id = create_project_with_challenge_bond(&mut state, &ctx, &creator_addr, 10);
    let contributor_addr = create_identity(&mut state, &ctx, 2);
    let attestation_id = submit_attestation(&mut state, &ctx, &project_id, &contributor_addr, 100);
    let challenger_addr = create_identity(&mut state, &ctx, 3);

    assert!(matches!(
        execute_challenge_attestation(
            &mut state,
            &ctx,
            &challenger_addr,
            &attestation_id,
            &[0xCD; 32],
            None,
            U256::from(10u64),
            &[0x90; 20],
        ),
        Err(StateError::ChallengeBondPosterRequired)
    ));
    assert!(matches!(
        execute_challenge_attestation(
            &mut state,
            &ctx,
            &challenger_addr,
            &attestation_id,
            &[0xCD; 32],
            Some(challenger_addr),
            U256::from(5u64),
            &[0x90; 20],
        ),
        Err(StateError::ChallengeBondBelowMinimum { .. })
    ));
    let challenge_id = execute_challenge_attestation(
        &mut state,
        &ctx,
        &challenger_addr,
        &attestation_id,
        &[0xCD; 32],
        Some(challenger_addr),
        U256::from(10u64),
        &[0x90; 20],
    )
    .unwrap();
    assert_eq!(state.get_challenge_bond(&challenge_id), Some(U256::from(10u64)));

    assert!(matches!(
        execute_respond_to_challenge(&mut state, &ctx, &challenger_addr, &challenge_id, &[1; 32]),
        Err(StateError::UnauthorizedSigner { .. })
    ));
    execute_respond_to_challenge(&mut state, &ctx, &contributor_addr, &challenge_id, &[1; 32]).unwrap();
    assert_eq!(state.get_challenge(&challenge_id).unwrap().status, ChallengeStatus::Responded);

    assert!(matches!(
        execute_resolve_challenge(&mut state, &ctx, &challenger_addr, &challenge_id, &ChallengeRuling::Valid),
        Err(StateError::NotAdjudicator { .. })
    ));
    execute_resolve_challenge(&mut state, &ctx, &creator_addr, &challenge_id, &ChallengeRuling::Valid).unwrap();
    // The attestation stands: the contributor gets its bond back and the challenger's bond.
    assert_eq!(state.get_claimable(&contributor_addr, &test_denom()), U256::from(1010u64));
}

#[test]
fn settled_attestations_stay_as_they_are() {
    let mut state = ProtocolState::new();
    let ctx = test_context();
    let creator_addr = create_identity(&mut state, &ctx, 1);
    let project_id = create_project_with_challenge_bond(&mut state, &ctx, &creator_addr, 0);
    let contributor_addr = create_identity(&mut state, &ctx, 2);
    let attestation_id = submit_attestation(&mut state, &ctx, &project_id, &contributor_addr, 100);
    let challenger_addr = create_identity(&mut state, &ctx, 3);
    let challenge_id = execute_challenge_attestation(
        &mut state,
        &ctx,
        &challenger_addr,
        &attestation_id,
        &[0xCD; 32],
        None,
        U256::zero(),
        &[0x90; 20],
    )
    .unwrap();
    execute_resolve_challenge(&mut state, &ctx, &creator_addr, &challenge_id, &ChallengeRuling::Invalid).unwrap();
    let rejected = state.get_attestation(&attestation_id).unwrap();
    assert_eq!(rejected.status, AttestationStatus::Rejected);

    // Nothing reopens or alters it.
    assert!(matches!(
        execute_resolve_challenge(&mut state, &ctx, &creator_addr, &challenge_id, &ChallengeRuling::Valid),
        Err(StateError::ChallengeAlreadyResolved { .. })
    ));
    assert!(execute_challenge_attestation(
        &mut state,
        &ctx,
        &challenger_addr,
        &attestation_id,
        &[0xCE; 32],
        None,
        U256::zero(),
        &[0x91; 20],
    )
    .is_err());
    let later = ExecutionContext::with_timestamp(ctx.timestamp + MIN_VERIFICATION_WINDOW + 1);
    assert!(matches!(
        execute_finalize_attestation(&mut state, &later, &attestation_id),
        Err(StateError::AttestationNotPending { .. })
    ));
    assert_eq!(state.get_attestation(&attestation_id), Some(rejected));
    assert_eq!(state.get_attestation(&attestation_id).unwrap().contributor, contributor_addr);
}
