use tunnels::core_types::RecipientType;
use tunnels::execute::context::ExecutionContext;
use tunnels::execute::identity::execute_create_identity;
use tunnels::execute::project::{
    compute_gamma_chain_depth, compute_predecessor_chain_depth, execute_register_project,
    ProjectParams, MIN_VERIFICATION_WINDOW,
};
use tunnels::protocol_state::ProtocolState;
use tunnels::state_error::StateError;

fn test_context() -> ExecutionContext {
    ExecutionContext::test_context()
}

fn create_identity(state: &mut ProtocolState, ctx: &ExecutionContext, seed: u8) -> [u8; 20] {
    execute_create_identity(state, ctx, &[seed; 32], &[seed; 20]).unwrap()
}

#[allow(clippy::too_many_arguments)]
fn register_params(
    creator: [u8; 20],
    phi_recipient: [u8; 20],
    gamma_recipient: [u8; 20],
    gamma_recipient_type: RecipientType,
    reserve_authority: [u8; 20],
    deposit_authority: [u8; 20],
    adjudicator: [u8; 20],
    predecessor: Option<[u8; 20]>,
    rho: u32,
    phi: u32,
    gamma: u32,
    delta: u32,
) -> ProjectParams {
    ProjectParams {
        creator,
        rho,
        phi,
        gamma,
        delta,
        phi_recipient,
        gamma_recipient,
        gamma_recipient_type,
        reserve_authority,
        deposit_authority,
        adjudicator,
        predecessor,
        verification_window: MIN_VERIFICATION_WINDOW,
        attestation_bond: 100,
        challenge_bond: 50,
        evidence_hash: None,
    }
}

fn params_with_bonds(creator: [u8; 20], attestation_bond: u64, challenge_bond: u64) -> ProjectParams {
    ProjectParams {
        attestation_bond,
        challenge_bond,
        ..register_params(
            creator,
            creator,
            creator,
            RecipientType::Identity,
            creator,
            creator,
            creator,
            None,
            1000,
            500,
            1500,
            0,
        )
    }
}

#[test]
fn test_register_project_basic() {
    let mut state = ProtocolState::new();
    let ctx = test_context();
    let creator_addr = create_identity(&mut state, &ctx, 1);

    let params = register_params(
        creator_addr,
        creator_addr,
        creator_addr,
        RecipientType::Identity,
        creator_addr,
        creator_addr,
        creator_addr,
        None,
        1000,
        500,
        1500,
        0,
    );

    let project_id = execute_register_project(&mut state, &ctx, &creator_addr, &params, &[0x70; 20]).unwrap();

    let project = state.get_project(&project_id).unwrap();
    assert_eq!(project.creator, creator_addr);
    assert_eq!(project.rho, 1000);
    assert_eq!(project.phi, 500);
    assert_eq!(project.gamma, 1500);
    assert_eq!(project.delta, 0);
    assert!(project.predecessor.is_none());
}

#[test]
fn test_register_project_basis_points_overflow() {
    let mut state = ProtocolState::new();
    let ctx = test_context();
    let creator_addr = create_identity(&mut state, &ctx, 1);

    let params = register_params(
        creator_addr,
        creator_addr,
        creator_addr,
        RecipientType::Identity,
        creator_addr,
        creator_addr,
        creator_addr,
        None,
        3000,
        3000,
        3000,
        2000,
    );

    let result = execute_register_project(&mut state, &ctx, &creator_addr, &params, &[0x70; 20]);

    assert!(matches!(result, Err(StateError::InvalidBasisPointsSum { sum: 11000 })));
}

#[test]
fn test_register_project_basis_points_beyond_u32_rejected() {
    let mut state = ProtocolState::new();
    let ctx = test_context();
    let creator_addr = create_identity(&mut state, &ctx, 1);

    let params = register_params(
        creator_addr,
        creator_addr,
        creator_addr,
        RecipientType::Identity,
        creator_addr,
        creator_addr,
        creator_addr,
        None,
        u32::MAX,
        1,
        0,
        0,
    );

    let result = execute_register_project(&mut state, &ctx, &creator_addr, &params, &[0x70; 20]);

    assert!(matches!(result, Err(StateError::InvalidBasisPointsSum { sum: u32::MAX })));
    assert!(state.get_project(&[0x70; 20]).is_none());
}

#[test]
fn test_register_project_verification_window_too_short() {
    let mut state = ProtocolState::new();
    let ctx = test_context();
    let creator_addr = create_identity(&mut state, &ctx, 1);

    let params = ProjectParams {
        verification_window: 1000,
        ..params_with_bonds(creator_addr, 100, 50)
    };

    let result = execute_register_project(&mut state, &ctx, &creator_addr, &params, &[0x70; 20]);

    assert!(matches!(result, Err(StateError::VerificationWindowTooShort { .. })));
}

#[test]
fn test_register_project_delta_without_predecessor() {
    let mut state = ProtocolState::new();
    let ctx = test_context();
    let creator_addr = create_identity(&mut state, &ctx, 1);

    let params = register_params(
        creator_addr,
        creator_addr,
        creator_addr,
        RecipientType::Identity,
        creator_addr,
        creator_addr,
        creator_addr,
        None,
        1000,
        500,
        1500,
        1000,
    );

    let result = execute_register_project(&mut state, &ctx, &creator_addr, &params, &[0x70; 20]);

    assert!(matches!(result, Err(StateError::DeltaWithoutPredecessor)));
}

#[test]
fn test_register_project_with_predecessor() {
    let mut state = ProtocolState::new();
    let ctx = test_context();
    let creator_addr = create_identity(&mut state, &ctx, 1);

    let params1 = register_params(
        creator_addr,
        creator_addr,
        creator_addr,
        RecipientType::Identity,
        creator_addr,
        creator_addr,
        creator_addr,
        None,
        1000,
        500,
        1500,
        0,
    );
    let pred_id = execute_register_project(&mut state, &ctx, &creator_addr, &params1, &[0x70; 20]).unwrap();

    let params2 = register_params(
        creator_addr,
        creator_addr,
        creator_addr,
        RecipientType::Identity,
        creator_addr,
        creator_addr,
        creator_addr,
        Some(pred_id),
        1000,
        500,
        1500,
        500,
    );
    let project_id = execute_register_project(&mut state, &ctx, &creator_addr, &params2, &[0x71; 20]).unwrap();

    let project = state.get_project(&project_id).unwrap();
    assert_eq!(project.predecessor, Some(pred_id));
    assert_eq!(project.delta, 500);
    assert_eq!(compute_predecessor_chain_depth(&state, &project_id), 1);
    assert_eq!(compute_predecessor_chain_depth(&state, &pred_id), 0);
}

#[test]
fn test_register_project_challenge_bond_exceeds_attestation_bond() {
    let mut state = ProtocolState::new();
    let ctx = test_context();
    let creator_addr = create_identity(&mut state, &ctx, 1);

    let params = params_with_bonds(creator_addr, 100, 150);

    let result = execute_register_project(&mut state, &ctx, &creator_addr, &params, &[0x70; 20]);

    assert!(matches!(
        result,
        Err(StateError::ChallengeBondExceedsAttestationBond { challenge_bond: 150, attestation_bond: 100 })
    ));
}

#[test]
fn test_register_project_challenge_bond_equals_attestation_bond() {
    let mut state = ProtocolState::new();
    let ctx = test_context();
    let creator_addr = create_identity(&mut state, &ctx, 1);

    let params = params_with_bonds(creator_addr, 100, 100);

    let result = execute_register_project(&mut state, &ctx, &creator_addr, &params, &[0x70; 20]);

    assert!(result.is_ok());
    let project_id = result.unwrap();
    let project = state.get_project(&project_id).unwrap();
    assert_eq!(project.attestation_bond, 100);
    assert_eq!(project.challenge_bond, 100);
}

#[test]
fn test_register_project_challenge_bond_zero() {
    let mut state = ProtocolState::new();
    let ctx = test_context();
    let creator_addr = create_identity(&mut state, &ctx, 1);

    let params = params_with_bonds(creator_addr, 100, 0);

    let result = execute_register_project(&mut state, &ctx, &creator_addr, &params, &[0x70; 20]);

    assert!(result.is_ok());
    let project_id = result.unwrap();
    let project = state.get_project(&project_id).unwrap();
    assert_eq!(project.attestation_bond, 100);
    assert_eq!(project.challenge_bond, 0);
}

#[test]
fn register_project_reference_errors() {
    let mut state = ProtocolState::new();
    let ctx = test_context();
    let creator = create_identity(&mut state, &ctx, 1);
    let base = params_with_bonds(creator, 100, 50);

    let wrong_signer = execute_register_project(&mut state, &ctx, &[9; 20], &base, &[0x70; 20]);
    assert!(matches!(wrong_signer, Err(StateError::UnauthorizedSigner { .. })));

    let missing_phi = ProjectParams { phi_recipient: [5; 20], ..base };
    assert_eq!(
        execute_register_project(&mut state, &ctx, &creator, &missing_phi, &[0x70; 20]),
        Err(StateError::PhiRecipientNotFound { recipient: [5; 20] })
    );
    let pred_without_delta = ProjectParams { predecessor: Some([0x70; 20]), ..base };
    assert!(matches!(
        execute_register_project(&mut state, &ctx, &creator, &pred_without_delta, &[0x71; 20]),
        Err(StateError::PredecessorWithoutDelta)
    ));

    let id = execute_register_project(&mut state, &ctx, &creator, &base, &[0x70; 20]).unwrap();
    assert_eq!(
        execute_register_project(&mut state, &ctx, &creator, &base, &id),
        Err(StateError::ProjectAlreadyExists { project_id: id })
    );

    let to_project = ProjectParams {
        gamma_recipient: id,
        gamma_recipient_type: RecipientType::Project,
        ..base
    };
    let child = execute_register_project(&mut state, &ctx, &creator, &to_project, &[0x72; 20]).unwrap();
    assert_eq!(compute_gamma_chain_depth(&state, &child), Ok(1));
    assert_eq!(compute_gamma_chain_depth(&state, &id), Ok(0));
}
