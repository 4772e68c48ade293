use tunnels::core_types::{
    AttestationStatus, Denomination, Identity, RecipientType, SignedTransaction, Transaction,
};
use tunnels::execute::context::ExecutionContext;
use tunnels::execute::executor::apply_transaction;
use tunnels::execute::identity::execute_create_identity;
use tunnels::execute::project::{execute_register_project, ProjectParams, MIN_VERIFICATION_WINDOW};
use tunnels::protocol_state::ProtocolState;
use tunnels::state_error::StateError;
use tunnels::u256::U256;
use tunnels::waterfall::{compute_basis_points, execute_waterfall};

/// A transaction signed by the key derived from `seed`, identified by `id`.
fn signed(tx: Transaction, seed: u8, id: u8, signature_valid: bool) -> SignedTransaction {
    SignedTransaction {
        tx,
        signer: [seed; 32],
        signer_address: [seed; 20],
        signature_valid,
        hash: [id; 32],
        tx_id: [id; 20],
        agent_address: [0; 20],
    }
}

fn create_signed_identity_tx(seed: u8) -> SignedTransaction {
    signed(Transaction::CreateIdentity { public_key: [seed; 32] }, seed, 0x10, true)
}

#[test]
fn test_apply_create_identity() {
    let mut state = ProtocolState::new();
    let signed_tx = create_signed_identity_tx(1);

    apply_transaction(&mut state, &signed_tx, 1000).unwrap();

    let address = [1u8; 20];
    assert!(state.identity_exists(&address));
}

#[test]
fn test_apply_invalid_signature() {
    let mut state = ProtocolState::new();
    let signed_tx = signed(Transaction::CreateIdentity { public_key: [1; 32] }, 1, 0x10, false);

    let result = apply_transaction(&mut state, &signed_tx, 1000);
    assert!(matches!(result, Err(StateError::InvalidSignature)));
}

#[test]
fn test_apply_create_identity_already_exists() {
    let mut state = ProtocolState::new();
    let signed_tx = create_signed_identity_tx(1);

    apply_transaction(&mut state, &signed_tx, 1000).unwrap();

    let result = apply_transaction(&mut state, &signed_tx, 1001);
    assert!(matches!(result, Err(StateError::IdentityAlreadyExists { .. })));
}

#[test]
fn test_full_attestation_lifecycle() {
    let mut state = ProtocolState::new();

    let signed_tx = create_signed_identity_tx(1);
    apply_transaction(&mut state, &signed_tx, 1000).unwrap();
    let address = [1u8; 20];

    let project_tx = Transaction::RegisterProject {
        creator: address,
        rho: 1000,
        phi: 500,
        gamma: 1500,
        delta: 0,
        phi_recipient: address,
        gamma_recipient: address,
        gamma_recipient_type: RecipientType::Identity,
        reserve_authority: address,
        deposit_authority: address,
        adjudicator: address,
        predecessor: None,
        verification_window: 86400,
        attestation_bond: 100,
        challenge_bond: 0,
        evidence_hash: None,
    };
    let signed_project_tx = signed(project_tx, 1, 0x20, true);
    apply_transaction(&mut state, &signed_project_tx, 1001).unwrap();
    let project_id = signed_project_tx.tx_id;

    let denom = *b"USD\0\0\0\0\0";
    let attest_tx = Transaction::SubmitAttestation {
        project_id,
        units: 100,
        evidence_hash: [0xAB; 32],
        bond_poster: address,
        bond_amount: U256::from(1000u64),
        bond_denomination: denom,
    };
    let signed_attest_tx = signed(attest_tx, 1, 0x30, true);
    apply_transaction(&mut state, &signed_attest_tx, 1002).unwrap();
    let attestation_id = signed_attest_tx.tx_id;

    let attestation = state.get_attestation(&attestation_id).unwrap();
    assert_eq!(attestation.status, AttestationStatus::Pending);

    let finalize_tx = Transaction::FinalizeAttestation { attestation_id };
    let signed_finalize_tx = signed(finalize_tx, 1, 0x40, true);

    apply_transaction(&mut state, &signed_finalize_tx, 1002 + 604801).unwrap();

    let attestation = state.get_attestation(&attestation_id).unwrap();
    assert_eq!(attestation.status, AttestationStatus::Finalized);
}

fn create_test_identity(seed: u8) -> Identity {
    Identity::new_human([seed; 20], [seed; 32])
}

#[test]
fn test_new_state() {
    let state = ProtocolState::new();
    assert_eq!(state.identity_count(), 0);
    assert_eq!(state.project_count(), 0);
    assert_eq!(state.attestation_count(), 0);
}

#[test]
fn test_insert_and_get_identity() {
    let mut state = ProtocolState::new();
    let identity = create_test_identity(1);
    let address = identity.address;

    assert!(!state.identity_exists(&address));
    state.insert_identity(identity);
    assert!(state.identity_exists(&address));

    let retrieved = state.get_identity(&address).unwrap();
    assert_eq!(retrieved.address, address);
}

#[test]
fn test_update_identity() {
    let mut state = ProtocolState::new();
    let identity = create_test_identity(1);
    let address = identity.address;

    state.insert_identity(identity);
    assert!(state.get_identity(&address).unwrap().active);

    let mut changed = state.get_identity(&address).unwrap();
    changed.active = false;
    state.update_identity(&address, changed);

    assert!(!state.get_identity(&address).unwrap().active);
}

#[test]
fn test_claimable_balance() {
    let mut state = ProtocolState::new();
    let identity = [1u8; 20];
    let denom = *b"USD\0\0\0\0\0";

    assert_eq!(state.get_claimable(&identity, &denom), U256::zero());

    state.credit_claimable(&identity, &denom, U256::from(1000u64));
    assert_eq!(state.get_claimable(&identity, &denom), U256::from(1000u64));

    state.credit_claimable(&identity, &denom, U256::from(500u64));
    assert_eq!(state.get_claimable(&identity, &denom), U256::from(1500u64));

    state.debit_claimable(&identity, &denom, U256::from(300u64));
    assert_eq!(state.get_claimable(&identity, &denom), U256::from(1200u64));
}

#[test]
fn test_bond_locking() {
    let mut state = ProtocolState::new();
    let attestation_id = [1u8; 20];
    let amount = U256::from(1000u64);

    assert!(state.get_locked_bond(&attestation_id).is_none());

    state.lock_bond(&attestation_id, amount);
    assert_eq!(state.get_locked_bond(&attestation_id), Some(amount));

    let unlocked = state.unlock_bond(&attestation_id);
    assert_eq!(unlocked, Some(amount));
    assert!(state.get_locked_bond(&attestation_id).is_none());
}

#[test]
fn test_accumulator_get_or_create() {
    let mut state = ProtocolState::new();
    let project_id = [1u8; 20];
    let denom = *b"USD\0\0\0\0\0";

    assert!(state.get_accumulator(&project_id, &denom).is_none());

    let mut acc = state.get_or_create_accumulator(&project_id, &denom);
    assert_eq!(acc.total_finalized_units, 0);
    assert!(acc.reward_per_unit_global.is_zero());

    acc.total_finalized_units = 100;
    state.set_accumulator(&project_id, &denom, acc);

    let acc2 = state.get_accumulator(&project_id, &denom).unwrap();
    assert_eq!(acc2.total_finalized_units, 100);
}

#[test]
fn test_balance_get_or_create() {
    let mut state = ProtocolState::new();
    let project_id = [1u8; 20];
    let contributor = [2u8; 20];
    let denom = *b"USD\0\0\0\0\0";

    assert!(state.get_balance(&project_id, &contributor, &denom).is_none());

    let mut balance = state.get_or_create_balance(&project_id, &contributor, &denom);
    assert_eq!(balance.units, 0);

    balance.units = 50;
    state.set_balance(&project_id, &contributor, &denom, balance);

    let balance2 = state.get_balance(&project_id, &contributor, &denom).unwrap();
    assert_eq!(balance2.units, 50);
}

fn test_denom() -> Denomination {
    *b"USD\0\0\0\0\0"
}

#[allow(clippy::too_many_arguments)]
fn create_project(
    state: &mut ProtocolState,
    ctx: &ExecutionContext,
    creator: &[u8; 20],
    id: u8,
    rho: u32,
    phi: u32,
    gamma: u32,
    delta: u32,
    predecessor: Option<[u8; 20]>,
    gamma_recipient: [u8; 20],
    gamma_recipient_type: RecipientType,
) -> [u8; 20] {
    let params = ProjectParams {
        creator: *creator,
        rho,
        phi,
        gamma,
        delta,
        phi_recipient: *creator,
        gamma_recipient,
        gamma_recipient_type,
        reserve_authority: *creator,
        deposit_authority: *creator,
        adjudicator: *creator,
        predecessor,
        verification_window: MIN_VERIFICATION_WINDOW,
        attestation_bond: 100,
        challenge_bond: 0,
        evidence_hash: None,
    };
    execute_register_project(state, ctx, creator, &params, &[id; 20]).unwrap()
}

fn creator(state: &mut ProtocolState, ctx: &ExecutionContext) -> [u8; 20] {
    execute_create_identity(state, ctx, &[1; 32], &[1; 20]).unwrap()
}

#[test]
fn test_waterfall_simple() {
    let mut state = ProtocolState::new();
    let ctx = ExecutionContext::test_context();
    let creator_addr = creator(&mut state, &ctx);

    let project_id = create_project(
        &mut state,
        &ctx,
        &creator_addr,
        0x70,
        1000,
        500,
        1500,
        0,
        None,
        creator_addr,
        RecipientType::Identity,
    );

    let amount = U256::from(10000u64);
    execute_waterfall(&mut state, &project_id, amount, &test_denom(), 0).unwrap();

    let acc = state.get_accumulator(&project_id, &test_denom()).unwrap();
    assert_eq!(acc.reserve_balance, U256::from(1000u64));
    assert_eq!(state.get_claimable(&creator_addr, &test_denom()), U256::from(450u64 + 1282u64));
    assert_eq!(acc.unallocated, U256::from(7268u64));
}

#[test]
fn test_waterfall_predecessor_chain() {
    let mut state = ProtocolState::new();
    let ctx = ExecutionContext::test_context();
    let creator_addr = creator(&mut state, &ctx);

    let project_a =
        create_project(&mut state, &ctx, &creator_addr, 0x71, 0, 0, 0, 0, None, creator_addr, RecipientType::Identity);
    let project_b = create_project(
        &mut state,
        &ctx,
        &creator_addr,
        0x72,
        0,
        0,
        0,
        1000,
        Some(project_a),
        creator_addr,
        RecipientType::Identity,
    );
    let project_c = create_project(
        &mut state,
        &ctx,
        &creator_addr,
        0x73,
        0,
        0,
        0,
        1000,
        Some(project_b),
        creator_addr,
        RecipientType::Identity,
    );

    let amount = U256::from(100000u64);
    execute_waterfall(&mut state, &project_c, amount, &test_denom(), 0).unwrap();

    let acc_c = state.get_accumulator(&project_c, &test_denom()).unwrap();
    assert_eq!(acc_c.unallocated, U256::from(90000u64));
    let acc_b = state.get_accumulator(&project_b, &test_denom()).unwrap();
    assert_eq!(acc_b.unallocated, U256::from(9000u64));
    let acc_a = state.get_accumulator(&project_a, &test_denom()).unwrap();
    assert_eq!(acc_a.unallocated, U256::from(1000u64));
}

#[test]
fn test_waterfall_gamma_to_project() {
    let mut state = ProtocolState::new();
    let ctx = ExecutionContext::test_context();
    let creator_addr = creator(&mut state, &ctx);

    let project_f =
        create_project(&mut state, &ctx, &creator_addr, 0x74, 0, 0, 0, 0, None, creator_addr, RecipientType::Identity);
    let project_m = create_project(
        &mut state,
        &ctx,
        &creator_addr,
        0x75,
        0,
        0,
        2000,
        0,
        None,
        project_f,
        RecipientType::Project,
    );

    let amount = U256::from(10000u64);
    execute_waterfall(&mut state, &project_m, amount, &test_denom(), 0).unwrap();

    let acc_m = state.get_accumulator(&project_m, &test_denom()).unwrap();
    assert_eq!(acc_m.unallocated, U256::from(8000u64));
    let acc_f = state.get_accumulator(&project_f, &test_denom()).unwrap();
    assert_eq!(acc_f.unallocated, U256::from(2000u64));
}

#[test]
fn waterfall_total_in_equals_total_out() {
    let mut state = ProtocolState::new();
    let ctx = ExecutionContext::test_context();
    let creator_addr = creator(&mut state, &ctx);

    let project_f =
        create_project(&mut state, &ctx, &creator_addr, 0x76, 700, 0, 0, 0, None, creator_addr, RecipientType::Identity);
    let project_m = create_project(
        &mut state,
        &ctx,
        &creator_addr,
        0x77,
        1000,
        500,
        1500,
        0,
        None,
        project_f,
        RecipientType::Project,
    );

    execute_waterfall(&mut state, &project_m, U256::from(12345u64), &test_denom(), 0).unwrap();

    let acc_m = state.get_accumulator(&project_m, &test_denom()).unwrap();
    let acc_f = state.get_accumulator(&project_f, &test_denom()).unwrap();
    let claimable = state.get_claimable(&creator_addr, &test_denom());
    let parts = [acc_m.reserve_balance, acc_m.unallocated, acc_f.reserve_balance, acc_f.unallocated, claimable];
    let total: u64 = parts.iter().map(|p| p.lo as u64).sum();
    assert_eq!(total, 12345);
    assert_eq!(acc_m.reserve_balance, U256::from(1234u64));
    assert_eq!(claimable, U256::from(555u64));
}

#[test]
fn waterfall_overflow_reported() {
    let mut state = ProtocolState::new();
    let ctx = ExecutionContext::test_context();
    let creator_addr = creator(&mut state, &ctx);
    let project_id = create_project(
        &mut state,
        &ctx,
        &creator_addr,
        0x78,
        1000,
        0,
        0,
        0,
        None,
        creator_addr,
        RecipientType::Identity,
    );

    let huge = U256 { hi: u128::MAX, lo: u128::MAX };
    let result = execute_waterfall(&mut state, &project_id, huge, &test_denom(), 0);
    assert!(matches!(result, Err(StateError::ArithmeticOverflow)));
}

#[test]
fn test_compute_basis_points() {
    assert_eq!(compute_basis_points(U256::from(10000u64), 1000), Some(U256::from(1000u64)));
    assert_eq!(compute_basis_points(U256::from(10000u64), 500), Some(U256::from(500u64)));
    assert_eq!(compute_basis_points(U256::from(10000u64), 0), Some(U256::zero()));
    assert_eq!(compute_basis_points(U256::from(10000u64), 10000), Some(U256::from(10000u64)));
}

#[test]
fn basis_points_truncate_toward_zero() {
    assert_eq!(compute_basis_points(U256::from(8550u64), 1500), Some(U256::from(1282u64)));
    assert_eq!(compute_basis_points(U256::from(1u64), 9999), Some(U256::zero()));
}

#[test]
fn waterfall_unknown_project_fails() {
    let mut state = ProtocolState::new();
    let result = execute_waterfall(&mut state, &[9; 20], U256::from(5u64), &test_denom(), 0);
    assert!(matches!(result, Err(StateError::ProjectNotFound { .. })));
}

#[test]
fn test_error_clone() {
    let err = StateError::ZeroUnits;
    let cloned = err.clone();
    assert_eq!(err, cloned);
}

#[test]
fn test_error_display() {
    let err = StateError::IdentityNotFound { address: [0u8; 20] };
    assert!(err.to_string().contains("identity not found"));
}

#[test]
fn error_messages_render_fields() {
    assert_eq!(
        StateError::IdentityNotFound { address: [7u8; 20] }.to_string(),
        "identity not found: [7, 7, 7, 7]"
    );
    assert_eq!(
        StateError::VerificationWindowNotExpired { attestation_id: [1u8; 20], expires_at: 90000, current: 12 }
            .to_string(),
        "verification window for [1, 1, 1, 1] not expired (expires 90000, now 12)"
    );
    assert_eq!(
        StateError::InsufficientReserve { available: U256::from(1000u64), requested: U256::from(2000u64) }
            .to_string(),
        "insufficient reserve: available 1000, requested 2000"
    );
    let big = U256 { hi: 1, lo: 0 };
    assert_eq!(
        StateError::BondBelowMinimum { provided: big, required: U256::zero() }.to_string(),
        "bond 340282366920938463463374607431768211456 below minimum 0"
    );
    assert_eq!(
        StateError::ChallengeCannotRespond {
            challenge_id: [0xff; 20],
            status: tunnels::core_types::ChallengeStatus::ResolvedValid
        }
        .to_string(),
        "challenge [255, 255, 255, 255] cannot receive response, status: ResolvedValid"
    );
    assert_eq!(StateError::ZeroClaim.to_string(), "claim amount is zero");
    assert_eq!(
        StateError::InvalidBasisPointsSum { sum: 11000 }.to_string(),
        "basis points sum 11000 exceeds 10000"
    );
}
