use tunnels::accumulator::{
    claim_labor_pool_revenue, compute_claimable_revenue, distribute_to_labor_pool,
    finalize_attestation_units,
};
use tunnels::bond::{
    forfeit_attestation_bond_to_challenger, forfeit_challenge_bond_to_attestor,
    lock_attestation_bond, lock_challenge_bond, return_attestation_bond, return_challenge_bond,
};
use tunnels::core_types::{Attestation, AttestationStatus, Denomination};
use tunnels::protocol_state::ProtocolState;
use tunnels::state_error::StateError;
use tunnels::u256::U256;

fn test_denom() -> Denomination {
    *b"USD\0\0\0\0\0"
}

fn create_pending_attestation(
    state: &mut ProtocolState,
    attestation_id: [u8; 20],
    project_id: [u8; 20],
    contributor: [u8; 20],
    units: u64,
) {
    let attestation = Attestation {
        attestation_id,
        project_id,
        contributor,
        units,
        evidence_hash: [0u8; 32],
        bond_poster: contributor,
        bond_amount: U256::from(100u64),
        bond_denomination: test_denom(),
        status: AttestationStatus::Pending,
        created_at: 1000,
        finalized_at: None,
    };
    state.insert_attestation(attestation);
}

#[test]
fn test_finalize_first_attestation() {
    let mut state = ProtocolState::new();
    let project_id = [1u8; 20];
    let contributor = [2u8; 20];
    let attestation_id = [3u8; 20];
    let denom = test_denom();

    create_pending_attestation(&mut state, attestation_id, project_id, contributor, 100);

    finalize_attestation_units(
        &mut state,
        &attestation_id,
        &project_id,
        &contributor,
        100,
        &denom,
        2000,
    )
    .unwrap();

    // Check accumulator
    let acc = state.get_accumulator(&project_id, &denom).unwrap();
    assert_eq!(acc.total_finalized_units, 100);

    // Check contributor balance
    let balance = state.get_balance(&project_id, &contributor, &denom).unwrap();
    assert_eq!(balance.units, 100);

    // Check attestation status
    let att = state.get_attestation(&attestation_id).unwrap();
    assert_eq!(att.status, AttestationStatus::Finalized);
    assert_eq!(att.finalized_at, Some(2000));
}

#[test]
fn test_distribute_before_finalization() {
    let mut state = ProtocolState::new();
    let project_id = [1u8; 20];
    let denom = test_denom();

    // Deposit before any attestations finalize
    distribute_to_labor_pool(&mut state, &project_id, U256::from(1000u64), &denom).unwrap();

    // Check unallocated
    let acc = state.get_accumulator(&project_id, &denom).unwrap();
    assert_eq!(acc.unallocated, U256::from(1000u64));
    assert_eq!(acc.total_finalized_units, 0);
}

#[test]
fn test_unallocated_distributed_on_first_finalization() {
    let mut state = ProtocolState::new();
    let project_id = [1u8; 20];
    let contributor = [2u8; 20];
    let attestation_id = [3u8; 20];
    let denom = test_denom();

    // Deposit 1000 before any attestations
    distribute_to_labor_pool(&mut state, &project_id, U256::from(1000u64), &denom).unwrap();

    // Now finalize 100 units
    create_pending_attestation(&mut state, attestation_id, project_id, contributor, 100);
    finalize_attestation_units(
        &mut state,
        &attestation_id,
        &project_id,
        &contributor,
        100,
        &denom,
        2000,
    )
    .unwrap();

    // Unallocated should be cleared
    let acc = state.get_accumulator(&project_id, &denom).unwrap();
    assert_eq!(acc.unallocated, U256::zero());

    // Contributor should be able to claim the 1000
    let claimable = compute_claimable_revenue(&mut state, &project_id, &contributor, &denom).unwrap();
    assert_eq!(claimable, U256::from(1000u64));
}

#[test]
fn test_distribute_after_finalization() {
    let mut state = ProtocolState::new();
    let project_id = [1u8; 20];
    let contributor = [2u8; 20];
    let attestation_id = [3u8; 20];
    let denom = test_denom();

    // Finalize 100 units first
    create_pending_attestation(&mut state, attestation_id, project_id, contributor, 100);
    finalize_attestation_units(
        &mut state,
        &attestation_id,
        &project_id,
        &contributor,
        100,
        &denom,
        2000,
    )
    .unwrap();

    // Now deposit 1000
    distribute_to_labor_pool(&mut state, &project_id, U256::from(1000u64), &denom).unwrap();

    // Check that index increased
    let acc = state.get_accumulator(&project_id, &denom).unwrap();
    assert_eq!(acc.unallocated, U256::zero());
    assert!(U256::zero().lt(&acc.reward_per_unit_global));

    // Contributor should be able to claim 1000
    let claimable = compute_claimable_revenue(&mut state, &project_id, &contributor, &denom).unwrap();
    assert_eq!(claimable, U256::from(1000u64));
}

#[test]
fn test_two_contributors_equal_units() {
    let mut state = ProtocolState::new();
    let project_id = [1u8; 20];
    let contributor_a = [2u8; 20];
    let contributor_b = [3u8; 20];
    let attestation_a = [4u8; 20];
    let attestation_b = [5u8; 20];
    let denom = test_denom();

    // A finalizes 100 units
    create_pending_attestation(&mut state, attestation_a, project_id, contributor_a, 100);
    finalize_attestation_units(
        &mut state,
        &attestation_a,
        &project_id,
        &contributor_a,
        100,
        &denom,
        1000,
    )
    .unwrap();

    // B finalizes 100 units
    create_pending_attestation(&mut state, attestation_b, project_id, contributor_b, 100);
    finalize_attestation_units(
        &mut state,
        &attestation_b,
        &project_id,
        &contributor_b,
        100,
        &denom,
        2000,
    )
    .unwrap();

    // Deposit 2000
    distribute_to_labor_pool(&mut state, &project_id, U256::from(2000u64), &denom).unwrap();

    // Each should get 1000 (equal share)
    let claimable_a = compute_claimable_revenue(&mut state, &project_id, &contributor_a, &denom).unwrap();
    let claimable_b = compute_claimable_revenue(&mut state, &project_id, &contributor_b, &denom).unwrap();

    assert_eq!(claimable_a, U256::from(1000u64));
    assert_eq!(claimable_b, U256::from(1000u64));
}

#[test]
fn test_two_contributors_unequal_units() {
    let mut state = ProtocolState::new();
    let project_id = [1u8; 20];
    let contributor_a = [2u8; 20];
    let contributor_b = [3u8; 20];
    let attestation_a = [4u8; 20];
    let attestation_b = [5u8; 20];
    let denom = test_denom();

    // A finalizes 100 units
    create_pending_attestation(&mut state, attestation_a, project_id, contributor_a, 100);
    finalize_attestation_units(
        &mut state,
        &attestation_a,
        &project_id,
        &contributor_a,
        100,
        &denom,
        1000,
    )
    .unwrap();

    // B finalizes 200 units
    create_pending_attestation(&mut state, attestation_b, project_id, contributor_b, 200);
    finalize_attestation_units(
        &mut state,
        &attestation_b,
        &project_id,
        &contributor_b,
        200,
        &denom,
        2000,
    )
    .unwrap();

    // Deposit 3000 (should split 1000/2000)
    distribute_to_labor_pool(&mut state, &project_id, U256::from(3000u64), &denom).unwrap();

    let claimable_a = compute_claimable_revenue(&mut state, &project_id, &contributor_a, &denom).unwrap();
    let claimable_b = compute_claimable_revenue(&mut state, &project_id, &contributor_b, &denom).unwrap();

    // A: 100/300 × 3000 = 1000
    // B: 200/300 × 3000 = 2000
    assert_eq!(claimable_a, U256::from(1000u64));
    assert_eq!(claimable_b, U256::from(2000u64));
}

#[test]
fn test_staggered_contributions() {
    // Acceptance test #10: A joins, deposit, B joins, deposit
    let mut state = ProtocolState::new();
    let project_id = [1u8; 20];
    let contributor_a = [2u8; 20];
    let contributor_b = [3u8; 20];
    let attestation_a = [4u8; 20];
    let attestation_b = [5u8; 20];
    let denom = test_denom();

    // A finalizes 100 units
    create_pending_attestation(&mut state, attestation_a, project_id, contributor_a, 100);
    finalize_attestation_units(
        &mut state,
        &attestation_a,
        &project_id,
        &contributor_a,
        100,
        &denom,
        1000,
    )
    .unwrap();

    // First deposit: 1000 (only A exists)
    distribute_to_labor_pool(&mut state, &project_id, U256::from(1000u64), &denom).unwrap();

    // B joins with 100 units
    create_pending_attestation(&mut state, attestation_b, project_id, contributor_b, 100);
    finalize_attestation_units(
        &mut state,
        &attestation_b,
        &project_id,
        &contributor_b,
        100,
        &denom,
        2000,
    )
    .unwrap();

    // Second deposit: 1000 (A and B both exist, equal units)
    distribute_to_labor_pool(&mut state, &project_id, U256::from(1000u64), &denom).unwrap();

    let claimable_a = compute_claimable_revenue(&mut state, &project_id, &contributor_a, &denom).unwrap();
    let claimable_b = compute_claimable_revenue(&mut state, &project_id, &contributor_b, &denom).unwrap();

    // A: 1000 (from first) + 500 (from second) = 1500
    // B: 0 (from first) + 500 (from second) = 500
    assert_eq!(claimable_a, U256::from(1500u64));
    assert_eq!(claimable_b, U256::from(500u64));
}

#[test]
fn test_claim_updates_balance() {
    let mut state = ProtocolState::new();
    let project_id = [1u8; 20];
    let contributor = [2u8; 20];
    let attestation_id = [3u8; 20];
    let denom = test_denom();

    // Setup: finalize and deposit
    create_pending_attestation(&mut state, attestation_id, project_id, contributor, 100);
    finalize_attestation_units(
        &mut state,
        &attestation_id,
        &project_id,
        &contributor,
        100,
        &denom,
        1000,
    )
    .unwrap();
    distribute_to_labor_pool(&mut state, &project_id, U256::from(1000u64), &denom).unwrap();

    // Claim
    let claimed = claim_labor_pool_revenue(&mut state, &project_id, &contributor, &denom).unwrap();
    assert_eq!(claimed, U256::from(1000u64));

    // Check balance updated
    let balance = state.get_balance(&project_id, &contributor, &denom).unwrap();
    assert_eq!(balance.claimed, U256::from(1000u64));

    // Second claim should fail (nothing left)
    let result = claim_labor_pool_revenue(&mut state, &project_id, &contributor, &denom);
    assert!(matches!(result, Err(StateError::NothingToClaim { .. })));
}

#[test]
fn test_multi_denomination() {
    // Acceptance test #12: USD and EUR independent
    let mut state = ProtocolState::new();
    let project_id = [1u8; 20];
    let contributor = [2u8; 20];
    let attestation_id = [3u8; 20];
    let denom_usd = *b"USD\0\0\0\0\0";
    let denom_eur = *b"EUR\0\0\0\0\0";

    // Finalize in both denominations
    create_pending_attestation(&mut state, attestation_id, project_id, contributor, 100);

    // Finalize for USD
    finalize_attestation_units(
        &mut state,
        &attestation_id,
        &project_id,
        &contributor,
        100,
        &denom_usd,
        1000,
    )
    .unwrap();

    // Finalize for EUR (same attestation can finalize in multiple denoms)
    // Actually, attestation is already finalized, but we can still update the accumulator
    // In practice, units are per-attestation, but accumulators are per-denom
    // Let's create another attestation for EUR
    let attestation_eur = [4u8; 20];
    create_pending_attestation(&mut state, attestation_eur, project_id, contributor, 100);
    finalize_attestation_units(
        &mut state,
        &attestation_eur,
        &project_id,
        &contributor,
        100,
        &denom_eur,
        1000,
    )
    .unwrap();

    // Deposit to each
    distribute_to_labor_pool(&mut state, &project_id, U256::from(1000u64), &denom_usd).unwrap();
    distribute_to_labor_pool(&mut state, &project_id, U256::from(500u64), &denom_eur).unwrap();

    // Check independent
    let claimable_usd = compute_claimable_revenue(&mut state, &project_id, &contributor, &denom_usd).unwrap();
    let claimable_eur = compute_claimable_revenue(&mut state, &project_id, &contributor, &denom_eur).unwrap();

    assert_eq!(claimable_usd, U256::from(1000u64));
    assert_eq!(claimable_eur, U256::from(500u64));
}

#[test]
fn test_lock_attestation_bond() {
    let mut state = ProtocolState::new();
    let attestation_id = [1u8; 20];
    let bond_poster = [2u8; 20];
    let amount = U256::from(1000u64);
    let min_bond = U256::from(100u64);

    lock_attestation_bond(
        &mut state,
        &attestation_id,
        &bond_poster,
        amount,
        &test_denom(),
        min_bond,
    )
    .unwrap();

    assert_eq!(state.get_locked_bond(&attestation_id), Some(amount));
}

#[test]
fn test_lock_attestation_bond_below_minimum() {
    let mut state = ProtocolState::new();
    let attestation_id = [1u8; 20];
    let bond_poster = [2u8; 20];
    let amount = U256::from(50u64);
    let min_bond = U256::from(100u64);

    let result = lock_attestation_bond(
        &mut state,
        &attestation_id,
        &bond_poster,
        amount,
        &test_denom(),
        min_bond,
    );

    assert!(matches!(result, Err(StateError::BondBelowMinimum { .. })));
}

#[test]
fn test_return_attestation_bond() {
    let mut state = ProtocolState::new();
    let attestation_id = [1u8; 20];
    let bond_poster = [2u8; 20];
    let amount = U256::from(1000u64);
    let denom = test_denom();

    // Lock the bond first
    state.lock_bond(&attestation_id, amount);

    // Return it (full return)
    let returned = return_attestation_bond(
        &mut state,
        &attestation_id,
        &bond_poster,
        &denom,
    )
    .unwrap();

    assert_eq!(returned, U256::from(1000u64));
    assert_eq!(state.get_claimable(&bond_poster, &denom), U256::from(1000u64));
    assert!(state.get_locked_bond(&attestation_id).is_none());
}

#[test]
fn test_forfeit_attestation_bond() {
    let mut state = ProtocolState::new();
    let attestation_id = [1u8; 20];
    let challenger = [3u8; 20];
    let amount = U256::from(1000u64);
    let denom = test_denom();

    // Lock the bond first
    state.lock_bond(&attestation_id, amount);

    // Forfeit it
    let forfeited = forfeit_attestation_bond_to_challenger(
        &mut state,
        &attestation_id,
        &challenger,
        &denom,
    )
    .unwrap();

    assert_eq!(forfeited, amount);
    assert_eq!(state.get_claimable(&challenger, &denom), amount);
    assert!(state.get_locked_bond(&attestation_id).is_none());
}

#[test]
fn test_challenge_bond_lifecycle() {
    let mut state = ProtocolState::new();
    let challenge_id = [1u8; 20];
    let challenger = [2u8; 20];
    let amount = U256::from(500u64);
    let denom = test_denom();

    // Lock challenge bond
    lock_challenge_bond(
        &mut state,
        &challenge_id,
        &challenger,
        amount,
        &denom,
        100,
    )
    .unwrap();

    assert_eq!(state.get_challenge_bond(&challenge_id), Some(amount));

    // Return it (challenge succeeded)
    let returned = return_challenge_bond(
        &mut state,
        &challenge_id,
        &challenger,
        &denom,
    )
    .unwrap();

    assert_eq!(returned, amount);
    assert_eq!(state.get_claimable(&challenger, &denom), amount);
}

#[test]
fn test_forfeit_challenge_bond() {
    let mut state = ProtocolState::new();
    let challenge_id = [1u8; 20];
    let attestor = [2u8; 20];
    let amount = U256::from(500u64);
    let denom = test_denom();

    // Lock challenge bond
    state.lock_challenge_bond(&challenge_id, amount);

    // Forfeit it (challenge failed)
    let forfeited = forfeit_challenge_bond_to_attestor(
        &mut state,
        &challenge_id,
        &attestor,
        &denom,
    )
    .unwrap();

    assert_eq!(forfeited, amount);
    assert_eq!(state.get_claimable(&attestor, &denom), amount);
}
