//! The labor-pool accumulator.
//!
//! Revenue is shared out in O(1) through a reward-per-unit index kept in
//! 128.128 fixed point: a deposit raises the index by
//! `amount * 2^128 / total_units`, and a contributor with `u` units whose
//! entry index is `e` is owed `u * (index - e) / 2^128`.
use crate::core_types::{AccumulatorState, Address, AttestationStatus, ContributorBalance, Denomination};
use crate::protocol_state::{
    acc_of, bal_of, claimable_of, credit_view, lemma_u256_is_u256_of, lemma_u256_of, u256_of,
    ProtocolState, StateView,
};
use crate::state_error::{StateError, StateResult};
use crate::u256::{b128, u256_max, U256};
use vstd::prelude::*;

verus! {

/// Whether a number fits in 256 bits.
pub open spec fn fits(n: int) -> bool {
    0 <= n <= u256_max()
}

/// `units * (global - entry) / 2^128`, or zero when the index has not moved
/// past the entry; `None` when the product does not fit in 256 bits.
pub open spec fn pending_reward(units: nat, global: nat, entry: nat) -> Option<nat> {
    if global <= entry {
        Some(0)
    } else if !fits(units * (global - entry)) {
        None
    } else {
        Some((units * (global - entry)) as nat / (b128() as nat))
    }
}

/// The accumulator after the first finalized units take up the
/// unallocated revenue (`None` when the arithmetic overflows or `units`
/// is zero while revenue waits).
pub open spec fn absorb_unallocated(acc: AccumulatorState, units: u64) -> Option<(nat, nat)> {
    let global = acc.reward_per_unit_global@;
    let unalloc = acc.unallocated@;
    if acc.total_finalized_units == 0 && unalloc != 0 {
        if !fits(unalloc * b128()) || units == 0 {
            None
        } else {
            let g = global + (unalloc * b128()) / (units as int);
            if !fits(g) {
                None
            } else {
                Some((g as nat, 0nat))
            }
        }
    } else {
        Some((global, unalloc))
    }
}

/// The state after `units` finalized units of `contributor` enter the labor
/// pool of `project_id` in `denom`, and the attestation is marked finalized
/// at `timestamp` (`None` where the arithmetic overflows).
pub open spec fn finalize_units_spec(
    v: StateView,
    attestation_id: Address,
    project_id: Address,
    contributor: Address,
    units: u64,
    denom: Denomination,
    timestamp: u64,
) -> Option<StateView> {
    let acc = acc_of(v, project_id, denom);
    let entry_new = acc.reward_per_unit_global@;
    match absorb_unallocated(acc, units) {
        None => None,
        Some((global1, unalloc1)) => {
            if acc.total_finalized_units + units > u64::MAX {
                None
            } else {
                let acc1 = AccumulatorState {
                    reward_per_unit_global: u256_of(global1),
                    total_finalized_units: (acc.total_finalized_units + units) as u64,
                    unallocated: u256_of(unalloc1),
                    reserve_balance: acc.reserve_balance,
                };
                let v1 = StateView { accumulators: v.accumulators.insert((project_id, denom), acc1), ..v };
                let bal = bal_of(v, project_id, contributor, denom);
                let had = bal.units > 0;
                match pending_reward(bal.units as nat, global1, bal.reward_per_unit_at_entry@) {
                    None if had => None,
                    pend => {
                        let pending = if had { pend.unwrap() } else { 0 };
                        if had && pending != 0 && !fits((claimable_of(v1, contributor, denom) + pending) as int) {
                            None
                        } else if bal.units + units > u64::MAX {
                            None
                        } else {
                            let v2 = if had && pending != 0 { credit_view(v1, contributor, denom, pending) } else { v1 };
                            let bal2 = ContributorBalance {
                                units: (bal.units + units) as u64,
                                reward_per_unit_at_entry: if had { u256_of(global1) } else { u256_of(entry_new) },
                                claimed: bal.claimed,
                            };
                            let v3 = StateView {
                                balances: v2.balances.insert((project_id, contributor, denom), bal2),
                                ..v2
                            };
                            Some(mark_finalized(v3, attestation_id, timestamp))
                        }
                    },
                }
            }
        },
    }
}

/// The state with the attestation (when present) marked finalized.
pub open spec fn mark_finalized(v: StateView, attestation_id: Address, timestamp: u64) -> StateView {
    if v.attestations.contains_key(attestation_id) {
        let a = v.attestations[attestation_id];
        StateView {
            attestations: v.attestations.insert(
                attestation_id,
                crate::core_types::Attestation { status: AttestationStatus::Finalized, finalized_at: Some(timestamp), ..a },
            ),
            ..v
        }
    } else {
        v
    }
}

/// Revenue a contributor can still claim from a labor pool: the pending
/// reward of their units less what they already claimed (`None` when the
/// pending product overflows).
pub open spec fn claimable_revenue_spec(v: StateView, project_id: Address, contributor: Address, denom: Denomination) -> Option<nat> {
    if !v.accumulators.contains_key((project_id, denom)) || !v.balances.contains_key((project_id, contributor, denom)) {
        Some(0)
    } else {
        let acc = v.accumulators[(project_id, denom)];
        let bal = v.balances[(project_id, contributor, denom)];
        if bal.units == 0 {
            Some(0)
        } else {
            match pending_reward(bal.units as nat, acc.reward_per_unit_global@, bal.reward_per_unit_at_entry@) {
                None => None,
                Some(p) => Some(if p <= bal.claimed@ { 0 } else { (p - bal.claimed@) as nat }),
            }
        }
    }
}

/// The state after `amount` enters a project's labor pool: held as
/// unallocated while no units are finalized, otherwise added to the index
/// (`None` where the arithmetic overflows).
pub open spec fn distribute_spec(v: StateView, project_id: Address, amount: nat, denom: Denomination) -> Option<StateView> {
    if amount == 0 {
        Some(v)
    } else {
        let acc = acc_of(v, project_id, denom);
        if acc.total_finalized_units == 0 {
            if !fits((acc.unallocated@ + amount) as int) {
                None
            } else {
                let acc1 = AccumulatorState { unallocated: u256_of((acc.unallocated@ + amount) as nat), ..acc };
                Some(StateView { accumulators: v.accumulators.insert((project_id, denom), acc1), ..v })
            }
        } else {
            let delta = (amount * b128()) / (acc.total_finalized_units as int);
            if !fits(amount * b128()) || !fits(acc.reward_per_unit_global@ + delta) {
                None
            } else {
                let acc1 = AccumulatorState {
                    reward_per_unit_global: u256_of((acc.reward_per_unit_global@ + delta) as nat),
                    ..acc
                };
                Some(StateView { accumulators: v.accumulators.insert((project_id, denom), acc1), ..v })
            }
        }
    }
}

/// The outcome of a claim on a labor pool: the amount claimed and the
/// updated `claimed` total, or `NothingToClaim` (`None` on overflow).
pub open spec fn claim_spec(v: StateView, project_id: Address, contributor: Address, denom: Denomination) -> Option<(StateView, StateResult<U256>)> {
    match claimable_revenue_spec(v, project_id, contributor, denom) {
        None => None,
        Some(c) => {
            if c == 0 {
                Some((v, Err(StateError::NothingToClaim { project_id, contributor })))
            } else {
                let bal = v.balances[(project_id, contributor, denom)];
                if !fits((bal.claimed@ + c) as int) {
                    None
                } else {
                    let bal1 = ContributorBalance { claimed: u256_of((bal.claimed@ + c) as nat), ..bal };
                    Some((
                        StateView { balances: v.balances.insert((project_id, contributor, denom), bal1), ..v },
                        Ok(u256_of(c)),
                    ))
                }
            }
        }
    }
}

/// `units * (global - entry) / 2^128`, zero when the index has not moved.
fn compute_pending_reward(units: u64, global: U256, entry: U256) -> (r: Option<U256>)
    ensures
        match pending_reward(units as nat, global@, entry@) {
            None => r is None,
            Some(p) => r is Some && r.unwrap()@ == p,
        },
{
    if global.le(&entry) {
        return Some(U256::zero());
    }
    let delta = global.minus(&entry);
    match delta.checked_mul_u64(units) {
        None => None,
        Some(scaled) => {
            proof {
                assert(delta@ * units == units * (global@ - entry@)) by (nonlinear_arith)
                    requires delta@ == global@ - entry@;
            }
            Some(scaled.shr128())
        },
    }
}

/// Finalizes attestation units: the first finalization of a pool takes up
/// the revenue waiting there, an existing contributor's pending reward is
/// credited to their claimable balance, and the contributor's units and
/// entry index are updated; the attestation is marked finalized.
pub fn finalize_attestation_units(
    state: &mut ProtocolState,
    attestation_id: &Address,
    project_id: &Address,
    contributor: &Address,
    units: u64,
    denom: &Denomination,
    timestamp: u64,
) -> (r: StateResult<()>)
    requires
        old(state).wf(),
    ensures
        final(state).wf(),
        match finalize_units_spec(old(state)@, *attestation_id, *project_id, *contributor, units, *denom, timestamp) {
            Some(w) => r is Ok && final(state)@ == w,
            None => r == Err::<(), StateError>(StateError::ArithmeticOverflow),
        },
{
    let ghost v0 = state@;
    let mut acc = state.get_or_create_accumulator(project_id, denom);
    let is_first_finalization = acc.total_finalized_units == 0;
    let entry_point_for_new_contributors = acc.reward_per_unit_global;

    if is_first_finalization && !acc.unallocated.is_zero() {
        if units == 0 {
            return Err(StateError::ArithmeticOverflow);
        }
        let scaled = match acc.unallocated.checked_shl128() {
            Some(s) => s,
            None => {
                return Err(StateError::ArithmeticOverflow);
            },
        };
        let reward_delta = scaled.div_u64(units);
        acc.reward_per_unit_global = match acc.reward_per_unit_global.checked_add(&reward_delta) {
            Some(g) => g,
            None => {
                return Err(StateError::ArithmeticOverflow);
            },
        };
        acc.unallocated = U256::zero();
    }
    let current_global = acc.reward_per_unit_global;
    if acc.total_finalized_units > u64::MAX - units {
        return Err(StateError::ArithmeticOverflow);
    }
    acc.total_finalized_units = acc.total_finalized_units + units;
    proof {
        lemma_u256_is_u256_of(acc.reward_per_unit_global);
        lemma_u256_is_u256_of(acc.unallocated);
    }
    state.set_accumulator(project_id, denom, acc);
    let ghost v1 = state@;
    assert(v1.accumulators =~= v0.accumulators.insert((*project_id, *denom), acc));

    let balance = state.get_or_create_balance(project_id, contributor, denom);
    let had_units = balance.units > 0;
    let ghost v1b = state@;
    if had_units {
        let pending = match compute_pending_reward(balance.units, current_global, balance.reward_per_unit_at_entry) {
            Some(p) => p,
            None => {
                return Err(StateError::ArithmeticOverflow);
            },
        };
        if !pending.is_zero() {
            if !state.try_credit_claimable(contributor, denom, pending) {
                return Err(StateError::ArithmeticOverflow);
            }
        }
    }
    let ghost v2 = state@;
    let mut balance = state.get_or_create_balance(project_id, contributor, denom);
    if balance.units > u64::MAX - units {
        return Err(StateError::ArithmeticOverflow);
    }
    balance.units = balance.units + units;
    balance.reward_per_unit_at_entry = if had_units {
        current_global
    } else {
        entry_point_for_new_contributors
    };
    proof {
        lemma_u256_is_u256_of(current_global);
        lemma_u256_is_u256_of(entry_point_for_new_contributors);
    }
    state.set_balance(project_id, contributor, denom, balance);
    let ghost v3 = state@;

    match state.get_attestation(attestation_id) {
        Some(att) => {
            let updated = crate::core_types::Attestation {
                status: AttestationStatus::Finalized,
                finalized_at: Some(timestamp),
                ..att
            };
            state.update_attestation(attestation_id, updated);
        },
        None => {},
    }
    proof {
        let spec_v = finalize_units_spec(v0, *attestation_id, *project_id, *contributor, units, *denom, timestamp).unwrap();
        assert(state@.accumulators =~= spec_v.accumulators);
        assert(state@.balances =~= spec_v.balances);
        assert(state@.claimable =~= spec_v.claimable);
        assert(state@.attestations =~= spec_v.attestations);
    }
    Ok(())
}

/// The revenue a contributor can claim from a project's labor pool now.
pub fn compute_claimable_revenue(
    state: &mut ProtocolState,
    project_id: &Address,
    contributor: &Address,
    denom: &Denomination,
) -> (r: StateResult<U256>)
    requires
        old(state).wf(),
    ensures
        final(state).wf(),
        final(state)@ == old(state)@,
        match claimable_revenue_spec(old(state)@, *project_id, *contributor, *denom) {
            Some(c) => r is Ok && r.unwrap()@ == c,
            None => r == Err::<U256, StateError>(StateError::ArithmeticOverflow),
        },
{
    let acc = match state.get_accumulator(project_id, denom) {
        Some(a) => a,
        None => {
            return Ok(U256::zero());
        },
    };
    let balance = match state.get_balance(project_id, contributor, denom) {
        Some(b) => b,
        None => {
            return Ok(U256::zero());
        },
    };
    if balance.units == 0 {
        return Ok(U256::zero());
    }
    let pending = match compute_pending_reward(balance.units, acc.reward_per_unit_global, balance.reward_per_unit_at_entry) {
        Some(p) => p,
        None => {
            return Err(StateError::ArithmeticOverflow);
        },
    };
    if pending.le(&balance.claimed) {
        Ok(U256::zero())
    } else {
        Ok(pending.minus(&balance.claimed))
    }
}

/// Adds revenue to a project's labor pool: held as unallocated until units
/// are finalized, otherwise spread over the finalized units by raising the
/// reward-per-unit index.
pub fn distribute_to_labor_pool(
    state: &mut ProtocolState,
    project_id: &Address,
    amount: U256,
    denom: &Denomination,
) -> (r: StateResult<()>)
    requires
        old(state).wf(),
    ensures
        final(state).wf(),
        match distribute_spec(old(state)@, *project_id, amount@, *denom) {
            Some(w) => r is Ok && final(state)@ == w,
            None => r == Err::<(), StateError>(StateError::ArithmeticOverflow),
        },
{
    if amount.is_zero() {
        return Ok(());
    }
    let ghost v0 = state@;
    let mut acc = state.get_or_create_accumulator(project_id, denom);
    if acc.total_finalized_units == 0 {
        acc.unallocated = match acc.unallocated.checked_add(&amount) {
            Some(u) => u,
            None => {
                return Err(StateError::ArithmeticOverflow);
            },
        };
        proof {
            lemma_u256_is_u256_of(acc.unallocated);
        }
    } else {
        let amount_scaled = match amount.checked_shl128() {
            Some(s) => s,
            None => {
                return Err(StateError::ArithmeticOverflow);
            },
        };
        let reward_delta = amount_scaled.div_u64(acc.total_finalized_units);
        acc.reward_per_unit_global = match acc.reward_per_unit_global.checked_add(&reward_delta) {
            Some(g) => g,
            None => {
                return Err(StateError::ArithmeticOverflow);
            },
        };
        proof {
            lemma_u256_is_u256_of(acc.reward_per_unit_global);
        }
    }
    state.set_accumulator(project_id, denom, acc);
    proof {
        let spec_v = distribute_spec(v0, *project_id, amount@, *denom).unwrap();
        assert(state@.accumulators =~= spec_v.accumulators);
    }
    Ok(())
}

/// Claims a contributor's labor-pool revenue: adds it to their `claimed`
/// total and returns it; `NothingToClaim` when nothing is owed.
pub fn claim_labor_pool_revenue(
    state: &mut ProtocolState,
    project_id: &Address,
    contributor: &Address,
    denom: &Denomination,
) -> (r: StateResult<U256>)
    requires
        old(state).wf(),
    ensures
        final(state).wf(),
        match claim_spec(old(state)@, *project_id, *contributor, *denom) {
            Some(out) => (final(state)@, r) == out,
            None => r == Err::<U256, StateError>(StateError::ArithmeticOverflow),
        },
{
    let ghost v0 = state@;
    let claimable = match compute_claimable_revenue(state, project_id, contributor, denom) {
        Ok(c) => c,
        Err(e) => {
            return Err(e);
        },
    };
    if claimable.is_zero() {
        return Err(StateError::NothingToClaim { project_id: *project_id, contributor: *contributor });
    }
    let mut balance = match state.get_balance(project_id, contributor, denom) {
        Some(b) => b,
        None => {
            return Err(StateError::ArithmeticOverflow);
        },
    };
    balance.claimed = match balance.claimed.checked_add(&claimable) {
        Some(c) => c,
        None => {
            return Err(StateError::ArithmeticOverflow);
        },
    };
    proof {
        lemma_u256_is_u256_of(balance.claimed);
        lemma_u256_is_u256_of(claimable);
    }
    state.set_balance(project_id, contributor, denom, balance);
    Ok(claimable)
}

} // verus!
