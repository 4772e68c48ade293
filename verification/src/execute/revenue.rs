//! Revenue transactions: DepositRevenue, ClaimRevenue and ClaimReserve.
use crate::accumulator::{claim_labor_pool_revenue, claim_spec};
use crate::bond::credit_spec;
use crate::core_types::{AccumulatorState, Address, Denomination, IdentityType};
use crate::execute::context::ExecutionContext;
use crate::protocol_state::{lemma_u256_is_u256_of, u256_of, ProtocolState, StateView};
use crate::state_error::{StateError, StateResult};
use crate::u256::U256;
use crate::waterfall::{execute_waterfall, waterfall_spec};
use vstd::prelude::*;

verus! {

/// DepositRevenue: a positive amount, signed by the project's deposit
/// authority, routed through the project's waterfall from depth 0.
pub open spec fn deposit_revenue_spec(v: StateView, signer: Address, project_id: Address, amount: U256, denom: Denomination) -> Option<(StateView, StateResult<()>)> {
    if amount@ == 0 {
        Some((v, Err(StateError::ZeroDeposit)))
    } else if !v.projects.contains_key(project_id) {
        Some((v, Err(StateError::ProjectNotFound { project_id })))
    } else if signer != v.projects[project_id].deposit_authority {
        Some((v, Err(StateError::NotDepositAuthority { authority: v.projects[project_id].deposit_authority, signer })))
    } else {
        waterfall_spec(v, project_id, amount@, denom, 0)
    }
}

/// Who receives a contributor's claimed revenue: the contributor for a
/// human, the parent for an agent.
pub open spec fn revenue_recipient(v: StateView, contributor: Address) -> Address {
    let id = v.identities[contributor];
    match id.identity_type {
        IdentityType::Human => contributor,
        IdentityType::Agent => match id.parent {
            Some(p) => p,
            None => contributor,
        },
    }
}

/// ClaimRevenue: the contributor must be active; a human signs for itself,
/// an agent's parent signs for it; the claimed labor-pool revenue is
/// credited to the human (`None` on overflow).
pub open spec fn claim_revenue_spec(v: StateView, signer: Address, project_id: Address, contributor: Address, denom: Denomination) -> Option<(StateView, StateResult<U256>)> {
    if !v.projects.contains_key(project_id) {
        Some((v, Err(StateError::ProjectNotFound { project_id })))
    } else if !v.identities.contains_key(contributor) {
        Some((v, Err(StateError::IdentityNotFound { address: contributor })))
    } else if !v.identities[contributor].active {
        Some((v, Err(StateError::IdentityDeactivated { address: contributor })))
    } else {
        let id = v.identities[contributor];
        let auth: Option<StateError> = match id.identity_type {
            IdentityType::Human => if signer != contributor {
                Some(StateError::UnauthorizedSigner { expected: contributor, actual: signer })
            } else {
                None
            },
            IdentityType::Agent => match id.parent {
                None => Some(StateError::ParentNotFound { parent: contributor }),
                Some(p) => if signer != p {
                    Some(StateError::UnauthorizedSigner { expected: p, actual: signer })
                } else {
                    None
                },
            },
        };
        match auth {
            Some(e) => Some((v, Err(e))),
            None => match claim_spec(v, project_id, contributor, denom) {
                None => None,
                Some((v1, Err(e))) => Some((v1, Err(e))),
                Some((v1, Ok(c))) => match credit_spec(v1, revenue_recipient(v, contributor), denom, c@) {
                    None => None,
                    Some(v2) => Some((v2, Ok(c))),
                },
            },
        }
    }
}

/// ClaimReserve: a positive amount, signed by the reserve authority, paid
/// to an active recipient out of a sufficient reserve (`None` on overflow).
pub open spec fn claim_reserve_spec(v: StateView, signer: Address, project_id: Address, recipient: Address, amount: U256, denom: Denomination) -> Option<(StateView, StateResult<()>)> {
    if amount@ == 0 {
        Some((v, Err(StateError::ZeroClaim)))
    } else if !v.projects.contains_key(project_id) {
        Some((v, Err(StateError::ProjectNotFound { project_id })))
    } else if signer != v.projects[project_id].reserve_authority {
        Some((v, Err(StateError::NotReserveAuthority { authority: v.projects[project_id].reserve_authority, signer })))
    } else if !v.identities.contains_key(recipient) {
        Some((v, Err(StateError::IdentityNotFound { address: recipient })))
    } else if !v.identities[recipient].active {
        Some((v, Err(StateError::IdentityDeactivated { address: recipient })))
    } else if !v.accumulators.contains_key((project_id, denom)) {
        Some((v, Err(StateError::InsufficientReserve { available: U256 { hi: 0, lo: 0 }, requested: amount })))
    } else {
        let acc = v.accumulators[(project_id, denom)];
        if acc.reserve_balance@ < amount@ {
            Some((v, Err(StateError::InsufficientReserve { available: acc.reserve_balance, requested: amount })))
        } else {
            let v1 = StateView {
                accumulators: v.accumulators.insert(
                    (project_id, denom),
                    AccumulatorState { reserve_balance: u256_of((acc.reserve_balance@ - amount@) as nat), ..acc },
                ),
                ..v
            };
            match credit_spec(v1, recipient, denom, amount@) {
                None => None,
                Some(v2) => Some((v2, Ok(()))),
            }
        }
    }
}

/// Executes DepositRevenue.
pub fn execute_deposit_revenue(
    state: &mut ProtocolState,
    _ctx: &ExecutionContext,
    signer_address: &Address,
    project_id: &Address,
    amount: U256,
    denom: &Denomination,
) -> (r: StateResult<()>)
    requires
        old(state).wf(),
    ensures
        final(state).wf(),
        match deposit_revenue_spec(old(state)@, *signer_address, *project_id, amount, *denom) {
            Some(out) => (final(state)@, r) == out,
            None => r == Err::<(), StateError>(StateError::ArithmeticOverflow),
        },
{
    if amount.is_zero() {
        return Err(StateError::ZeroDeposit);
    }
    let project = match state.get_project(project_id) {
        Some(p) => p,
        None => {
            return Err(StateError::ProjectNotFound { project_id: *project_id });
        },
    };
    if !crate::assoc_map::bytes_eq(signer_address, &project.deposit_authority) {
        return Err(StateError::NotDepositAuthority { authority: project.deposit_authority, signer: *signer_address });
    }
    execute_waterfall(state, project_id, amount, denom, 0)
}

/// Executes ClaimRevenue for `contributor`.
pub fn execute_claim_revenue(
    state: &mut ProtocolState,
    _ctx: &ExecutionContext,
    signer_address: &Address,
    project_id: &Address,
    contributor: &Address,
    denom: &Denomination,
) -> (r: StateResult<U256>)
    requires
        old(state).wf(),
    ensures
        final(state).wf(),
        match claim_revenue_spec(old(state)@, *signer_address, *project_id, *contributor, *denom) {
            Some(out) => (final(state)@, r) == out,
            None => r == Err::<U256, StateError>(StateError::ArithmeticOverflow),
        },
{
    let ghost v0 = state@;
    if !state.project_exists(project_id) {
        return Err(StateError::ProjectNotFound { project_id: *project_id });
    }
    let identity = match state.get_identity(contributor) {
        Some(i) => i,
        None => {
            return Err(StateError::IdentityNotFound { address: *contributor });
        },
    };
    if !identity.active {
        return Err(StateError::IdentityDeactivated { address: *contributor });
    }
    match identity.identity_type {
        IdentityType::Human => {
            if !crate::assoc_map::bytes_eq(signer_address, contributor) {
                return Err(StateError::UnauthorizedSigner { expected: *contributor, actual: *signer_address });
            }
        },
        IdentityType::Agent => {
            let parent = match identity.parent {
                Some(p) => p,
                None => {
                    return Err(StateError::ParentNotFound { parent: *contributor });
                },
            };
            if !crate::assoc_map::bytes_eq(signer_address, &parent) {
                return Err(StateError::UnauthorizedSigner { expected: parent, actual: *signer_address });
            }
        },
    }
    let claimed = match claim_labor_pool_revenue(state, project_id, contributor, denom) {
        Ok(c) => c,
        Err(e) => {
            return Err(e);
        },
    };
    let recipient = match identity.identity_type {
        IdentityType::Human => *contributor,
        IdentityType::Agent => match identity.parent {
            Some(p) => p,
            None => *contributor,
        },
    };
    if !state.try_credit_claimable(&recipient, denom, claimed) {
        return Err(StateError::ArithmeticOverflow);
    }
    Ok(claimed)
}

/// Executes ClaimReserve, paying `recipient` out of the project's reserve.
pub fn execute_claim_reserve(
    state: &mut ProtocolState,
    _ctx: &ExecutionContext,
    signer_address: &Address,
    project_id: &Address,
    recipient: &Address,
    amount: U256,
    denom: &Denomination,
) -> (r: StateResult<()>)
    requires
        old(state).wf(),
    ensures
        final(state).wf(),
        match claim_reserve_spec(old(state)@, *signer_address, *project_id, *recipient, amount, *denom) {
            Some(out) => (final(state)@, r) == out,
            None => r == Err::<(), StateError>(StateError::ArithmeticOverflow),
        },
{
    if amount.is_zero() {
        return Err(StateError::ZeroClaim);
    }
    let project = match state.get_project(project_id) {
        Some(p) => p,
        None => {
            return Err(StateError::ProjectNotFound { project_id: *project_id });
        },
    };
    if !crate::assoc_map::bytes_eq(signer_address, &project.reserve_authority) {
        return Err(StateError::NotReserveAuthority { authority: project.reserve_authority, signer: *signer_address });
    }
    let recipient_identity = match state.get_identity(recipient) {
        Some(i) => i,
        None => {
            return Err(StateError::IdentityNotFound { address: *recipient });
        },
    };
    if !recipient_identity.active {
        return Err(StateError::IdentityDeactivated { address: *recipient });
    }
    let acc = match state.get_accumulator(project_id, denom) {
        Some(a) => a,
        None => {
            return Err(StateError::InsufficientReserve { available: U256 { hi: 0, lo: 0 }, requested: amount });
        },
    };
    if acc.reserve_balance.lt(&amount) {
        return Err(StateError::InsufficientReserve { available: acc.reserve_balance, requested: amount });
    }
    let reserve = acc.reserve_balance.minus(&amount);
    proof {
        lemma_u256_is_u256_of(reserve);
    }
    state.set_accumulator(project_id, denom, AccumulatorState { reserve_balance: reserve, ..acc });
    if !state.try_credit_claimable(recipient, denom, amount) {
        return Err(StateError::ArithmeticOverflow);
    }
    Ok(())
}

} // verus!
