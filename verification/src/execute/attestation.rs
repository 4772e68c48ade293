//! Attestation transactions: SubmitAttestation and FinalizeAttestation.
use crate::accumulator::{finalize_attestation_units, finalize_units_spec};
use crate::bond::{lock_attestation_bond, release_attestation_bond_spec, return_attestation_bond};
use crate::core_types::{Address, Attestation, AttestationStatus, Denomination, Hash32};
use crate::execute::context::ExecutionContext;
use crate::protocol_state::{ProtocolState, StateView};
use crate::state_error::{StateError, StateResult};
use crate::u256::U256;
use vstd::prelude::*;

verus! {

/// The fields a SubmitAttestation transaction carries.
#[derive(Clone, Copy, Debug, PartialEq, Eq)]
pub struct AttestationParams {
    /// The project worked on.
    pub project_id: Address,
    /// Units of work claimed.
    pub units: u64,
    /// Evidence hash.
    pub evidence_hash: Hash32,
    /// Identity posting the bond.
    pub bond_poster: Address,
    /// Bond amount.
    pub bond_amount: U256,
    /// Bond denomination.
    pub bond_denomination: Denomination,
}

/// The pending attestation a successful submission creates.
pub open spec fn new_attestation(a: AttestationParams, attestation_id: Address, contributor: Address, timestamp: u64) -> Attestation {
    Attestation {
        attestation_id,
        project_id: a.project_id,
        contributor,
        units: a.units,
        evidence_hash: a.evidence_hash,
        bond_poster: a.bond_poster,
        bond_amount: a.bond_amount,
        bond_denomination: a.bond_denomination,
        status: AttestationStatus::Pending,
        created_at: timestamp,
        finalized_at: None,
    }
}

/// SubmitAttestation: the project must exist, the signer (contributor) and
/// bond poster be active identities, units positive, the bond at least the
/// project's minimum and the id unused; then the bond is locked and a
/// pending attestation recorded.
pub open spec fn submit_attestation_spec(
    v: StateView,
    timestamp: u64,
    signer: Address,
    a: AttestationParams,
    attestation_id: Address,
) -> (StateView, StateResult<Address>) {
    if !v.projects.contains_key(a.project_id) {
        (v, Err(StateError::ProjectNotFound { project_id: a.project_id }))
    } else if !v.identities.contains_key(signer) {
        (v, Err(StateError::IdentityNotFound { address: signer }))
    } else if !v.identities[signer].active {
        (v, Err(StateError::IdentityDeactivated { address: signer }))
    } else if a.units == 0 {
        (v, Err(StateError::ZeroUnits))
    } else if !v.identities.contains_key(a.bond_poster) {
        (v, Err(StateError::BondPosterNotFound { bond_poster: a.bond_poster }))
    } else if !v.identities[a.bond_poster].active {
        (v, Err(StateError::BondPosterDeactivated { bond_poster: a.bond_poster }))
    } else if a.bond_amount@ < v.projects[a.project_id].attestation_bond {
        (v, Err(StateError::BondBelowMinimum {
            provided: a.bond_amount,
            required: U256 { hi: 0, lo: v.projects[a.project_id].attestation_bond as u128 },
        }))
    } else if v.attestations.contains_key(attestation_id) {
        (v, Err(StateError::AttestationAlreadyExists { attestation_id }))
    } else {
        (
            StateView {
                locked_bonds: v.locked_bonds.insert(attestation_id, a.bond_amount),
                attestations: v.attestations.insert(attestation_id, new_attestation(a, attestation_id, signer, timestamp)),
                ..v
            },
            Ok(attestation_id),
        )
    }
}

/// FinalizeAttestation: a pending attestation whose window has passed gets
/// its bond back and its units enter the labor pool (`None` where the
/// arithmetic overflows).
pub open spec fn finalize_attestation_spec(v: StateView, timestamp: u64, attestation_id: Address) -> Option<(StateView, StateResult<u64>)> {
    if !v.attestations.contains_key(attestation_id) {
        Some((v, Err(StateError::AttestationNotFound { attestation_id })))
    } else {
        let att = v.attestations[attestation_id];
        if att.status != AttestationStatus::Pending {
            Some((v, Err(StateError::AttestationNotPending { attestation_id, status: att.status })))
        } else if !v.projects.contains_key(att.project_id) {
            Some((v, Err(StateError::ProjectNotFound { project_id: att.project_id })))
        } else if att.created_at + v.projects[att.project_id].verification_window > u64::MAX {
            None
        } else {
            let expires_at = (att.created_at + v.projects[att.project_id].verification_window) as u64;
            if timestamp < expires_at {
                Some((v, Err(StateError::VerificationWindowNotExpired { attestation_id, expires_at, current: timestamp })))
            } else {
                match release_attestation_bond_spec(v, attestation_id, att.bond_poster, att.bond_denomination, true) {
                    None => None,
                    Some((v1, Err(e))) => Some((v1, Err(e))),
                    Some((v1, Ok(_))) => match finalize_units_spec(
                        v1,
                        attestation_id,
                        att.project_id,
                        att.contributor,
                        att.units,
                        att.bond_denomination,
                        timestamp,
                    ) {
                        None => None,
                        Some(v2) => Some((v2, Ok(att.units))),
                    },
                }
            }
        }
    }
}

/// Executes SubmitAttestation; the attestation id is `attestation_id`,
/// derived from the signed transaction.
pub fn execute_submit_attestation(
    state: &mut ProtocolState,
    ctx: &ExecutionContext,
    signer_address: &Address,
    params: &AttestationParams,
    attestation_id: &Address,
) -> (r: StateResult<Address>)
    requires
        old(state).wf(),
    ensures
        final(state).wf(),
        (final(state)@, r) == submit_attestation_spec(old(state)@, ctx.timestamp, *signer_address, *params, *attestation_id),
{
    let a = *params;
    let project = match state.get_project(&a.project_id) {
        Some(p) => p,
        None => {
            return Err(StateError::ProjectNotFound { project_id: a.project_id });
        },
    };
    let contributor = match state.get_identity(signer_address) {
        Some(c) => c,
        None => {
            return Err(StateError::IdentityNotFound { address: *signer_address });
        },
    };
    if !contributor.active {
        return Err(StateError::IdentityDeactivated { address: *signer_address });
    }
    if a.units == 0 {
        return Err(StateError::ZeroUnits);
    }
    let poster = match state.get_identity(&a.bond_poster) {
        Some(p) => p,
        None => {
            return Err(StateError::BondPosterNotFound { bond_poster: a.bond_poster });
        },
    };
    if !poster.active {
        return Err(StateError::BondPosterDeactivated { bond_poster: a.bond_poster });
    }
    let project_min_bond = U256::from_u64(project.attestation_bond);
    if a.bond_amount.lt(&project_min_bond) {
        return Err(StateError::BondBelowMinimum { provided: a.bond_amount, required: project_min_bond });
    }
    if state.attestation_exists(attestation_id) {
        return Err(StateError::AttestationAlreadyExists { attestation_id: *attestation_id });
    }
    match lock_attestation_bond(state, attestation_id, &a.bond_poster, a.bond_amount, &a.bond_denomination, project_min_bond) {
        Ok(()) => {},
        Err(e) => {
            return Err(e);
        },
    }
    let attestation = Attestation {
        attestation_id: *attestation_id,
        project_id: a.project_id,
        contributor: *signer_address,
        units: a.units,
        evidence_hash: a.evidence_hash,
        bond_poster: a.bond_poster,
        bond_amount: a.bond_amount,
        bond_denomination: a.bond_denomination,
        status: AttestationStatus::Pending,
        created_at: ctx.timestamp,
        finalized_at: None,
    };
    state.insert_attestation(attestation);
    Ok(*attestation_id)
}

/// Executes FinalizeAttestation (permissionless once the verification
/// window has passed); returns the finalized units.
pub fn execute_finalize_attestation(
    state: &mut ProtocolState,
    ctx: &ExecutionContext,
    attestation_id: &Address,
) -> (r: StateResult<u64>)
    requires
        old(state).wf(),
    ensures
        final(state).wf(),
        match finalize_attestation_spec(old(state)@, ctx.timestamp, *attestation_id) {
            Some(out) => (final(state)@, r) == out,
            None => r == Err::<u64, StateError>(StateError::ArithmeticOverflow),
        },
{
    let attestation = match state.get_attestation(attestation_id) {
        Some(a) => a,
        None => {
            return Err(StateError::AttestationNotFound { attestation_id: *attestation_id });
        },
    };
    if attestation.status != AttestationStatus::Pending {
        return Err(StateError::AttestationNotPending { attestation_id: *attestation_id, status: attestation.status });
    }
    let project = match state.get_project(&attestation.project_id) {
        Some(p) => p,
        None => {
            return Err(StateError::ProjectNotFound { project_id: attestation.project_id });
        },
    };
    let expires_at = match attestation.created_at.checked_add(project.verification_window) {
        Some(e) => e,
        None => {
            return Err(StateError::ArithmeticOverflow);
        },
    };
    if ctx.timestamp < expires_at {
        return Err(StateError::VerificationWindowNotExpired {
            attestation_id: *attestation_id,
            expires_at,
            current: ctx.timestamp,
        });
    }
    match return_attestation_bond(state, attestation_id, &attestation.bond_poster, &attestation.bond_denomination) {
        Ok(_) => {},
        Err(e) => {
            return Err(e);
        },
    }
    match finalize_attestation_units(
        state,
        attestation_id,
        &attestation.project_id,
        &attestation.contributor,
        attestation.units,
        &attestation.bond_denomination,
        ctx.timestamp,
    ) {
        Ok(()) => {},
        Err(e) => {
            return Err(e);
        },
    }
    Ok(attestation.units)
}

} // verus!
