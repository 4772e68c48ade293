//! The state transition function: validates a signed transaction and
//! dispatches it to its handler.
use crate::core_types::{SignedTransaction, Transaction};
use crate::execute::attestation::{execute_finalize_attestation, execute_submit_attestation, finalize_attestation_spec, submit_attestation_spec, AttestationParams};
use crate::execute::challenge::{
    challenge_attestation_spec, execute_challenge_attestation, execute_resolve_challenge, execute_respond_to_challenge,
    resolve_challenge_spec, respond_to_challenge_spec,
};
use crate::execute::context::{context_at, ExecutionContext};
use crate::execute::identity::{
    create_agent_spec, create_identity_spec, deactivate_agent_spec, execute_create_agent, execute_create_identity,
    execute_deactivate_agent, execute_update_profile_hash, update_profile_hash_spec,
};
use crate::execute::project::{execute_register_project, register_project_spec, ProjectParams};
use crate::execute::revenue::{
    claim_reserve_spec, claim_revenue_spec, deposit_revenue_spec, execute_claim_reserve, execute_claim_revenue,
    execute_deposit_revenue,
};
use crate::protocol_state::{ProtocolState, StateView};
use crate::state_error::{StateError, StateResult};
use vstd::prelude::*;

verus! {

/// A handler's outcome with its value dropped.
pub open spec fn drop_value<T>(o: Option<(StateView, StateResult<T>)>) -> Option<(StateView, StateResult<()>)> {
    match o {
        None => None,
        Some((v, Ok(_))) => Some((v, Ok(()))),
        Some((v, Err(e))) => Some((v, Err(e))),
    }
}

/// The RegisterProject fields of a transaction.
pub open spec fn project_params_of(tx: Transaction) -> ProjectParams {
    match tx {
        Transaction::RegisterProject {
            creator,
            rho,
            phi,
            gamma,
            delta,
            phi_recipient,
            gamma_recipient,
            gamma_recipient_type,
            reserve_authority,
            deposit_authority,
            adjudicator,
            predecessor,
            verification_window,
            attestation_bond,
            challenge_bond,
            evidence_hash,
        } => ProjectParams {
            creator,
            rho,
            phi,
            gamma,
            delta,
            phi_recipient,
            gamma_recipient,
            gamma_recipient_type,
            reserve_authority,
            deposit_authority,
            adjudicator,
            predecessor,
            verification_window,
            attestation_bond,
            challenge_bond,
            evidence_hash,
        },
        _ => arbitrary(),
    }
}

/// The outcome of applying a signed transaction: `InvalidSignature` when
/// the signature did not verify, otherwise the outcome of its handler
/// (`None` where the handler's arithmetic overflows, which the executable
/// functions report as `ArithmeticOverflow`).
pub open spec fn apply_spec(v: StateView, stx: SignedTransaction, ctx: ExecutionContext) -> Option<(StateView, StateResult<()>)> {
    if !stx.signature_valid {
        Some((v, Err(StateError::InvalidSignature)))
    } else {
        let signer = stx.signer_address;
        match stx.tx {
            Transaction::CreateIdentity { .. } => drop_value(Some(create_identity_spec(v, stx.signer, signer))),
            Transaction::CreateAgent { parent, public_key } => drop_value(
                Some(create_agent_spec(v, signer, parent, public_key, stx.agent_address)),
            ),
            Transaction::UpdateProfileHash { identity, hash } => Some(update_profile_hash_spec(v, signer, identity, hash)),
            Transaction::DeactivateAgent { agent } => Some(deactivate_agent_spec(v, signer, agent)),
            Transaction::RegisterProject { .. } => drop_value(
                Some(register_project_spec(v, ctx.min_verification_window, signer, project_params_of(stx.tx), stx.tx_id)),
            ),
            Transaction::SubmitAttestation { project_id, units, evidence_hash, bond_poster, bond_amount, bond_denomination } => drop_value(
                Some(submit_attestation_spec(
                    v,
                    ctx.timestamp,
                    signer,
                    AttestationParams { project_id, units, evidence_hash, bond_poster, bond_amount, bond_denomination },
                    stx.tx_id,
                )),
            ),
            Transaction::FinalizeAttestation { attestation_id } => drop_value(finalize_attestation_spec(v, ctx.timestamp, attestation_id)),
            Transaction::ChallengeAttestation { attestation_id, evidence_hash, bond_poster, bond_amount } => drop_value(
                challenge_attestation_spec(v, ctx.timestamp, signer, attestation_id, evidence_hash, bond_poster, bond_amount, stx.tx_id),
            ),
            Transaction::RespondToChallenge { challenge_id, evidence_hash } => Some(
                respond_to_challenge_spec(v, signer, challenge_id, evidence_hash),
            ),
            Transaction::ResolveChallenge { challenge_id, ruling } => resolve_challenge_spec(v, ctx.timestamp, signer, challenge_id, ruling),
            Transaction::DepositRevenue { project_id, amount, denomination } => deposit_revenue_spec(v, signer, project_id, amount, denomination),
            Transaction::ClaimRevenue { project_id, denomination } => drop_value(
                claim_revenue_spec(v, signer, project_id, signer, denomination),
            ),
            Transaction::ClaimReserve { project_id, denomination, amount } => claim_reserve_spec(
                v,
                signer,
                project_id,
                signer,
                amount,
                denomination,
            ),
        }
    }
}

/// Applies a signed transaction with a block timestamp (default context);
/// `ArithmeticOverflow` where a balance or counter would overflow, the
/// state then being well formed but partly updated.
pub fn apply_transaction(state: &mut ProtocolState, signed_tx: &SignedTransaction, block_timestamp: u64) -> (r: StateResult<()>)
    requires
        old(state).wf(),
    ensures
        final(state).wf(),
        match apply_spec(old(state)@, *signed_tx, context_at(block_timestamp)) {
            Some(out) => (final(state)@, r) == out,
            None => r == Err::<(), StateError>(StateError::ArithmeticOverflow),
        },
{
    let ctx = ExecutionContext::with_timestamp(block_timestamp);
    apply_transaction_with_context(state, signed_tx, &ctx)
}

/// Applies a signed transaction: rejects an invalid signature, then runs
/// the transaction's handler with the signer's address; `ArithmeticOverflow`
/// where a balance or counter would overflow, the state then being well
/// formed but partly updated.
pub fn apply_transaction_with_context(state: &mut ProtocolState, signed_tx: &SignedTransaction, ctx: &ExecutionContext) -> (r: StateResult<()>)
    requires
        old(state).wf(),
    ensures
        final(state).wf(),
        match apply_spec(old(state)@, *signed_tx, *ctx) {
            Some(out) => (final(state)@, r) == out,
            None => r == Err::<(), StateError>(StateError::ArithmeticOverflow),
        },
{
    if !signed_tx.signature_valid {
        return Err(StateError::InvalidSignature);
    }
    let signer_address = signed_tx.signer_address;
    match signed_tx.tx {
        Transaction::CreateIdentity { .. } => {
            match execute_create_identity(state, ctx, &signed_tx.signer, &signer_address) {
                Ok(_) => Ok(()),
                Err(e) => Err(e),
            }
        },
        Transaction::CreateAgent { parent, public_key } => {
            match execute_create_agent(state, ctx, &signer_address, &parent, &public_key, &signed_tx.agent_address) {
                Ok(_) => Ok(()),
                Err(e) => Err(e),
            }
        },
        Transaction::UpdateProfileHash { identity, hash } => {
            execute_update_profile_hash(state, ctx, &signer_address, &identity, &hash)
        },
        Transaction::DeactivateAgent { agent } => execute_deactivate_agent(state, ctx, &signer_address, &agent),
        Transaction::RegisterProject {
            creator,
            rho,
            phi,
            gamma,
            delta,
            phi_recipient,
            gamma_recipient,
            gamma_recipient_type,
            reserve_authority,
            deposit_authority,
            adjudicator,
            predecessor,
            verification_window,
            attestation_bond,
            challenge_bond,
            evidence_hash,
        } => {
            let params = ProjectParams {
                creator,
                rho,
                phi,
                gamma,
                delta,
                phi_recipient,
                gamma_recipient,
                gamma_recipient_type,
                reserve_authority,
                deposit_authority,
                adjudicator,
                predecessor,
                verification_window,
                attestation_bond,
                challenge_bond,
                evidence_hash,
            };
            match execute_register_project(state, ctx, &signer_address, &params, &signed_tx.tx_id) {
                Ok(_) => Ok(()),
                Err(e) => Err(e),
            }
        },
        Transaction::SubmitAttestation { project_id, units, evidence_hash, bond_poster, bond_amount, bond_denomination } => {
            let params = AttestationParams { project_id, units, evidence_hash, bond_poster, bond_amount, bond_denomination };
            match execute_submit_attestation(state, ctx, &signer_address, &params, &signed_tx.tx_id) {
                Ok(_) => Ok(()),
                Err(e) => Err(e),
            }
        },
        Transaction::FinalizeAttestation { attestation_id } => {
            match execute_finalize_attestation(state, ctx, &attestation_id) {
                Ok(_) => Ok(()),
                Err(e) => Err(e),
            }
        },
        Transaction::ChallengeAttestation { attestation_id, evidence_hash, bond_poster, bond_amount } => {
            match execute_challenge_attestation(state, ctx, &signer_address, &attestation_id, &evidence_hash, bond_poster, bond_amount, &signed_tx.tx_id) {
                Ok(_) => Ok(()),
                Err(e) => Err(e),
            }
        },
        Transaction::RespondToChallenge { challenge_id, evidence_hash } => {
            execute_respond_to_challenge(state, ctx, &signer_address, &challenge_id, &evidence_hash)
        },
        Transaction::ResolveChallenge { challenge_id, ruling } => {
            execute_resolve_challenge(state, ctx, &signer_address, &challenge_id, &ruling)
        },
        Transaction::DepositRevenue { project_id, amount, denomination } => {
            execute_deposit_revenue(state, ctx, &signer_address, &project_id, amount, &denomination)
        },
        Transaction::ClaimRevenue { project_id, denomination } => {
            match execute_claim_revenue(state, ctx, &signer_address, &project_id, &signer_address, &denomination) {
                Ok(_) => Ok(()),
                Err(e) => Err(e),
            }
        },
        Transaction::ClaimReserve { project_id, denomination, amount } => {
            execute_claim_reserve(state, ctx, &signer_address, &project_id, &signer_address, amount, &denomination)
        },
    }
}

} // verus!
