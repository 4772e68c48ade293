//! Challenge transactions: ChallengeAttestation, RespondToChallenge and
//! ResolveChallenge.
use crate::accumulator::{finalize_attestation_units, finalize_units_spec};
use crate::bond::{
    forfeit_attestation_bond_to_challenger, forfeit_challenge_bond_to_attestor, lock_challenge_bond,
    lock_challenge_bond_spec, release_attestation_bond_spec, release_challenge_bond_spec, return_attestation_bond,
    return_challenge_bond,
};
use crate::core_types::{Address, Attestation, AttestationStatus, Challenge, ChallengeRuling, ChallengeStatus, Hash32};
use crate::execute::context::ExecutionContext;
use crate::protocol_state::{challenge_for_attestation, ProtocolState, StateView};
use crate::state_error::{StateError, StateResult};
use crate::u256::U256;
use vstd::prelude::*;

verus! {

/// The state with a challenge stored, recorded against its attestation,
/// and the attestation marked challenged.
pub open spec fn record_challenge(v: StateView, c: Challenge) -> StateView {
    let v1 = StateView {
        challenges: v.challenges.insert(c.challenge_id, c),
        attestation_challenges: v.attestation_challenges.insert(c.attestation_id, c.challenge_id),
        ..v
    };
    set_attestation_status(v1, c.attestation_id, AttestationStatus::Challenged)
}

/// The state with the attestation's status changed (when it exists).
pub open spec fn set_attestation_status(v: StateView, id: Address, status: AttestationStatus) -> StateView {
    if v.attestations.contains_key(id) {
        StateView { attestations: v.attestations.insert(id, Attestation { status, ..v.attestations[id] }), ..v }
    } else {
        v
    }
}

/// The state with the challenge's status changed (when it exists).
pub open spec fn set_challenge_status(v: StateView, id: Address, status: ChallengeStatus) -> StateView {
    if v.challenges.contains_key(id) {
        StateView { challenges: v.challenges.insert(id, Challenge { status, ..v.challenges[id] }), ..v }
    } else {
        v
    }
}

/// ChallengeAttestation: a pending attestation inside its window may be
/// challenged once, by an active identity other than the contributor;
/// when the project requires a challenge bond it must be posted by an
/// active identity and meet the requirement (`None` on overflow).
pub open spec fn challenge_attestation_spec(
    v: StateView,
    timestamp: u64,
    signer: Address,
    attestation_id: Address,
    evidence_hash: Hash32,
    bond_poster: Option<Address>,
    bond_amount: U256,
    challenge_id: Address,
) -> Option<(StateView, StateResult<Address>)> {
    if !v.attestations.contains_key(attestation_id) {
        Some((v, Err(StateError::AttestationNotFound { attestation_id })))
    } else {
        let att = v.attestations[attestation_id];
        if att.status != AttestationStatus::Pending {
            Some((v, Err(StateError::AttestationNotChallengeable { attestation_id })))
        } else if !v.projects.contains_key(att.project_id) {
            Some((v, Err(StateError::ProjectNotFound { project_id: att.project_id })))
        } else if att.created_at + v.projects[att.project_id].verification_window > u64::MAX {
            None
        } else {
            let project = v.projects[att.project_id];
            let expires_at = (att.created_at + project.verification_window) as u64;
            Some(
                if timestamp >= expires_at {
                    (v, Err(StateError::VerificationWindowExpired { attestation_id, expired_at: expires_at, current: timestamp }))
                } else if !v.identities.contains_key(signer) {
                    (v, Err(StateError::IdentityNotFound { address: signer }))
                } else if !v.identities[signer].active {
                    (v, Err(StateError::IdentityDeactivated { address: signer }))
                } else if signer == att.contributor {
                    (v, Err(StateError::ChallengerIsContributor { identity: signer }))
                } else if challenge_for_attestation(v, attestation_id) is Some {
                    (v, Err(StateError::ChallengeAlreadyExists { attestation_id }))
                } else if project.challenge_bond > 0 {
                    if bond_poster is None {
                        (v, Err(StateError::ChallengeBondPosterRequired))
                    } else if !v.identities.contains_key(bond_poster.unwrap()) {
                        (v, Err(StateError::BondPosterNotFound { bond_poster: bond_poster.unwrap() }))
                    } else if !v.identities[bond_poster.unwrap()].active {
                        (v, Err(StateError::BondPosterDeactivated { bond_poster: bond_poster.unwrap() }))
                    } else {
                        match lock_challenge_bond_spec(v, challenge_id, bond_amount, project.challenge_bond) {
                            (v1, Err(e)) => (v1, Err(e)),
                            (v1, Ok(_)) => (
                                record_challenge(v1, Challenge {
                                    challenge_id,
                                    attestation_id,
                                    challenger: signer,
                                    evidence_hash,
                                    response_hash: None,
                                    bond_poster,
                                    bond_amount,
                                    status: ChallengeStatus::Open,
                                    created_at: timestamp,
                                }),
                                Ok(challenge_id),
                            ),
                        }
                    }
                } else {
                    (
                        record_challenge(v, Challenge {
                            challenge_id,
                            attestation_id,
                            challenger: signer,
                            evidence_hash,
                            response_hash: None,
                            bond_poster: None,
                            bond_amount: U256 { hi: 0, lo: 0 },
                            status: ChallengeStatus::Open,
                            created_at: timestamp,
                        }),
                        Ok(challenge_id),
                    )
                },
            )
        }
    }
}

/// RespondToChallenge: the contributor answers an open challenge.
pub open spec fn respond_to_challenge_spec(v: StateView, signer: Address, challenge_id: Address, evidence_hash: Hash32) -> (StateView, StateResult<()>) {
    if !v.challenges.contains_key(challenge_id) {
        (v, Err(StateError::ChallengeNotFound { challenge_id }))
    } else {
        let ch = v.challenges[challenge_id];
        if ch.status != ChallengeStatus::Open {
            (v, Err(StateError::ChallengeCannotRespond { challenge_id, status: ch.status }))
        } else if !v.attestations.contains_key(ch.attestation_id) {
            (v, Err(StateError::AttestationNotFound { attestation_id: ch.attestation_id }))
        } else if signer != v.attestations[ch.attestation_id].contributor {
            (v, Err(StateError::UnauthorizedSigner { expected: v.attestations[ch.attestation_id].contributor, actual: signer }))
        } else {
            (
                StateView {
                    challenges: v.challenges.insert(
                        challenge_id,
                        Challenge { response_hash: Some(evidence_hash), status: ChallengeStatus::Responded, ..ch },
                    ),
                    ..v
                },
                Ok(()),
            )
        }
    }
}

/// ResolveChallenge: the project's adjudicator rules on an unresolved
/// challenge.  Valid: the attestation bond goes back to its poster, any
/// challenge bond is forfeited to that poster, and the attestation is
/// finalized.  Invalid: the attestation bond is forfeited to the
/// challenger, any challenge bond returned, and the attestation rejected
/// (`None` on overflow).
pub open spec fn resolve_challenge_spec(v: StateView, timestamp: u64, signer: Address, challenge_id: Address, ruling: ChallengeRuling) -> Option<(StateView, StateResult<()>)> {
    if !v.challenges.contains_key(challenge_id) {
        Some((v, Err(StateError::ChallengeNotFound { challenge_id })))
    } else {
        let ch = v.challenges[challenge_id];
        if ch.status == ChallengeStatus::ResolvedValid || ch.status == ChallengeStatus::ResolvedInvalid {
            Some((v, Err(StateError::ChallengeAlreadyResolved { challenge_id, status: ch.status })))
        } else if !v.attestations.contains_key(ch.attestation_id) {
            Some((v, Err(StateError::AttestationNotFound { attestation_id: ch.attestation_id })))
        } else {
            let att = v.attestations[ch.attestation_id];
            if !v.projects.contains_key(att.project_id) {
                Some((v, Err(StateError::ProjectNotFound { project_id: att.project_id })))
            } else if signer != v.projects[att.project_id].adjudicator {
                Some((v, Err(StateError::NotAdjudicator { adjudicator: v.projects[att.project_id].adjudicator, signer })))
            } else {
                match ruling {
                    ChallengeRuling::Valid => match release_attestation_bond_spec(v, ch.attestation_id, att.bond_poster, att.bond_denomination, true) {
                        None => None,
                        Some((v1, Err(e))) => Some((v1, Err(e))),
                        Some((v1, Ok(_))) => {
                            let r2 = if ch.bond_poster is Some {
                                release_challenge_bond_spec(v1, challenge_id, att.bond_poster, att.bond_denomination, true)
                            } else {
                                Some((v1, Ok(U256 { hi: 0, lo: 0 })))
                            };
                            match r2 {
                                None => None,
                                Some((v2, Err(e))) => Some((v2, Err(e))),
                                Some((v2, Ok(_))) => match finalize_units_spec(
                                    v2,
                                    ch.attestation_id,
                                    att.project_id,
                                    att.contributor,
                                    att.units,
                                    att.bond_denomination,
                                    timestamp,
                                ) {
                                    None => None,
                                    Some(v3) => Some((set_challenge_status(v3, challenge_id, ChallengeStatus::ResolvedValid), Ok(()))),
                                },
                            }
                        },
                    },
                    ChallengeRuling::Invalid => match release_attestation_bond_spec(v, ch.attestation_id, ch.challenger, att.bond_denomination, false) {
                        None => None,
                        Some((v1, Err(e))) => Some((v1, Err(e))),
                        Some((v1, Ok(_))) => {
                            let r2 = if ch.bond_poster is Some {
                                release_challenge_bond_spec(v1, challenge_id, ch.challenger, att.bond_denomination, false)
                            } else {
                                Some((v1, Ok(U256 { hi: 0, lo: 0 })))
                            };
                            match r2 {
                                None => None,
                                Some((v2, Err(e))) => Some((v2, Err(e))),
                                Some((v2, Ok(_))) => {
                                    let v3 = set_attestation_status(v2, ch.attestation_id, AttestationStatus::Rejected);
                                    Some((set_challenge_status(v3, challenge_id, ChallengeStatus::ResolvedInvalid), Ok(())))
                                },
                            }
                        },
                    },
                }
            }
        }
    }
}

/// Sets an attestation's status.
fn update_attestation_status(state: &mut ProtocolState, id: &Address, status: AttestationStatus)
    requires
        old(state).wf(),
    ensures
        final(state).wf(),
        final(state)@ == set_attestation_status(old(state)@, *id, status),
{
    match state.get_attestation(id) {
        Some(a) => {
            state.update_attestation(id, Attestation { status, ..a });
        },
        None => {},
    }
}

/// Sets a challenge's status.
fn update_challenge_status(state: &mut ProtocolState, id: &Address, status: ChallengeStatus)
    requires
        old(state).wf(),
    ensures
        final(state).wf(),
        final(state)@ == set_challenge_status(old(state)@, *id, status),
{
    match state.get_challenge(id) {
        Some(c) => {
            state.update_challenge(id, Challenge { status, ..c });
        },
        None => {},
    }
}

/// Executes ChallengeAttestation; the challenge id is `challenge_id`,
/// derived from the signed transaction.
pub fn execute_challenge_attestation(
    state: &mut ProtocolState,
    ctx: &ExecutionContext,
    signer_address: &Address,
    attestation_id: &Address,
    evidence_hash: &Hash32,
    bond_poster: Option<Address>,
    bond_amount: U256,
    challenge_id: &Address,
) -> (r: StateResult<Address>)
    requires
        old(state).wf(),
    ensures
        final(state).wf(),
        match challenge_attestation_spec(old(state)@, ctx.timestamp, *signer_address, *attestation_id, *evidence_hash, bond_poster, bond_amount, *challenge_id) {
            Some(out) => (final(state)@, r) == out,
            None => r == Err::<Address, StateError>(StateError::ArithmeticOverflow),
        },
{
    let attestation = match state.get_attestation(attestation_id) {
        Some(a) => a,
        None => {
            return Err(StateError::AttestationNotFound { attestation_id: *attestation_id });
        },
    };
    if attestation.status != AttestationStatus::Pending {
        return Err(StateError::AttestationNotChallengeable { attestation_id: *attestation_id });
    }
    let project = match state.get_project(&attestation.project_id) {
        Some(p) => p,
        None => {
            return Err(StateError::ProjectNotFound { project_id: attestation.project_id });
        },
    };
    let expires_at = match attestation.created_at.checked_add(project.verification_window) {
        Some(e) => e,
        None => {
            return Err(StateError::ArithmeticOverflow);
        },
    };
    if ctx.timestamp >= expires_at {
        return Err(StateError::VerificationWindowExpired {
            attestation_id: *attestation_id,
            expired_at: expires_at,
            current: ctx.timestamp,
        });
    }
    let challenger = match state.get_identity(signer_address) {
        Some(c) => c,
        None => {
            return Err(StateError::IdentityNotFound { address: *signer_address });
        },
    };
    if !challenger.active {
        return Err(StateError::IdentityDeactivated { address: *signer_address });
    }
    if crate::assoc_map::bytes_eq(signer_address, &attestation.contributor) {
        return Err(StateError::ChallengerIsContributor { identity: *signer_address });
    }
    if state.get_challenge_for_attestation(attestation_id).is_some() {
        return Err(StateError::ChallengeAlreadyExists { attestation_id: *attestation_id });
    }
    let (final_bond_poster, final_bond_amount) = if project.challenge_bond > 0 {
        let poster = match bond_poster {
            Some(p) => p,
            None => {
                return Err(StateError::ChallengeBondPosterRequired);
            },
        };
        let poster_identity = match state.get_identity(&poster) {
            Some(p) => p,
            None => {
                return Err(StateError::BondPosterNotFound { bond_poster: poster });
            },
        };
        if !poster_identity.active {
            return Err(StateError::BondPosterDeactivated { bond_poster: poster });
        }
        match lock_challenge_bond(state, challenge_id, &poster, bond_amount, &attestation.bond_denomination, project.challenge_bond) {
            Ok(()) => {},
            Err(e) => {
                return Err(e);
            },
        }
        (Some(poster), bond_amount)
    } else {
        (None, U256::from_u64(0))
    };
    proof {
        crate::u256::lemma_u256_view_injective(final_bond_amount, if project.challenge_bond > 0 { bond_amount } else { U256 { hi: 0, lo: 0 } });
    }
    let challenge = Challenge {
        challenge_id: *challenge_id,
        attestation_id: *attestation_id,
        challenger: *signer_address,
        evidence_hash: *evidence_hash,
        response_hash: None,
        bond_poster: final_bond_poster,
        bond_amount: final_bond_amount,
        status: ChallengeStatus::Open,
        created_at: ctx.timestamp,
    };
    state.insert_challenge(challenge);
    update_attestation_status(state, attestation_id, AttestationStatus::Challenged);
    Ok(*challenge_id)
}

/// Executes RespondToChallenge.
pub fn execute_respond_to_challenge(
    state: &mut ProtocolState,
    _ctx: &ExecutionContext,
    signer_address: &Address,
    challenge_id: &Address,
    evidence_hash: &Hash32,
) -> (r: StateResult<()>)
    requires
        old(state).wf(),
    ensures
        final(state).wf(),
        (final(state)@, r) == respond_to_challenge_spec(old(state)@, *signer_address, *challenge_id, *evidence_hash),
{
    let challenge = match state.get_challenge(challenge_id) {
        Some(c) => c,
        None => {
            return Err(StateError::ChallengeNotFound { challenge_id: *challenge_id });
        },
    };
    if challenge.status != ChallengeStatus::Open {
        return Err(StateError::ChallengeCannotRespond { challenge_id: *challenge_id, status: challenge.status });
    }
    let attestation = match state.get_attestation(&challenge.attestation_id) {
        Some(a) => a,
        None => {
            return Err(StateError::AttestationNotFound { attestation_id: challenge.attestation_id });
        },
    };
    if !crate::assoc_map::bytes_eq(signer_address, &attestation.contributor) {
        return Err(StateError::UnauthorizedSigner { expected: attestation.contributor, actual: *signer_address });
    }
    state.update_challenge(
        challenge_id,
        Challenge { response_hash: Some(*evidence_hash), status: ChallengeStatus::Responded, ..challenge },
    );
    Ok(())
}

/// Executes ResolveChallenge (see `resolve_challenge_spec`).
pub fn execute_resolve_challenge(
    state: &mut ProtocolState,
    ctx: &ExecutionContext,
    signer_address: &Address,
    challenge_id: &Address,
    ruling: &ChallengeRuling,
) -> (r: StateResult<()>)
    requires
        old(state).wf(),
    ensures
        final(state).wf(),
        match resolve_challenge_spec(old(state)@, ctx.timestamp, *signer_address, *challenge_id, *ruling) {
            Some(out) => (final(state)@, r) == out,
            None => r == Err::<(), StateError>(StateError::ArithmeticOverflow),
        },
{
    let challenge = match state.get_challenge(challenge_id) {
        Some(c) => c,
        None => {
            return Err(StateError::ChallengeNotFound { challenge_id: *challenge_id });
        },
    };
    if challenge.status == ChallengeStatus::ResolvedValid || challenge.status == ChallengeStatus::ResolvedInvalid {
        return Err(StateError::ChallengeAlreadyResolved { challenge_id: *challenge_id, status: challenge.status });
    }
    let attestation = match state.get_attestation(&challenge.attestation_id) {
        Some(a) => a,
        None => {
            return Err(StateError::AttestationNotFound { attestation_id: challenge.attestation_id });
        },
    };
    let project = match state.get_project(&attestation.project_id) {
        Some(p) => p,
        None => {
            return Err(StateError::ProjectNotFound { project_id: attestation.project_id });
        },
    };
    if !crate::assoc_map::bytes_eq(signer_address, &project.adjudicator) {
        return Err(StateError::NotAdjudicator { adjudicator: project.adjudicator, signer: *signer_address });
    }
    match ruling {
        ChallengeRuling::Valid => {
            match return_attestation_bond(state, &challenge.attestation_id, &attestation.bond_poster, &attestation.bond_denomination) {
                Ok(_) => {},
                Err(e) => {
                    return Err(e);
                },
            }
            if challenge.bond_poster.is_some() {
                match forfeit_challenge_bond_to_attestor(state, challenge_id, &attestation.bond_poster, &attestation.bond_denomination) {
                    Ok(_) => {},
                    Err(e) => {
                        return Err(e);
                    },
                }
            }
            match finalize_attestation_units(
                state,
                &challenge.attestation_id,
                &attestation.project_id,
                &attestation.contributor,
                attestation.units,
                &attestation.bond_denomination,
                ctx.timestamp,
            ) {
                Ok(()) => {},
                Err(e) => {
                    return Err(e);
                },
            }
            update_challenge_status(state, challenge_id, ChallengeStatus::ResolvedValid);
        },
        ChallengeRuling::Invalid => {
            match forfeit_attestation_bond_to_challenger(state, &challenge.attestation_id, &challenge.challenger, &attestation.bond_denomination) {
                Ok(_) => {},
                Err(e) => {
                    return Err(e);
                },
            }
            if challenge.bond_poster.is_some() {
                match return_challenge_bond(state, challenge_id, &challenge.challenger, &attestation.bond_denomination) {
                    Ok(_) => {},
                    Err(e) => {
                        return Err(e);
                    },
                }
            }
            update_attestation_status(state, &challenge.attestation_id, AttestationStatus::Rejected);
            update_challenge_status(state, challenge_id, ChallengeStatus::ResolvedInvalid);
        },
    }
    Ok(())
}

} // verus!
