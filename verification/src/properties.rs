//! Properties of the state transition function that hold across calls.
use crate::accumulator::{claim_spec, claimable_revenue_spec, distribute_spec, finalize_units_spec, fits, mark_finalized, pending_reward};
use crate::bond::{credit_spec, release_attestation_bond_spec, release_challenge_bond_spec};
use crate::core_types::{Address, Attestation, AttestationStatus, Denomination, SignedTransaction, Transaction};
use crate::execute::attestation::{finalize_attestation_spec, submit_attestation_spec};
use crate::execute::challenge::{
    challenge_attestation_spec, record_challenge, resolve_challenge_spec, respond_to_challenge_spec, set_attestation_status,
    set_challenge_status,
};
use crate::execute::context::ExecutionContext;
use crate::execute::executor::{apply_spec, drop_value, project_params_of};
use crate::execute::identity::{create_agent_spec, create_identity_spec, deactivate_agent_spec, update_profile_hash_spec};
use crate::execute::revenue::{claim_reserve_spec, claim_revenue_spec, deposit_revenue_spec};
use crate::protocol_state::{claimable_of, credit_view, lemma_u256_of, StateView};
use crate::u256::{b128, u256_max};
use crate::waterfall::{waterfall_spec, MAX_CHAIN_DEPTH};
use vstd::prelude::*;

verus! {

/// No direct claimable balance went down from `v` to `w`.
pub open spec fn claimables_grow(v: StateView, w: StateView) -> bool {
    forall|id: Address, d: Denomination| #[trigger] claimable_of(w, id, d) >= claimable_of(v, id, d)
}

/// Every project of `v` is in `w`, unchanged.
pub open spec fn projects_kept(v: StateView, w: StateView) -> bool {
    forall|p: Address| #[trigger] v.projects.contains_key(p) ==> w.projects.contains_key(p) && w.projects[p] == v.projects[p]
}

/// Both relations together: `w` follows `v` without taking anything back.
pub open spec fn follows(v: StateView, w: StateView) -> bool {
    claimables_grow(v, w) && projects_kept(v, w)
}

proof fn lemma_follows_trans(a: StateView, b: StateView, c: StateView)
    requires
        follows(a, b),
        follows(b, c),
    ensures
        follows(a, c),
{
    assert forall|id: Address, d: Denomination| #[trigger] claimable_of(c, id, d) >= claimable_of(a, id, d) by {
        assert(claimable_of(c, id, d) >= claimable_of(b, id, d));
        assert(claimable_of(b, id, d) >= claimable_of(a, id, d));
    }
}

proof fn lemma_credit_follows(v: StateView, id: Address, d: Denomination, amount: nat)
    requires
        credit_spec(v, id, d, amount) is Some,
    ensures
        follows(v, credit_spec(v, id, d, amount).unwrap()),
{
    let w = credit_spec(v, id, d, amount).unwrap();
    lemma_u256_of(claimable_of(v, id, d) + amount);
    assert forall|i: Address, e: Denomination| #[trigger] claimable_of(w, i, e) >= claimable_of(v, i, e) by {
        if (i, e) != (id, d) {
            assert(w.claimable.contains_key((i, e)) == v.claimable.contains_key((i, e)));
        }
    }
}

proof fn lemma_credit_view_follows(v: StateView, id: Address, d: Denomination, amount: nat)
    requires
        claimable_of(v, id, d) + amount <= u256_max(),
    ensures
        follows(v, credit_view(v, id, d, amount)),
{
    lemma_credit_follows(v, id, d, amount);
}

proof fn lemma_finalize_follows(v: StateView, a: Address, p: Address, c: Address, units: u64, d: Denomination, ts: u64)
    requires
        finalize_units_spec(v, a, p, c, units, d, ts) is Some,
    ensures
        follows(v, finalize_units_spec(v, a, p, c, units, d, ts).unwrap()),
{
    let acc = crate::protocol_state::acc_of(v, p, d);
    let (global1, unalloc1) = crate::accumulator::absorb_unallocated(acc, units).unwrap();
    let acc1 = crate::core_types::AccumulatorState {
        reward_per_unit_global: crate::protocol_state::u256_of(global1),
        total_finalized_units: (acc.total_finalized_units + units) as u64,
        unallocated: crate::protocol_state::u256_of(unalloc1),
        reserve_balance: acc.reserve_balance,
    };
    let v1 = StateView { accumulators: v.accumulators.insert((p, d), acc1), ..v };
    assert(follows(v, v1));
    let bal = crate::protocol_state::bal_of(v, p, c, d);
    let had = bal.units > 0;
    if had {
        let pending = pending_reward(bal.units as nat, global1, bal.reward_per_unit_at_entry@).unwrap();
        if pending != 0 {
            lemma_credit_view_follows(v1, c, d, pending);
        }
    }
}

proof fn lemma_distribute_follows(v: StateView, p: Address, amount: nat, d: Denomination)
    requires
        distribute_spec(v, p, amount, d) is Some,
    ensures
        follows(v, distribute_spec(v, p, amount, d).unwrap()),
{
}

/// The waterfall moves revenue forward only: no claimable balance
/// decreases and no project changes.
pub proof fn lemma_waterfall_follows(v: StateView, p: Address, amount: nat, d: Denomination, depth: int)
    requires
        waterfall_spec(v, p, amount, d, depth) is Some,
    ensures
        follows(v, waterfall_spec(v, p, amount, d, depth).unwrap().0),
    decreases MAX_CHAIN_DEPTH + 1 - depth,
{
    if amount == 0 || depth > MAX_CHAIN_DEPTH as int || depth < 0 || !v.projects.contains_key(p) {
        return;
    }
    let proj = v.projects[p];
    let mut v1 = v;
    let mut rem1 = amount;
    match proj.predecessor {
        Some(pred_id) => {
            let (dd, rest) = crate::waterfall::take_slice(amount, proj.delta).unwrap();
            if dd != 0 {
                lemma_waterfall_follows(v, pred_id, dd, d, depth + 1);
                let r = waterfall_spec(v, pred_id, dd, d, depth + 1).unwrap();
                v1 = r.0;
                if r.1 is Err {
                    return;
                }
                rem1 = rest;
            }
        },
        None => {},
    }
    assert(follows(v, v1));
    let (rv, rem2) = crate::waterfall::take_slice(rem1, proj.rho).unwrap();
    let acc = crate::protocol_state::acc_of(v1, p, d);
    let v2 = if rv != 0 {
        StateView {
            accumulators: v1.accumulators.insert(
                (p, d),
                crate::core_types::AccumulatorState { reserve_balance: crate::protocol_state::u256_of((acc.reserve_balance@ + rv) as nat), ..acc },
            ),
            ..v1
        }
    } else {
        v1
    };
    assert(follows(v1, v2));
    lemma_follows_trans(v, v1, v2);
    let (fv, rem3) = crate::waterfall::take_slice(rem2, proj.phi).unwrap();
    let v3 = if fv != 0 {
        lemma_credit_follows(v2, proj.phi_recipient, d, fv);
        credit_spec(v2, proj.phi_recipient, d, fv).unwrap()
    } else {
        v2
    };
    lemma_follows_trans(v, v2, v3);
    let (gv, rem4) = crate::waterfall::take_slice(rem3, proj.gamma).unwrap();
    let mut v4 = v3;
    if gv != 0 {
        match proj.gamma_recipient_type {
            crate::core_types::RecipientType::Identity => {
                lemma_credit_follows(v3, proj.gamma_recipient, d, gv);
                v4 = credit_spec(v3, proj.gamma_recipient, d, gv).unwrap();
            },
            crate::core_types::RecipientType::Project => {
                lemma_waterfall_follows(v3, proj.gamma_recipient, gv, d, depth + 1);
                let r = waterfall_spec(v3, proj.gamma_recipient, gv, d, depth + 1).unwrap();
                v4 = r.0;
                lemma_follows_trans(v, v3, v4);
                if r.1 is Err {
                    return;
                }
            },
        }
    }
    lemma_follows_trans(v, v3, v4);
    if rem4 != 0 {
        lemma_distribute_follows(v4, p, rem4, d);
        lemma_follows_trans(v, v4, distribute_spec(v4, p, rem4, d).unwrap());
    }
}

proof fn lemma_release_attestation_bond_follows(v: StateView, a: Address, r: Address, d: Denomination, skip: bool)
    requires
        release_attestation_bond_spec(v, a, r, d, skip) is Some,
    ensures
        follows(v, release_attestation_bond_spec(v, a, r, d, skip).unwrap().0),
{
    if v.locked_bonds.contains_key(a) {
        let locked = v.locked_bonds[a];
        let v1 = StateView { locked_bonds: v.locked_bonds.remove(a), ..v };
        if !(skip && locked@ == 0) {
            lemma_credit_follows(v1, r, d, locked@);
        }
    }
}

proof fn lemma_release_challenge_bond_follows(v: StateView, c: Address, r: Address, d: Denomination, ok: bool)
    requires
        release_challenge_bond_spec(v, c, r, d, ok) is Some,
    ensures
        follows(v, release_challenge_bond_spec(v, c, r, d, ok).unwrap().0),
{
    if v.challenge_bonds.contains_key(c) {
        let locked = v.challenge_bonds[c];
        let v1 = StateView { challenge_bonds: v.challenge_bonds.remove(c), ..v };
        lemma_credit_follows(v1, r, d, locked@);
    }
}

/// Applying any transaction takes no claimable balance back and changes
/// no registered project: revenue once credited stays credited, and a
/// project's parameters are fixed at registration.
pub proof fn lemma_apply_follows(v: StateView, stx: SignedTransaction, ctx: ExecutionContext)
    requires
        apply_spec(v, stx, ctx) is Some,
    ensures
        follows(v, apply_spec(v, stx, ctx).unwrap().0),
{
    if !stx.signature_valid {
        return;
    }
    let signer = stx.signer_address;
    match stx.tx {
        Transaction::CreateIdentity { .. } => {},
        Transaction::CreateAgent { .. } => {},
        Transaction::UpdateProfileHash { .. } => {},
        Transaction::DeactivateAgent { .. } => {},
        Transaction::RegisterProject { .. } => {},
        Transaction::SubmitAttestation { .. } => {},
        Transaction::FinalizeAttestation { attestation_id } => {
            let att = v.attestations[attestation_id];
            if v.attestations.contains_key(attestation_id) && att.status == crate::core_types::AttestationStatus::Pending
                && v.projects.contains_key(att.project_id) {
                let expires_at = (att.created_at + v.projects[att.project_id].verification_window) as u64;
                if ctx.timestamp >= expires_at {
                    lemma_release_attestation_bond_follows(v, attestation_id, att.bond_poster, att.bond_denomination, true);
                    let r1 = release_attestation_bond_spec(v, attestation_id, att.bond_poster, att.bond_denomination, true).unwrap();
                    if r1.1 is Ok {
                        lemma_finalize_follows(r1.0, attestation_id, att.project_id, att.contributor, att.units, att.bond_denomination, ctx.timestamp);
                        lemma_follows_trans(v, r1.0, finalize_units_spec(r1.0, attestation_id, att.project_id, att.contributor, att.units, att.bond_denomination, ctx.timestamp).unwrap());
                    }
                }
            }
        },
        Transaction::ChallengeAttestation { .. } => {},
        Transaction::RespondToChallenge { .. } => {},
        Transaction::ResolveChallenge { challenge_id, ruling } => {
            lemma_resolve_follows(v, ctx.timestamp, signer, challenge_id, ruling);
        },
        Transaction::DepositRevenue { project_id, amount, denomination } => {
            if amount@ != 0 && v.projects.contains_key(project_id) && signer == v.projects[project_id].deposit_authority {
                lemma_waterfall_follows(v, project_id, amount@, denomination, 0);
            }
        },
        Transaction::ClaimRevenue { project_id, denomination } => {
            lemma_claim_revenue_follows(v, signer, project_id, denomination);
        },
        Transaction::ClaimReserve { project_id, denomination, amount } => {
            lemma_claim_reserve_follows(v, signer, project_id, amount, denomination);
        },
    }
}

proof fn lemma_resolve_follows(v: StateView, ts: u64, signer: Address, cid: Address, ruling: crate::core_types::ChallengeRuling)
    requires
        resolve_challenge_spec(v, ts, signer, cid, ruling) is Some,
    ensures
        follows(v, resolve_challenge_spec(v, ts, signer, cid, ruling).unwrap().0),
{
    if !v.challenges.contains_key(cid) {
        return;
    }
    let ch = v.challenges[cid];
    if ch.status == crate::core_types::ChallengeStatus::ResolvedValid || ch.status == crate::core_types::ChallengeStatus::ResolvedInvalid
        || !v.attestations.contains_key(ch.attestation_id) {
        return;
    }
    let att = v.attestations[ch.attestation_id];
    if !v.projects.contains_key(att.project_id) || signer != v.projects[att.project_id].adjudicator {
        return;
    }
    match ruling {
        crate::core_types::ChallengeRuling::Valid => {
            lemma_release_attestation_bond_follows(v, ch.attestation_id, att.bond_poster, att.bond_denomination, true);
            let (v1, r1) = release_attestation_bond_spec(v, ch.attestation_id, att.bond_poster, att.bond_denomination, true).unwrap();
            if r1 is Ok {
                let (v2, r2) = if ch.bond_poster is Some {
                    lemma_release_challenge_bond_follows(v1, cid, att.bond_poster, att.bond_denomination, true);
                    release_challenge_bond_spec(v1, cid, att.bond_poster, att.bond_denomination, true).unwrap()
                } else {
                    (v1, Ok(crate::u256::U256 { hi: 0, lo: 0 }))
                };
                lemma_follows_trans(v, v1, v2);
                if r2 is Ok {
                    lemma_finalize_follows(v2, ch.attestation_id, att.project_id, att.contributor, att.units, att.bond_denomination, ts);
                    let v3 = finalize_units_spec(v2, ch.attestation_id, att.project_id, att.contributor, att.units, att.bond_denomination, ts).unwrap();
                    lemma_follows_trans(v, v2, v3);
                    assert(follows(v3, set_challenge_status(v3, cid, crate::core_types::ChallengeStatus::ResolvedValid)));
                    lemma_follows_trans(v, v3, set_challenge_status(v3, cid, crate::core_types::ChallengeStatus::ResolvedValid));
                }
            }
        },
        crate::core_types::ChallengeRuling::Invalid => {
            lemma_release_attestation_bond_follows(v, ch.attestation_id, ch.challenger, att.bond_denomination, false);
            let (v1, r1) = release_attestation_bond_spec(v, ch.attestation_id, ch.challenger, att.bond_denomination, false).unwrap();
            if r1 is Ok {
                let (v2, r2) = if ch.bond_poster is Some {
                    lemma_release_challenge_bond_follows(v1, cid, ch.challenger, att.bond_denomination, false);
                    release_challenge_bond_spec(v1, cid, ch.challenger, att.bond_denomination, false).unwrap()
                } else {
                    (v1, Ok(crate::u256::U256 { hi: 0, lo: 0 }))
                };
                lemma_follows_trans(v, v1, v2);
                if r2 is Ok {
                    let v3 = set_attestation_status(v2, ch.attestation_id, crate::core_types::AttestationStatus::Rejected);
                    assert(follows(v2, v3));
                    lemma_follows_trans(v, v2, v3);
                    let v4 = set_challenge_status(v3, cid, crate::core_types::ChallengeStatus::ResolvedInvalid);
                    assert(follows(v3, v4));
                    lemma_follows_trans(v, v3, v4);
                }
            }
        },
    }
}

proof fn lemma_claim_revenue_follows(v: StateView, signer: Address, p: Address, d: Denomination)
    requires
        claim_revenue_spec(v, signer, p, signer, d) is Some,
    ensures
        follows(v, claim_revenue_spec(v, signer, p, signer, d).unwrap().0),
{
    match claim_spec(v, p, signer, d) {
        Some((v1, Ok(c))) => {
            if v.projects.contains_key(p) && v.identities.contains_key(signer) && v.identities[signer].active {
                assert(follows(v, v1));
                if credit_spec(v1, crate::execute::revenue::revenue_recipient(v, signer), d, c@) is Some {
                    lemma_credit_follows(v1, crate::execute::revenue::revenue_recipient(v, signer), d, c@);
                    lemma_follows_trans(v, v1, credit_spec(v1, crate::execute::revenue::revenue_recipient(v, signer), d, c@).unwrap());
                }
            }
        },
        _ => {},
    }
}

proof fn lemma_claim_reserve_follows(v: StateView, signer: Address, p: Address, amount: crate::u256::U256, d: Denomination)
    requires
        claim_reserve_spec(v, signer, p, signer, amount, d) is Some,
    ensures
        follows(v, claim_reserve_spec(v, signer, p, signer, amount, d).unwrap().0),
{
    if amount@ != 0 && v.projects.contains_key(p) && signer == v.projects[p].reserve_authority && v.identities.contains_key(signer)
        && v.identities[signer].active && v.accumulators.contains_key((p, d)) {
        let acc = v.accumulators[(p, d)];
        if acc.reserve_balance@ >= amount@ {
            let v1 = StateView {
                accumulators: v.accumulators.insert(
                    (p, d),
                    crate::core_types::AccumulatorState { reserve_balance: crate::protocol_state::u256_of((acc.reserve_balance@ - amount@) as nat), ..acc },
                ),
                ..v
            };
            assert(follows(v, v1));
            lemma_credit_follows(v1, signer, d, amount@);
            lemma_follows_trans(v, v1, credit_spec(v1, signer, d, amount@).unwrap());
        }
    }
}

/// After a successful labor-pool claim, nothing more can be claimed until
/// new revenue arrives.
pub proof fn lemma_claim_exhausts(v: StateView, p: Address, c: Address, d: Denomination)
    requires
        claim_spec(v, p, c, d) is Some,
        claim_spec(v, p, c, d).unwrap().1 is Ok,
    ensures
        claimable_revenue_spec(claim_spec(v, p, c, d).unwrap().0, p, c, d) == Some(0nat),
{
    let c0 = claimable_revenue_spec(v, p, c, d).unwrap();
    let bal = v.balances[(p, c, d)];
    lemma_u256_of((bal.claimed@ + c0) as nat);
}

/// A deposit spread over `total` finalized units never pays a contributor
/// holding `units` of them more than their pro-rata share
/// `units * amount / total`.
pub proof fn lemma_share_bounded(amount: nat, total: nat, units: nat)
    requires
        total > 0,
        units <= total,
    ensures
        (units * ((amount * b128()) / (total as int))) / b128() <= ((units * amount) as int) / (total as int),
{
    let big = b128();
    let q = (amount * big) / (total as int);
    assert(q * total <= amount * big) by {
        vstd::arithmetic::div_mod::lemma_fundamental_div_mod(amount * big, total as int);
    }
    assert(units * q * total <= units * amount * big) by (nonlinear_arith)
        requires
            q * total <= amount * big,
            units >= 0,
    ;
    let lhs = (units * q) / big;
    assert(lhs * big <= units * q) by {
        vstd::arithmetic::div_mod::lemma_fundamental_div_mod(units * q, big);
        vstd::arithmetic::div_mod::lemma_mod_pos_bound(units * q, big);
    }
    assert(lhs * total <= units * amount) by (nonlinear_arith)
        requires
            lhs * big <= units * q,
            units * q * total <= units * amount * big,
            big > 0,
            total > 0,
            lhs >= 0,
    ;
    assert(lhs <= ((units * amount) as int) / (total as int)) by {
        vstd::arithmetic::div_mod::lemma_div_is_ordered(lhs * total, (units * amount) as int, total as int);
        vstd::arithmetic::div_mod::lemma_div_multiples_vanish(lhs, total as int);
        vstd::arithmetic::mul::lemma_mul_is_commutative(lhs, total as int);
    }
}

/// Whether an attestation is settled: finalized or rejected.
pub open spec fn settled(a: Attestation) -> bool {
    a.status == AttestationStatus::Finalized || a.status == AttestationStatus::Rejected
}

/// No settled attestation of `v` still has a bond locked (settling an
/// attestation releases its bond). This holds of the empty state and every
/// transaction keeps it.
pub open spec fn settled_unbonded(v: StateView) -> bool {
    forall|a: Address| #[trigger] v.attestations.contains_key(a) && settled(v.attestations[a]) ==> !v.locked_bonds.contains_key(a)
}

/// Every settled attestation of `v` is in `w`, unchanged.
pub open spec fn settled_kept(v: StateView, w: StateView) -> bool {
    forall|a: Address| #[trigger] v.attestations.contains_key(a) && settled(v.attestations[a]) ==> w.attestations.contains_key(a)
        && w.attestations[a] == v.attestations[a]
}

/// `w` has the attestations and locked bonds of `v`.
spec fn attestations_frame(v: StateView, w: StateView) -> bool {
    w.attestations == v.attestations && w.locked_bonds == v.locked_bonds
}

#[verifier::spinoff_prover]
#[verifier::rlimit(50)]
proof fn lemma_waterfall_frame(v: StateView, p: Address, amount: nat, d: Denomination, depth: int)
    requires
        waterfall_spec(v, p, amount, d, depth) is Some,
    ensures
        attestations_frame(v, waterfall_spec(v, p, amount, d, depth).unwrap().0),
    decreases MAX_CHAIN_DEPTH + 1 - depth,
{
    if amount == 0 || depth > MAX_CHAIN_DEPTH as int || depth < 0 || !v.projects.contains_key(p) {
        return;
    }
    let proj = v.projects[p];
    let mut v1 = v;
    let mut rem1 = amount;
    match proj.predecessor {
        Some(pred_id) => {
            let (dd, rest) = crate::waterfall::take_slice(amount, proj.delta).unwrap();
            if dd != 0 {
                lemma_waterfall_frame(v, pred_id, dd, d, depth + 1);
                let r = waterfall_spec(v, pred_id, dd, d, depth + 1).unwrap();
                v1 = r.0;
                if r.1 is Err {
                    return;
                }
                rem1 = rest;
            }
        },
        None => {},
    }
    assert(attestations_frame(v, v1));
    let (rv, rem2) = crate::waterfall::take_slice(rem1, proj.rho).unwrap();
    let acc = crate::protocol_state::acc_of(v1, p, d);
    let v2 = if rv != 0 {
        StateView {
            accumulators: v1.accumulators.insert(
                (p, d),
                crate::core_types::AccumulatorState { reserve_balance: crate::protocol_state::u256_of((acc.reserve_balance@ + rv) as nat), ..acc },
            ),
            ..v1
        }
    } else {
        v1
    };
    assert(attestations_frame(v, v2));
    let (fv, rem3) = crate::waterfall::take_slice(rem2, proj.phi).unwrap();
    let v3 = if fv != 0 {
        credit_spec(v2, proj.phi_recipient, d, fv).unwrap()
    } else {
        v2
    };
    assert(attestations_frame(v, v3));
    let (gv, rem4) = crate::waterfall::take_slice(rem3, proj.gamma).unwrap();
    let mut v4 = v3;
    if gv != 0 {
        match proj.gamma_recipient_type {
            crate::core_types::RecipientType::Identity => {
                v4 = credit_spec(v3, proj.gamma_recipient, d, gv).unwrap();
            },
            crate::core_types::RecipientType::Project => {
                lemma_waterfall_frame(v3, proj.gamma_recipient, gv, d, depth + 1);
                let r = waterfall_spec(v3, proj.gamma_recipient, gv, d, depth + 1).unwrap();
                v4 = r.0;
                if r.1 is Err {
                    return;
                }
            },
        }
    }
    assert(attestations_frame(v, v4));
    if rem4 != 0 {
        assert(attestations_frame(v, distribute_spec(v4, p, rem4, d).unwrap()));
    }
}

/// Settled attestations never change: once an attestation is finalized or
/// rejected, no transaction alters it (and every transaction keeps settled
/// attestations free of locked bonds, as the empty state is).
pub proof fn lemma_apply_keeps_settled(v: StateView, stx: SignedTransaction, ctx: ExecutionContext)
    requires
        settled_unbonded(v),
        apply_spec(v, stx, ctx) is Some,
    ensures
        settled_kept(v, apply_spec(v, stx, ctx).unwrap().0),
        settled_unbonded(apply_spec(v, stx, ctx).unwrap().0),
{
    let w = apply_spec(v, stx, ctx).unwrap().0;
    if !stx.signature_valid {
        return;
    }
    let signer = stx.signer_address;
    match stx.tx {
        Transaction::DepositRevenue { project_id, amount, denomination } => {
            if amount@ != 0 && v.projects.contains_key(project_id) && signer == v.projects[project_id].deposit_authority {
                lemma_waterfall_frame(v, project_id, amount@, denomination, 0);
            }
            assert(attestations_frame(v, w));
        },
        Transaction::SubmitAttestation { .. } => {
            assert forall|a: Address| #[trigger] v.attestations.contains_key(a) && settled(v.attestations[a]) implies w.attestations.contains_key(a)
                && w.attestations[a] == v.attestations[a] && !w.locked_bonds.contains_key(a) by {
                assert(a != stx.tx_id || w.attestations == v.attestations);
            }
            assert forall|a: Address| #[trigger] w.attestations.contains_key(a) && settled(w.attestations[a]) implies !w.locked_bonds.contains_key(a) by {
                if !v.attestations.contains_key(a) {
                    assert(w.attestations == v.attestations || a == stx.tx_id);
                }
            }
        },
        Transaction::FinalizeAttestation { attestation_id } => {
            lemma_finalize_shape(v, ctx.timestamp, attestation_id);
            lemma_settle_step(v, w, attestation_id);
        },
        Transaction::ChallengeAttestation { attestation_id, evidence_hash, bond_poster, bond_amount } => {
            lemma_challenge_shape(v, ctx.timestamp, signer, attestation_id, evidence_hash, bond_poster, bond_amount, stx.tx_id);
            lemma_settle_step(v, w, attestation_id);
        },
        Transaction::ResolveChallenge { challenge_id, ruling } => {
            if v.challenges.contains_key(challenge_id) {
                lemma_resolve_shape(v, ctx.timestamp, signer, challenge_id, ruling);
                lemma_settle_step(v, w, v.challenges[challenge_id].attestation_id);
            }
        },
        _ => {
            assert(attestations_frame(v, w));
        },
    }
}
/// `y` records the same work as `x`: only the status and the
/// finalization time may differ.
pub open spec fn same_record(x: Attestation, y: Attestation) -> bool {
    &&& y.attestation_id == x.attestation_id
    &&& y.project_id == x.project_id
    &&& y.contributor == x.contributor
    &&& y.units == x.units
    &&& y.evidence_hash == x.evidence_hash
    &&& y.bond_poster == x.bond_poster
    &&& y.bond_amount == x.bond_amount
    &&& y.bond_denomination == x.bond_denomination
    &&& y.created_at == x.created_at
}

/// Every attestation of `v` is in `w` and records the same work.
pub open spec fn records_kept(v: StateView, w: StateView) -> bool {
    forall|a: Address| #[trigger] v.attestations.contains_key(a) ==> w.attestations.contains_key(a) && same_record(
        v.attestations[a],
        w.attestations[a],
    )
}

/// `w` has the attestations of `v`, except that the attestation `id` may
/// have moved on while recording the same work.
spec fn record_step(v: StateView, w: StateView, id: Address) -> bool {
    w.attestations == v.attestations || (v.attestations.contains_key(id) && w.attestations == v.attestations.insert(
        id,
        w.attestations[id],
    ) && same_record(v.attestations[id], w.attestations[id]))
}

/// Beyond `record_step`, the attestation `id` moved on only if it was not
/// settled, at most its bond was released, and a settled `id` in `w` holds
/// no bond.
spec fn settle_step(v: StateView, w: StateView, id: Address) -> bool {
    &&& record_step(v, w, id)
    &&& w.attestations != v.attestations ==> !settled(v.attestations[id])
    &&& (w.locked_bonds == v.locked_bonds || w.locked_bonds == v.locked_bonds.remove(id))
    &&& (w.attestations.contains_key(id) && settled(w.attestations[id]) && w.attestations != v.attestations)
        ==> !w.locked_bonds.contains_key(id)
}

proof fn lemma_record_step(v: StateView, w: StateView, id: Address)
    requires
        record_step(v, w, id),
    ensures
        records_kept(v, w),
{
}

proof fn lemma_settle_step(v: StateView, w: StateView, id: Address)
    requires
        settled_unbonded(v),
        settle_step(v, w, id),
    ensures
        settled_kept(v, w),
        settled_unbonded(w),
{
    assert forall|a: Address| #[trigger] w.attestations.contains_key(a) && settled(w.attestations[a]) implies !w.locked_bonds.contains_key(
        a,
    ) by {
        if w.attestations == v.attestations {
            assert(v.attestations.contains_key(a) && settled(v.attestations[a]));
        } else if a != id {
            assert(v.attestations.contains_key(a) && v.attestations[a] == w.attestations[a]);
        }
    }
}

proof fn lemma_release_shape(v: StateView, a: Address, r: Address, d: Denomination, skip: bool)
    requires
        release_attestation_bond_spec(v, a, r, d, skip) is Some,
    ensures
        ({
            let (w, res) = release_attestation_bond_spec(v, a, r, d, skip).unwrap();
            &&& w.attestations == v.attestations
            &&& res is Ok ==> v.locked_bonds.contains_key(a) && w.locked_bonds == v.locked_bonds.remove(a)
            &&& res is Err ==> w == v
        }),
{
}

proof fn lemma_finalize_units_shape(v: StateView, a: Address, p: Address, c: Address, units: u64, d: Denomination, ts: u64)
    requires
        finalize_units_spec(v, a, p, c, units, d, ts) is Some,
    ensures
        ({
            let w = finalize_units_spec(v, a, p, c, units, d, ts).unwrap();
            &&& w.locked_bonds == v.locked_bonds
            &&& w.attestations == mark_finalized(v, a, ts).attestations
        }),
{
}

proof fn lemma_release_challenge_shape(v: StateView, c: Address, r: Address, d: Denomination, ok: bool)
    requires
        release_challenge_bond_spec(v, c, r, d, ok) is Some,
    ensures
        release_challenge_bond_spec(v, c, r, d, ok).unwrap().0.attestations == v.attestations,
        release_challenge_bond_spec(v, c, r, d, ok).unwrap().0.locked_bonds == v.locked_bonds,
{
}

proof fn lemma_finalize_shape(v: StateView, ts: u64, id: Address)
    requires
        finalize_attestation_spec(v, ts, id) is Some,
    ensures
        record_step(v, finalize_attestation_spec(v, ts, id).unwrap().0, id),
        settled_unbonded(v) ==> settle_step(v, finalize_attestation_spec(v, ts, id).unwrap().0, id),
{
    let w = finalize_attestation_spec(v, ts, id).unwrap().0;
    if !v.attestations.contains_key(id) {
        return;
    }
    let att = v.attestations[id];
    if att.status != AttestationStatus::Pending || !v.projects.contains_key(att.project_id) {
        return;
    }
    let expires_at = (att.created_at + v.projects[att.project_id].verification_window) as u64;
    if ts < expires_at {
        return;
    }
    lemma_release_shape(v, id, att.bond_poster, att.bond_denomination, true);
    let (v1, r1) = release_attestation_bond_spec(v, id, att.bond_poster, att.bond_denomination, true).unwrap();
    if r1 is Err {
        return;
    }
    lemma_finalize_units_shape(v1, id, att.project_id, att.contributor, att.units, att.bond_denomination, ts);
    assert(w.attestations =~= v.attestations.insert(id, w.attestations[id]));
}

proof fn lemma_challenge_shape(
    v: StateView,
    ts: u64,
    signer: Address,
    id: Address,
    evidence: crate::core_types::Hash32,
    poster: Option<Address>,
    amount: crate::u256::U256,
    cid: Address,
)
    requires
        challenge_attestation_spec(v, ts, signer, id, evidence, poster, amount, cid) is Some,
    ensures
        record_step(v, challenge_attestation_spec(v, ts, signer, id, evidence, poster, amount, cid).unwrap().0, id),
        settle_step(v, challenge_attestation_spec(v, ts, signer, id, evidence, poster, amount, cid).unwrap().0, id),
{
    let w = challenge_attestation_spec(v, ts, signer, id, evidence, poster, amount, cid).unwrap().0;
    if w.attestations != v.attestations {
        assert(v.attestations.contains_key(id) && v.attestations[id].status == AttestationStatus::Pending);
        assert(w.attestations =~= v.attestations.insert(id, w.attestations[id]));
    }
}

proof fn lemma_resolve_shape(v: StateView, ts: u64, signer: Address, cid: Address, ruling: crate::core_types::ChallengeRuling)
    requires
        resolve_challenge_spec(v, ts, signer, cid, ruling) is Some,
        v.challenges.contains_key(cid),
    ensures
        record_step(v, resolve_challenge_spec(v, ts, signer, cid, ruling).unwrap().0, v.challenges[cid].attestation_id),
        settled_unbonded(v) ==> settle_step(
            v,
            resolve_challenge_spec(v, ts, signer, cid, ruling).unwrap().0,
            v.challenges[cid].attestation_id,
        ),
{
    let w = resolve_challenge_spec(v, ts, signer, cid, ruling).unwrap().0;
    let ch = v.challenges[cid];
    let id = ch.attestation_id;
    if ch.status == crate::core_types::ChallengeStatus::ResolvedValid || ch.status == crate::core_types::ChallengeStatus::ResolvedInvalid
        || !v.attestations.contains_key(id) {
        return;
    }
    let att = v.attestations[id];
    if !v.projects.contains_key(att.project_id) || signer != v.projects[att.project_id].adjudicator {
        return;
    }
    match ruling {
        crate::core_types::ChallengeRuling::Valid => {
            lemma_release_shape(v, id, att.bond_poster, att.bond_denomination, true);
            let (v1, r1) = release_attestation_bond_spec(v, id, att.bond_poster, att.bond_denomination, true).unwrap();
            if r1 is Err {
                return;
            }
            assert(settled_unbonded(v) ==> !settled(att));
            let (v2, r2) = if ch.bond_poster is Some {
                lemma_release_challenge_shape(v1, cid, att.bond_poster, att.bond_denomination, true);
                release_challenge_bond_spec(v1, cid, att.bond_poster, att.bond_denomination, true).unwrap()
            } else {
                (v1, Ok(crate::u256::U256 { hi: 0, lo: 0 }))
            };
            if r2 is Err {
                return;
            }
            lemma_finalize_units_shape(v2, id, att.project_id, att.contributor, att.units, att.bond_denomination, ts);
            assert(w.attestations =~= v.attestations.insert(id, w.attestations[id]));
        },
        crate::core_types::ChallengeRuling::Invalid => {
            lemma_release_shape(v, id, ch.challenger, att.bond_denomination, false);
            let (v1, r1) = release_attestation_bond_spec(v, id, ch.challenger, att.bond_denomination, false).unwrap();
            if r1 is Err {
                return;
            }
            assert(settled_unbonded(v) ==> !settled(att));
            let (v2, r2) = if ch.bond_poster is Some {
                lemma_release_challenge_shape(v1, cid, ch.challenger, att.bond_denomination, false);
                release_challenge_bond_spec(v1, cid, ch.challenger, att.bond_denomination, false).unwrap()
            } else {
                (v1, Ok(crate::u256::U256 { hi: 0, lo: 0 }))
            };
            if r2 is Err {
                return;
            }
            assert(w.attestations =~= v.attestations.insert(id, w.attestations[id]));
        },
    }
}

/// Attestations are never removed and never change the work they record
/// (project, contributor, units, evidence, bond, submission time): only
/// their status moves on. A contribution stays with its contributor.
pub proof fn lemma_apply_keeps_records(v: StateView, stx: SignedTransaction, ctx: ExecutionContext)
    requires
        apply_spec(v, stx, ctx) is Some,
    ensures
        records_kept(v, apply_spec(v, stx, ctx).unwrap().0),
{
    let w = apply_spec(v, stx, ctx).unwrap().0;
    if !stx.signature_valid {
        return;
    }
    let signer = stx.signer_address;
    match stx.tx {
        Transaction::DepositRevenue { project_id, amount, denomination } => {
            if amount@ != 0 && v.projects.contains_key(project_id) && signer == v.projects[project_id].deposit_authority {
                lemma_waterfall_frame(v, project_id, amount@, denomination, 0);
            }
        },
        Transaction::SubmitAttestation { .. } => {
            assert forall|a: Address| #[trigger] v.attestations.contains_key(a) implies w.attestations.contains_key(a)
                && same_record(v.attestations[a], w.attestations[a]) by {
                assert(a != stx.tx_id || w.attestations == v.attestations);
            }
        },
        Transaction::FinalizeAttestation { attestation_id } => {
            lemma_finalize_shape(v, ctx.timestamp, attestation_id);
            lemma_record_step(v, w, attestation_id);
        },
        Transaction::ChallengeAttestation { attestation_id, evidence_hash, bond_poster, bond_amount } => {
            lemma_challenge_shape(v, ctx.timestamp, signer, attestation_id, evidence_hash, bond_poster, bond_amount, stx.tx_id);
            lemma_record_step(v, w, attestation_id);
        },
        Transaction::ResolveChallenge { challenge_id, ruling } => {
            if v.challenges.contains_key(challenge_id) {
                lemma_resolve_shape(v, ctx.timestamp, signer, challenge_id, ruling);
                lemma_record_step(v, w, v.challenges[challenge_id].attestation_id);
            }
        },
        _ => {
            assert(attestations_frame(v, w));
        },
    }
}

} // verus!
