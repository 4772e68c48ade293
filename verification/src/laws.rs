//! Who gets paid: what settling an attestation, resolving a challenge and
//! finalizing units do to the direct claimable balances, and what
//! registration and block relay never let through.
use crate::accumulator::{finalize_units_spec, pending_reward};
use crate::bond::{credit_spec, release_attestation_bond_spec, release_challenge_bond_spec};
use crate::core_types::{Address, ChallengeRuling, Denomination};
use crate::execute::attestation::finalize_attestation_spec;
use crate::execute::challenge::{resolve_challenge_spec, set_attestation_status, set_challenge_status};
use crate::execute::project::{register_project_spec, ProjectParams};
use crate::execute::revenue::{claim_reserve_spec, claim_revenue_spec};
use crate::p2p::gossip::{block_check, BlockCheck};
use crate::p2p::headers::knows;
use crate::p2p::messages::{Block, BlockHeader};
use crate::protocol_state::{acc_of, bal_of, claimable_of, lemma_u256_of, StateView};
use crate::u256::b128;
use vstd::prelude::*;

verus! {

/// `w`'s direct claimable balances are `v`'s, with `amount` more for
/// `id` in `d`.
pub open spec fn credited(v: StateView, w: StateView, id: Address, d: Denomination, amount: nat) -> bool {
    forall|i: Address, e: Denomination|
        #[trigger] claimable_of(w, i, e) == claimable_of(v, i, e) + (if i == id && e == d { amount } else { 0nat })
}

/// `w`'s direct claimable balances are `v`'s, except perhaps that of `id`
/// in `d`.
pub open spec fn claimables_same_except(v: StateView, w: StateView, id: Address, d: Denomination) -> bool {
    forall|i: Address, e: Denomination| #[trigger] claimable_of(w, i, e) == claimable_of(v, i, e) || (i == id && e == d)
}

/// A credit raises exactly one claimable balance by exactly its amount.
proof fn lemma_credit_credited(v: StateView, id: Address, d: Denomination, n: nat)
    requires
        credit_spec(v, id, d, n) is Some,
    ensures
        credited(v, credit_spec(v, id, d, n).unwrap(), id, d, n),
{
    lemma_u256_of(claimable_of(v, id, d) + n);
}

/// Two credits to the same balance add up.
proof fn lemma_credited_trans(a: StateView, b: StateView, c: StateView, id: Address, d: Denomination, x: nat, y: nat)
    requires
        credited(a, b, id, d, x),
        credited(b, c, id, d, y),
    ensures
        credited(a, c, id, d, x + y),
{
    assert forall|i: Address, e: Denomination|
        #[trigger] claimable_of(c, i, e) == claimable_of(a, i, e) + (if i == id && e == d { x + y } else { 0nat }) by {
        assert(claimable_of(b, i, e) == claimable_of(a, i, e) + (if i == id && e == d { x } else { 0nat }));
        assert(claimable_of(c, i, e) == claimable_of(b, i, e) + (if i == id && e == d { y } else { 0nat }));
    }
}

/// A state that moves no claimable balance is credited nothing.
proof fn lemma_same_claimable(v: StateView, w: StateView, id: Address, d: Denomination)
    requires
        w.claimable == v.claimable,
    ensures
        credited(v, w, id, d, 0),
{
}

/// Releasing a bond that is held pays the whole bond to the recipient and
/// no one else (nothing at all for a zero bond released with
/// `skip_zero`).
proof fn lemma_release_attestation_credited(v: StateView, a: Address, r: Address, d: Denomination, skip: bool)
    requires
        release_attestation_bond_spec(v, a, r, d, skip) matches Some((_, Ok(_))),
    ensures
        v.locked_bonds.contains_key(a),
        credited(v, release_attestation_bond_spec(v, a, r, d, skip).unwrap().0, r, d, v.locked_bonds[a]@),
{
    let locked = v.locked_bonds[a];
    let v1 = StateView { locked_bonds: v.locked_bonds.remove(a), ..v };
    if !(skip && locked@ == 0) {
        lemma_credit_credited(v1, r, d, locked@);
    }
}

/// Releasing a held challenge bond pays the whole bond to the recipient
/// and no one else.
proof fn lemma_release_challenge_credited(v: StateView, c: Address, r: Address, d: Denomination)
    requires
        release_challenge_bond_spec(v, c, r, d, false) matches Some((_, Ok(_))),
    ensures
        v.challenge_bonds.contains_key(c),
        credited(v, release_challenge_bond_spec(v, c, r, d, false).unwrap().0, r, d, v.challenge_bonds[c]@),
{
    let locked = v.challenge_bonds[c];
    let v1 = StateView { challenge_bonds: v.challenge_bonds.remove(c), ..v };
    lemma_credit_credited(v1, r, d, locked@);
}

/// The pending reward of `units` units entered at index `entry`, read at
/// index `global`: the index growth times the units, in fixed point.
pub open spec fn earned(units: nat, global: nat, entry: nat) -> nat {
    if global <= entry {
        0
    } else {
        (units * (global - entry)) as nat / (b128() as nat)
    }
}

/// Finalizing more units for a contributor who already holds units in a
/// pool with finalized units pays out what the held units earned: the
/// contributor's claimable balance rises by `units * (global - entry) /
/// 2^128` of the held units, no other claimable balance moves, the
/// contributor's units grow by the new ones and their entry index becomes
/// the current global index.
pub proof fn lemma_finalize_pays_earned(
    v: StateView,
    a: Address,
    p: Address,
    c: Address,
    units: u64,
    d: Denomination,
    ts: u64,
)
    requires
        finalize_units_spec(v, a, p, c, units, d, ts) is Some,
        bal_of(v, p, c, d).units > 0,
        acc_of(v, p, d).total_finalized_units > 0,
    ensures
        ({
            let w = finalize_units_spec(v, a, p, c, units, d, ts).unwrap();
            let bal = bal_of(v, p, c, d);
            let global = acc_of(v, p, d).reward_per_unit_global@;
            &&& credited(v, w, c, d, earned(bal.units as nat, global, bal.reward_per_unit_at_entry@))
            &&& bal_of(w, p, c, d).units == bal.units + units
            &&& bal_of(w, p, c, d).reward_per_unit_at_entry@ == global
            &&& acc_of(w, p, d).reward_per_unit_global@ == global
        }),
{
    let acc = acc_of(v, p, d);
    let bal = bal_of(v, p, c, d);
    let global = acc.reward_per_unit_global@;
    let pending = pending_reward(bal.units as nat, global, bal.reward_per_unit_at_entry@).unwrap();
    assert(pending == earned(bal.units as nat, global, bal.reward_per_unit_at_entry@));
    let acc1 = crate::core_types::AccumulatorState {
        reward_per_unit_global: crate::protocol_state::u256_of(global),
        total_finalized_units: (acc.total_finalized_units + units) as u64,
        unallocated: crate::protocol_state::u256_of(acc.unallocated@),
        reserve_balance: acc.reserve_balance,
    };
    let v1 = StateView { accumulators: v.accumulators.insert((p, d), acc1), ..v };
    crate::protocol_state::lemma_u256_of(global);
    crate::protocol_state::lemma_u256_is_u256_of(acc.reward_per_unit_global);
    assert(v1.claimable == v.claimable);
    if pending != 0 {
        lemma_u256_of(claimable_of(v1, c, d) + pending);
    }
}

/// Finalizing an attestation pays its locked bond back to whoever posted
/// it: the poster's claimable balance rises by the bond, and no other
/// claimable balance moves except the contributor's, whose earned reward
/// the new units may pay out.
pub proof fn lemma_finalize_returns_bond(v: StateView, ts: u64, id: Address)
    requires
        finalize_attestation_spec(v, ts, id) matches Some((_, Ok(_))),
    ensures
        v.attestations.contains_key(id),
        v.locked_bonds.contains_key(id),
        ({
            let w = finalize_attestation_spec(v, ts, id).unwrap().0;
            let att = v.attestations[id];
            forall|i: Address, e: Denomination|
                !(i == att.contributor && e == att.bond_denomination) ==> #[trigger] claimable_of(w, i, e)
                    == claimable_of(v, i, e) + (if i == att.bond_poster && e == att.bond_denomination {
                    v.locked_bonds[id]@
                } else {
                    0nat
                })
        }),
{
    let att = v.attestations[id];
    lemma_release_attestation_credited(v, id, att.bond_poster, att.bond_denomination, true);
    let v1 = release_attestation_bond_spec(v, id, att.bond_poster, att.bond_denomination, true).unwrap().0;
    let w = finalize_attestation_spec(v, ts, id).unwrap().0;
    lemma_finalize_moves_only_contributor(v1, id, att.project_id, att.contributor, att.units, att.bond_denomination, ts);
    assert forall|i: Address, e: Denomination|
        !(i == att.contributor && e == att.bond_denomination) implies #[trigger] claimable_of(w, i, e)
            == claimable_of(v, i, e) + (if i == att.bond_poster && e == att.bond_denomination {
            v.locked_bonds[id]@
        } else {
            0nat
        }) by {
        assert(claimable_of(w, i, e) == claimable_of(v1, i, e));
        assert(claimable_of(v1, i, e) == claimable_of(v, i, e) + (if i == att.bond_poster && e == att.bond_denomination {
            v.locked_bonds[id]@
        } else {
            0nat
        }));
    }
}

/// Finalizing units moves no claimable balance but the contributor's.
proof fn lemma_finalize_moves_only_contributor(
    v: StateView,
    a: Address,
    p: Address,
    c: Address,
    units: u64,
    d: Denomination,
    ts: u64,
)
    requires
        finalize_units_spec(v, a, p, c, units, d, ts) is Some,
    ensures
        claimables_same_except(v, finalize_units_spec(v, a, p, c, units, d, ts).unwrap(), c, d),
{
    let w = finalize_units_spec(v, a, p, c, units, d, ts).unwrap();
    assert forall|i: Address, e: Denomination|
        #[trigger] claimable_of(w, i, e) == claimable_of(v, i, e) || (i == c && e == d) by {
        if !(i == c && e == d) {
            assert(w.claimable.contains_key((i, e)) == v.claimable.contains_key((i, e)));
        }
    }
}

/// An Invalid ruling pays the challenger the forfeited attestation bond
/// and, when a challenge bond was posted, that bond back: the
/// challenger's claimable balance rises by both, and no other claimable
/// balance moves.
pub proof fn lemma_invalid_ruling_pays_challenger(v: StateView, ts: u64, signer: Address, cid: Address)
    requires
        resolve_challenge_spec(v, ts, signer, cid, ChallengeRuling::Invalid) matches Some((_, Ok(_))),
    ensures
        v.challenges.contains_key(cid),
        v.attestations.contains_key(v.challenges[cid].attestation_id),
        v.locked_bonds.contains_key(v.challenges[cid].attestation_id),
        v.challenges[cid].bond_poster is Some ==> v.challenge_bonds.contains_key(cid),
        ({
            let ch = v.challenges[cid];
            let att = v.attestations[ch.attestation_id];
            let a = v.locked_bonds[ch.attestation_id]@;
            let b = if ch.bond_poster is Some { v.challenge_bonds[cid]@ } else { 0nat };
            credited(
                v,
                resolve_challenge_spec(v, ts, signer, cid, ChallengeRuling::Invalid).unwrap().0,
                ch.challenger,
                att.bond_denomination,
                a + b,
            )
        }),
{
    let ch = v.challenges[cid];
    let att = v.attestations[ch.attestation_id];
    let d = att.bond_denomination;
    lemma_release_attestation_credited(v, ch.attestation_id, ch.challenger, d, false);
    let v1 = release_attestation_bond_spec(v, ch.attestation_id, ch.challenger, d, false).unwrap().0;
    let a = v.locked_bonds[ch.attestation_id]@;
    let v2 = if ch.bond_poster is Some {
        lemma_release_challenge_credited(v1, cid, ch.challenger, d);
        release_challenge_bond_spec(v1, cid, ch.challenger, d, false).unwrap().0
    } else {
        lemma_same_claimable(v1, v1, ch.challenger, d);
        v1
    };
    assert(v1.challenge_bonds == v.challenge_bonds);
    let b = if ch.bond_poster is Some { v.challenge_bonds[cid]@ } else { 0nat };
    assert(credited(v1, v2, ch.challenger, d, b));
    lemma_credited_trans(v, v1, v2, ch.challenger, d, a, b);
    let v3 = set_attestation_status(v2, ch.attestation_id, crate::core_types::AttestationStatus::Rejected);
    let v4 = set_challenge_status(v3, cid, crate::core_types::ChallengeStatus::ResolvedInvalid);
    assert(v4.claimable == v2.claimable);
    assert(v4 == resolve_challenge_spec(v, ts, signer, cid, ChallengeRuling::Invalid).unwrap().0);
}

/// Releasing a challenge bond that may be missing pays the bond, if held,
/// to the recipient and no one else.
proof fn lemma_release_challenge_credited_if_held(v: StateView, c: Address, r: Address, d: Denomination)
    requires
        release_challenge_bond_spec(v, c, r, d, true) matches Some((_, Ok(_))),
    ensures
        credited(
            v,
            release_challenge_bond_spec(v, c, r, d, true).unwrap().0,
            r,
            d,
            if v.challenge_bonds.contains_key(c) { v.challenge_bonds[c]@ } else { 0nat },
        ),
{
    if v.challenge_bonds.contains_key(c) {
        let locked = v.challenge_bonds[c];
        let v1 = StateView { challenge_bonds: v.challenge_bonds.remove(c), ..v };
        lemma_credit_credited(v1, r, d, locked@);
    }
}

/// A Valid ruling pays the attestation's bond poster back its bond and,
/// when a challenge bond was posted and is held, the forfeited challenge
/// bond too; no other claimable balance moves except the contributor's,
/// whose earned reward the finalized units may pay out.
pub proof fn lemma_valid_ruling_pays_bond_poster(v: StateView, ts: u64, signer: Address, cid: Address)
    requires
        resolve_challenge_spec(v, ts, signer, cid, ChallengeRuling::Valid) matches Some((_, Ok(_))),
    ensures
        v.challenges.contains_key(cid),
        v.attestations.contains_key(v.challenges[cid].attestation_id),
        v.locked_bonds.contains_key(v.challenges[cid].attestation_id),
        ({
            let ch = v.challenges[cid];
            let att = v.attestations[ch.attestation_id];
            let a = v.locked_bonds[ch.attestation_id]@;
            let b = if ch.bond_poster is Some && v.challenge_bonds.contains_key(cid) {
                v.challenge_bonds[cid]@
            } else {
                0nat
            };
            let w = resolve_challenge_spec(v, ts, signer, cid, ChallengeRuling::Valid).unwrap().0;
            forall|i: Address, e: Denomination|
                !(i == att.contributor && e == att.bond_denomination) ==> #[trigger] claimable_of(w, i, e)
                    == claimable_of(v, i, e) + (if i == att.bond_poster && e == att.bond_denomination {
                    a + b
                } else {
                    0nat
                })
        }),
{
    let ch = v.challenges[cid];
    let att = v.attestations[ch.attestation_id];
    let d = att.bond_denomination;
    lemma_release_attestation_credited(v, ch.attestation_id, att.bond_poster, d, true);
    let v1 = release_attestation_bond_spec(v, ch.attestation_id, att.bond_poster, d, true).unwrap().0;
    let a = v.locked_bonds[ch.attestation_id]@;
    assert(v1.challenge_bonds == v.challenge_bonds);
    let b = if ch.bond_poster is Some && v.challenge_bonds.contains_key(cid) { v.challenge_bonds[cid]@ } else { 0nat };
    let v2 = if ch.bond_poster is Some {
        lemma_release_challenge_credited_if_held(v1, cid, att.bond_poster, d);
        release_challenge_bond_spec(v1, cid, att.bond_poster, d, true).unwrap().0
    } else {
        lemma_same_claimable(v1, v1, att.bond_poster, d);
        v1
    };
    assert(credited(v1, v2, att.bond_poster, d, b));
    lemma_credited_trans(v, v1, v2, att.bond_poster, d, a, b);
    lemma_finalize_moves_only_contributor(v2, ch.attestation_id, att.project_id, att.contributor, att.units, d, ts);
    let v3 = finalize_units_spec(v2, ch.attestation_id, att.project_id, att.contributor, att.units, d, ts).unwrap();
    let w = set_challenge_status(v3, cid, crate::core_types::ChallengeStatus::ResolvedValid);
    assert(w.claimable == v3.claimable);
    assert(w == resolve_challenge_spec(v, ts, signer, cid, ChallengeRuling::Valid).unwrap().0);
    assert forall|i: Address, e: Denomination|
        !(i == att.contributor && e == d) implies #[trigger] claimable_of(w, i, e) == claimable_of(v, i, e) + (if i
            == att.bond_poster && e == d {
            a + b
        } else {
            0nat
        }) by {
        assert(claimable_of(w, i, e) == claimable_of(v3, i, e));
        assert(claimable_of(v3, i, e) == claimable_of(v2, i, e));
        assert(claimable_of(v2, i, e) == claimable_of(v, i, e) + (if i == att.bond_poster && e == d { a + b } else { 0nat }));
    }
}

/// A successful revenue claim pays the claimed amount to the contributor
/// (a human) or to its parent (an agent), and moves no other claimable
/// balance.
pub proof fn lemma_claim_revenue_pays_owner(v: StateView, signer: Address, p: Address, c: Address, d: Denomination)
    requires
        claim_revenue_spec(v, signer, p, c, d) matches Some((_, Ok(_))),
    ensures
        v.identities.contains_key(c),
        ({
            let (w, r) = claim_revenue_spec(v, signer, p, c, d).unwrap();
            let id = v.identities[c];
            let owner = if id.identity_type == crate::core_types::IdentityType::Agent && id.parent is Some {
                id.parent.unwrap()
            } else {
                c
            };
            &&& owner == signer
            &&& credited(v, w, owner, d, r.unwrap()@)
        }),
{
    let (v1, r1) = crate::accumulator::claim_spec(v, p, c, d).unwrap();
    assert(v1.claimable == v.claimable);
    let owner = crate::execute::revenue::revenue_recipient(v, c);
    lemma_credit_credited(v1, owner, d, r1.unwrap()@);
    let w = claim_revenue_spec(v, signer, p, c, d).unwrap().0;
    assert forall|i: Address, e: Denomination|
        #[trigger] claimable_of(w, i, e) == claimable_of(v, i, e) + (if i == owner && e == d { r1.unwrap()@ } else { 0nat }) by {
        assert(claimable_of(v1, i, e) == claimable_of(v, i, e));
    }
}

/// A successful reserve claim moves exactly the amount from the project's
/// reserve to the recipient's claimable balance, and no other claimable
/// balance.
pub proof fn lemma_claim_reserve_moves_amount(
    v: StateView,
    signer: Address,
    p: Address,
    recipient: Address,
    amount: crate::u256::U256,
    d: Denomination,
)
    requires
        claim_reserve_spec(v, signer, p, recipient, amount, d) matches Some((_, Ok(_))),
    ensures
        ({
            let w = claim_reserve_spec(v, signer, p, recipient, amount, d).unwrap().0;
            &&& credited(v, w, recipient, d, amount@)
            &&& acc_of(w, p, d).reserve_balance@ + amount@ == acc_of(v, p, d).reserve_balance@
            &&& signer == v.projects[p].reserve_authority
        }),
{
    let acc = v.accumulators[(p, d)];
    lemma_u256_of((acc.reserve_balance@ - amount@) as nat);
    let v1 = StateView {
        accumulators: v.accumulators.insert(
            (p, d),
            crate::core_types::AccumulatorState {
                reserve_balance: crate::protocol_state::u256_of((acc.reserve_balance@ - amount@) as nat),
                ..acc
            },
        ),
        ..v
    };
    assert(v1.claimable == v.claimable);
    lemma_credit_credited(v1, recipient, d, amount@);
    let w = claim_reserve_spec(v, signer, p, recipient, amount, d).unwrap().0;
    assert forall|i: Address, e: Denomination|
        #[trigger] claimable_of(w, i, e) == claimable_of(v, i, e) + (if i == recipient && e == d { amount@ } else { 0nat }) by {
        assert(claimable_of(v1, i, e) == claimable_of(v, i, e));
    }
}

/// A block whose hash the chain already holds, or whose parent it lacks, or
/// that was seen before, is never to be added: only a new block on a known
/// parent is accepted.
pub proof fn lemma_accept_only_new_on_known_parent(seen_before: bool, blocks: Seq<BlockHeader>, block: Block)
    ensures
        block_check(seen_before, blocks, block) == BlockCheck::Accept ==> !seen_before && !knows(
            blocks,
            block.header.hash,
        ) && knows(blocks, block.header.prev_block_hash),
        knows(blocks, block.header.hash) ==> block_check(seen_before, blocks, block) != BlockCheck::Accept,
{
}

/// A project is registered only on top of a registered predecessor, and a
/// genesis slice to a project only to a registered project.
pub proof fn lemma_register_needs_registered_links(
    v: StateView,
    min_window: u64,
    signer: Address,
    p: ProjectParams,
    project_id: Address,
)
    requires
        register_project_spec(v, min_window, signer, p, project_id).1 is Ok,
    ensures
        p.predecessor matches Some(q) ==> v.projects.contains_key(q),
        p.gamma > 0 && p.gamma_recipient_type == crate::core_types::RecipientType::Project ==> v.projects.contains_key(
            p.gamma_recipient,
        ),
        !v.projects.contains_key(project_id),
        register_project_spec(v, min_window, signer, p, project_id).0.projects.contains_key(project_id),
{
}

/// Every registered project's predecessor is registered.
pub open spec fn predecessors_registered(v: StateView) -> bool {
    forall|x: Address|
        #[trigger] v.projects.contains_key(x) && v.projects[x].predecessor is Some ==> v.projects.contains_key(
            v.projects[x].predecessor.unwrap(),
        )
}

/// Registration keeps every predecessor registered.
pub proof fn lemma_register_keeps_predecessors(
    v: StateView,
    min_window: u64,
    signer: Address,
    p: ProjectParams,
    project_id: Address,
)
    requires
        predecessors_registered(v),
    ensures
        predecessors_registered(register_project_spec(v, min_window, signer, p, project_id).0),
{
    let w = register_project_spec(v, min_window, signer, p, project_id).0;
    assert forall|x: Address| #[trigger] w.projects.contains_key(x) && w.projects[x].predecessor is Some implies w.projects.contains_key(
        w.projects[x].predecessor.unwrap(),
    ) by {
        if x != project_id || w.projects == v.projects {
            assert(v.projects.contains_key(x));
        }
    }
}

} // verus!
