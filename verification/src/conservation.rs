//! Conservation of deposited revenue: every unit that enters the waterfall
//! router lands in exactly one place.
//!
//! A deposit's effect on the state is described as a sequence of credits,
//! each of which puts an amount in one place: an identity's claimable
//! balance, a project's reserve, a project's unallocated revenue, or a
//! project's labor pool.
use crate::accumulator::{distribute_spec, fits};
use crate::bond::credit_spec;
use crate::core_types::{AccumulatorState, Address, Denomination, RecipientType};
use crate::protocol_state::{acc_of, claimable_of, lemma_u256_of, u256_of, StateView};
use crate::waterfall::{lemma_waterfall_conserves, take_slice, waterfall_split, waterfall_spec, MAX_CHAIN_DEPTH};
use vstd::prelude::*;

verus! {

/// One credit of revenue, in the denomination being routed.
pub enum Credit {
    /// Added to an identity's claimable balance.
    Claimable(Address, nat),
    /// Added to a project's reserve pool.
    Reserve(Address, nat),
    /// Held as a project's unallocated revenue.
    Unallocated(Address, nat),
    /// Distributed over the finalized units of a project's labor pool.
    LaborPool(Address, nat),
}

/// The amount a credit carries.
pub open spec fn credit_amount(c: Credit) -> nat {
    match c {
        Credit::Claimable(_, n) => n,
        Credit::Reserve(_, n) => n,
        Credit::Unallocated(_, n) => n,
        Credit::LaborPool(_, n) => n,
    }
}

/// The sum of the amounts of a sequence of credits.
#[verifier::opaque]
pub open spec fn credits_total(cs: Seq<Credit>) -> nat
    decreases cs.len(),
{
    if cs.len() == 0 {
        0
    } else {
        credit_amount(cs[0]) + credits_total(cs.drop_first())
    }
}

/// The state after one credit in `denom` (`None` where a balance would
/// exceed 256 bits).
pub open spec fn apply_credit(v: StateView, c: Credit, denom: Denomination) -> Option<StateView> {
    match c {
        Credit::Claimable(id, n) => credit_spec(v, id, denom, n),
        Credit::Reserve(p, n) => {
            let acc = acc_of(v, p, denom);
            if !fits((acc.reserve_balance@ + n) as int) {
                None
            } else {
                Some(StateView {
                    accumulators: v.accumulators.insert(
                        (p, denom),
                        AccumulatorState { reserve_balance: u256_of((acc.reserve_balance@ + n) as nat), ..acc },
                    ),
                    ..v
                })
            }
        },
        Credit::Unallocated(p, n) => {
            let acc = acc_of(v, p, denom);
            if !fits((acc.unallocated@ + n) as int) {
                None
            } else {
                Some(StateView {
                    accumulators: v.accumulators.insert(
                        (p, denom),
                        AccumulatorState { unallocated: u256_of((acc.unallocated@ + n) as nat), ..acc },
                    ),
                    ..v
                })
            }
        },
        Credit::LaborPool(p, n) => distribute_spec(v, p, n, denom),
    }
}

/// The state after a sequence of credits in `denom`, applied in order.
#[verifier::opaque]
pub open spec fn apply_credits(v: StateView, cs: Seq<Credit>, denom: Denomination) -> Option<StateView>
    decreases cs.len(),
{
    if cs.len() == 0 {
        Some(v)
    } else {
        match apply_credit(v, cs[0], denom) {
            None => None,
            Some(v1) => apply_credits(v1, cs.drop_first(), denom),
        }
    }
}

/// Applying two sequences one after the other is applying their
/// concatenation.
pub proof fn lemma_apply_credits_append(v: StateView, a: Seq<Credit>, b: Seq<Credit>, denom: Denomination)
    ensures
        apply_credits(v, a + b, denom) == (match apply_credits(v, a, denom) {
            None => None,
            Some(w) => apply_credits(w, b, denom),
        }),
        credits_total(a + b) == credits_total(a) + credits_total(b),
    decreases a.len(),
{
    reveal(apply_credits);
    reveal(credits_total);
    if a.len() == 0 {
        assert(a + b =~= b);
    } else {
        assert((a + b).drop_first() =~= a.drop_first() + b);
        assert((a + b)[0] == a[0]);
        match apply_credit(v, a[0], denom) {
            None => {},
            Some(v1) => {
                lemma_apply_credits_append(v1, a.drop_first(), b, denom);
            },
        }
        lemma_apply_credits_append(v, a.drop_first(), b, denom);
    }
}

/// No credit leaves the state as it is.
proof fn lemma_apply_none(v: StateView, denom: Denomination)
    ensures
        apply_credits(v, Seq::empty(), denom) == Some(v),
        credits_total(Seq::<Credit>::empty()) == 0,
{
    reveal(apply_credits);
    reveal(credits_total);
}

/// A single credit applied as a sequence.
proof fn lemma_apply_one(v: StateView, c: Credit, denom: Denomination)
    ensures
        apply_credits(v, seq![c], denom) == apply_credit(v, c, denom),
        credits_total(seq![c]) == credit_amount(c),
{
    reveal_with_fuel(apply_credits, 2);
    reveal_with_fuel(credits_total, 2);
    assert(seq![c][0] == c);
    assert(seq![c].drop_first() =~= Seq::<Credit>::empty());
}

/// Total in equals total out: whenever a deposit of `amount` into the
/// waterfall of `project_id` succeeds, its effect on the state is a
/// sequence of credits in `denom` (to claimable balances, reserves,
/// unallocated revenue and labor pools, along the predecessor and genesis
/// chains) whose amounts add up to exactly `amount`.
#[verifier::rlimit(60)]
#[verifier::spinoff_prover]
pub proof fn lemma_waterfall_conserves_amount(
    v: StateView,
    project_id: Address,
    amount: nat,
    denom: Denomination,
    depth: int,
) -> (credits: Seq<Credit>)
    requires
        waterfall_spec(v, project_id, amount, denom, depth) matches Some((_, Ok(_))),
    ensures
        apply_credits(v, credits, denom) == Some(waterfall_spec(v, project_id, amount, denom, depth).unwrap().0),
        credits_total(credits) == amount,
    decreases MAX_CHAIN_DEPTH + 1 - depth,
{
    if amount == 0 {
        lemma_apply_none(v, denom);
        return Seq::empty();
    }
    if depth > MAX_CHAIN_DEPTH as int || depth < 0 {
        let c = Credit::Unallocated(project_id, amount);
        lemma_apply_one(v, c, denom);
        return seq![c];
    }
    let p = v.projects[project_id];
    // 1. predecessor slice
    let mut c1: Seq<Credit> = Seq::empty();
    let mut v1 = v;
    let mut rem1: nat = amount;
    lemma_apply_none(v, denom);
    match p.predecessor {
        Some(pred_id) => {
            let (d, rest) = take_slice(amount, p.delta).unwrap();
            if d != 0 {
                c1 = lemma_waterfall_conserves_amount(v, pred_id, d, denom, depth + 1);
                v1 = waterfall_spec(v, pred_id, d, denom, depth + 1).unwrap().0;
                rem1 = rest;
            }
        },
        None => {},
    }
    assert(apply_credits(v, c1, denom) == Some(v1));
    assert(credits_total(c1) + rem1 == amount);
    // 2. reserve slice
    let (r, rem2) = take_slice(rem1, p.rho).unwrap();
    let c2: Seq<Credit> = if r != 0 { seq![Credit::Reserve(project_id, r)] } else { Seq::empty() };
    let acc = acc_of(v1, project_id, denom);
    let v2 = if r != 0 {
        StateView {
            accumulators: v1.accumulators.insert(
                (project_id, denom),
                AccumulatorState { reserve_balance: u256_of((acc.reserve_balance@ + r) as nat), ..acc },
            ),
            ..v1
        }
    } else {
        v1
    };
    lemma_apply_one(v1, Credit::Reserve(project_id, r), denom);
    lemma_apply_none(v1, denom);
    assert(apply_credits(v1, c2, denom) == Some(v2));
    assert(credits_total(c2) + rem2 == rem1);
    // 3. fee slice
    let (f, rem3) = take_slice(rem2, p.phi).unwrap();
    let c3: Seq<Credit> = if f != 0 { seq![Credit::Claimable(p.phi_recipient, f)] } else { Seq::empty() };
    let v3 = if f != 0 { credit_spec(v2, p.phi_recipient, denom, f).unwrap() } else { v2 };
    lemma_apply_one(v2, Credit::Claimable(p.phi_recipient, f), denom);
    lemma_apply_none(v2, denom);
    assert(apply_credits(v2, c3, denom) == Some(v3));
    assert(credits_total(c3) + rem3 == rem2);
    // 4. genesis slice
    let (g, rem4) = take_slice(rem3, p.gamma).unwrap();
    let mut c4: Seq<Credit> = Seq::empty();
    let mut v4 = v3;
    lemma_apply_none(v3, denom);
    if g != 0 {
        match p.gamma_recipient_type {
            RecipientType::Identity => {
                c4 = seq![Credit::Claimable(p.gamma_recipient, g)];
                v4 = credit_spec(v3, p.gamma_recipient, denom, g).unwrap();
                lemma_apply_one(v3, Credit::Claimable(p.gamma_recipient, g), denom);
            },
            RecipientType::Project => {
                c4 = lemma_waterfall_conserves_amount(v3, p.gamma_recipient, g, denom, depth + 1);
                v4 = waterfall_spec(v3, p.gamma_recipient, g, denom, depth + 1).unwrap().0;
            },
        }
    }
    assert(apply_credits(v3, c4, denom) == Some(v4));
    assert(credits_total(c4) + rem4 == rem3);
    // 5. labor pool
    let c5: Seq<Credit> = if rem4 != 0 { seq![Credit::LaborPool(project_id, rem4)] } else { Seq::empty() };
    let v5 = if rem4 != 0 { distribute_spec(v4, project_id, rem4, denom).unwrap() } else { v4 };
    lemma_apply_one(v4, Credit::LaborPool(project_id, rem4), denom);
    lemma_apply_none(v4, denom);
    assert(apply_credits(v4, c5, denom) == Some(v5));
    assert(credits_total(c5) == rem4);
    assert(v5 == waterfall_spec(v, project_id, amount, denom, depth).unwrap().0);
    lemma_chain(v, v1, v2, v3, v4, v5, c1, c2, c3, c4, c5, denom);
    c1 + (c2 + (c3 + (c4 + c5)))
}

/// Five sequences of credits applied one after the other.
proof fn lemma_chain(
    v: StateView,
    v1: StateView,
    v2: StateView,
    v3: StateView,
    v4: StateView,
    v5: StateView,
    c1: Seq<Credit>,
    c2: Seq<Credit>,
    c3: Seq<Credit>,
    c4: Seq<Credit>,
    c5: Seq<Credit>,
    denom: Denomination,
)
    requires
        apply_credits(v, c1, denom) == Some(v1),
        apply_credits(v1, c2, denom) == Some(v2),
        apply_credits(v2, c3, denom) == Some(v3),
        apply_credits(v3, c4, denom) == Some(v4),
        apply_credits(v4, c5, denom) == Some(v5),
    ensures
        apply_credits(v, c1 + (c2 + (c3 + (c4 + c5))), denom) == Some(v5),
        credits_total(c1 + (c2 + (c3 + (c4 + c5))))
            == credits_total(c1) + credits_total(c2) + credits_total(c3) + credits_total(c4) + credits_total(c5),
{
    lemma_apply_credits_append(v3, c4, c5, denom);
    lemma_apply_credits_append(v2, c3, c4 + c5, denom);
    lemma_apply_credits_append(v1, c2, c3 + (c4 + c5), denom);
    lemma_apply_credits_append(v, c1, c2 + (c3 + (c4 + c5)), denom);
}

/// Total in = total out, over balances: a deposit into a project with no
/// predecessor, an identity as genesis recipient and no finalized units
/// raises the fee recipient's and the genesis recipient's claimable
/// balances by the fee and genesis slices, the project's reserve by the
/// reserve slice and its unallocated revenue by what is left; no other
/// claimable balance changes, and the four increases add up to the deposit.
pub proof fn lemma_waterfall_balances(v: StateView, project_id: Address, amount: nat, denom: Denomination, depth: int)
    requires
        waterfall_spec(v, project_id, amount, denom, depth) matches Some((_, Ok(_))),
        amount > 0,
        0 <= depth <= MAX_CHAIN_DEPTH,
        v.projects.contains_key(project_id),
        v.projects[project_id].predecessor is None,
        v.projects[project_id].gamma_recipient_type == RecipientType::Identity,
        acc_of(v, project_id, denom).total_finalized_units == 0,
    ensures
        waterfall_split(amount, v.projects[project_id]) is Some,
        ({
            let w = waterfall_spec(v, project_id, amount, denom, depth).unwrap().0;
            let p = v.projects[project_id];
            let (_, r, f, g, l) = waterfall_split(amount, p).unwrap();
            &&& forall|id: Address, d: Denomination|
                #[trigger] claimable_of(w, id, d) == claimable_of(v, id, d) + (if d == denom && id == p.phi_recipient {
                    f
                } else {
                    0
                }) + (if d == denom && id == p.gamma_recipient {
                    g
                } else {
                    0
                })
            &&& acc_of(w, project_id, denom).reserve_balance@ == acc_of(v, project_id, denom).reserve_balance@ + r
            &&& acc_of(w, project_id, denom).unallocated@ == acc_of(v, project_id, denom).unallocated@ + l
            &&& r + f + g + l == amount
        }),
{
    let p = v.projects[project_id];
    let (r, rem2) = take_slice(amount, p.rho).unwrap();
    let acc = acc_of(v, project_id, denom);
    let v2 = if r != 0 {
        StateView {
            accumulators: v.accumulators.insert(
                (project_id, denom),
                AccumulatorState { reserve_balance: u256_of((acc.reserve_balance@ + r) as nat), ..acc },
            ),
            ..v
        }
    } else {
        v
    };
    if r != 0 {
        lemma_u256_of((acc.reserve_balance@ + r) as nat);
    }
    assert(acc_of(v2, project_id, denom).reserve_balance@ == acc.reserve_balance@ + r);
    assert(acc_of(v2, project_id, denom).unallocated == acc.unallocated);
    assert(acc_of(v2, project_id, denom).total_finalized_units == 0);
    let (f, rem3) = take_slice(rem2, p.phi).unwrap();
    let v3 = if f != 0 { credit_spec(v2, p.phi_recipient, denom, f).unwrap() } else { v2 };
    if f != 0 {
        lemma_u256_of(claimable_of(v2, p.phi_recipient, denom) + f);
    }
    assert(acc_of(v3, project_id, denom) == acc_of(v2, project_id, denom));
    let (g, rem4) = take_slice(rem3, p.gamma).unwrap();
    let v4 = if g != 0 { credit_spec(v3, p.gamma_recipient, denom, g).unwrap() } else { v3 };
    if g != 0 {
        lemma_u256_of(claimable_of(v3, p.gamma_recipient, denom) + g);
    }
    assert(acc_of(v4, project_id, denom) == acc_of(v2, project_id, denom));
    let v5 = if rem4 != 0 { distribute_spec(v4, project_id, rem4, denom).unwrap() } else { v4 };
    if rem4 != 0 {
        lemma_u256_of((acc.unallocated@ + rem4) as nat);
    }
    assert(v5 == waterfall_spec(v, project_id, amount, denom, depth).unwrap().0);
    assert(waterfall_split(amount, p) == Some((0nat, r, f, g, rem4)));
    lemma_waterfall_conserves(amount, p);
    assert forall|id: Address, d: Denomination|
        #[trigger] claimable_of(v5, id, d) == claimable_of(v, id, d) + (if d == denom && id == p.phi_recipient {
            f
        } else {
            0
        }) + (if d == denom && id == p.gamma_recipient {
            g
        } else {
            0
        }) by {
        assert(claimable_of(v2, id, d) == claimable_of(v, id, d));
        assert(claimable_of(v3, id, d) == claimable_of(v2, id, d) + (if d == denom && id == p.phi_recipient {
            f
        } else {
            0
        }));
        assert(claimable_of(v4, id, d) == claimable_of(v3, id, d) + (if d == denom && id == p.gamma_recipient {
            g
        } else {
            0
        }));
        assert(claimable_of(v5, id, d) == claimable_of(v4, id, d));
    }
}

} // verus!
