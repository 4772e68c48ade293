//! The waterfall revenue router.
//!
//! A deposit is cut, in order, into the predecessor slice (delta), the
//! reserve slice (rho), the fee slice (phi) and the genesis slice (gamma),
//! each a basis-point share of what remains; the rest goes to the labor
//! pool.  Predecessor and genesis-project slices are deposited recursively,
//! up to a maximum depth.
use crate::accumulator::{distribute_spec, distribute_to_labor_pool, fits};
use crate::core_types::{AccumulatorState, Address, Denomination, Project, RecipientType};
use crate::protocol_state::{acc_of, lemma_u256_is_u256_of, u256_of, ProtocolState, StateView};
use crate::bond::credit_spec;
use crate::state_error::{StateError, StateResult};
use crate::u256::U256;
use vstd::prelude::*;

verus! {

/// Maximum recursion depth for predecessor and genesis chains.
pub const MAX_CHAIN_DEPTH: u8 = 8;

/// One hundred percent, in basis points.
pub const BASIS_POINTS_DENOMINATOR: u64 = 10_000;

/// `amount * bp / 10000`; zero when `bp` is zero; `None` when the product
/// does not fit in 256 bits.
pub open spec fn basis_points_spec(amount: nat, bp: u32) -> Option<nat> {
    if bp == 0 {
        Some(0)
    } else if !fits(amount * bp) {
        None
    } else {
        Some((amount * bp) as nat / 10_000)
    }
}

/// Cuts a `bp` slice off `remaining`: `(slice, rest)`, or `None` when the
/// product overflows or the slice would exceed what remains.
pub open spec fn take_slice(remaining: nat, bp: u32) -> Option<(nat, nat)> {
    match basis_points_spec(remaining, bp) {
        None => None,
        Some(s) => if s > remaining {
            None
        } else {
            Some((s, (remaining - s) as nat))
        },
    }
}

/// The five parts of a deposit into `p`, ignoring where they go:
/// predecessor, reserve, fee, genesis, labor.
pub open spec fn waterfall_split(amount: nat, p: Project) -> Option<(nat, nat, nat, nat, nat)> {
    let d = if p.predecessor is Some { take_slice(amount, p.delta) } else { Some((0nat, amount)) };
    match d {
        None => None,
        Some((dv, r1)) => match take_slice(r1, p.rho) {
            None => None,
            Some((rv, r2)) => match take_slice(r2, p.phi) {
                None => None,
                Some((fv, r3)) => match take_slice(r3, p.gamma) {
                    None => None,
                    Some((gv, r4)) => Some((dv, rv, fv, gv, r4)),
                },
            },
        },
    }
}

/// The state and result of routing `amount` through the waterfall of
/// `project_id` at recursion depth `depth` (`None` where the arithmetic
/// overflows).
pub open spec fn waterfall_spec(v: StateView, project_id: Address, amount: nat, denom: Denomination, depth: int) -> Option<(StateView, StateResult<()>)>
    decreases MAX_CHAIN_DEPTH + 1 - depth,
{
    if amount == 0 {
        Some((v, Ok(())))
    } else if depth > MAX_CHAIN_DEPTH as int || depth < 0 {
        let acc = acc_of(v, project_id, denom);
        if !fits((acc.unallocated@ + amount) as int) {
            None
        } else {
            let acc1 = AccumulatorState { unallocated: u256_of((acc.unallocated@ + amount) as nat), ..acc };
            Some((StateView { accumulators: v.accumulators.insert((project_id, denom), acc1), ..v }, Ok(())))
        }
    } else if !v.projects.contains_key(project_id) {
        Some((v, Err(StateError::ProjectNotFound { project_id })))
    } else {
        let p = v.projects[project_id];
        // 1. predecessor slice
        let pred: Option<(StateView, StateResult<()>, nat)> = match p.predecessor {
            Some(pred_id) => match take_slice(amount, p.delta) {
                None => None,
                Some((d, rest)) => if d == 0 {
                    Some((v, Ok(()), amount))
                } else {
                    match waterfall_spec(v, pred_id, d, denom, depth + 1) {
                        None => None,
                        Some((v1, Err(e))) => Some((v1, Err(e), 0nat)),
                        Some((v1, Ok(_))) => Some((v1, Ok(()), rest)),
                    }
                },
            },
            None => Some((v, Ok(()), amount)),
        };
        match pred {
            None => None,
            Some((v1, Err(e), _)) => Some((v1, Err(e))),
            Some((v1, Ok(_), rem1)) => {
                // 2. reserve slice
                match take_slice(rem1, p.rho) {
                    None => None,
                    Some((r, rem2)) => {
                        let acc = acc_of(v1, project_id, denom);
                        if r != 0 && !fits((acc.reserve_balance@ + r) as int) {
                            None
                        } else {
                            let v2 = if r != 0 {
                                StateView {
                                    accumulators: v1.accumulators.insert(
                                        (project_id, denom),
                                        AccumulatorState { reserve_balance: u256_of((acc.reserve_balance@ + r) as nat), ..acc },
                                    ),
                                    ..v1
                                }
                            } else {
                                v1
                            };
                            // 3. fee slice
                            match take_slice(rem2, p.phi) {
                                None => None,
                                Some((f, rem3)) => {
                                    let v3 = if f != 0 { credit_spec(v2, p.phi_recipient, denom, f) } else { Some(v2) };
                                    match v3 {
                                        None => None,
                                        Some(v3) => {
                                            // 4. genesis slice
                                            match take_slice(rem3, p.gamma) {
                                                None => None,
                                                Some((g, rem4)) => {
                                                    let g_res: Option<(StateView, StateResult<()>)> = if g == 0 {
                                                        Some((v3, Ok(())))
                                                    } else {
                                                        match p.gamma_recipient_type {
                                                            RecipientType::Identity => match credit_spec(v3, p.gamma_recipient, denom, g) {
                                                                None => None,
                                                                Some(v4) => Some((v4, Ok(()))),
                                                            },
                                                            RecipientType::Project => waterfall_spec(v3, p.gamma_recipient, g, denom, depth + 1),
                                                        }
                                                    };
                                                    match g_res {
                                                        None => None,
                                                        Some((v4, Err(e))) => Some((v4, Err(e))),
                                                        Some((v4, Ok(_))) => {
                                                            // 5. labor pool
                                                            if rem4 == 0 {
                                                                Some((v4, Ok(())))
                                                            } else {
                                                                match distribute_spec(v4, project_id, rem4, denom) {
                                                                    None => None,
                                                                    Some(v5) => Some((v5, Ok(()))),
                                                                }
                                                            }
                                                        },
                                                    }
                                                },
                                            }
                                        },
                                    }
                                },
                            }
                        }
                    },
                }
            },
        }
    }
}

/// Stages 2 to 5 of `waterfall_spec` (reserve and fee here, then
/// `waterfall_tail_spec`) for project `p` under `project_id`, from state
/// `v1` with `rem1` left after the predecessor slice.
pub open spec fn waterfall_rest_spec(
    v1: StateView,
    project_id: Address,
    p: Project,
    rem1: nat,
    denom: Denomination,
    depth: int,
) -> Option<(StateView, StateResult<()>)> {
    // 2. reserve slice
    match take_slice(rem1, p.rho) {
        None => None,
        Some((r, rem2)) => {
            let acc = acc_of(v1, project_id, denom);
            if r != 0 && !fits((acc.reserve_balance@ + r) as int) {
                None
            } else {
                let v2 = if r != 0 {
                    StateView {
                        accumulators: v1.accumulators.insert(
                            (project_id, denom),
                            AccumulatorState { reserve_balance: u256_of((acc.reserve_balance@ + r) as nat), ..acc },
                        ),
                        ..v1
                    }
                } else {
                    v1
                };
                // 3. fee slice
                match take_slice(rem2, p.phi) {
                    None => None,
                    Some((f, rem3)) => {
                        let v3 = if f != 0 { credit_spec(v2, p.phi_recipient, denom, f) } else { Some(v2) };
                        match v3 {
                            None => None,
                            Some(v3) => waterfall_tail_spec(v3, project_id, p, rem3, denom, depth),
                        }
                    },
                }
            }
        },
    }
}

/// Stages 4 and 5 of `waterfall_spec` (genesis, labor pool) for project
/// `p` under `project_id`, from state `v3` with `rem3` left after the fee
/// slice.
pub open spec fn waterfall_tail_spec(
    v3: StateView,
    project_id: Address,
    p: Project,
    rem3: nat,
    denom: Denomination,
    depth: int,
) -> Option<(StateView, StateResult<()>)> {
    // 4. genesis slice
    match take_slice(rem3, p.gamma) {
        None => None,
        Some((g, rem4)) => {
            let g_res: Option<(StateView, StateResult<()>)> = if g == 0 {
                Some((v3, Ok(())))
            } else {
                match p.gamma_recipient_type {
                    RecipientType::Identity => match credit_spec(v3, p.gamma_recipient, denom, g) {
                        None => None,
                        Some(v4) => Some((v4, Ok(()))),
                    },
                    RecipientType::Project => waterfall_spec(v3, p.gamma_recipient, g, denom, depth + 1),
                }
            };
            match g_res {
                None => None,
                Some((v4, Err(e))) => Some((v4, Err(e))),
                Some((v4, Ok(_))) => {
                    // 5. labor pool
                    if rem4 == 0 {
                        Some((v4, Ok(())))
                    } else {
                        match distribute_spec(v4, project_id, rem4, denom) {
                            None => None,
                            Some(v5) => Some((v5, Ok(()))),
                        }
                    }
                },
            }
        },
    }
}

/// Basis points of an amount: `amount * bp / 10000`, multiplying first.
pub fn compute_basis_points(amount: U256, bp: u32) -> (r: Option<U256>)
    ensures
        match basis_points_spec(amount@, bp) {
            None => r is None,
            Some(s) => r is Some && r.unwrap()@ == s,
        },
{
    if bp == 0 {
        return Some(U256::zero());
    }
    match amount.checked_mul_u64(bp as u64) {
        None => None,
        Some(p) => Some(p.div_u64(BASIS_POINTS_DENOMINATOR)),
    }
}

/// Cuts a basis-point slice off `remaining`.
fn cut(remaining: U256, bp: u32) -> (r: Option<(U256, U256)>)
    ensures
        match take_slice(remaining@, bp) {
            None => r is None,
            Some((s, rest)) => r is Some && r.unwrap().0@ == s && r.unwrap().1@ == rest,
        },
{
    match compute_basis_points(remaining, bp) {
        None => None,
        Some(s) => {
            if remaining.lt(&s) {
                None
            } else {
                Some((s, remaining.minus(&s)))
            }
        },
    }
}

/// Routes a deposit through a project's waterfall (see the module
/// documentation); beyond the maximum depth the whole amount is held as
/// the project's unallocated labor-pool revenue.  `ArithmeticOverflow` where a
/// balance would exceed 256 bits.
pub fn execute_waterfall(
    state: &mut ProtocolState,
    project_id: &Address,
    amount: U256,
    denom: &Denomination,
    depth: u8,
) -> (r: StateResult<()>)
    requires
        old(state).wf(),
    ensures
        final(state).wf(),
        match waterfall_spec(old(state)@, *project_id, amount@, *denom, depth as int) {
            Some(out) => (final(state)@, r) == out,
            None => r == Err::<(), StateError>(StateError::ArithmeticOverflow),
        },
    decreases MAX_CHAIN_DEPTH + 1 - depth, 2int,
{
    let ghost v0 = state@;
    if amount.is_zero() {
        return Ok(());
    }
    if depth > MAX_CHAIN_DEPTH {
        let mut acc = state.get_or_create_accumulator(project_id, denom);
        acc.unallocated = match acc.unallocated.checked_add(&amount) {
            Some(u) => u,
            None => {
                return Err(StateError::ArithmeticOverflow);
            },
        };
        proof {
            lemma_u256_is_u256_of(acc.unallocated);
        }
        state.set_accumulator(project_id, denom, acc);
        assert(state@.accumulators =~= waterfall_spec(v0, *project_id, amount@, *denom, depth as int).unwrap().0.accumulators);
        return Ok(());
    }
    let project = match state.get_project(project_id) {
        Some(p) => p,
        None => {
            return Err(StateError::ProjectNotFound { project_id: *project_id });
        },
    };

    let mut remaining = amount;

    // 1. Predecessor slice
    match project.predecessor {
        Some(predecessor_id) => {
            let (delta_amount, rest) = match cut(remaining, project.delta) {
                Some(c) => c,
                None => {
                    return Err(StateError::ArithmeticOverflow);
                },
            };
            if !delta_amount.is_zero() {
                match execute_waterfall(state, &predecessor_id, delta_amount, denom, depth + 1) {
                    Ok(()) => {},
                    Err(e) => {
                        return Err(e);
                    },
                }
                remaining = rest;
            }
        },
        None => {},
    }
    proof {
        assert(waterfall_spec(v0, *project_id, amount@, *denom, depth as int) == waterfall_rest_spec(
            state@,
            *project_id,
            project,
            remaining@,
            *denom,
            depth as int,
        ));
    }
    route_after_predecessor(state, project_id, &project, remaining, denom, depth)
}

/// Stages 2 to 5 of a deposit into `project_id` (reserve, fee, genesis,
/// labor pool), on `remaining`, what is left after the predecessor slice.
fn route_after_predecessor(
    state: &mut ProtocolState,
    project_id: &Address,
    project: &Project,
    remaining: U256,
    denom: &Denomination,
    depth: u8,
) -> (r: StateResult<()>)
    requires
        old(state).wf(),
        depth <= MAX_CHAIN_DEPTH,
    ensures
        final(state).wf(),
        match waterfall_rest_spec(old(state)@, *project_id, *project, remaining@, *denom, depth as int) {
            Some(out) => (final(state)@, r) == out,
            None => r == Err::<(), StateError>(StateError::ArithmeticOverflow),
        },
    decreases MAX_CHAIN_DEPTH + 1 - depth, 1int,
{
    let project = *project;
    let mut remaining = remaining;
    let ghost v1 = state@;
    let ghost remaining_at_start = remaining;

    // 2. Reserve slice
    let (reserve_amount, rest) = match cut(remaining, project.rho) {
        Some(c) => c,
        None => {
            return Err(StateError::ArithmeticOverflow);
        },
    };
    if !reserve_amount.is_zero() {
        let mut acc = state.get_or_create_accumulator(project_id, denom);
        acc.reserve_balance = match acc.reserve_balance.checked_add(&reserve_amount) {
            Some(b) => b,
            None => {
                return Err(StateError::ArithmeticOverflow);
            },
        };
        proof {
            lemma_u256_is_u256_of(acc.reserve_balance);
        }
        state.set_accumulator(project_id, denom, acc);
        assert(state@.accumulators =~= v1.accumulators.insert(
            (*project_id, *denom),
            AccumulatorState { reserve_balance: u256_of((acc_of(v1, *project_id, *denom).reserve_balance@ + reserve_amount@) as nat), ..acc_of(v1, *project_id, *denom) },
        ));
        remaining = rest;
    }

    // 3. Fee slice
    let (phi_amount, rest) = match cut(remaining, project.phi) {
        Some(c) => c,
        None => {
            return Err(StateError::ArithmeticOverflow);
        },
    };
    if !phi_amount.is_zero() {
        if !state.try_credit_claimable(&project.phi_recipient, denom, phi_amount) {
            return Err(StateError::ArithmeticOverflow);
        }
        remaining = rest;
    }

    proof {
        assert(waterfall_rest_spec(v1, *project_id, project, remaining_at_start@, *denom, depth as int) == waterfall_tail_spec(
            state@,
            *project_id,
            project,
            remaining@,
            *denom,
            depth as int,
        ));
    }
    route_genesis_and_labor(state, project_id, &project, remaining, denom, depth)
}

/// Stages 4 and 5 of a deposit into `project_id` (genesis, labor pool), on
/// `remaining`, what is left after the fee slice.
fn route_genesis_and_labor(
    state: &mut ProtocolState,
    project_id: &Address,
    project: &Project,
    remaining: U256,
    denom: &Denomination,
    depth: u8,
) -> (r: StateResult<()>)
    requires
        old(state).wf(),
        depth <= MAX_CHAIN_DEPTH,
    ensures
        final(state).wf(),
        match waterfall_tail_spec(old(state)@, *project_id, *project, remaining@, *denom, depth as int) {
            Some(out) => (final(state)@, r) == out,
            None => r == Err::<(), StateError>(StateError::ArithmeticOverflow),
        },
    decreases MAX_CHAIN_DEPTH + 1 - depth, 0int,
{
    let project = *project;
    let mut remaining = remaining;
    // 4. Genesis slice
    let (gamma_amount, rest) = match cut(remaining, project.gamma) {
        Some(c) => c,
        None => {
            return Err(StateError::ArithmeticOverflow);
        },
    };
    if !gamma_amount.is_zero() {
        match project.gamma_recipient_type {
            RecipientType::Identity => {
                if !state.try_credit_claimable(&project.gamma_recipient, denom, gamma_amount) {
                    return Err(StateError::ArithmeticOverflow);
                }
            },
            RecipientType::Project => {
                match execute_waterfall(state, &project.gamma_recipient, gamma_amount, denom, depth + 1) {
                    Ok(()) => {},
                    Err(e) => {
                        return Err(e);
                    },
                }
            },
        }
        remaining = rest;
    }

    // 5. Labor pool
    if !remaining.is_zero() {
        match distribute_to_labor_pool(state, project_id, remaining, denom) {
            Ok(()) => {},
            Err(e) => {
                return Err(e);
            },
        }
    }
    Ok(())
}

/// The five parts of a deposit add up to the deposit, whatever the
/// project's basis points.
pub proof fn lemma_waterfall_conserves(amount: nat, p: Project)
    requires
        waterfall_split(amount, p) is Some,
    ensures
        ({
            let (d, r, f, g, l) = waterfall_split(amount, p).unwrap();
            d + r + f + g + l == amount
        }),
{
}

/// With basis points of at most 100% each, no slice exceeds what remains,
/// so the split exists whenever `amount * 10000` fits in 256 bits.
pub proof fn lemma_waterfall_split_defined(amount: nat, p: Project)
    requires
        p.rho <= 10_000,
        p.phi <= 10_000,
        p.gamma <= 10_000,
        p.delta <= 10_000,
        fits((amount * 10_000) as int),
    ensures
        waterfall_split(amount, p) is Some,
{
    lemma_take_slice_defined(amount, p.delta);
    let r1 = if p.predecessor is Some { take_slice(amount, p.delta).unwrap().1 } else { amount };
    lemma_take_slice_defined(r1, p.rho);
    let r2 = take_slice(r1, p.rho).unwrap().1;
    lemma_take_slice_defined(r2, p.phi);
    let r3 = take_slice(r2, p.phi).unwrap().1;
    lemma_take_slice_defined(r3, p.gamma);
}

/// A slice of at most 100% of what fits is defined and leaves no more than
/// what it started with.
pub proof fn lemma_take_slice_defined(remaining: nat, bp: u32)
    requires
        bp <= 10_000,
        fits((remaining * 10_000) as int),
    ensures
        take_slice(remaining, bp) is Some,
        take_slice(remaining, bp).unwrap().1 <= remaining,
        fits((take_slice(remaining, bp).unwrap().1 * 10_000) as int),
{
    if bp != 0 {
        assert(remaining * bp <= remaining * 10_000) by (nonlinear_arith)
            requires
                bp <= 10_000,
        ;
        assert((remaining * bp) as nat / 10_000 <= remaining) by (nonlinear_arith)
            requires
                bp <= 10_000,
        ;
    }
    let rest = take_slice(remaining, bp).unwrap().1;
    assert(rest * 10_000 <= remaining * 10_000) by (nonlinear_arith)
        requires
            rest <= remaining,
    ;
}

} // verus!
