//! Project registration.
use crate::core_types::{Address, Hash32, Project, RecipientType};
use crate::execute::context::ExecutionContext;
use crate::protocol_state::{ProtocolState, StateView};
use crate::state_error::{StateError, StateResult};
use crate::waterfall::MAX_CHAIN_DEPTH;
use vstd::prelude::*;

verus! {

/// Minimum verification window in seconds (24 hours).
pub const MIN_VERIFICATION_WINDOW: u64 = 86_400;

/// Maximum basis points (100%).
pub const MAX_BASIS_POINTS: u32 = 10_000;

/// The parameters of a RegisterProject transaction.
#[derive(Clone, Copy, Debug, PartialEq, Eq)]
pub struct ProjectParams {
    /// The creating identity (must sign).
    pub creator: Address,
    /// Reserve slice in basis points.
    pub rho: u32,
    /// Fee slice in basis points.
    pub phi: u32,
    /// Genesis slice in basis points.
    pub gamma: u32,
    /// Predecessor slice in basis points.
    pub delta: u32,
    /// Receiver of the fee slice.
    pub phi_recipient: Address,
    /// Receiver of the genesis slice.
    pub gamma_recipient: Address,
    /// Identity or project.
    pub gamma_recipient_type: RecipientType,
    /// Identity allowed to claim the reserve.
    pub reserve_authority: Address,
    /// Identity allowed to deposit revenue.
    pub deposit_authority: Address,
    /// Identity that resolves challenges.
    pub adjudicator: Address,
    /// The project this one derives from.
    pub predecessor: Option<Address>,
    /// Challenge window in seconds.
    pub verification_window: u64,
    /// Minimum attestation bond.
    pub attestation_bond: u64,
    /// Required challenge bond.
    pub challenge_bond: u64,
    /// Optional evidence hash.
    pub evidence_hash: Option<Hash32>,
}

/// Number of predecessor links followed from `id`, up to `budget` links.
pub open spec fn pred_chain_depth(v: StateView, id: Address, budget: nat) -> nat
    decreases budget,
{
    if budget == 0 {
        0
    } else if v.projects.contains_key(id) && v.projects[id].predecessor is Some {
        1 + pred_chain_depth(v, v.projects[id].predecessor.unwrap(), (budget - 1) as nat)
    } else {
        0
    }
}

/// Number of genesis-to-project links followed from `id` (at depth
/// `depth`, stopping at depth 9), or `GammaCycleDetected` on the first
/// project visited twice.
pub open spec fn gamma_chain_depth(v: StateView, id: Address, visited: Set<Address>, depth: nat) -> StateResult<u8>
    decreases 9 - depth,
{
    if depth >= 9 {
        Ok(depth as u8)
    } else if visited.contains(id) {
        Err(StateError::GammaCycleDetected { project_id: id })
    } else if v.projects.contains_key(id) && v.projects[id].gamma > 0
        && v.projects[id].gamma_recipient_type == RecipientType::Project {
        gamma_chain_depth(v, v.projects[id].gamma_recipient, visited.insert(id), depth + 1)
    } else {
        Ok(depth as u8)
    }
}

/// Whether `addr` names an existing identity that is active; the error
/// otherwise (`missing` when absent).
pub open spec fn check_active(v: StateView, addr: Address, missing: StateError) -> Option<StateError> {
    if !v.identities.contains_key(addr) {
        Some(missing)
    } else if !v.identities[addr].active {
        Some(StateError::IdentityDeactivated { address: addr })
    } else {
        None
    }
}

/// The project that a RegisterProject transaction creates.
pub open spec fn project_of(p: ProjectParams, project_id: Address) -> Project {
    Project {
        project_id,
        creator: p.creator,
        rho: p.rho,
        phi: p.phi,
        gamma: p.gamma,
        delta: p.delta,
        phi_recipient: p.phi_recipient,
        gamma_recipient: p.gamma_recipient,
        gamma_recipient_type: p.gamma_recipient_type,
        reserve_authority: p.reserve_authority,
        deposit_authority: p.deposit_authority,
        adjudicator: p.adjudicator,
        predecessor: p.predecessor,
        verification_window: p.verification_window,
        attestation_bond: p.attestation_bond,
        challenge_bond: p.challenge_bond,
        evidence_hash: p.evidence_hash,
    }
}

/// The sum of the four slices, as an error reports it: the sum itself, or
/// `u32::MAX` when it does not fit in a `u32`.
pub open spec fn reported_sum(p: ProjectParams) -> u32 {
    if p.rho + p.phi + p.gamma + p.delta > u32::MAX {
        u32::MAX
    } else {
        (p.rho + p.phi + p.gamma + p.delta) as u32
    }
}

/// Validation of a RegisterProject transaction: the first rule broken, in
/// the order they are checked.
pub open spec fn register_project_error(v: StateView, min_window: u64, signer: Address, p: ProjectParams, project_id: Address) -> Option<StateError> {
    if signer != p.creator {
        Some(StateError::UnauthorizedSigner { expected: p.creator, actual: signer })
    } else if check_active(v, p.creator, StateError::IdentityNotFound { address: p.creator }) is Some {
        check_active(v, p.creator, StateError::IdentityNotFound { address: p.creator })
    } else if p.rho + p.phi + p.gamma + p.delta > MAX_BASIS_POINTS {
        Some(StateError::InvalidBasisPointsSum { sum: reported_sum(p) })
    } else if p.verification_window < min_window {
        Some(StateError::VerificationWindowTooShort { window: p.verification_window, minimum: min_window })
    } else if p.challenge_bond > p.attestation_bond {
        Some(StateError::ChallengeBondExceedsAttestationBond { challenge_bond: p.challenge_bond, attestation_bond: p.attestation_bond })
    } else if p.phi > 0 && check_active(v, p.phi_recipient, StateError::PhiRecipientNotFound { recipient: p.phi_recipient }) is Some {
        check_active(v, p.phi_recipient, StateError::PhiRecipientNotFound { recipient: p.phi_recipient })
    } else if p.gamma > 0 && p.gamma_recipient_type == RecipientType::Identity
        && check_active(v, p.gamma_recipient, StateError::GammaRecipientIdentityNotFound { recipient: p.gamma_recipient }) is Some {
        check_active(v, p.gamma_recipient, StateError::GammaRecipientIdentityNotFound { recipient: p.gamma_recipient })
    } else if p.gamma > 0 && p.gamma_recipient_type == RecipientType::Project && !v.projects.contains_key(p.gamma_recipient) {
        Some(StateError::GammaRecipientProjectNotFound { recipient: p.gamma_recipient })
    } else if p.gamma > 0 && p.gamma_recipient_type == RecipientType::Project
        && gamma_chain_depth(v, p.gamma_recipient, Set::empty(), 0) is Err {
        Some(gamma_chain_depth(v, p.gamma_recipient, Set::empty(), 0)->Err_0)
    } else if p.gamma > 0 && p.gamma_recipient_type == RecipientType::Project
        && gamma_chain_depth(v, p.gamma_recipient, Set::empty(), 0)->Ok_0 >= MAX_CHAIN_DEPTH {
        Some(StateError::GammaChainTooDeep { depth: gamma_chain_depth(v, p.gamma_recipient, Set::empty(), 0)->Ok_0, limit: MAX_CHAIN_DEPTH })
    } else if p.rho > 0 && check_active(v, p.reserve_authority, StateError::ReserveAuthorityNotFound { authority: p.reserve_authority }) is Some {
        check_active(v, p.reserve_authority, StateError::ReserveAuthorityNotFound { authority: p.reserve_authority })
    } else if check_active(v, p.deposit_authority, StateError::DepositAuthorityNotFound { authority: p.deposit_authority }) is Some {
        check_active(v, p.deposit_authority, StateError::DepositAuthorityNotFound { authority: p.deposit_authority })
    } else if check_active(v, p.adjudicator, StateError::AdjudicatorNotFound { adjudicator: p.adjudicator }) is Some {
        check_active(v, p.adjudicator, StateError::AdjudicatorNotFound { adjudicator: p.adjudicator })
    } else if p.predecessor is Some && p.delta == 0 {
        Some(StateError::PredecessorWithoutDelta)
    } else if p.predecessor is None && p.delta > 0 {
        Some(StateError::DeltaWithoutPredecessor)
    } else if p.predecessor is Some && !v.projects.contains_key(p.predecessor.unwrap()) {
        Some(StateError::PredecessorNotFound { predecessor: p.predecessor.unwrap() })
    } else if p.predecessor is Some && pred_chain_depth(v, p.predecessor.unwrap(), 9) >= MAX_CHAIN_DEPTH {
        Some(StateError::PredecessorChainTooDeep { depth: pred_chain_depth(v, p.predecessor.unwrap(), 9) as u8, limit: MAX_CHAIN_DEPTH })
    } else if v.projects.contains_key(project_id) {
        Some(StateError::ProjectAlreadyExists { project_id })
    } else {
        None
    }
}

/// RegisterProject: the new project under `project_id` when every rule
/// holds, otherwise the first broken rule and an unchanged state.
pub open spec fn register_project_spec(v: StateView, min_window: u64, signer: Address, p: ProjectParams, project_id: Address) -> (StateView, StateResult<Address>) {
    match register_project_error(v, min_window, signer, p, project_id) {
        Some(e) => (v, Err(e)),
        None => (StateView { projects: v.projects.insert(project_id, project_of(p, project_id)), ..v }, Ok(project_id)),
    }
}

/// Checks that `addr` names an active identity.
fn check_active_exec(state: &ProtocolState, addr: &Address, missing: StateError) -> (r: Option<StateError>)
    requires
        state.wf(),
    ensures
        r == check_active(state@, *addr, missing),
{
    match state.get_identity(addr) {
        None => Some(missing),
        Some(i) => if !i.active {
            Some(StateError::IdentityDeactivated { address: *addr })
        } else {
            None
        },
    }
}

/// Number of predecessor links from `project_id`, following at most 9.
pub fn compute_predecessor_chain_depth(state: &ProtocolState, project_id: &Address) -> (r: u8)
    requires
        state.wf(),
    ensures
        r == pred_chain_depth(state@, *project_id, 9),
{
    let mut depth: u8 = 0;
    let mut current = *project_id;
    let mut done = false;
    while depth < MAX_CHAIN_DEPTH + 1 && !done
        invariant
            state.wf(),
            depth <= 9,
            depth + pred_chain_depth(state@, current, (9 - depth) as nat) == pred_chain_depth(state@, *project_id, 9),
            done ==> pred_chain_depth(state@, current, (9 - depth) as nat) == 0,
        decreases 9 - depth, (if done { 0int } else { 1int }),
    {
        match state.get_project(&current) {
            Some(p) => match p.predecessor {
                Some(pred) => {
                    depth = depth + 1;
                    current = pred;
                },
                None => {
                    done = true;
                },
            },
            None => {
                done = true;
            },
        }
    }
    depth
}

/// Whether `x` occurs in `v`.
fn contains_address(v: &Vec<Address>, x: &Address) -> (r: bool)
    ensures
        r == v@.contains(*x),
{
    let mut i: usize = 0;
    while i < v.len()
        invariant
            0 <= i <= v@.len(),
            forall|j: int| 0 <= j < i ==> v@[j] != *x,
        decreases v@.len() - i,
    {
        if crate::assoc_map::bytes_eq(&v[i], x) {
            return true;
        }
        i += 1;
    }
    false
}

/// Number of genesis-to-project links from `project_id`, following at
/// most 9; `GammaCycleDetected` when a project comes up twice.
pub fn compute_gamma_chain_depth(state: &ProtocolState, project_id: &Address) -> (r: StateResult<u8>)
    requires
        state.wf(),
    ensures
        r == gamma_chain_depth(state@, *project_id, Set::empty(), 0),
{
    let mut depth: u8 = 0;
    let mut current = *project_id;
    let mut visited: Vec<Address> = Vec::new();
    assert(visited@.to_set() =~= Set::<Address>::empty());
    while depth < MAX_CHAIN_DEPTH + 1
        invariant
            state.wf(),
            depth <= 9,
            gamma_chain_depth(state@, current, visited@.to_set(), depth as nat) == gamma_chain_depth(state@, *project_id, Set::empty(), 0),
        decreases 9 - depth,
    {
        if contains_address(&visited, &current) {
            return Err(StateError::GammaCycleDetected { project_id: current });
        }
        let ghost old_visited = visited@;
        visited.push(current);
        proof {
            old_visited.lemma_push_to_set_commute(current);
            assert(visited@ == old_visited.push(current));
        }
        match state.get_project(&current) {
            Some(p) => {
                if p.gamma > 0 && p.gamma_recipient_type == RecipientType::Project {
                    depth = depth + 1;
                    current = p.gamma_recipient;
                } else {
                    return Ok(depth);
                }
            },
            None => {
                return Ok(depth);
            },
        }
    }
    Ok(depth)
}

/// Executes RegisterProject (see the checks in `register_project_error`);
/// the project id is `project_id`, derived from the signed transaction.
pub fn execute_register_project(
    state: &mut ProtocolState,
    ctx: &ExecutionContext,
    signer_address: &Address,
    params: &ProjectParams,
    project_id: &Address,
) -> (r: StateResult<Address>)
    requires
        old(state).wf(),
    ensures
        final(state).wf(),
        (final(state)@, r) == register_project_spec(old(state)@, ctx.min_verification_window, *signer_address, *params, *project_id),
{
    let p = *params;
    if !crate::assoc_map::bytes_eq(signer_address, &p.creator) {
        return Err(StateError::UnauthorizedSigner { expected: p.creator, actual: *signer_address });
    }
    match check_active_exec(state, &p.creator, StateError::IdentityNotFound { address: p.creator }) {
        Some(e) => {
            return Err(e);
        },
        None => {},
    }
    let sum: u64 = p.rho as u64 + p.phi as u64 + p.gamma as u64 + p.delta as u64;
    if sum > MAX_BASIS_POINTS as u64 {
        let reported: u32 = if sum > u32::MAX as u64 {
            u32::MAX
        } else {
            sum as u32
        };
        return Err(StateError::InvalidBasisPointsSum { sum: reported });
    }
    if p.verification_window < ctx.min_verification_window {
        return Err(StateError::VerificationWindowTooShort { window: p.verification_window, minimum: ctx.min_verification_window });
    }
    if p.challenge_bond > p.attestation_bond {
        return Err(StateError::ChallengeBondExceedsAttestationBond { challenge_bond: p.challenge_bond, attestation_bond: p.attestation_bond });
    }
    if p.phi > 0 {
        match check_active_exec(state, &p.phi_recipient, StateError::PhiRecipientNotFound { recipient: p.phi_recipient }) {
            Some(e) => {
                return Err(e);
            },
            None => {},
        }
    }
    if p.gamma > 0 {
        match p.gamma_recipient_type {
            RecipientType::Identity => {
                match check_active_exec(state, &p.gamma_recipient, StateError::GammaRecipientIdentityNotFound { recipient: p.gamma_recipient }) {
                    Some(e) => {
                        return Err(e);
                    },
                    None => {},
                }
            },
            RecipientType::Project => {
                if !state.project_exists(&p.gamma_recipient) {
                    return Err(StateError::GammaRecipientProjectNotFound { recipient: p.gamma_recipient });
                }
                let depth = match compute_gamma_chain_depth(state, &p.gamma_recipient) {
                    Ok(d) => d,
                    Err(e) => {
                        return Err(e);
                    },
                };
                if depth >= MAX_CHAIN_DEPTH {
                    return Err(StateError::GammaChainTooDeep { depth, limit: MAX_CHAIN_DEPTH });
                }
            },
        }
    }
    if p.rho > 0 {
        match check_active_exec(state, &p.reserve_authority, StateError::ReserveAuthorityNotFound { authority: p.reserve_authority }) {
            Some(e) => {
                return Err(e);
            },
            None => {},
        }
    }
    match check_active_exec(state, &p.deposit_authority, StateError::DepositAuthorityNotFound { authority: p.deposit_authority }) {
        Some(e) => {
            return Err(e);
        },
        None => {},
    }
    match check_active_exec(state, &p.adjudicator, StateError::AdjudicatorNotFound { adjudicator: p.adjudicator }) {
        Some(e) => {
            return Err(e);
        },
        None => {},
    }
    match p.predecessor {
        Some(pred_id) => {
            if p.delta == 0 {
                return Err(StateError::PredecessorWithoutDelta);
            }
            if !state.project_exists(&pred_id) {
                return Err(StateError::PredecessorNotFound { predecessor: pred_id });
            }
            let depth = compute_predecessor_chain_depth(state, &pred_id);
            if depth >= MAX_CHAIN_DEPTH {
                return Err(StateError::PredecessorChainTooDeep { depth, limit: MAX_CHAIN_DEPTH });
            }
        },
        None => {
            if p.delta > 0 {
                return Err(StateError::DeltaWithoutPredecessor);
            }
        },
    }
    if state.project_exists(project_id) {
        return Err(StateError::ProjectAlreadyExists { project_id: *project_id });
    }
    let project = Project {
        project_id: *project_id,
        creator: p.creator,
        rho: p.rho,
        phi: p.phi,
        gamma: p.gamma,
        delta: p.delta,
        phi_recipient: p.phi_recipient,
        gamma_recipient: p.gamma_recipient,
        gamma_recipient_type: p.gamma_recipient_type,
        reserve_authority: p.reserve_authority,
        deposit_authority: p.deposit_authority,
        adjudicator: p.adjudicator,
        predecessor: p.predecessor,
        verification_window: p.verification_window,
        attestation_bond: p.attestation_bond,
        challenge_bond: p.challenge_bond,
        evidence_hash: p.evidence_hash,
    };
    state.insert_project(project);
    Ok(*project_id)
}

} // verus!
