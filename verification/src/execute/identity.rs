//! Identity transactions: CreateIdentity, CreateAgent, UpdateProfileHash
//! and DeactivateAgent.
use crate::core_types::{agent_identity, human_identity, Address, Hash32, Identity, IdentityType, PublicKey};
use crate::execute::context::ExecutionContext;
use crate::protocol_state::{ProtocolState, StateView};
use crate::state_error::{StateError, StateResult};
use vstd::prelude::*;

verus! {

/// The state with an identity stored at `addr`.
pub open spec fn with_identity(v: StateView, addr: Address, id: Identity) -> StateView {
    StateView { identities: v.identities.insert(addr, id), ..v }
}

/// CreateIdentity: a new human at `address`, unless one is registered there.
pub open spec fn create_identity_spec(v: StateView, public_key: PublicKey, address: Address) -> (StateView, StateResult<Address>) {
    if v.identities.contains_key(address) {
        (v, Err(StateError::IdentityAlreadyExists { address }))
    } else {
        (with_identity(v, address, human_identity(address, public_key)), Ok(address))
    }
}

/// CreateAgent: the signer must be the parent, an existing active human,
/// and the agent's address must be free.
pub open spec fn create_agent_spec(
    v: StateView,
    signer: Address,
    parent: Address,
    public_key: PublicKey,
    address: Address,
) -> (StateView, StateResult<Address>) {
    if signer != parent {
        (v, Err(StateError::UnauthorizedSigner { expected: parent, actual: signer }))
    } else if !v.identities.contains_key(parent) {
        (v, Err(StateError::ParentNotFound { parent }))
    } else if v.identities[parent].identity_type != IdentityType::Human {
        (v, Err(StateError::NotHumanIdentity { address: parent }))
    } else if !v.identities[parent].active {
        (v, Err(StateError::IdentityDeactivated { address: parent }))
    } else if v.identities.contains_key(address) {
        (v, Err(StateError::IdentityAlreadyExists { address }))
    } else {
        (with_identity(v, address, agent_identity(address, public_key, parent)), Ok(address))
    }
}

/// UpdateProfileHash: the signer must be the identity, which must exist and
/// be active.
pub open spec fn update_profile_hash_spec(v: StateView, signer: Address, identity: Address, hash: Hash32) -> (StateView, StateResult<()>) {
    if signer != identity {
        (v, Err(StateError::UnauthorizedSigner { expected: identity, actual: signer }))
    } else if !v.identities.contains_key(identity) {
        (v, Err(StateError::IdentityNotFound { address: identity }))
    } else if !v.identities[identity].active {
        (v, Err(StateError::IdentityDeactivated { address: identity }))
    } else {
        (with_identity(v, identity, Identity { profile_hash: Some(hash), ..v.identities[identity] }), Ok(()))
    }
}

/// DeactivateAgent: the target must be an agent and the signer its parent.
pub open spec fn deactivate_agent_spec(v: StateView, signer: Address, agent: Address) -> (StateView, StateResult<()>) {
    if !v.identities.contains_key(agent) {
        (v, Err(StateError::IdentityNotFound { address: agent }))
    } else if v.identities[agent].identity_type != IdentityType::Agent {
        (v, Err(StateError::NotAgentIdentity { address: agent }))
    } else if v.identities[agent].parent is None {
        (v, Err(StateError::ParentNotFound { parent: agent }))
    } else if signer != v.identities[agent].parent.unwrap() {
        (v, Err(StateError::UnauthorizedSigner { expected: v.identities[agent].parent.unwrap(), actual: signer }))
    } else {
        (with_identity(v, agent, Identity { active: false, ..v.identities[agent] }), Ok(()))
    }
}

/// Executes CreateIdentity: registers a human identity at `address`, the
/// address derived from `public_key`.
pub fn execute_create_identity(
    state: &mut ProtocolState,
    _ctx: &ExecutionContext,
    public_key: &PublicKey,
    address: &Address,
) -> (r: StateResult<Address>)
    requires
        old(state).wf(),
    ensures
        final(state).wf(),
        (final(state)@, r) == create_identity_spec(old(state)@, *public_key, *address),
{
    if state.identity_exists(address) {
        return Err(StateError::IdentityAlreadyExists { address: *address });
    }
    let identity = Identity::new_human(*address, *public_key);
    state.insert_identity(identity);
    Ok(*address)
}

/// Executes CreateAgent: registers an agent at `address` (derived from
/// `public_key`) under its signing parent.
pub fn execute_create_agent(
    state: &mut ProtocolState,
    _ctx: &ExecutionContext,
    signer_address: &Address,
    parent: &Address,
    public_key: &PublicKey,
    address: &Address,
) -> (r: StateResult<Address>)
    requires
        old(state).wf(),
    ensures
        final(state).wf(),
        (final(state)@, r) == create_agent_spec(old(state)@, *signer_address, *parent, *public_key, *address),
{
    if !crate::assoc_map::bytes_eq(signer_address, parent) {
        return Err(StateError::UnauthorizedSigner { expected: *parent, actual: *signer_address });
    }
    let parent_identity = match state.get_identity(parent) {
        Some(p) => p,
        None => {
            return Err(StateError::ParentNotFound { parent: *parent });
        },
    };
    if parent_identity.identity_type != IdentityType::Human {
        return Err(StateError::NotHumanIdentity { address: *parent });
    }
    if !parent_identity.active {
        return Err(StateError::IdentityDeactivated { address: *parent });
    }
    if state.identity_exists(address) {
        return Err(StateError::IdentityAlreadyExists { address: *address });
    }
    let identity = Identity::new_agent(*address, *public_key, *parent);
    state.insert_identity(identity);
    Ok(*address)
}

/// Executes UpdateProfileHash: sets the profile hash of the signer's
/// active identity.
pub fn execute_update_profile_hash(
    state: &mut ProtocolState,
    _ctx: &ExecutionContext,
    signer_address: &Address,
    identity_address: &Address,
    hash: &Hash32,
) -> (r: StateResult<()>)
    requires
        old(state).wf(),
    ensures
        final(state).wf(),
        (final(state)@, r) == update_profile_hash_spec(old(state)@, *signer_address, *identity_address, *hash),
{
    if !crate::assoc_map::bytes_eq(signer_address, identity_address) {
        return Err(StateError::UnauthorizedSigner { expected: *identity_address, actual: *signer_address });
    }
    let identity = match state.get_identity(identity_address) {
        Some(i) => i,
        None => {
            return Err(StateError::IdentityNotFound { address: *identity_address });
        },
    };
    if !identity.active {
        return Err(StateError::IdentityDeactivated { address: *identity_address });
    }
    state.update_identity(identity_address, Identity { profile_hash: Some(*hash), ..identity });
    Ok(())
}

/// Executes DeactivateAgent: the agent's parent deactivates it.
pub fn execute_deactivate_agent(
    state: &mut ProtocolState,
    _ctx: &ExecutionContext,
    signer_address: &Address,
    agent_address: &Address,
) -> (r: StateResult<()>)
    requires
        old(state).wf(),
    ensures
        final(state).wf(),
        (final(state)@, r) == deactivate_agent_spec(old(state)@, *signer_address, *agent_address),
{
    let agent = match state.get_identity(agent_address) {
        Some(a) => a,
        None => {
            return Err(StateError::IdentityNotFound { address: *agent_address });
        },
    };
    if agent.identity_type != IdentityType::Agent {
        return Err(StateError::NotAgentIdentity { address: *agent_address });
    }
    let parent = match agent.parent {
        Some(p) => p,
        None => {
            return Err(StateError::ParentNotFound { parent: *agent_address });
        },
    };
    if !crate::assoc_map::bytes_eq(signer_address, &parent) {
        return Err(StateError::UnauthorizedSigner { expected: parent, actual: *signer_address });
    }
    state.update_identity(agent_address, Identity { active: false, ..agent });
    Ok(())
}

} // verus!
