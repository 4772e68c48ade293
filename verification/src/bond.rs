//! Locking, returning and forfeiting attestation and challenge bonds.
use crate::core_types::{Address, Denomination};
use crate::protocol_state::{claimable_of, credit_view, ProtocolState, StateView};
use crate::state_error::{StateError, StateResult};
use crate::u256::{u256_max, U256};
use vstd::prelude::*;

verus! {

/// The state with `amount` moved into an identity's claimable balance
/// (`None` when the sum overflows).
pub open spec fn credit_spec(v: StateView, identity: Address, denom: Denomination, amount: nat) -> Option<StateView> {
    if claimable_of(v, identity, denom) + amount > u256_max() {
        None
    } else {
        Some(credit_view(v, identity, denom, amount))
    }
}

/// Locking an attestation bond: refused below the minimum, otherwise recorded.
pub open spec fn lock_attestation_bond_spec(v: StateView, attestation_id: Address, amount: U256, min_bond: U256) -> (StateView, StateResult<()>) {
    if amount@ < min_bond@ {
        (v, Err(StateError::BondBelowMinimum { provided: amount, required: min_bond }))
    } else {
        (StateView { locked_bonds: v.locked_bonds.insert(attestation_id, amount), ..v }, Ok(()))
    }
}

/// Releasing an attestation bond to `recipient`; a zero bond is released
/// without a credit when `skip_zero` holds.
pub open spec fn release_attestation_bond_spec(
    v: StateView,
    attestation_id: Address,
    recipient: Address,
    denom: Denomination,
    skip_zero: bool,
) -> Option<(StateView, StateResult<U256>)> {
    if !v.locked_bonds.contains_key(attestation_id) {
        Some((v, Err(StateError::AttestationNotFound { attestation_id })))
    } else {
        let locked = v.locked_bonds[attestation_id];
        let v1 = StateView { locked_bonds: v.locked_bonds.remove(attestation_id), ..v };
        if skip_zero && locked@ == 0 {
            Some((v1, Ok(locked)))
        } else {
            match credit_spec(v1, recipient, denom, locked@) {
                None => None,
                Some(v2) => Some((v2, Ok(locked))),
            }
        }
    }
}

/// Locking a challenge bond: refused below the requirement, otherwise recorded.
pub open spec fn lock_challenge_bond_spec(v: StateView, challenge_id: Address, amount: U256, required: u64) -> (StateView, StateResult<()>) {
    if amount@ < required {
        (v, Err(StateError::ChallengeBondBelowMinimum { provided: amount, required }))
    } else {
        (StateView { challenge_bonds: v.challenge_bonds.insert(challenge_id, amount), ..v }, Ok(()))
    }
}

/// Releasing a challenge bond to `recipient`; a missing bond is an error
/// unless `missing_ok`, in which case nothing moves and zero is returned.
pub open spec fn release_challenge_bond_spec(
    v: StateView,
    challenge_id: Address,
    recipient: Address,
    denom: Denomination,
    missing_ok: bool,
) -> Option<(StateView, StateResult<U256>)> {
    if !v.challenge_bonds.contains_key(challenge_id) {
        if missing_ok {
            Some((v, Ok(U256 { hi: 0, lo: 0 })))
        } else {
            Some((v, Err(StateError::ChallengeNotFound { challenge_id })))
        }
    } else {
        let locked = v.challenge_bonds[challenge_id];
        let v1 = StateView { challenge_bonds: v.challenge_bonds.remove(challenge_id), ..v };
        match credit_spec(v1, recipient, denom, locked@) {
            None => None,
            Some(v2) => Some((v2, Ok(locked))),
        }
    }
}

/// Locks a bond for an attestation; `BondBelowMinimum` when `amount < min_bond`.
pub fn lock_attestation_bond(
    state: &mut ProtocolState,
    attestation_id: &Address,
    _bond_poster: &Address,
    amount: U256,
    _denom: &Denomination,
    min_bond: U256,
) -> (r: StateResult<()>)
    requires
        old(state).wf(),
    ensures
        final(state).wf(),
        (final(state)@, r) == lock_attestation_bond_spec(old(state)@, *attestation_id, amount, min_bond),
{
    if amount.lt(&min_bond) {
        return Err(StateError::BondBelowMinimum { provided: amount, required: min_bond });
    }
    state.lock_bond(attestation_id, amount);
    Ok(())
}

/// Moves `amount` into a claimable balance, or reports overflow.
fn credit(state: &mut ProtocolState, identity: &Address, denom: &Denomination, amount: U256) -> (ok: bool)
    requires
        old(state).wf(),
    ensures
        final(state).wf(),
        ok == credit_spec(old(state)@, *identity, *denom, amount@) is Some,
        ok ==> final(state)@ == credit_spec(old(state)@, *identity, *denom, amount@).unwrap(),
{
    state.try_credit_claimable(identity, denom, amount)
}

/// Returns an attestation bond in full to its poster (a zero bond credits
/// nothing); `AttestationNotFound` when no bond is locked.
pub fn return_attestation_bond(
    state: &mut ProtocolState,
    attestation_id: &Address,
    bond_poster: &Address,
    denom: &Denomination,
) -> (r: StateResult<U256>)
    requires
        old(state).wf(),
    ensures
        final(state).wf(),
        match release_attestation_bond_spec(old(state)@, *attestation_id, *bond_poster, *denom, true) {
            Some(out) => (final(state)@, r) == out,
            None => r == Err::<U256, StateError>(StateError::ArithmeticOverflow),
        },
{
    let locked = match state.unlock_bond(attestation_id) {
        Some(l) => l,
        None => {
            assert(state@.locked_bonds =~= old(state)@.locked_bonds);
            return Err(StateError::AttestationNotFound { attestation_id: *attestation_id });
        },
    };
    if !locked.is_zero() {
        if !credit(state, bond_poster, denom, locked) {
            return Err(StateError::ArithmeticOverflow);
        }
    }
    Ok(locked)
}

/// Forfeits an attestation bond in full to the challenger;
/// `AttestationNotFound` when no bond is locked.
pub fn forfeit_attestation_bond_to_challenger(
    state: &mut ProtocolState,
    attestation_id: &Address,
    challenger: &Address,
    denom: &Denomination,
) -> (r: StateResult<U256>)
    requires
        old(state).wf(),
    ensures
        final(state).wf(),
        match release_attestation_bond_spec(old(state)@, *attestation_id, *challenger, *denom, false) {
            Some(out) => (final(state)@, r) == out,
            None => r == Err::<U256, StateError>(StateError::ArithmeticOverflow),
        },
{
    let locked = match state.unlock_bond(attestation_id) {
        Some(l) => l,
        None => {
            assert(state@.locked_bonds =~= old(state)@.locked_bonds);
            return Err(StateError::AttestationNotFound { attestation_id: *attestation_id });
        },
    };
    if !credit(state, challenger, denom, locked) {
        return Err(StateError::ArithmeticOverflow);
    }
    Ok(locked)
}

/// Locks a challenge bond; `ChallengeBondBelowMinimum` when `amount < required`.
pub fn lock_challenge_bond(
    state: &mut ProtocolState,
    challenge_id: &Address,
    _bond_poster: &Address,
    amount: U256,
    _denom: &Denomination,
    required: u64,
) -> (r: StateResult<()>)
    requires
        old(state).wf(),
    ensures
        final(state).wf(),
        (final(state)@, r) == lock_challenge_bond_spec(old(state)@, *challenge_id, amount, required),
{
    if amount.lt(&U256::from_u64(required)) {
        return Err(StateError::ChallengeBondBelowMinimum { provided: amount, required });
    }
    state.lock_challenge_bond(challenge_id, amount);
    Ok(())
}

/// Returns a challenge bond in full to the challenger; `ChallengeNotFound`
/// when no challenge bond is locked.
pub fn return_challenge_bond(
    state: &mut ProtocolState,
    challenge_id: &Address,
    challenger: &Address,
    denom: &Denomination,
) -> (r: StateResult<U256>)
    requires
        old(state).wf(),
    ensures
        final(state).wf(),
        match release_challenge_bond_spec(old(state)@, *challenge_id, *challenger, *denom, false) {
            Some(out) => (final(state)@, r) == out,
            None => r == Err::<U256, StateError>(StateError::ArithmeticOverflow),
        },
{
    let locked = match state.unlock_challenge_bond(challenge_id) {
        Some(l) => l,
        None => {
            assert(state@.challenge_bonds =~= old(state)@.challenge_bonds);
            return Err(StateError::ChallengeNotFound { challenge_id: *challenge_id });
        },
    };
    if !credit(state, challenger, denom, locked) {
        return Err(StateError::ArithmeticOverflow);
    }
    Ok(locked)
}

/// Forfeits a challenge bond in full to the attestation's bond poster;
/// zero when no challenge bond was locked.
pub fn forfeit_challenge_bond_to_attestor(
    state: &mut ProtocolState,
    challenge_id: &Address,
    attestor_bond_poster: &Address,
    denom: &Denomination,
) -> (r: StateResult<U256>)
    requires
        old(state).wf(),
    ensures
        final(state).wf(),
        match release_challenge_bond_spec(old(state)@, *challenge_id, *attestor_bond_poster, *denom, true) {
            Some(out) => (final(state)@, r) == out,
            None => r == Err::<U256, StateError>(StateError::ArithmeticOverflow),
        },
{
    let locked = match state.unlock_challenge_bond(challenge_id) {
        Some(l) => l,
        None => {
            assert(state@.challenge_bonds =~= old(state)@.challenge_bonds);
            return Ok(U256 { hi: 0, lo: 0 });
        },
    };
    if !credit(state, attestor_bond_poster, denom, locked) {
        return Err(StateError::ArithmeticOverflow);
    }
    Ok(locked)
}

} // verus!
