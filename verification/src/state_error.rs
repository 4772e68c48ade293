//! Validation and execution errors of state transitions.
use crate::core_types::{AttestationStatus, ChallengeStatus};
use crate::u256::{push_decimal_u256, U256};
use crate::text::{debug_bytes, decimal, push_debug_prefix, push_decimal};
use vstd::prelude::*;

verus! {

/// All validation and execution errors for state transitions.
#[derive(Clone, Copy, Debug, PartialEq, Eq)]
pub enum StateError {
    // === Identity Errors ===
    /// Address already registered as an identity.
    IdentityAlreadyExists { address: [u8; 20] },
    /// Identity not found at address.
    IdentityNotFound { address: [u8; 20] },
    /// Expected Human identity, found Agent.
    NotHumanIdentity { address: [u8; 20] },
    /// Identity is not an Agent.
    NotAgentIdentity { address: [u8; 20] },
    /// Agent's parent identity not found.
    ParentNotFound { parent: [u8; 20] },
    /// Identity is deactivated.
    IdentityDeactivated { address: [u8; 20] },
    /// Signer is not authorized for this operation.
    UnauthorizedSigner { expected: [u8; 20], actual: [u8; 20] },

    // === Project Errors ===
    /// Project ID already exists.
    ProjectAlreadyExists { project_id: [u8; 20] },
    /// Project not found.
    ProjectNotFound { project_id: [u8; 20] },
    /// Sum of rho + phi + gamma + delta exceeds 10000 basis points (a sum
    /// beyond `u32::MAX` is reported as `u32::MAX`).
    InvalidBasisPointsSum { sum: u32 },
    /// Verification window below minimum (86400 seconds / 24 hours).
    VerificationWindowTooShort { window: u64, minimum: u64 },
    /// Challenge bond exceeds attestation bond.
    ChallengeBondExceedsAttestationBond { challenge_bond: u64, attestation_bond: u64 },
    /// Delta specified without predecessor.
    DeltaWithoutPredecessor,
    /// Predecessor specified without delta.
    PredecessorWithoutDelta,
    /// Predecessor project not found.
    PredecessorNotFound { predecessor: [u8; 20] },
    /// Predecessor chain depth exceeds limit (8).
    PredecessorChainTooDeep { depth: u8, limit: u8 },
    /// Gamma recipient chain depth exceeds limit (8).
    GammaChainTooDeep { depth: u8, limit: u8 },
    /// Combined predecessor + gamma depth exceeds limit.
    CombinedChainTooDeep { depth: u8, limit: u8 },
    /// Gamma recipient (project) not found.
    GammaRecipientProjectNotFound { recipient: [u8; 20] },
    /// Gamma recipient (identity) not found.
    GammaRecipientIdentityNotFound { recipient: [u8; 20] },
    /// Phi recipient (identity) not found.
    PhiRecipientNotFound { recipient: [u8; 20] },
    /// Reserve authority not found.
    ReserveAuthorityNotFound { authority: [u8; 20] },
    /// Deposit authority not found.
    DepositAuthorityNotFound { authority: [u8; 20] },
    /// Adjudicator not found.
    AdjudicatorNotFound { adjudicator: [u8; 20] },
    /// Cycle detected in gamma recipient chain.
    GammaCycleDetected { project_id: [u8; 20] },

    // === Attestation Errors ===
    /// Attestation already exists.
    AttestationAlreadyExists { attestation_id: [u8; 20] },
    /// Attestation not found.
    AttestationNotFound { attestation_id: [u8; 20] },
    /// Bond amount below required minimum.
    BondBelowMinimum { provided: U256, required: U256 },
    /// Units must be greater than zero.
    ZeroUnits,
    /// Bond poster not found.
    BondPosterNotFound { bond_poster: [u8; 20] },
    /// Bond poster is deactivated.
    BondPosterDeactivated { bond_poster: [u8; 20] },
    /// Attestation not in Pending status.
    AttestationNotPending {
        attestation_id: [u8; 20],
        status: AttestationStatus,
    },
    /// Verification window not yet expired.
    VerificationWindowNotExpired {
        attestation_id: [u8; 20],
        expires_at: u64,
        current: u64,
    },
    /// Attestation is in terminal state (finalized or rejected).
    AttestationTerminal { attestation_id: [u8; 20] },

    // === Challenge Errors ===
    /// Challenge already exists for this attestation.
    ChallengeAlreadyExists { attestation_id: [u8; 20] },
    /// Challenge not found.
    ChallengeNotFound { challenge_id: [u8; 20] },
    /// Attestation is not in a challengeable state.
    AttestationNotChallengeable { attestation_id: [u8; 20] },
    /// Challenge bond below required minimum.
    ChallengeBondBelowMinimum { provided: U256, required: u64 },
    /// Challenge already resolved.
    ChallengeAlreadyResolved {
        challenge_id: [u8; 20],
        status: ChallengeStatus,
    },
    /// Challenge cannot receive response (not Open).
    ChallengeCannotRespond {
        challenge_id: [u8; 20],
        status: ChallengeStatus,
    },
    /// Signer is not the adjudicator.
    NotAdjudicator {
        adjudicator: [u8; 20],
        signer: [u8; 20],
    },
    /// Verification window expired (cannot challenge).
    VerificationWindowExpired {
        attestation_id: [u8; 20],
        expired_at: u64,
        current: u64,
    },
    /// Challenger cannot be the same as contributor.
    ChallengerIsContributor { identity: [u8; 20] },
    /// Challenge bond poster required but not provided.
    ChallengeBondPosterRequired,

    // === Revenue Errors ===
    /// Not the deposit authority.
    NotDepositAuthority {
        authority: [u8; 20],
        signer: [u8; 20],
    },
    /// Not the reserve authority.
    NotReserveAuthority {
        authority: [u8; 20],
        signer: [u8; 20],
    },
    /// Reserve balance insufficient.
    InsufficientReserve { available: U256, requested: U256 },
    /// No claimable balance.
    NothingToClaim {
        project_id: [u8; 20],
        contributor: [u8; 20],
    },
    /// Deposit amount is zero.
    ZeroDeposit,
    /// Claim amount is zero.
    ZeroClaim,

    // === Signature/PoW Errors ===
    /// Signature verification failed.
    InvalidSignature,
    /// PoW does not meet difficulty.
    InvalidProofOfWork,

    // === General Errors ===
    /// Arithmetic overflow in calculation.
    ArithmeticOverflow,
}

/// Result of a state transition.
pub type StateResult<T> = Result<T, StateError>;

/// How the first four bytes of an address are shown in messages.
pub open spec fn address_prefix(a: [u8; 20]) -> Seq<char> {
    debug_bytes(a@.take(4))
}

/// The name of an attestation status.
pub open spec fn attestation_status_name(s: AttestationStatus) -> Seq<char> {
    match s {
        AttestationStatus::Pending => "Pending"@,
        AttestationStatus::Challenged => "Challenged"@,
        AttestationStatus::Finalized => "Finalized"@,
        AttestationStatus::Rejected => "Rejected"@,
    }
}

/// The name of a challenge status.
pub open spec fn challenge_status_name(s: ChallengeStatus) -> Seq<char> {
    match s {
        ChallengeStatus::Open => "Open"@,
        ChallengeStatus::Responded => "Responded"@,
        ChallengeStatus::ResolvedValid => "ResolvedValid"@,
        ChallengeStatus::ResolvedInvalid => "ResolvedInvalid"@,
    }
}

fn attestation_status_str(s: &AttestationStatus) -> (r: &'static str)
    ensures
        r@ == attestation_status_name(*s),
{
    match s {
        AttestationStatus::Pending => "Pending",
        AttestationStatus::Challenged => "Challenged",
        AttestationStatus::Finalized => "Finalized",
        AttestationStatus::Rejected => "Rejected",
    }
}

fn challenge_status_str(s: &ChallengeStatus) -> (r: &'static str)
    ensures
        r@ == challenge_status_name(*s),
{
    match s {
        ChallengeStatus::Open => "Open",
        ChallengeStatus::Responded => "Responded",
        ChallengeStatus::ResolvedValid => "ResolvedValid",
        ChallengeStatus::ResolvedInvalid => "ResolvedInvalid",
    }
}

fn push_address_prefix(s: &mut String, a: &[u8; 20])
    ensures
        final(s)@ == old(s)@ + address_prefix(*a),
{
    push_debug_prefix(s, a.as_slice(), 4);
}

/// The message that describes an error to people.
pub open spec fn error_message(e: StateError) -> Seq<char> {
    match e {
            StateError::IdentityAlreadyExists { address } => "identity already exists: "@ + address_prefix(address),
            StateError::IdentityNotFound { address } => "identity not found: "@ + address_prefix(address),
            StateError::NotHumanIdentity { address } => "not a human identity: "@ + address_prefix(address),
            StateError::NotAgentIdentity { address } => "not an agent identity: "@ + address_prefix(address),
            StateError::ParentNotFound { parent } => "parent identity not found: "@ + address_prefix(parent),
            StateError::IdentityDeactivated { address } => "identity is deactivated: "@ + address_prefix(address),
            StateError::UnauthorizedSigner { expected, actual } => "unauthorized signer: expected "@ + address_prefix(expected) + ", got "@ + address_prefix(actual),
            StateError::ProjectAlreadyExists { project_id } => "project already exists: "@ + address_prefix(project_id),
            StateError::ProjectNotFound { project_id } => "project not found: "@ + address_prefix(project_id),
            StateError::InvalidBasisPointsSum { sum } => "basis points sum "@ + decimal(sum as nat) + " exceeds 10000"@,
            StateError::VerificationWindowTooShort { window, minimum } => "verification window "@ + decimal(window as nat) + " is below minimum "@ + decimal(minimum as nat),
            StateError::ChallengeBondExceedsAttestationBond { challenge_bond, attestation_bond } => "challenge_bond "@ + decimal(challenge_bond as nat) + " cannot exceed attestation_bond "@ + decimal(attestation_bond as nat),
            StateError::DeltaWithoutPredecessor => "delta specified without predecessor"@,
            StateError::PredecessorWithoutDelta => "predecessor specified without delta"@,
            StateError::PredecessorNotFound { predecessor } => "predecessor not found: "@ + address_prefix(predecessor),
            StateError::PredecessorChainTooDeep { depth, limit } => "predecessor chain depth "@ + decimal(depth as nat) + " exceeds limit "@ + decimal(limit as nat),
            StateError::GammaChainTooDeep { depth, limit } => "gamma chain depth "@ + decimal(depth as nat) + " exceeds limit "@ + decimal(limit as nat),
            StateError::CombinedChainTooDeep { depth, limit } => "combined chain depth "@ + decimal(depth as nat) + " exceeds limit "@ + decimal(limit as nat),
            StateError::GammaRecipientProjectNotFound { recipient } => "gamma recipient project not found: "@ + address_prefix(recipient),
            StateError::GammaRecipientIdentityNotFound { recipient } => "gamma recipient identity not found: "@ + address_prefix(recipient),
            StateError::PhiRecipientNotFound { recipient } => "phi recipient not found: "@ + address_prefix(recipient),
            StateError::ReserveAuthorityNotFound { authority } => "reserve authority not found: "@ + address_prefix(authority),
            StateError::DepositAuthorityNotFound { authority } => "deposit authority not found: "@ + address_prefix(authority),
            StateError::AdjudicatorNotFound { adjudicator } => "adjudicator not found: "@ + address_prefix(adjudicator),
            StateError::GammaCycleDetected { project_id } => "gamma cycle detected at project: "@ + address_prefix(project_id),
            StateError::AttestationAlreadyExists { attestation_id } => "attestation already exists: "@ + address_prefix(attestation_id),
            StateError::AttestationNotFound { attestation_id } => "attestation not found: "@ + address_prefix(attestation_id),
            StateError::BondBelowMinimum { provided, required } => "bond "@ + decimal(provided@) + " below minimum "@ + decimal(required@),
            StateError::ZeroUnits => "units must be greater than zero"@,
            StateError::BondPosterNotFound { bond_poster } => "bond poster not found: "@ + address_prefix(bond_poster),
            StateError::BondPosterDeactivated { bond_poster } => "bond poster deactivated: "@ + address_prefix(bond_poster),
            StateError::AttestationNotPending { attestation_id, status } => "attestation "@ + address_prefix(attestation_id) + " not pending, status: "@ + attestation_status_name(status),
            StateError::VerificationWindowNotExpired { attestation_id, expires_at, current } => "verification window for "@ + address_prefix(attestation_id) + " not expired (expires "@ + decimal(expires_at as nat) + ", now "@ + decimal(current as nat) + ")"@,
            StateError::AttestationTerminal { attestation_id } => "attestation "@ + address_prefix(attestation_id) + " is in terminal state"@,
            StateError::ChallengeAlreadyExists { attestation_id } => "challenge already exists for attestation "@ + address_prefix(attestation_id),
            StateError::ChallengeNotFound { challenge_id } => "challenge not found: "@ + address_prefix(challenge_id),
            StateError::AttestationNotChallengeable { attestation_id } => "attestation "@ + address_prefix(attestation_id) + " not challengeable"@,
            StateError::ChallengeBondBelowMinimum { provided, required } => "challenge bond "@ + decimal(provided@) + " below minimum "@ + decimal(required as nat),
            StateError::ChallengeAlreadyResolved { challenge_id, status } => "challenge "@ + address_prefix(challenge_id) + " already resolved: "@ + challenge_status_name(status),
            StateError::ChallengeCannotRespond { challenge_id, status } => "challenge "@ + address_prefix(challenge_id) + " cannot receive response, status: "@ + challenge_status_name(status),
            StateError::NotAdjudicator { adjudicator, signer } => "not adjudicator: expected "@ + address_prefix(adjudicator) + ", got "@ + address_prefix(signer),
            StateError::VerificationWindowExpired { attestation_id, expired_at, current } => "verification window for "@ + address_prefix(attestation_id) + " expired at "@ + decimal(expired_at as nat) + " (now "@ + decimal(current as nat) + ")"@,
            StateError::ChallengerIsContributor { identity } => "challenger is contributor: "@ + address_prefix(identity),
            StateError::ChallengeBondPosterRequired => "challenge bond poster required"@,
            StateError::NotDepositAuthority { authority, signer } => "not deposit authority: expected "@ + address_prefix(authority) + ", got "@ + address_prefix(signer),
            StateError::NotReserveAuthority { authority, signer } => "not reserve authority: expected "@ + address_prefix(authority) + ", got "@ + address_prefix(signer),
            StateError::InsufficientReserve { available, requested } => "insufficient reserve: available "@ + decimal(available@) + ", requested "@ + decimal(requested@),
            StateError::NothingToClaim { project_id, contributor } => "nothing to claim: project "@ + address_prefix(project_id) + ", contributor "@ + address_prefix(contributor),
            StateError::ZeroDeposit => "deposit amount is zero"@,
            StateError::ZeroClaim => "claim amount is zero"@,
            StateError::InvalidSignature => "invalid signature"@,
            StateError::InvalidProofOfWork => "invalid proof of work"@,
            StateError::ArithmeticOverflow => "arithmetic overflow"@,
    }
}

impl StateError {
    /// The message that describes the error, as shown to users: the kind of
    /// failure, the first four bytes of each address involved, and the
    /// numbers involved in decimal.
    #[verifier::rlimit(50)]
    pub fn to_string(&self) -> (r: String)
        ensures
            r@ == error_message(*self),
    {
        match self {
            StateError::IdentityAlreadyExists { address } => {
                let mut s = String::from_str("identity already exists: ");
                push_address_prefix(&mut s, address);
                s
            },
            StateError::IdentityNotFound { address } => {
                let mut s = String::from_str("identity not found: ");
                push_address_prefix(&mut s, address);
                s
            },
            StateError::NotHumanIdentity { address } => {
                let mut s = String::from_str("not a human identity: ");
                push_address_prefix(&mut s, address);
                s
            },
            StateError::NotAgentIdentity { address } => {
                let mut s = String::from_str("not an agent identity: ");
                push_address_prefix(&mut s, address);
                s
            },
            StateError::ParentNotFound { parent } => {
                let mut s = String::from_str("parent identity not found: ");
                push_address_prefix(&mut s, parent);
                s
            },
            StateError::IdentityDeactivated { address } => {
                let mut s = String::from_str("identity is deactivated: ");
                push_address_prefix(&mut s, address);
                s
            },
            StateError::UnauthorizedSigner { expected, actual } => {
                let mut s = String::from_str("unauthorized signer: expected ");
                push_address_prefix(&mut s, expected);
                s.append(", got ");
                push_address_prefix(&mut s, actual);
                s
            },
            StateError::ProjectAlreadyExists { project_id } => {
                let mut s = String::from_str("project already exists: ");
                push_address_prefix(&mut s, project_id);
                s
            },
            StateError::ProjectNotFound { project_id } => {
                let mut s = String::from_str("project not found: ");
                push_address_prefix(&mut s, project_id);
                s
            },
            StateError::InvalidBasisPointsSum { sum } => {
                let mut s = String::from_str("basis points sum ");
                push_decimal(&mut s, *sum as u64);
                s.append(" exceeds 10000");
                s
            },
            StateError::VerificationWindowTooShort { window, minimum } => {
                let mut s = String::from_str("verification window ");
                push_decimal(&mut s, *window as u64);
                s.append(" is below minimum ");
                push_decimal(&mut s, *minimum as u64);
                s
            },
            StateError::ChallengeBondExceedsAttestationBond { challenge_bond, attestation_bond } => {
                let mut s = String::from_str("challenge_bond ");
                push_decimal(&mut s, *challenge_bond as u64);
                s.append(" cannot exceed attestation_bond ");
                push_decimal(&mut s, *attestation_bond as u64);
                s
            },
            StateError::DeltaWithoutPredecessor => {
                let mut s = String::from_str("delta specified without predecessor");
                s
            },
            StateError::PredecessorWithoutDelta => {
                let mut s = String::from_str("predecessor specified without delta");
                s
            },
            StateError::PredecessorNotFound { predecessor } => {
                let mut s = String::from_str("predecessor not found: ");
                push_address_prefix(&mut s, predecessor);
                s
            },
            StateError::PredecessorChainTooDeep { depth, limit } => {
                let mut s = String::from_str("predecessor chain depth ");
                push_decimal(&mut s, *depth as u64);
                s.append(" exceeds limit ");
                push_decimal(&mut s, *limit as u64);
                s
            },
            StateError::GammaChainTooDeep { depth, limit } => {
                let mut s = String::from_str("gamma chain depth ");
                push_decimal(&mut s, *depth as u64);
                s.append(" exceeds limit ");
                push_decimal(&mut s, *limit as u64);
                s
            },
            StateError::CombinedChainTooDeep { depth, limit } => {
                let mut s = String::from_str("combined chain depth ");
                push_decimal(&mut s, *depth as u64);
                s.append(" exceeds limit ");
                push_decimal(&mut s, *limit as u64);
                s
            },
            StateError::GammaRecipientProjectNotFound { recipient } => {
                let mut s = String::from_str("gamma recipient project not found: ");
                push_address_prefix(&mut s, recipient);
                s
            },
            StateError::GammaRecipientIdentityNotFound { recipient } => {
                let mut s = String::from_str("gamma recipient identity not found: ");
                push_address_prefix(&mut s, recipient);
                s
            },
            StateError::PhiRecipientNotFound { recipient } => {
                let mut s = String::from_str("phi recipient not found: ");
                push_address_prefix(&mut s, recipient);
                s
            },
            StateError::ReserveAuthorityNotFound { authority } => {
                let mut s = String::from_str("reserve authority not found: ");
                push_address_prefix(&mut s, authority);
                s
            },
            StateError::DepositAuthorityNotFound { authority } => {
                let mut s = String::from_str("deposit authority not found: ");
                push_address_prefix(&mut s, authority);
                s
            },
            StateError::AdjudicatorNotFound { adjudicator } => {
                let mut s = String::from_str("adjudicator not found: ");
                push_address_prefix(&mut s, adjudicator);
                s
            },
            StateError::GammaCycleDetected { project_id } => {
                let mut s = String::from_str("gamma cycle detected at project: ");
                push_address_prefix(&mut s, project_id);
                s
            },
            StateError::AttestationAlreadyExists { attestation_id } => {
                let mut s = String::from_str("attestation already exists: ");
                push_address_prefix(&mut s, attestation_id);
                s
            },
            StateError::AttestationNotFound { attestation_id } => {
                let mut s = String::from_str("attestation not found: ");
                push_address_prefix(&mut s, attestation_id);
                s
            },
            StateError::BondBelowMinimum { provided, required } => {
                let mut s = String::from_str("bond ");
                push_decimal_u256(&mut s, *provided);
                s.append(" below minimum ");
                push_decimal_u256(&mut s, *required);
                s
            },
            StateError::ZeroUnits => {
                let mut s = String::from_str("units must be greater than zero");
                s
            },
            StateError::BondPosterNotFound { bond_poster } => {
                let mut s = String::from_str("bond poster not found: ");
                push_address_prefix(&mut s, bond_poster);
                s
            },
            StateError::BondPosterDeactivated { bond_poster } => {
                let mut s = String::from_str("bond poster deactivated: ");
                push_address_prefix(&mut s, bond_poster);
                s
            },
            StateError::AttestationNotPending { attestation_id, status } => {
                let mut s = String::from_str("attestation ");
                push_address_prefix(&mut s, attestation_id);
                s.append(" not pending, status: ");
                s.append(attestation_status_str(status));
                s
            },
            StateError::VerificationWindowNotExpired { attestation_id, expires_at, current } => {
                let mut s = String::from_str("verification window for ");
                push_address_prefix(&mut s, attestation_id);
                s.append(" not expired (expires ");
                push_decimal(&mut s, *expires_at as u64);
                s.append(", now ");
                push_decimal(&mut s, *current as u64);
                s.append(")");
                s
            },
            StateError::AttestationTerminal { attestation_id } => {
                let mut s = String::from_str("attestation ");
                push_address_prefix(&mut s, attestation_id);
                s.append(" is in terminal state");
                s
            },
            StateError::ChallengeAlreadyExists { attestation_id } => {
                let mut s = String::from_str("challenge already exists for attestation ");
                push_address_prefix(&mut s, attestation_id);
                s
            },
            StateError::ChallengeNotFound { challenge_id } => {
                let mut s = String::from_str("challenge not found: ");
                push_address_prefix(&mut s, challenge_id);
                s
            },
            StateError::AttestationNotChallengeable { attestation_id } => {
                let mut s = String::from_str("attestation ");
                push_address_prefix(&mut s, attestation_id);
                s.append(" not challengeable");
                s
            },
            StateError::ChallengeBondBelowMinimum { provided, required } => {
                let mut s = String::from_str("challenge bond ");
                push_decimal_u256(&mut s, *provided);
                s.append(" below minimum ");
                push_decimal(&mut s, *required as u64);
                s
            },
            StateError::ChallengeAlreadyResolved { challenge_id, status } => {
                let mut s = String::from_str("challenge ");
                push_address_prefix(&mut s, challenge_id);
                s.append(" already resolved: ");
                s.append(challenge_status_str(status));
                s
            },
            StateError::ChallengeCannotRespond { challenge_id, status } => {
                let mut s = String::from_str("challenge ");
                push_address_prefix(&mut s, challenge_id);
                s.append(" cannot receive response, status: ");
                s.append(challenge_status_str(status));
                s
            },
            StateError::NotAdjudicator { adjudicator, signer } => {
                let mut s = String::from_str("not adjudicator: expected ");
                push_address_prefix(&mut s, adjudicator);
                s.append(", got ");
                push_address_prefix(&mut s, signer);
                s
            },
            StateError::VerificationWindowExpired { attestation_id, expired_at, current } => {
                let mut s = String::from_str("verification window for ");
                push_address_prefix(&mut s, attestation_id);
                s.append(" expired at ");
                push_decimal(&mut s, *expired_at as u64);
                s.append(" (now ");
                push_decimal(&mut s, *current as u64);
                s.append(")");
                s
            },
            StateError::ChallengerIsContributor { identity } => {
                let mut s = String::from_str("challenger is contributor: ");
                push_address_prefix(&mut s, identity);
                s
            },
            StateError::ChallengeBondPosterRequired => {
                let mut s = String::from_str("challenge bond poster required");
                s
            },
            StateError::NotDepositAuthority { authority, signer } => {
                let mut s = String::from_str("not deposit authority: expected ");
                push_address_prefix(&mut s, authority);
                s.append(", got ");
                push_address_prefix(&mut s, signer);
                s
            },
            StateError::NotReserveAuthority { authority, signer } => {
                let mut s = String::from_str("not reserve authority: expected ");
                push_address_prefix(&mut s, authority);
                s.append(", got ");
                push_address_prefix(&mut s, signer);
                s
            },
            StateError::InsufficientReserve { available, requested } => {
                let mut s = String::from_str("insufficient reserve: available ");
                push_decimal_u256(&mut s, *available);
                s.append(", requested ");
                push_decimal_u256(&mut s, *requested);
                s
            },
            StateError::NothingToClaim { project_id, contributor } => {
                let mut s = String::from_str("nothing to claim: project ");
                push_address_prefix(&mut s, project_id);
                s.append(", contributor ");
                push_address_prefix(&mut s, contributor);
                s
            },
            StateError::ZeroDeposit => {
                let mut s = String::from_str("deposit amount is zero");
                s
            },
            StateError::ZeroClaim => {
                let mut s = String::from_str("claim amount is zero");
                s
            },
            StateError::InvalidSignature => {
                let mut s = String::from_str("invalid signature");
                s
            },
            StateError::InvalidProofOfWork => {
                let mut s = String::from_str("invalid proof of work");
                s
            },
            StateError::ArithmeticOverflow => {
                let mut s = String::from_str("arithmetic overflow");
                s
            },
        }
    }
}

} // verus!
