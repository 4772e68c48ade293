//! Protocol records: identities, projects, attestations, challenges,
//! accumulators, balances and transactions.
use crate::u256::U256;
use vstd::prelude::*;

verus! {

/// A 20-byte identity address, project id, attestation id or challenge id.
pub type Address = [u8; 20];

/// An 8-byte currency code, such as `b"USD\0\0\0\0\0"`.
pub type Denomination = [u8; 8];

/// A 32-byte public key.
pub type PublicKey = [u8; 32];

/// A 32-byte hash (evidence, profile, block).
pub type Hash32 = [u8; 32];

/// Whether an identity is a person or an agent acting for one.
#[derive(Clone, Copy, Debug, PartialEq, Eq, Structural)]
pub enum IdentityType {
    /// A human identity.
    Human,
    /// An agent identity linked to a parent human.
    Agent,
}

/// A registered identity.
#[derive(Clone, Copy, Debug, PartialEq, Eq)]
pub struct Identity {
    /// Address derived from the public key.
    pub address: Address,
    /// The identity's public key.
    pub public_key: PublicKey,
    /// Human or agent.
    pub identity_type: IdentityType,
    /// The parent human of an agent.
    pub parent: Option<Address>,
    /// Hash of the off-chain profile, if set.
    pub profile_hash: Option<Hash32>,
    /// Whether the identity is active.
    pub active: bool,
}

impl Identity {
    /// A new active human identity.
    pub fn new_human(address: Address, public_key: PublicKey) -> (r: Identity)
        ensures
            r == human_identity(address, public_key),
    {
        Identity {
            address,
            public_key,
            identity_type: IdentityType::Human,
            parent: None,
            profile_hash: None,
            active: true,
        }
    }

    /// A new active agent identity with the given parent.
    pub fn new_agent(address: Address, public_key: PublicKey, parent: Address) -> (r: Identity)
        ensures
            r == agent_identity(address, public_key, parent),
    {
        Identity {
            address,
            public_key,
            identity_type: IdentityType::Agent,
            parent: Some(parent),
            profile_hash: None,
            active: true,
        }
    }
}

/// A fresh active human identity.
pub open spec fn human_identity(address: Address, public_key: PublicKey) -> Identity {
    Identity {
        address,
        public_key,
        identity_type: IdentityType::Human,
        parent: None,
        profile_hash: None,
        active: true,
    }
}

/// A fresh active agent identity.
pub open spec fn agent_identity(address: Address, public_key: PublicKey, parent: Address) -> Identity {
    Identity {
        address,
        public_key,
        identity_type: IdentityType::Agent,
        parent: Some(parent),
        profile_hash: None,
        active: true,
    }
}

/// Where a project's genesis slice goes.
#[derive(Clone, Copy, Debug, PartialEq, Eq, Structural)]
pub enum RecipientType {
    /// Credited to an identity.
    Identity,
    /// Deposited into another project.
    Project,
}

/// A registered project; all parameters are fixed at creation.
#[derive(Clone, Copy, Debug, PartialEq, Eq)]
pub struct Project {
    /// Project id (derived from the registering transaction).
    pub project_id: Address,
    /// The creating identity.
    pub creator: Address,
    /// Reserve slice in basis points.
    pub rho: u32,
    /// Fee slice in basis points.
    pub phi: u32,
    /// Genesis slice in basis points.
    pub gamma: u32,
    /// Predecessor slice in basis points.
    pub delta: u32,
    /// Receiver of the fee slice.
    pub phi_recipient: Address,
    /// Receiver of the genesis slice.
    pub gamma_recipient: Address,
    /// Whether the genesis receiver is an identity or a project.
    pub gamma_recipient_type: RecipientType,
    /// Identity allowed to claim the reserve.
    pub reserve_authority: Address,
    /// Identity allowed to deposit revenue.
    pub deposit_authority: Address,
    /// Identity that resolves challenges.
    pub adjudicator: Address,
    /// The project this one derives from.
    pub predecessor: Option<Address>,
    /// Challenge window in seconds.
    pub verification_window: u64,
    /// Minimum attestation bond.
    pub attestation_bond: u64,
    /// Required challenge bond.
    pub challenge_bond: u64,
    /// Optional evidence hash.
    pub evidence_hash: Option<Hash32>,
}

/// Lifecycle of an attestation.
#[derive(Clone, Copy, Debug, PartialEq, Eq, Structural)]
pub enum AttestationStatus {
    /// Inside the verification window.
    Pending,
    /// A challenge is open.
    Challenged,
    /// Accepted; units count in the labor pool.
    Finalized,
    /// Rejected by the adjudicator.
    Rejected,
}

/// A claim of work on a project, backed by a bond.
#[derive(Clone, Copy, Debug, PartialEq, Eq)]
pub struct Attestation {
    /// Attestation id.
    pub attestation_id: Address,
    /// The project worked on.
    pub project_id: Address,
    /// The contributing identity.
    pub contributor: Address,
    /// Units of work claimed.
    pub units: u64,
    /// Evidence hash.
    pub evidence_hash: Hash32,
    /// Identity that posted the bond.
    pub bond_poster: Address,
    /// Bond amount.
    pub bond_amount: U256,
    /// Bond denomination (also the denomination credited on finalization).
    pub bond_denomination: Denomination,
    /// Lifecycle status.
    pub status: AttestationStatus,
    /// Submission time.
    pub created_at: u64,
    /// Finalization time.
    pub finalized_at: Option<u64>,
}

/// Lifecycle of a challenge.
#[derive(Clone, Copy, Debug, PartialEq, Eq, Structural)]
pub enum ChallengeStatus {
    /// Awaiting the contributor's response.
    Open,
    /// The contributor responded.
    Responded,
    /// Resolved: the attestation stands.
    ResolvedValid,
    /// Resolved: the attestation is rejected.
    ResolvedInvalid,
}

/// The adjudicator's ruling on a challenge.
#[derive(Clone, Copy, Debug, PartialEq, Eq, Structural)]
pub enum ChallengeRuling {
    /// The attestation is valid.
    Valid,
    /// The attestation is invalid.
    Invalid,
}

/// A challenge against a pending attestation.
#[derive(Clone, Copy, Debug, PartialEq, Eq)]
pub struct Challenge {
    /// Challenge id.
    pub challenge_id: Address,
    /// The challenged attestation.
    pub attestation_id: Address,
    /// The challenging identity.
    pub challenger: Address,
    /// Evidence hash.
    pub evidence_hash: Hash32,
    /// The contributor's response, if any.
    pub response_hash: Option<Hash32>,
    /// Poster of the challenge bond, when one is required.
    pub bond_poster: Option<Address>,
    /// Challenge bond amount.
    pub bond_amount: U256,
    /// Lifecycle status.
    pub status: ChallengeStatus,
    /// Creation time.
    pub created_at: u64,
}

/// The labor-pool accumulator of one project in one denomination.
#[derive(Clone, Copy, Debug, PartialEq, Eq)]
pub struct AccumulatorState {
    /// Reward per unit, in 128.128 fixed point.
    pub reward_per_unit_global: U256,
    /// Sum of finalized units.
    pub total_finalized_units: u64,
    /// Revenue held until the first units are finalized.
    pub unallocated: U256,
    /// Reserve pool balance.
    pub reserve_balance: U256,
}

impl AccumulatorState {
    /// An empty accumulator.
    pub fn new() -> (r: AccumulatorState)
        ensures
            r@ == (AccView { reward_per_unit_global: 0, total_finalized_units: 0, unallocated: 0, reserve_balance: 0 }),
    {
        AccumulatorState {
            reward_per_unit_global: U256::zero(),
            total_finalized_units: 0,
            unallocated: U256::zero(),
            reserve_balance: U256::zero(),
        }
    }
}

/// Numeric content of an accumulator.
pub struct AccView {
    /// Reward per unit (fixed point, scaled by 2^128).
    pub reward_per_unit_global: nat,
    /// Sum of finalized units.
    pub total_finalized_units: nat,
    /// Revenue held for the first finalized units.
    pub unallocated: nat,
    /// Reserve pool balance.
    pub reserve_balance: nat,
}

impl View for AccumulatorState {
    type V = AccView;

    open spec fn view(&self) -> AccView {
        AccView {
            reward_per_unit_global: self.reward_per_unit_global@,
            total_finalized_units: self.total_finalized_units as nat,
            unallocated: self.unallocated@,
            reserve_balance: self.reserve_balance@,
        }
    }
}

/// A contributor's position in a project's labor pool for one denomination.
#[derive(Clone, Copy, Debug, PartialEq, Eq)]
pub struct ContributorBalance {
    /// Finalized units held.
    pub units: u64,
    /// Reward-per-unit index when the units were last updated.
    pub reward_per_unit_at_entry: U256,
    /// Amount already claimed.
    pub claimed: U256,
}

impl ContributorBalance {
    /// An empty balance.
    pub fn new() -> (r: ContributorBalance)
        ensures
            r@ == (BalView { units: 0, reward_per_unit_at_entry: 0, claimed: 0 }),
    {
        ContributorBalance { units: 0, reward_per_unit_at_entry: U256::zero(), claimed: U256::zero() }
    }
}

/// Numeric content of a contributor balance.
pub struct BalView {
    /// Finalized units held.
    pub units: nat,
    /// Entry index (fixed point).
    pub reward_per_unit_at_entry: nat,
    /// Amount already claimed.
    pub claimed: nat,
}

impl View for ContributorBalance {
    type V = BalView;

    open spec fn view(&self) -> BalView {
        BalView {
            units: self.units as nat,
            reward_per_unit_at_entry: self.reward_per_unit_at_entry@,
            claimed: self.claimed@,
        }
    }
}

/// Protocol-wide transaction proof-of-work difficulty.
#[derive(Clone, Copy, Debug, PartialEq, Eq)]
pub struct TransactionDifficultyState {
    /// Current difficulty.
    pub current_tx_difficulty: u64,
}

impl TransactionDifficultyState {
    /// A difficulty state starting at `initial`.
    pub fn new(initial: u64) -> (r: TransactionDifficultyState)
        ensures
            r.current_tx_difficulty == initial,
    {
        TransactionDifficultyState { current_tx_difficulty: initial }
    }
}

/// The protocol's transactions.
#[derive(Clone, Copy, Debug, PartialEq, Eq)]
pub enum Transaction {
    /// Register a human identity for the signer's key.
    CreateIdentity { public_key: PublicKey },
    /// Register an agent of the signing human.
    CreateAgent { parent: Address, public_key: PublicKey },
    /// Set the profile hash of the signer's identity.
    UpdateProfileHash { identity: Address, hash: Hash32 },
    /// Deactivate an agent (signed by its parent).
    DeactivateAgent { agent: Address },
    /// Register a project.
    RegisterProject {
        creator: Address,
        rho: u32,
        phi: u32,
        gamma: u32,
        delta: u32,
        phi_recipient: Address,
        gamma_recipient: Address,
        gamma_recipient_type: RecipientType,
        reserve_authority: Address,
        deposit_authority: Address,
        adjudicator: Address,
        predecessor: Option<Address>,
        verification_window: u64,
        attestation_bond: u64,
        challenge_bond: u64,
        evidence_hash: Option<Hash32>,
    },
    /// Attest units of work on a project.
    SubmitAttestation {
        project_id: Address,
        units: u64,
        evidence_hash: Hash32,
        bond_poster: Address,
        bond_amount: U256,
        bond_denomination: Denomination,
    },
    /// Finalize an attestation whose window has passed.
    FinalizeAttestation { attestation_id: Address },
    /// Challenge a pending attestation.
    ChallengeAttestation {
        attestation_id: Address,
        evidence_hash: Hash32,
        bond_poster: Option<Address>,
        bond_amount: U256,
    },
    /// The contributor's response to a challenge.
    RespondToChallenge { challenge_id: Address, evidence_hash: Hash32 },
    /// The adjudicator's ruling.
    ResolveChallenge { challenge_id: Address, ruling: ChallengeRuling },
    /// Deposit revenue into a project.
    DepositRevenue { project_id: Address, amount: U256, denomination: Denomination },
    /// Claim labor-pool revenue.
    ClaimRevenue { project_id: Address, denomination: Denomination },
    /// Claim from a project's reserve.
    ClaimReserve { project_id: Address, denomination: Denomination, amount: U256 },
}

/// A transaction with the facts that its signature and hash establish.
///
/// Signature checking, address derivation and id hashing are done by the
/// signing layer; this record carries their results.
#[derive(Clone, Copy, Debug, PartialEq, Eq)]
pub struct SignedTransaction {
    /// The transaction.
    pub tx: Transaction,
    /// The signer's public key.
    pub signer: PublicKey,
    /// Address derived from the signer's public key.
    pub signer_address: Address,
    /// Whether the signature over the transaction verified.
    pub signature_valid: bool,
    /// Hash of the signed transaction, which identifies it on the network.
    pub hash: Hash32,
    /// Id derived from the hash of the signed transaction (first 20 bytes).
    pub tx_id: Address,
    /// Address derived from the public key a `CreateAgent` names.
    pub agent_address: Address,
}

} // verus!
