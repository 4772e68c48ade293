//! In-memory protocol state: every identity, project, attestation,
//! challenge, accumulator, balance and bond.
use crate::assoc_map::AssocMap;
use crate::core_types::{AccumulatorState, Address, Attestation, Challenge, ContributorBalance, Denomination, Identity, Project, TransactionDifficultyState};
use crate::u256::{u256_max, U256};
use vstd::prelude::*;

verus! {

/// The mathematical content of a [`ProtocolState`].
pub struct StateView {
    /// Identities by address.
    pub identities: Map<Address, Identity>,
    /// Projects by id.
    pub projects: Map<Address, Project>,
    /// Attestations by id.
    pub attestations: Map<Address, Attestation>,
    /// Challenges by id.
    pub challenges: Map<Address, Challenge>,
    /// Challenge id of each challenged attestation.
    pub attestation_challenges: Map<Address, Address>,
    /// Accumulators by (project, denomination).
    pub accumulators: Map<(Address, Denomination), AccumulatorState>,
    /// Contributor balances by (project, contributor, denomination).
    pub balances: Map<(Address, Address, Denomination), ContributorBalance>,
    /// Direct claimable balances by (identity, denomination).
    pub claimable: Map<(Address, Denomination), U256>,
    /// Locked attestation bonds by attestation id.
    pub locked_bonds: Map<Address, U256>,
    /// Locked challenge bonds by challenge id.
    pub challenge_bonds: Map<Address, U256>,
    /// Transaction difficulty.
    pub tx_difficulty_state: TransactionDifficultyState,
}

/// The direct claimable balance of `identity` in `denom` (zero when absent).
pub open spec fn claimable_of(v: StateView, identity: Address, denom: Denomination) -> nat {
    if v.claimable.contains_key((identity, denom)) {
        v.claimable[(identity, denom)]@
    } else {
        0
    }
}

/// The accumulator of a project and denomination, or an empty one.
pub open spec fn acc_of(v: StateView, project_id: Address, denom: Denomination) -> AccumulatorState {
    if v.accumulators.contains_key((project_id, denom)) {
        v.accumulators[(project_id, denom)]
    } else {
        empty_acc()
    }
}

/// The contributor balance, or an empty one.
pub open spec fn bal_of(v: StateView, project_id: Address, contributor: Address, denom: Denomination) -> ContributorBalance {
    if v.balances.contains_key((project_id, contributor, denom)) {
        v.balances[(project_id, contributor, denom)]
    } else {
        empty_balance()
    }
}

/// An accumulator with every field zero.
pub open spec fn empty_acc() -> AccumulatorState {
    AccumulatorState {
        reward_per_unit_global: U256 { hi: 0, lo: 0 },
        total_finalized_units: 0,
        unallocated: U256 { hi: 0, lo: 0 },
        reserve_balance: U256 { hi: 0, lo: 0 },
    }
}

/// A contributor balance with every field zero.
pub open spec fn empty_balance() -> ContributorBalance {
    ContributorBalance {
        units: 0,
        reward_per_unit_at_entry: U256 { hi: 0, lo: 0 },
        claimed: U256 { hi: 0, lo: 0 },
    }
}

/// The `U256` holding `n` (meaningful when `n <= u256_max()`).
pub open spec fn u256_of(n: nat) -> U256 {
    U256 {
        hi: (n as int / crate::u256::b128()) as u128,
        lo: (n as int % crate::u256::b128()) as u128,
    }
}

/// `u256_of` gives back the number it was made of.
pub proof fn lemma_u256_of(n: nat)
    requires
        n <= u256_max(),
    ensures
        u256_of(n)@ == n,
{
    let b = crate::u256::b128();
    vstd::arithmetic::div_mod::lemma_fundamental_div_mod(n as int, b);
    assert(n as int / b < b) by {
        vstd::arithmetic::div_mod::lemma_div_is_ordered(n as int, b * b - 1, b);
        vstd::arithmetic::div_mod::lemma_div_multiples_vanish_fancy(b - 1, b - 1, b);
    }
    assert(u256_of(n)@ == b * (n as int / b) + n as int % b) by (nonlinear_arith)
        requires
            u256_of(n).hi == n as int / b,
            u256_of(n).lo == n as int % b,
            u256_of(n)@ == u256_of(n).hi * b + u256_of(n).lo,
    ;
}

/// A `U256` equals `u256_of` its number.
pub proof fn lemma_u256_is_u256_of(x: U256)
    ensures
        x == u256_of(x@),
{
    crate::u256::lemma_u256_bounded(x);
    lemma_u256_of(x@);
    crate::u256::lemma_u256_view_injective(x, u256_of(x@));
}

/// In-memory protocol state.
#[derive(Debug)]
pub struct ProtocolState {
    /// All registered identities.
    pub identities: AssocMap<Address, Identity>,
    /// All registered projects.
    pub projects: AssocMap<Address, Project>,
    /// All attestations.
    pub attestations: AssocMap<Address, Attestation>,
    /// All challenges.
    pub challenges: AssocMap<Address, Challenge>,
    /// Mapping from attestation id to challenge id.
    pub attestation_challenges: AssocMap<Address, Address>,
    /// Accumulator state per (project id, denomination).
    pub accumulators: AssocMap<(Address, Denomination), AccumulatorState>,
    /// Contributor balances per (project id, contributor, denomination).
    pub balances: AssocMap<(Address, Address, Denomination), ContributorBalance>,
    /// Direct claimable balances per (identity, denomination).
    pub claimable: AssocMap<(Address, Denomination), U256>,
    /// Locked attestation bonds by attestation id.
    pub locked_bonds: AssocMap<Address, U256>,
    /// Locked challenge bonds by challenge id.
    pub challenge_bonds: AssocMap<Address, U256>,
    /// Protocol-level transaction difficulty state.
    pub tx_difficulty_state: TransactionDifficultyState,
}

impl View for ProtocolState {
    type V = StateView;

    open spec fn view(&self) -> StateView {
        StateView {
            identities: self.identities@,
            projects: self.projects@,
            attestations: self.attestations@,
            challenges: self.challenges@,
            attestation_challenges: self.attestation_challenges@,
            accumulators: self.accumulators@,
            balances: self.balances@,
            claimable: self.claimable@,
            locked_bonds: self.locked_bonds@,
            challenge_bonds: self.challenge_bonds@,
            tx_difficulty_state: self.tx_difficulty_state,
        }
    }
}

/// The state of a fresh chain with the given transaction difficulty.
pub open spec fn empty_state_view(difficulty: u64) -> StateView {
    StateView {
        identities: Map::empty(),
        projects: Map::empty(),
        attestations: Map::empty(),
        challenges: Map::empty(),
        attestation_challenges: Map::empty(),
        accumulators: Map::empty(),
        balances: Map::empty(),
        claimable: Map::empty(),
        locked_bonds: Map::empty(),
        challenge_bonds: Map::empty(),
        tx_difficulty_state: TransactionDifficultyState { current_tx_difficulty: difficulty },
    }
}

/// Difficulty of a fresh state.
pub const INITIAL_TX_DIFFICULTY: u64 = 8;

impl ProtocolState {
    /// Every map holds each key at most once.
    pub open spec fn wf(&self) -> bool {
        &&& self.identities.wf()
        &&& self.projects.wf()
        &&& self.attestations.wf()
        &&& self.challenges.wf()
        &&& self.attestation_challenges.wf()
        &&& self.accumulators.wf()
        &&& self.balances.wf()
        &&& self.claimable.wf()
        &&& self.locked_bonds.wf()
        &&& self.challenge_bonds.wf()
    }

    /// A new empty protocol state (initial difficulty 8).
    pub fn new() -> (r: ProtocolState)
        ensures
            r.wf(),
            r@ == empty_state_view(INITIAL_TX_DIFFICULTY),
    {
        Self::with_initial_difficulty(INITIAL_TX_DIFFICULTY)
    }

    /// A new empty protocol state with the given initial difficulty.
    pub fn with_initial_difficulty(initial_difficulty: u64) -> (r: ProtocolState)
        ensures
            r.wf(),
            r@ == empty_state_view(initial_difficulty),
    {
        ProtocolState {
            identities: AssocMap::new(),
            projects: AssocMap::new(),
            attestations: AssocMap::new(),
            challenges: AssocMap::new(),
            attestation_challenges: AssocMap::new(),
            accumulators: AssocMap::new(),
            balances: AssocMap::new(),
            claimable: AssocMap::new(),
            locked_bonds: AssocMap::new(),
            challenge_bonds: AssocMap::new(),
            tx_difficulty_state: TransactionDifficultyState::new(initial_difficulty),
        }
    }

    /// Number of registered identities.
    pub fn identity_count(&self) -> (r: usize)
        requires
            self.wf(),
        ensures
            r == self@.identities.len(),
    {
        self.identities.len()
    }

    /// Number of registered projects.
    pub fn project_count(&self) -> (r: usize)
        requires
            self.wf(),
        ensures
            r == self@.projects.len(),
    {
        self.projects.len()
    }

    /// Number of attestations.
    pub fn attestation_count(&self) -> (r: usize)
        requires
            self.wf(),
        ensures
            r == self@.attestations.len(),
    {
        self.attestations.len()
    }

    // === Reading ===

    /// The identity at an address.
    pub fn get_identity(&self, addr: &Address) -> (r: Option<Identity>)
        requires
            self.wf(),
        ensures
            r == self@.identities.get(*addr),
    {
        self.identities.get(addr)
    }

    /// Whether an identity exists at an address.
    pub fn identity_exists(&self, addr: &Address) -> (r: bool)
        requires
            self.wf(),
        ensures
            r == self@.identities.contains_key(*addr),
    {
        self.identities.contains_key(addr)
    }

    /// The project with an id.
    pub fn get_project(&self, id: &Address) -> (r: Option<Project>)
        requires
            self.wf(),
        ensures
            r == self@.projects.get(*id),
    {
        self.projects.get(id)
    }

    /// Whether a project exists.
    pub fn project_exists(&self, id: &Address) -> (r: bool)
        requires
            self.wf(),
        ensures
            r == self@.projects.contains_key(*id),
    {
        self.projects.contains_key(id)
    }

    /// The attestation with an id.
    pub fn get_attestation(&self, id: &Address) -> (r: Option<Attestation>)
        requires
            self.wf(),
        ensures
            r == self@.attestations.get(*id),
    {
        self.attestations.get(id)
    }

    /// Whether an attestation exists.
    pub fn attestation_exists(&self, id: &Address) -> (r: bool)
        requires
            self.wf(),
        ensures
            r == self@.attestations.contains_key(*id),
    {
        self.attestations.contains_key(id)
    }

    /// The challenge with an id.
    pub fn get_challenge(&self, id: &Address) -> (r: Option<Challenge>)
        requires
            self.wf(),
        ensures
            r == self@.challenges.get(*id),
    {
        self.challenges.get(id)
    }

    /// Whether a challenge exists.
    pub fn challenge_exists(&self, id: &Address) -> (r: bool)
        requires
            self.wf(),
        ensures
            r == self@.challenges.contains_key(*id),
    {
        self.challenges.contains_key(id)
    }

    /// The challenge recorded for an attestation, if any.
    pub fn get_challenge_for_attestation(&self, attestation_id: &Address) -> (r: Option<Challenge>)
        requires
            self.wf(),
        ensures
            r == challenge_for_attestation(self@, *attestation_id),
    {
        match self.attestation_challenges.get(attestation_id) {
            Some(cid) => self.challenges.get(&cid),
            None => None,
        }
    }

    /// The accumulator of a project and denomination, if created.
    pub fn get_accumulator(&self, project_id: &Address, denom: &Denomination) -> (r: Option<AccumulatorState>)
        requires
            self.wf(),
        ensures
            r == self@.accumulators.get((*project_id, *denom)),
    {
        self.accumulators.get(&(*project_id, *denom))
    }

    /// A contributor's balance, if created.
    pub fn get_balance(&self, project_id: &Address, contributor: &Address, denom: &Denomination) -> (r: Option<ContributorBalance>)
        requires
            self.wf(),
        ensures
            r == self@.balances.get((*project_id, *contributor, *denom)),
    {
        self.balances.get(&(*project_id, *contributor, *denom))
    }

    /// An identity's direct claimable balance (zero when none).
    pub fn get_claimable(&self, identity: &Address, denom: &Denomination) -> (r: U256)
        requires
            self.wf(),
        ensures
            r@ == claimable_of(self@, *identity, *denom),
    {
        match self.claimable.get(&(*identity, *denom)) {
            Some(v) => v,
            None => U256::zero(),
        }
    }

    /// The locked bond of an attestation.
    pub fn get_locked_bond(&self, attestation_id: &Address) -> (r: Option<U256>)
        requires
            self.wf(),
        ensures
            r == self@.locked_bonds.get(*attestation_id),
    {
        self.locked_bonds.get(attestation_id)
    }

    /// The locked bond of a challenge.
    pub fn get_challenge_bond(&self, challenge_id: &Address) -> (r: Option<U256>)
        requires
            self.wf(),
        ensures
            r == self@.challenge_bonds.get(*challenge_id),
    {
        self.challenge_bonds.get(challenge_id)
    }

    /// The transaction difficulty state.
    pub fn get_tx_difficulty_state(&self) -> (r: TransactionDifficultyState)
        ensures
            r == self@.tx_difficulty_state,
    {
        self.tx_difficulty_state
    }

    /// The current transaction difficulty.
    pub fn current_tx_difficulty(&self) -> (r: u64)
        ensures
            r == self@.tx_difficulty_state.current_tx_difficulty,
    {
        self.tx_difficulty_state.current_tx_difficulty
    }

    // === Writing ===

    /// Inserts (or replaces) the identity at its address.
    pub fn insert_identity(&mut self, identity: Identity)
        requires
            old(self).wf(),
        ensures
            final(self).wf(),
            final(self)@ == (StateView { identities: old(self)@.identities.insert(identity.address, identity), ..old(self)@ }),
    {
        self.identities.insert(identity.address, identity);
    }

    /// Replaces the identity at `addr` when one is registered there.
    pub fn update_identity(&mut self, addr: &Address, identity: Identity)
        requires
            old(self).wf(),
        ensures
            final(self).wf(),
            final(self)@ == (if old(self)@.identities.contains_key(*addr) {
                StateView { identities: old(self)@.identities.insert(*addr, identity), ..old(self)@ }
            } else {
                old(self)@
            }),
    {
        if self.identities.contains_key(addr) {
            self.identities.insert(*addr, identity);
        }
    }

    /// Inserts (or replaces) a project under its id.
    pub fn insert_project(&mut self, project: Project)
        requires
            old(self).wf(),
        ensures
            final(self).wf(),
            final(self)@ == (StateView { projects: old(self)@.projects.insert(project.project_id, project), ..old(self)@ }),
    {
        self.projects.insert(project.project_id, project);
    }

    /// Inserts (or replaces) an attestation under its id.
    pub fn insert_attestation(&mut self, attestation: Attestation)
        requires
            old(self).wf(),
        ensures
            final(self).wf(),
            final(self)@ == (StateView {
                attestations: old(self)@.attestations.insert(attestation.attestation_id, attestation),
                ..old(self)@
            }),
    {
        self.attestations.insert(attestation.attestation_id, attestation);
    }

    /// Replaces the attestation at `id` when one exists.
    pub fn update_attestation(&mut self, id: &Address, attestation: Attestation)
        requires
            old(self).wf(),
        ensures
            final(self).wf(),
            final(self)@ == (if old(self)@.attestations.contains_key(*id) {
                StateView { attestations: old(self)@.attestations.insert(*id, attestation), ..old(self)@ }
            } else {
                old(self)@
            }),
    {
        if self.attestations.contains_key(id) {
            self.attestations.insert(*id, attestation);
        }
    }

    /// Inserts a challenge and records it against its attestation.
    pub fn insert_challenge(&mut self, challenge: Challenge)
        requires
            old(self).wf(),
        ensures
            final(self).wf(),
            final(self)@ == (StateView {
                challenges: old(self)@.challenges.insert(challenge.challenge_id, challenge),
                attestation_challenges: old(self)@.attestation_challenges.insert(challenge.attestation_id, challenge.challenge_id),
                ..old(self)@
            }),
    {
        self.attestation_challenges.insert(challenge.attestation_id, challenge.challenge_id);
        self.challenges.insert(challenge.challenge_id, challenge);
    }

    /// Replaces the challenge at `id` when one exists.
    pub fn update_challenge(&mut self, id: &Address, challenge: Challenge)
        requires
            old(self).wf(),
        ensures
            final(self).wf(),
            final(self)@ == (if old(self)@.challenges.contains_key(*id) {
                StateView { challenges: old(self)@.challenges.insert(*id, challenge), ..old(self)@ }
            } else {
                old(self)@
            }),
    {
        if self.challenges.contains_key(id) {
            self.challenges.insert(*id, challenge);
        }
    }

    /// The accumulator of a project and denomination, created empty if absent.
    pub fn get_or_create_accumulator(&mut self, project_id: &Address, denom: &Denomination) -> (r: AccumulatorState)
        requires
            old(self).wf(),
        ensures
            final(self).wf(),
            r == acc_of(old(self)@, *project_id, *denom),
            final(self)@ == (StateView {
                accumulators: old(self)@.accumulators.insert((*project_id, *denom), r),
                ..old(self)@
            }),
    {
        match self.accumulators.get(&(*project_id, *denom)) {
            Some(a) => {
                proof {
                    assert(old(self)@.accumulators.insert((*project_id, *denom), a) =~= old(self)@.accumulators);
                }
                a
            },
            None => {
                let a = AccumulatorState::new();
                proof {
                    crate::u256::lemma_u256_view_injective(a.reward_per_unit_global, U256 { hi: 0, lo: 0 });
                    crate::u256::lemma_u256_view_injective(a.unallocated, U256 { hi: 0, lo: 0 });
                    crate::u256::lemma_u256_view_injective(a.reserve_balance, U256 { hi: 0, lo: 0 });
                }
                self.accumulators.insert((*project_id, *denom), a);
                a
            },
        }
    }

    /// Stores the accumulator of a project and denomination.
    pub fn set_accumulator(&mut self, project_id: &Address, denom: &Denomination, acc: AccumulatorState)
        requires
            old(self).wf(),
        ensures
            final(self).wf(),
            final(self)@ == (StateView {
                accumulators: old(self)@.accumulators.insert((*project_id, *denom), acc),
                ..old(self)@
            }),
    {
        self.accumulators.insert((*project_id, *denom), acc);
    }

    /// The contributor balance, created empty if absent.
    pub fn get_or_create_balance(&mut self, project_id: &Address, contributor: &Address, denom: &Denomination) -> (r: ContributorBalance)
        requires
            old(self).wf(),
        ensures
            final(self).wf(),
            r == bal_of(old(self)@, *project_id, *contributor, *denom),
            final(self)@ == (StateView {
                balances: old(self)@.balances.insert((*project_id, *contributor, *denom), r),
                ..old(self)@
            }),
    {
        match self.balances.get(&(*project_id, *contributor, *denom)) {
            Some(b) => {
                proof {
                    assert(old(self)@.balances.insert((*project_id, *contributor, *denom), b) =~= old(self)@.balances);
                }
                b
            },
            None => {
                let b = ContributorBalance::new();
                proof {
                    crate::u256::lemma_u256_view_injective(b.reward_per_unit_at_entry, U256 { hi: 0, lo: 0 });
                    crate::u256::lemma_u256_view_injective(b.claimed, U256 { hi: 0, lo: 0 });
                }
                self.balances.insert((*project_id, *contributor, *denom), b);
                b
            },
        }
    }

    /// Stores a contributor balance.
    pub fn set_balance(&mut self, project_id: &Address, contributor: &Address, denom: &Denomination, bal: ContributorBalance)
        requires
            old(self).wf(),
        ensures
            final(self).wf(),
            final(self)@ == (StateView {
                balances: old(self)@.balances.insert((*project_id, *contributor, *denom), bal),
                ..old(self)@
            }),
    {
        self.balances.insert((*project_id, *contributor, *denom), bal);
    }

    /// Adds `amount` to an identity's direct claimable balance.
    pub fn credit_claimable(&mut self, identity: &Address, denom: &Denomination, amount: U256)
        requires
            old(self).wf(),
            claimable_of(old(self)@, *identity, *denom) + amount@ <= u256_max(),
        ensures
            final(self).wf(),
            final(self)@ == credit_view(old(self)@, *identity, *denom, amount@),
    {
        let cur = self.get_claimable(identity, denom);
        let sum = cur.checked_add(&amount).unwrap();
        proof {
            lemma_u256_is_u256_of(sum);
        }
        self.claimable.insert((*identity, *denom), sum);
    }

    /// Adds `amount` to an identity's direct claimable balance, or reports
    /// that the sum exceeds 2^256 - 1 (leaving the state unchanged).
    pub fn try_credit_claimable(&mut self, identity: &Address, denom: &Denomination, amount: U256) -> (ok: bool)
        requires
            old(self).wf(),
        ensures
            final(self).wf(),
            ok == (claimable_of(old(self)@, *identity, *denom) + amount@ <= u256_max()),
            ok ==> final(self)@ == credit_view(old(self)@, *identity, *denom, amount@),
            !ok ==> final(self)@ == old(self)@,
    {
        let cur = self.get_claimable(identity, denom);
        match cur.checked_add(&amount) {
            Some(sum) => {
                proof {
                    lemma_u256_is_u256_of(sum);
                }
                self.claimable.insert((*identity, *denom), sum);
                true
            },
            None => false,
        }
    }

    /// Subtracts `amount` from an identity's direct claimable balance when it
    /// holds at least that much; otherwise leaves it unchanged.
    pub fn debit_claimable(&mut self, identity: &Address, denom: &Denomination, amount: U256)
        requires
            old(self).wf(),
        ensures
            final(self).wf(),
            final(self)@ == (if old(self)@.claimable.contains_key((*identity, *denom))
                && amount@ <= old(self)@.claimable[(*identity, *denom)]@ {
                StateView {
                    claimable: old(self)@.claimable.insert(
                        (*identity, *denom),
                        u256_of((old(self)@.claimable[(*identity, *denom)]@ - amount@) as nat),
                    ),
                    ..old(self)@
                }
            } else {
                old(self)@
            }),
    {
        match self.claimable.get(&(*identity, *denom)) {
            Some(cur) => {
                if amount.le(&cur) {
                    let d = cur.minus(&amount);
                    proof {
                        lemma_u256_is_u256_of(d);
                    }
                    self.claimable.insert((*identity, *denom), d);
                }
            },
            None => {},
        }
    }

    /// Locks a bond for an attestation.
    pub fn lock_bond(&mut self, attestation_id: &Address, amount: U256)
        requires
            old(self).wf(),
        ensures
            final(self).wf(),
            final(self)@ == (StateView { locked_bonds: old(self)@.locked_bonds.insert(*attestation_id, amount), ..old(self)@ }),
    {
        self.locked_bonds.insert(*attestation_id, amount);
    }

    /// Unlocks and removes an attestation bond.
    pub fn unlock_bond(&mut self, attestation_id: &Address) -> (r: Option<U256>)
        requires
            old(self).wf(),
        ensures
            final(self).wf(),
            r == old(self)@.locked_bonds.get(*attestation_id),
            final(self)@ == (StateView { locked_bonds: old(self)@.locked_bonds.remove(*attestation_id), ..old(self)@ }),
    {
        self.locked_bonds.remove(attestation_id)
    }

    /// Locks a challenge bond.
    pub fn lock_challenge_bond(&mut self, challenge_id: &Address, amount: U256)
        requires
            old(self).wf(),
        ensures
            final(self).wf(),
            final(self)@ == (StateView { challenge_bonds: old(self)@.challenge_bonds.insert(*challenge_id, amount), ..old(self)@ }),
    {
        self.challenge_bonds.insert(*challenge_id, amount);
    }

    /// Unlocks and removes a challenge bond.
    pub fn unlock_challenge_bond(&mut self, challenge_id: &Address) -> (r: Option<U256>)
        requires
            old(self).wf(),
        ensures
            final(self).wf(),
            r == old(self)@.challenge_bonds.get(*challenge_id),
            final(self)@ == (StateView { challenge_bonds: old(self)@.challenge_bonds.remove(*challenge_id), ..old(self)@ }),
    {
        self.challenge_bonds.remove(challenge_id)
    }

    /// Replaces the transaction difficulty state.
    pub fn update_tx_difficulty_state(&mut self, d: TransactionDifficultyState)
        ensures
            final(self)@ == (StateView { tx_difficulty_state: d, ..old(self)@ }),
            final(self).wf() == old(self).wf(),
    {
        self.tx_difficulty_state = d;
    }
}

/// The challenge recorded for an attestation.
pub open spec fn challenge_for_attestation(v: StateView, attestation_id: Address) -> Option<Challenge> {
    if v.attestation_challenges.contains_key(attestation_id)
        && v.challenges.contains_key(v.attestation_challenges[attestation_id]) {
        Some(v.challenges[v.attestation_challenges[attestation_id]])
    } else {
        None
    }
}

/// The state after crediting `amount` to an identity's claimable balance.
pub open spec fn credit_view(v: StateView, identity: Address, denom: Denomination, amount: nat) -> StateView {
    StateView {
        claimable: v.claimable.insert((identity, denom), u256_of(claimable_of(v, identity, denom) + amount)),
        ..v
    }
}

} // verus!
