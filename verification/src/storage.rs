use vstd::prelude::*;
use crate::table::{StorageKey, Table};
use crate::types::{Address, Claim, ClaimView, MultiplierTable, Policy, VoteOption};

verus! {

impl StorageKey for Address {
    fn same_key(&self, other: &Self) -> (b: bool) {
        *self == *other
    }
}

/// The key of a policy: its holder and its per-holder id.
#[derive(Clone, Copy, PartialEq, Eq, Structural, Debug)]
pub struct PolicyKey {
    pub holder: Address,
    pub policy_id: u32,
}

impl StorageKey for PolicyKey {
    fn same_key(&self, other: &Self) -> (b: bool) {
        *self == *other
    }
}

/// The key of a vote: the claim and the voter.
#[derive(Clone, Copy, PartialEq, Eq, Structural, Debug)]
pub struct VoteKey {
    pub claim_id: u64,
    pub voter: Address,
}

impl StorageKey for VoteKey {
    fn same_key(&self, other: &Self) -> (b: bool) {
        *self == *other
    }
}

/// What the contract keeps in ledger storage, record by record (the view of
/// the storage model `ContractState`).
///
/// Instance tier: the administrator, its pending successor, the premium token,
/// the external calculator, the multiplier table, the asset allowlist, the
/// voter registry, the claim counter, the pause flag and each holder's number
/// of active policies. Persistent tier: policies by (holder, id), each holder's
/// policy counter, claims, votes by (claim, voter), the electorate snapshot of
/// each claim and each holder's last claim ledger.
pub struct ContractStateView {
    pub admin: Option<Address>,
    pub pending_admin: Option<Address>,
    pub token: Option<Address>,
    pub calc_address: Option<Address>,
    pub premium_table: Option<MultiplierTable>,
    pub allowed_assets: Map<Address, bool>,
    pub voters: Seq<Address>,
    pub claim_counter: u64,
    pub paused: bool,
    pub active_policy_count: Map<Address, u32>,
    pub policies: Map<PolicyKey, Policy>,
    pub policy_counter: Map<Address, u32>,
    pub claims: Map<u64, ClaimView>,
    pub votes: Map<VoteKey, VoteOption>,
    pub claim_voters: Map<u64, Seq<Address>>,
    pub last_claim_ledger: Map<Address, u32>,
}

/// A model of the contract's ledger storage, as a value: every record the
/// contract keeps, with every accessor verified against the view. The host
/// side keeps the records in Soroban storage itself and does not run this
/// model; it shares with it the registry and counter steps (`with_voter`,
/// `without_voter`, `advance_counter`, `advance_claim_counter`). A fresh value
/// is the storage of a contract that has stored nothing yet.
pub struct ContractState {
    admin: Option<Address>,
    pending_admin: Option<Address>,
    token: Option<Address>,
    calc_address: Option<Address>,
    premium_table: Option<MultiplierTable>,
    allowed_assets: Table<Address, bool>,
    voters: Vec<Address>,
    claim_counter: u64,
    paused: bool,
    active_policy_count: Table<Address, u32>,
    policies: Table<PolicyKey, Policy>,
    policy_counter: Table<Address, u32>,
    claims: Table<u64, Claim>,
    votes: Table<VoteKey, VoteOption>,
    claim_voters: Table<u64, Vec<Address>>,
    last_claim_ledger: Table<Address, u32>,
}

impl View for ContractState {
    type V = ContractStateView;

    closed spec fn view(&self) -> ContractStateView {
        ContractStateView {
            admin: self.admin,
            pending_admin: self.pending_admin,
            token: self.token,
            calc_address: self.calc_address,
            premium_table: self.premium_table,
            allowed_assets: self.allowed_assets@,
            voters: self.voters@,
            claim_counter: self.claim_counter,
            paused: self.paused,
            active_policy_count: self.active_policy_count@,
            policies: self.policies@,
            policy_counter: self.policy_counter@,
            claims: self.claims@.map_values(|c: Claim| c@),
            votes: self.votes@,
            claim_voters: self.claim_voters@.map_values(|v: Vec<Address>| v@),
            last_claim_ledger: self.last_claim_ledger@,
        }
    }
}

/// The value kept under `key`, or `default` where nothing is kept.
pub open spec fn stored_or<K, V>(m: Map<K, V>, key: K, default: V) -> V {
    if m.contains_key(key) {
        m[key]
    } else {
        default
    }
}

/// Whether `asset` is on the allowlist of storage `s`.
pub open spec fn asset_allowed(s: ContractStateView, asset: Address) -> bool {
    stored_or(s.allowed_assets, asset, false)
}

/// Storage `s` with `asset` set allowed or not.
pub open spec fn with_asset_allowance(s: ContractStateView, asset: Address, allowed: bool) -> ContractStateView {
    ContractStateView { allowed_assets: s.allowed_assets.insert(asset, allowed), ..s }
}

/// The claim stored under `claim_id`, if any.
pub open spec fn claim_at(s: ContractStateView, claim_id: u64) -> Option<ClaimView> {
    if s.claims.contains_key(claim_id) {
        Some(s.claims[claim_id])
    } else {
        None
    }
}

/// Storage `s` with `claim` stored under its own id.
pub open spec fn with_claim(s: ContractStateView, claim: ClaimView) -> ContractStateView {
    ContractStateView { claims: s.claims.insert(claim.claim_id, claim), ..s }
}

/// Storage `s` once the next claim id is handed out.
pub open spec fn with_next_claim_id(s: ContractStateView) -> ContractStateView {
    ContractStateView { claim_counter: (s.claim_counter + 1) as u64, ..s }
}

/// The vote of `voter` on claim `claim_id`, if any.
pub open spec fn vote_at(s: ContractStateView, claim_id: u64, voter: Address) -> Option<VoteOption> {
    if s.votes.contains_key(VoteKey { claim_id, voter }) {
        Some(s.votes[VoteKey { claim_id, voter }])
    } else {
        None
    }
}

/// Storage `s` with `voter`'s vote on claim `claim_id` set to `vote`.
pub open spec fn with_vote(s: ContractStateView, claim_id: u64, voter: Address, vote: VoteOption) -> ContractStateView {
    ContractStateView { votes: s.votes.insert(VoteKey { claim_id, voter }, vote), ..s }
}

/// The electorate captured for claim `claim_id`; empty when none was.
pub open spec fn electorate(s: ContractStateView, claim_id: u64) -> Seq<Address> {
    stored_or(s.claim_voters, claim_id, Seq::empty())
}

/// Storage `s` with the current voter registry captured for `claim_id`.
pub open spec fn with_snapshot(s: ContractStateView, claim_id: u64) -> ContractStateView {
    ContractStateView { claim_voters: s.claim_voters.insert(claim_id, s.voters), ..s }
}

/// The ledger at which `holder` last filed a claim, if recorded.
pub open spec fn last_claim_ledger_at(s: ContractStateView, holder: Address) -> Option<u32> {
    if s.last_claim_ledger.contains_key(holder) {
        Some(s.last_claim_ledger[holder])
    } else {
        None
    }
}

/// Storage `s` with `ledger` recorded as `holder`'s last claim ledger.
pub open spec fn with_last_claim_ledger(s: ContractStateView, holder: Address, ledger: u32) -> ContractStateView {
    ContractStateView { last_claim_ledger: s.last_claim_ledger.insert(holder, ledger), ..s }
}

/// The number of policy ids handed out to `holder`.
pub open spec fn policy_count(s: ContractStateView, holder: Address) -> u32 {
    stored_or(s.policy_counter, holder, 0)
}

/// Storage `s` once `holder`'s next policy id is handed out.
pub open spec fn with_next_policy_id(s: ContractStateView, holder: Address) -> ContractStateView {
    ContractStateView {
        policy_counter: s.policy_counter.insert(holder, (policy_count(s, holder) + 1) as u32),
        ..s
    }
}

/// The policy of `holder` stored under `policy_id`, if any.
pub open spec fn policy_at(s: ContractStateView, holder: Address, policy_id: u32) -> Option<Policy> {
    if s.policies.contains_key(PolicyKey { holder, policy_id }) {
        Some(s.policies[PolicyKey { holder, policy_id }])
    } else {
        None
    }
}

/// Storage `s` with `policy` stored under its holder and id.
pub open spec fn with_policy(s: ContractStateView, policy: Policy) -> ContractStateView {
    ContractStateView {
        policies: s.policies.insert(PolicyKey { holder: policy.holder, policy_id: policy.policy_id }, policy),
        ..s
    }
}

/// The number of active policies counted for `holder`.
pub open spec fn active_count(s: ContractStateView, holder: Address) -> u32 {
    stored_or(s.active_policy_count, holder, 0)
}

/// Storage `s` with `holder` registered as a voter and one more active
/// policy counted for it.
pub open spec fn with_voter_added(s: ContractStateView, holder: Address) -> ContractStateView {
    ContractStateView {
        voters: registry_with(s.voters, holder),
        active_policy_count: s.active_policy_count.insert(holder, (active_count(s, holder) + 1) as u32),
        ..s
    }
}

/// Storage `s` with `holder` taken out of the voter registry.
pub open spec fn with_voter_removed(s: ContractStateView, holder: Address) -> ContractStateView {
    ContractStateView { voters: registry_without(s.voters, holder), ..s }
}

impl ContractState {
    /// The storage of a contract that has stored nothing yet.
    pub open spec fn new_view() -> ContractStateView {
        ContractStateView {
            admin: None,
            pending_admin: None,
            token: None,
            calc_address: None,
            premium_table: None,
            allowed_assets: Map::empty(),
            voters: Seq::empty(),
            claim_counter: 0,
            paused: false,
            active_policy_count: Map::empty(),
            policies: Map::empty(),
            policy_counter: Map::empty(),
            claims: Map::empty(),
            votes: Map::empty(),
            claim_voters: Map::empty(),
            last_claim_ledger: Map::empty(),
        }
    }

    pub fn new() -> (s: Self)
        ensures
            s@ == Self::new_view(),
    {
        let s = ContractState {
            admin: None,
            pending_admin: None,
            token: None,
            calc_address: None,
            premium_table: None,
            allowed_assets: Table::new(),
            voters: Vec::new(),
            claim_counter: 0,
            paused: false,
            active_policy_count: Table::new(),
            policies: Table::new(),
            policy_counter: Table::new(),
            claims: Table::new(),
            votes: Table::new(),
            claim_voters: Table::new(),
            last_claim_ledger: Table::new(),
        };
        proof {
            assert(s@.claims =~= Map::empty());
            assert(s@.claim_voters =~= Map::empty());
        }
        s
    }
}

// ── Counters ──────────────────────────────────────────────────────────────────
/// The next value of a 32-bit counter (policy ids, active-policy counts).
pub fn advance_counter(current: u32) -> (next: u32)
    requires
        current < u32::MAX,
    ensures
        next == current + 1,
{
    current + 1
}

/// The next value of the claim counter.
pub fn advance_claim_counter(current: u64) -> (next: u64)
    requires
        current < u64::MAX,
    ensures
        next == current + 1,
{
    current + 1
}

// ── Admin ─────────────────────────────────────────────────────────────────────
pub fn set_admin(state: &mut ContractState, admin: &Address)
    ensures
        final(state)@ == (ContractStateView { admin: Some(*admin), ..old(state)@ }),
{
    state.admin = Some(*admin);
}

pub fn get_admin(state: &ContractState) -> (a: Address)
    requires
        state@.admin is Some,
    ensures
        a == state@.admin->0,
{
    state.admin.unwrap()
}

pub fn set_pending_admin(state: &mut ContractState, pending: &Address)
    ensures
        final(state)@ == (ContractStateView { pending_admin: Some(*pending), ..old(state)@ }),
{
    state.pending_admin = Some(*pending);
}

pub fn get_pending_admin(state: &ContractState) -> (a: Option<Address>)
    ensures
        a == state@.pending_admin,
{
    state.pending_admin
}

pub fn clear_pending_admin(state: &mut ContractState)
    ensures
        final(state)@ == (ContractStateView { pending_admin: None, ..old(state)@ }),
{
    state.pending_admin = None;
}

// ── Token ─────────────────────────────────────────────────────────────────────
pub fn set_token(state: &mut ContractState, token: &Address)
    ensures
        final(state)@ == (ContractStateView { token: Some(*token), ..old(state)@ }),
{
    state.token = Some(*token);
}

pub fn get_token(state: &ContractState) -> (a: Address)
    requires
        state@.token is Some,
    ensures
        a == state@.token->0,
{
    state.token.unwrap()
}

// ── External calculator address ───────────────────────────────────────────────
pub fn set_calc_address(state: &mut ContractState, addr: &Address)
    ensures
        final(state)@ == (ContractStateView { calc_address: Some(*addr), ..old(state)@ }),
{
    state.calc_address = Some(*addr);
}

pub fn get_calc_address(state: &ContractState) -> (a: Option<Address>)
    ensures
        a == state@.calc_address,
{
    state.calc_address
}

// ── Multiplier table ──────────────────────────────────────────────────────────
pub fn set_multiplier_table(state: &mut ContractState, table: &MultiplierTable)
    ensures
        final(state)@ == (ContractStateView { premium_table: Some(*table), ..old(state)@ }),
{
    state.premium_table = Some(*table);
}

pub fn get_multiplier_table(state: &ContractState) -> (t: MultiplierTable)
    requires
        state@.premium_table is Some,
    ensures
        t == state@.premium_table->0,
{
    state.premium_table.unwrap()
}

// ── Allowed assets ────────────────────────────────────────────────────────────
pub fn set_allowed_asset(state: &mut ContractState, asset: &Address, allowed: bool)
    ensures
        final(state)@ == with_asset_allowance(old(state)@, *asset, allowed),
{
    state.allowed_assets.insert(*asset, allowed);
}

/// An asset is allowed when it was last set allowed; an asset never set is not.
pub fn is_allowed_asset(state: &ContractState, asset: &Address) -> (b: bool)
    ensures
        b == asset_allowed(state@, *asset),
{
    match state.allowed_assets.get(*asset) {
        Some(allowed) => *allowed,
        None => false,
    }
}

// ── Claim (persistent) ────────────────────────────────────────────────────────
pub fn set_claim(state: &mut ContractState, claim: &Claim)
    ensures
        final(state)@ == with_claim(old(state)@, claim@),
{
    let ghost before = state.claims@;
    state.claims.insert(claim.claim_id, claim.clone());
    proof {
        assert(state.claims@.map_values(|c: Claim| c@) =~= before.map_values(|c: Claim| c@).insert(
            claim.claim_id,
            claim@,
        ));
    }
}

pub fn get_claim(state: &ContractState, claim_id: u64) -> (r: Option<Claim>)
    ensures
        match r {
            Some(c) => claim_at(state@, claim_id) == Some(c@),
            None => claim_at(state@, claim_id) is None,
        },
{
    match state.claims.get(claim_id) {
        Some(c) => Some(c.clone()),
        None => None,
    }
}

/// Allocates the next claim id: one more than the last one handed out.
pub fn next_claim_id(state: &mut ContractState) -> (id: u64)
    requires
        old(state)@.claim_counter < u64::MAX,
    ensures
        id == old(state)@.claim_counter + 1,
        final(state)@ == with_next_claim_id(old(state)@),
{
    let current = state.claim_counter;
    let next = advance_claim_counter(current);
    state.claim_counter = next;
    next
}

pub fn get_claim_counter(state: &ContractState) -> (c: u64)
    ensures
        c == state@.claim_counter,
{
    state.claim_counter
}

// ── Vote (persistent) ─────────────────────────────────────────────────────────
pub fn set_vote(state: &mut ContractState, claim_id: u64, voter: &Address, vote: &VoteOption)
    ensures
        final(state)@ == with_vote(old(state)@, claim_id, *voter, *vote),
{
    state.votes.insert(VoteKey { claim_id, voter: *voter }, *vote);
}

pub fn get_vote(state: &ContractState, claim_id: u64, voter: &Address) -> (r: Option<VoteOption>)
    ensures
        r == vote_at(state@, claim_id, *voter),
{
    match state.votes.get(VoteKey { claim_id, voter: *voter }) {
        Some(v) => Some(*v),
        None => None,
    }
}

/// A copy of a list of addresses.
fn copy_addresses(v: &Vec<Address>) -> (r: Vec<Address>)
    ensures
        r@ == v@,
{
    let mut r: Vec<Address> = Vec::new();
    let mut i: usize = 0;
    while i < v.len()
        invariant
            i <= v@.len(),
            r@ == v@.take(i as int),
        decreases v@.len() - i,
    {
        r.push(v[i]);
        proof {
            assert(v@.take(i + 1) == v@.take(i as int).push(v@[i as int]));
        }
        i = i + 1;
    }
    proof {
        assert(v@.take(v@.len() as int) == v@);
    }
    r
}

// ── Claim voter snapshot ──────────────────────────────────────────────────────
/// Capture the current live voter set as the immutable electorate for `claim_id`.
pub fn snapshot_claim_voters(state: &mut ContractState, claim_id: u64)
    ensures
        final(state)@ == with_snapshot(old(state)@, claim_id),
{
    let voters = copy_addresses(&state.voters);
    let ghost before = state.claim_voters@;
    state.claim_voters.insert(claim_id, voters);
    proof {
        assert(state.claim_voters@.map_values(|v: Vec<Address>| v@) =~= before.map_values(
            |v: Vec<Address>| v@,
        ).insert(claim_id, state.voters@));
    }
}

/// The electorate captured for `claim_id`; empty when none was captured.
pub fn get_claim_voters(state: &ContractState, claim_id: u64) -> (r: Vec<Address>)
    ensures
        r@ == electorate(state@, claim_id),
{
    match state.claim_voters.get(claim_id) {
        Some(v) => copy_addresses(v),
        None => Vec::new(),
    }
}

// ── Rate-limit anchor ─────────────────────────────────────────────────────────
pub fn set_last_claim_ledger(state: &mut ContractState, holder: &Address, ledger: u32)
    ensures
        final(state)@ == with_last_claim_ledger(old(state)@, *holder, ledger),
{
    state.last_claim_ledger.insert(*holder, ledger);
}

pub fn get_last_claim_ledger(state: &ContractState, holder: &Address) -> (r: Option<u32>)
    ensures
        r == last_claim_ledger_at(state@, *holder),
{
    match state.last_claim_ledger.get(*holder) {
        Some(l) => Some(*l),
        None => None,
    }
}

// ── Policy counter (persistent) ───────────────────────────────────────────────
/// The number of policy ids handed out to `holder`.
pub fn get_policy_counter(state: &ContractState, holder: &Address) -> (c: u32)
    ensures
        c == policy_count(state@, *holder),
{
    match state.policy_counter.get(*holder) {
        Some(c) => *c,
        None => 0,
    }
}

/// Allocates `holder`'s next policy id: one more than the last one handed out.
pub fn next_policy_id(state: &mut ContractState, holder: &Address) -> (id: u32)
    requires
        policy_count(old(state)@, *holder) < u32::MAX,
    ensures
        id == policy_count(old(state)@, *holder) + 1,
        final(state)@ == with_next_policy_id(old(state)@, *holder),
{
    let next = advance_counter(get_policy_counter(state, holder));
    state.policy_counter.insert(*holder, next);
    next
}

// ── Policy (persistent) ───────────────────────────────────────────────────────
pub fn has_policy(state: &ContractState, holder: &Address, policy_id: u32) -> (b: bool)
    ensures
        b == state@.policies.contains_key(PolicyKey { holder: *holder, policy_id }),
{
    state.policies.contains(PolicyKey { holder: *holder, policy_id })
}

/// Store a policy.  Key is derived from `policy.holder` and `policy.policy_id`.
pub fn set_policy(state: &mut ContractState, policy: &Policy)
    ensures
        final(state)@ == with_policy(old(state)@, *policy),
{
    state.policies.insert(PolicyKey { holder: policy.holder, policy_id: policy.policy_id }, *policy);
}

pub fn get_policy(state: &ContractState, holder: &Address, policy_id: u32) -> (r: Option<Policy>)
    ensures
        r == policy_at(state@, *holder, policy_id),
{
    match state.policies.get(PolicyKey { holder: *holder, policy_id }) {
        Some(p) => Some(*p),
        None => None,
    }
}

// ── Pause flag ────────────────────────────────────────────────────────────────
pub fn set_paused(state: &mut ContractState, paused: bool)
    ensures
        final(state)@ == (ContractStateView { paused, ..old(state)@ }),
{
    state.paused = paused;
}

pub fn is_paused(state: &ContractState) -> (b: bool)
    ensures
        b == state@.paused,
{
    state.paused
}

// ── Voter registry ────────────────────────────────────────────────────────────
pub fn get_voters(state: &ContractState) -> (r: Vec<Address>)
    ensures
        r@ == state@.voters,
{
    copy_addresses(&state.voters)
}

pub fn set_voters(state: &mut ContractState, voters: &Vec<Address>)
    ensures
        final(state)@ == (ContractStateView { voters: voters@, ..old(state)@ }),
{
    state.voters = copy_addresses(voters);
}

/// The registry once `holder` is in it: unchanged when `holder` is already
/// registered, else `holder` appended at the end.
pub open spec fn registry_with(voters: Seq<Address>, holder: Address) -> Seq<Address> {
    if voters.contains(holder) {
        voters
    } else {
        voters.push(holder)
    }
}

/// Whether a registry entry is for someone other than `holder`.
pub open spec fn other_than(holder: Address) -> spec_fn(Address) -> bool {
    |v: Address| v != holder
}

/// The registry without any entry for `holder`, the others in their order.
pub open spec fn registry_without(voters: Seq<Address>, holder: Address) -> Seq<Address> {
    voters.filter(other_than(holder))
}

/// `voters` with `holder` registered (see `registry_with`).
pub fn with_voter(voters: Vec<Address>, holder: &Address) -> (r: Vec<Address>)
    ensures
        r@ == registry_with(voters@, *holder),
{
    let mut voters = voters;
    let mut found = false;
    let mut i: usize = 0;
    while i < voters.len()
        invariant
            i <= voters@.len(),
            !found ==> forall|j: int| 0 <= j < i ==> voters@[j] != *holder,
            found ==> voters@.contains(*holder),
        decreases voters@.len() - i,
    {
        if voters[i] == *holder {
            found = true;
            assert(voters@[i as int] == *holder);
        }
        i = i + 1;
    }
    if !found {
        voters.push(*holder);
    }
    voters
}

/// `voters` with every entry for `holder` taken out (see `registry_without`).
pub fn without_voter(voters: &Vec<Address>, holder: &Address) -> (r: Vec<Address>)
    ensures
        r@ == registry_without(voters@, *holder),
{
    let mut updated: Vec<Address> = Vec::new();
    let mut i: usize = 0;
    while i < voters.len()
        invariant
            i <= voters@.len(),
            updated@ == registry_without(voters@.take(i as int), *holder),
        decreases voters@.len() - i,
    {
        proof {
            reveal_with_fuel(Seq::<_>::filter, 1);
            assert(voters@.take(i + 1).drop_last() =~= voters@.take(i as int));
        }
        if voters[i] != *holder {
            updated.push(voters[i]);
        }
        i = i + 1;
    }
    proof {
        assert(voters@.take(voters@.len() as int) =~= voters@);
    }
    updated
}

/// Registers `holder` as a voter, once, and counts one more active policy
/// for it.
pub fn add_voter(state: &mut ContractState, holder: &Address)
    requires
        active_count(old(state)@, *holder) < u32::MAX,
    ensures
        final(state)@ == with_voter_added(old(state)@, *holder),
{
    let voters = copy_addresses(&state.voters);
    state.voters = with_voter(voters, holder);
    let count = get_active_policy_count(state, holder);
    state.active_policy_count.insert(*holder, advance_counter(count));
}

/// Takes `holder` out of the voter registry. Its active-policy count is left
/// as it is.
pub fn remove_voter(state: &mut ContractState, holder: &Address)
    ensures
        final(state)@ == with_voter_removed(old(state)@, *holder),
{
    state.voters = without_voter(&state.voters, holder);
}

pub fn get_active_policy_count(state: &ContractState, holder: &Address) -> (c: u32)
    ensures
        c == active_count(state@, *holder),
{
    match state.active_policy_count.get(*holder) {
        Some(c) => *c,
        None => 0,
    }
}

// ── Laws ──────────────────────────────────────────────────────────────────────
/// Reading a policy back after storing it gives the policy under its own
/// holder and id, and what was there before under every other key.
pub proof fn lemma_policy_read_after_write(
    s: ContractStateView,
    policy: Policy,
    holder: Address,
    policy_id: u32,
)
    ensures
        policy_at(with_policy(s, policy), holder, policy_id) == (if holder == policy.holder
            && policy_id == policy.policy_id {
            Some(policy)
        } else {
            policy_at(s, holder, policy_id)
        }),
{
}

/// Reading a claim back after storing it gives the claim under its own id,
/// and what was there before under every other id.
pub proof fn lemma_claim_read_after_write(s: ContractStateView, claim: ClaimView, claim_id: u64)
    ensures
        claim_at(with_claim(s, claim), claim_id) == (if claim_id == claim.claim_id {
            Some(claim)
        } else {
            claim_at(s, claim_id)
        }),
{
}

/// Reading a vote back after recording it gives the vote for that claim and
/// voter, and what was there before for every other pair.
pub proof fn lemma_vote_read_after_write(
    s: ContractStateView,
    claim_id: u64,
    voter: Address,
    vote: VoteOption,
    other_claim: u64,
    other_voter: Address,
)
    ensures
        vote_at(with_vote(s, claim_id, voter, vote), other_claim, other_voter) == (if other_claim
            == claim_id && other_voter == voter {
            Some(vote)
        } else {
            vote_at(s, other_claim, other_voter)
        }),
{
}

/// The allowlist answers for an asset what was last set for it; setting one
/// asset leaves every other asset's answer as it was.
pub proof fn lemma_allowlist_read_after_write(
    s: ContractStateView,
    asset: Address,
    allowed: bool,
    other: Address,
)
    ensures
        asset_allowed(with_asset_allowance(s, asset, allowed), asset) == allowed,
        other != asset ==> asset_allowed(with_asset_allowance(s, asset, allowed), other)
            == asset_allowed(s, other),
{
}

/// Claim ids are handed out in increasing order, one apart, so no id is
/// handed out twice.
pub proof fn lemma_claim_ids_increase(s: ContractStateView)
    requires
        s.claim_counter + 1 < u64::MAX,
    ensures
        with_next_claim_id(s).claim_counter == s.claim_counter + 1,
        with_next_claim_id(with_next_claim_id(s)).claim_counter == with_next_claim_id(
            s,
        ).claim_counter + 1,
{
}

/// Each holder's policy ids count up from 1, one apart, independently of
/// every other holder's.
pub proof fn lemma_policy_ids_per_holder(s: ContractStateView, holder: Address, other: Address)
    requires
        policy_count(s, holder) < u32::MAX,
    ensures
        policy_count(ContractState::new_view(), holder) == 0,
        policy_count(with_next_policy_id(s, holder), holder) == policy_count(s, holder) + 1,
        other != holder ==> policy_count(with_next_policy_id(s, holder), other) == policy_count(
            s,
            other,
        ),
{
}

/// Registering a voter: afterwards it is registered, every voter registered
/// before still is, a second registration changes nothing, and a registry
/// without repeated entries keeps none.
pub proof fn lemma_registry_with(voters: Seq<Address>, holder: Address, other: Address)
    ensures
        registry_with(voters, holder).contains(holder),
        voters.contains(other) ==> registry_with(voters, holder).contains(other),
        registry_with(registry_with(voters, holder), holder) == registry_with(voters, holder),
        voters.no_duplicates() ==> registry_with(voters, holder).no_duplicates(),
{
    if !voters.contains(holder) {
        let w = voters.push(holder);
        assert(w[voters.len() as int] == holder);
        if voters.contains(other) {
            let i = choose|i: int| 0 <= i < voters.len() && voters[i] == other;
            assert(w[i] == other);
        }
    }
}

/// Filtering keeps a sequence free of repeated entries.
proof fn lemma_filter_no_duplicates(v: Seq<Address>, holder: Address)
    requires
        v.no_duplicates(),
    ensures
        registry_without(v, holder).no_duplicates(),
    decreases v.len(),
{
    reveal_with_fuel(Seq::<_>::filter, 1);
    if v.len() > 0 {
        let rest = v.drop_last();
        assert(rest.no_duplicates());
        lemma_filter_no_duplicates(rest, holder);
        if v.last() != holder {
            let f = registry_without(rest, holder);
            assert forall|i: int| 0 <= i < f.len() implies f[i] != v.last() by {
                if f[i] == v.last() {
                    assert(f.contains(v.last()));
                    rest.lemma_filter_contains_rev(other_than(holder), v.last());
                    let j = choose|j: int| 0 <= j < rest.len() && rest[j] == v.last();
                    assert(v[j] == v[v.len() - 1]);
                }
            }
        }
    }
}

/// Removing a voter: afterwards it is not registered, every other voter is
/// registered exactly when it was before, and a registry without repeated
/// entries keeps none.
pub proof fn lemma_registry_without(voters: Seq<Address>, holder: Address, other: Address)
    ensures
        !registry_without(voters, holder).contains(holder),
        other != holder ==> (registry_without(voters, holder).contains(other) <==> voters.contains(
            other,
        )),
        voters.no_duplicates() ==> registry_without(voters, holder).no_duplicates(),
{
    let keep = other_than(holder);
    if registry_without(voters, holder).contains(holder) {
        let i = choose|i: int|
            0 <= i < registry_without(voters, holder).len() && registry_without(voters, holder)[i]
                == holder;
        voters.lemma_filter_pred(keep, i);
    }
    if other != holder {
        if registry_without(voters, holder).contains(other) {
            voters.lemma_filter_contains_rev(keep, other);
        }
        if voters.contains(other) {
            let i = choose|i: int| 0 <= i < voters.len() && voters[i] == other;
            voters.lemma_filter_contains(keep, i);
        }
    }
    if voters.no_duplicates() {
        lemma_filter_no_duplicates(voters, holder);
    }
}

/// The electorate of a claim is the voter registry at the moment of the
/// snapshot, and stays so whatever later happens to the registry.
pub proof fn lemma_snapshot_is_immutable(
    s: ContractStateView,
    claim_id: u64,
    holder: Address,
    voters: Seq<Address>,
)
    ensures
        electorate(with_snapshot(s, claim_id), claim_id) == s.voters,
        electorate(with_voter_added(with_snapshot(s, claim_id), holder), claim_id) == s.voters,
        electorate(with_voter_removed(with_snapshot(s, claim_id), holder), claim_id) == s.voters,
        electorate(ContractStateView { voters, ..with_snapshot(s, claim_id) }, claim_id)
            == s.voters,
{
}

/// Registering a voter: afterwards it is registered, and a registry without
/// repeated entries keeps none.
pub proof fn lemma_voter_added_keeps_registry_unique(s: ContractStateView, holder: Address)
    ensures
        with_voter_added(s, holder).voters.contains(holder),
        s.voters.no_duplicates() ==> with_voter_added(s, holder).voters.no_duplicates(),
{
    lemma_registry_with(s.voters, holder, holder);
}

/// Registering the same voter twice leaves the registry as the first
/// registration left it, and counts two more active policies.
pub proof fn lemma_voter_added_twice(s: ContractStateView, holder: Address)
    requires
        active_count(s, holder) + 2 <= u32::MAX,
    ensures
        with_voter_added(with_voter_added(s, holder), holder).voters == with_voter_added(
            s,
            holder,
        ).voters,
        active_count(with_voter_added(with_voter_added(s, holder), holder), holder) == active_count(
            s,
            holder,
        ) + 2,
{
    lemma_registry_with(s.voters, holder, holder);
}

/// A registry whose entries are all for others than `holder` is unchanged
/// by taking `holder` out.
proof fn lemma_without_absent(voters: Seq<Address>, holder: Address)
    requires
        !voters.contains(holder),
    ensures
        registry_without(voters, holder) == voters,
    decreases voters.len(),
{
    reveal_with_fuel(Seq::<_>::filter, 1);
    if voters.len() > 0 {
        let rest = voters.drop_last();
        assert(!rest.contains(holder)) by {
            if rest.contains(holder) {
                let i = choose|i: int| 0 <= i < rest.len() && rest[i] == holder;
                assert(voters[i] == holder);
            }
        }
        lemma_without_absent(rest, holder);
        assert(voters[voters.len() - 1] != holder);
        assert(rest.push(voters.last()) =~= voters);
    }
}

/// Taking out a voter who was not registered before its registration gives
/// back the registry as it was before: removal undoes registration.
pub proof fn lemma_remove_undoes_add(s: ContractStateView, holder: Address)
    requires
        !s.voters.contains(holder),
    ensures
        with_voter_removed(with_voter_added(s, holder), holder).voters == s.voters,
{
    reveal_with_fuel(Seq::<_>::filter, 1);
    let w = s.voters.push(holder);
    assert(w.drop_last() =~= s.voters);
    lemma_without_absent(s.voters, holder);
}

/// A change to the voter registry: a registration (`add_voter`), a removal
/// (`remove_voter`) or a replacement of the whole list (`set_voters`).
pub enum RegistryChange {
    Add(Address),
    Remove(Address),
    Replace(Seq<Address>),
}

/// Storage `s` after one change to the voter registry.
pub open spec fn after_change(s: ContractStateView, change: RegistryChange) -> ContractStateView {
    match change {
        RegistryChange::Add(holder) => with_voter_added(s, holder),
        RegistryChange::Remove(holder) => with_voter_removed(s, holder),
        RegistryChange::Replace(voters) => ContractStateView { voters, ..s },
    }
}

/// Storage `s` after a sequence of changes to the voter registry, in order.
pub open spec fn after_changes(s: ContractStateView, changes: Seq<RegistryChange>) -> ContractStateView
    decreases changes.len(),
{
    if changes.len() == 0 {
        s
    } else {
        after_change(after_changes(s, changes.drop_last()), changes.last())
    }
}

/// The number of registrations of `holder` among `changes`.
pub open spec fn registrations(changes: Seq<RegistryChange>, holder: Address) -> nat
    decreases changes.len(),
{
    if changes.len() == 0 {
        0
    } else {
        registrations(changes.drop_last(), holder) + if changes.last() == RegistryChange::Add(
            holder,
        ) {
            1nat
        } else {
            0nat
        }
    }
}

/// Changes to the voter registry leave every claim's electorate alone.
proof fn lemma_changes_keep_electorates(s: ContractStateView, changes: Seq<RegistryChange>)
    ensures
        after_changes(s, changes).claim_voters == s.claim_voters,
    decreases changes.len(),
{
    if changes.len() > 0 {
        lemma_changes_keep_electorates(s, changes.drop_last());
    }
}

/// The electorate of a claim is the voter registry at the moment of its
/// snapshot, whatever registrations, removals and replacements of the
/// registry follow; a claim never snapshotted has an empty electorate.
pub proof fn lemma_electorate_survives_any_changes(
    s: ContractStateView,
    claim_id: u64,
    changes: Seq<RegistryChange>,
)
    ensures
        electorate(after_changes(with_snapshot(s, claim_id), changes), claim_id) == s.voters,
        !s.claim_voters.contains_key(claim_id) ==> electorate(after_changes(s, changes), claim_id)
            == Seq::<Address>::empty(),
{
    lemma_changes_keep_electorates(with_snapshot(s, claim_id), changes);
    lemma_changes_keep_electorates(s, changes);
}

/// A holder's active-policy count grows by one with each of its
/// registrations and is changed by nothing else: not by removals, not by
/// replacing the registry, not by other holders' registrations. From a
/// holder with no count, it is the number of its registrations.
pub proof fn lemma_active_count_counts_registrations(
    s: ContractStateView,
    changes: Seq<RegistryChange>,
    holder: Address,
)
    requires
        active_count(s, holder) + registrations(changes, holder) <= u32::MAX,
    ensures
        active_count(after_changes(s, changes), holder) == active_count(s, holder) + registrations(
            changes,
            holder,
        ),
    decreases changes.len(),
{
    if changes.len() > 0 {
        lemma_active_count_counts_registrations(s, changes.drop_last(), holder);
    }
}

/// Storage `s` after handing out the next policy id to each of `holders`,
/// in order.
pub open spec fn after_allocations(s: ContractStateView, holders: Seq<Address>) -> ContractStateView
    decreases holders.len(),
{
    if holders.len() == 0 {
        s
    } else {
        with_next_policy_id(after_allocations(s, holders.drop_last()), holders.last())
    }
}

/// The number of times `holder` occurs in `holders`.
pub open spec fn occurrences(holders: Seq<Address>, holder: Address) -> nat
    decreases holders.len(),
{
    if holders.len() == 0 {
        0
    } else {
        occurrences(holders.drop_last(), holder) + if holders.last() == holder {
            1nat
        } else {
            0nat
        }
    }
}

proof fn lemma_occurrences_of_prefix(holders: Seq<Address>, holder: Address, k: int)
    requires
        0 <= k <= holders.len(),
    ensures
        occurrences(holders.take(k), holder) <= occurrences(holders, holder),
    decreases holders.len(),
{
    if k < holders.len() {
        assert(holders.drop_last().take(k) =~= holders.take(k));
        lemma_occurrences_of_prefix(holders.drop_last(), holder, k);
    } else {
        assert(holders.take(k) =~= holders);
    }
}

/// A holder's policy counter counts the ids handed out to it, whatever ids
/// other holders get in between.
proof fn lemma_policy_counter_counts(s: ContractStateView, holders: Seq<Address>, holder: Address)
    requires
        policy_count(s, holder) + occurrences(holders, holder) <= u32::MAX,
    ensures
        policy_count(after_allocations(s, holders), holder) == policy_count(s, holder)
            + occurrences(holders, holder),
    decreases holders.len(),
{
    if holders.len() > 0 {
        lemma_policy_counter_counts(s, holders.drop_last(), holder);
    }
}

/// Policy ids are handed out per holder, counting from the holder's
/// counter: after any sequence of allocations the counter has grown by the
/// number of the holder's allocations (from a holder with no counter, it is
/// that number), and the k-th allocation for the holder hands out the
/// counter's first value plus k.
pub proof fn lemma_policy_ids_count_allocations(
    s: ContractStateView,
    holders: Seq<Address>,
    holder: Address,
    i: int,
)
    requires
        policy_count(s, holder) + occurrences(holders, holder) <= u32::MAX,
        0 <= i < holders.len(),
        holders[i] == holder,
    ensures
        policy_count(after_allocations(s, holders), holder) == policy_count(s, holder)
            + occurrences(holders, holder),
        policy_count(after_allocations(s, holders.take(i)), holder) + 1 == policy_count(s, holder)
            + occurrences(holders.take(i + 1), holder),
{
    lemma_policy_counter_counts(s, holders, holder);
    lemma_occurrences_of_prefix(holders, holder, i);
    lemma_policy_counter_counts(s, holders.take(i), holder);
    assert(holders.take(i + 1).drop_last() =~= holders.take(i));
}

/// A write to the contract's storage: one call of a storage function that
/// changes it, with its arguments.
pub enum StorageWrite {
    SetAdmin(Address),
    SetPendingAdmin(Address),
    ClearPendingAdmin,
    SetToken(Address),
    SetCalcAddress(Address),
    SetMultiplierTable(MultiplierTable),
    SetAllowedAsset(Address, bool),
    SetClaim(ClaimView),
    NextClaimId,
    SetVote(u64, Address, VoteOption),
    SnapshotClaimVoters(u64),
    SetLastClaimLedger(Address, u32),
    NextPolicyId(Address),
    SetPolicy(Policy),
    SetPaused(bool),
    SetVoters(Seq<Address>),
    AddVoter(Address),
    RemoveVoter(Address),
}

/// Storage `s` after one write, as the storage function's contract gives it.
pub open spec fn after_write(s: ContractStateView, w: StorageWrite) -> ContractStateView {
    match w {
        StorageWrite::SetAdmin(a) => ContractStateView { admin: Some(a), ..s },
        StorageWrite::SetPendingAdmin(a) => ContractStateView { pending_admin: Some(a), ..s },
        StorageWrite::ClearPendingAdmin => ContractStateView { pending_admin: None, ..s },
        StorageWrite::SetToken(a) => ContractStateView { token: Some(a), ..s },
        StorageWrite::SetCalcAddress(a) => ContractStateView { calc_address: Some(a), ..s },
        StorageWrite::SetMultiplierTable(t) => ContractStateView { premium_table: Some(t), ..s },
        StorageWrite::SetAllowedAsset(a, allowed) => with_asset_allowance(s, a, allowed),
        StorageWrite::SetClaim(c) => with_claim(s, c),
        StorageWrite::NextClaimId => with_next_claim_id(s),
        StorageWrite::SetVote(claim_id, voter, vote) => with_vote(s, claim_id, voter, vote),
        StorageWrite::SnapshotClaimVoters(claim_id) => with_snapshot(s, claim_id),
        StorageWrite::SetLastClaimLedger(h, l) => with_last_claim_ledger(s, h, l),
        StorageWrite::NextPolicyId(h) => with_next_policy_id(s, h),
        StorageWrite::SetPolicy(p) => with_policy(s, p),
        StorageWrite::SetPaused(paused) => ContractStateView { paused, ..s },
        StorageWrite::SetVoters(voters) => ContractStateView { voters, ..s },
        StorageWrite::AddVoter(h) => with_voter_added(s, h),
        StorageWrite::RemoveVoter(h) => with_voter_removed(s, h),
    }
}

/// Storage `s` after a sequence of writes, in order.
pub open spec fn after_writes(s: ContractStateView, ws: Seq<StorageWrite>) -> ContractStateView
    decreases ws.len(),
{
    if ws.len() == 0 {
        s
    } else {
        after_write(after_writes(s, ws.drop_last()), ws.last())
    }
}

/// The administrator set by the last `set_admin` among `ws`, else `before`.
pub open spec fn last_admin(ws: Seq<StorageWrite>, before: Option<Address>) -> Option<Address>
    decreases ws.len(),
{
    if ws.len() == 0 {
        before
    } else {
        match ws.last() {
            StorageWrite::SetAdmin(a) => Some(a),
            _ => last_admin(ws.drop_last(), before),
        }
    }
}

/// The pending administrator after `ws`: the last one set, or none where a
/// clearing came after it; `before` where `ws` does neither.
pub open spec fn last_pending_admin(ws: Seq<StorageWrite>, before: Option<Address>) -> Option<Address>
    decreases ws.len(),
{
    if ws.len() == 0 {
        before
    } else {
        match ws.last() {
            StorageWrite::SetPendingAdmin(a) => Some(a),
            StorageWrite::ClearPendingAdmin => None,
            _ => last_pending_admin(ws.drop_last(), before),
        }
    }
}

/// The token set by the last `set_token` among `ws`, else `before`.
pub open spec fn last_token(ws: Seq<StorageWrite>, before: Option<Address>) -> Option<Address>
    decreases ws.len(),
{
    if ws.len() == 0 {
        before
    } else {
        match ws.last() {
            StorageWrite::SetToken(a) => Some(a),
            _ => last_token(ws.drop_last(), before),
        }
    }
}

/// The calculator set by the last `set_calc_address` among `ws`, else `before`.
pub open spec fn last_calc_address(ws: Seq<StorageWrite>, before: Option<Address>) -> Option<Address>
    decreases ws.len(),
{
    if ws.len() == 0 {
        before
    } else {
        match ws.last() {
            StorageWrite::SetCalcAddress(a) => Some(a),
            _ => last_calc_address(ws.drop_last(), before),
        }
    }
}

/// The table set by the last `set_multiplier_table` among `ws`, else `before`.
pub open spec fn last_table(ws: Seq<StorageWrite>, before: Option<MultiplierTable>) -> Option<
    MultiplierTable,
>
    decreases ws.len(),
{
    if ws.len() == 0 {
        before
    } else {
        match ws.last() {
            StorageWrite::SetMultiplierTable(t) => Some(t),
            _ => last_table(ws.drop_last(), before),
        }
    }
}

/// The pause flag set by the last `set_paused` among `ws`, else `before`.
pub open spec fn last_paused(ws: Seq<StorageWrite>, before: bool) -> bool
    decreases ws.len(),
{
    if ws.len() == 0 {
        before
    } else {
        match ws.last() {
            StorageWrite::SetPaused(p) => p,
            _ => last_paused(ws.drop_last(), before),
        }
    }
}

/// The allowance set for `asset` by the last `set_allowed_asset` for it
/// among `ws`, else `before`.
pub open spec fn last_allowance(ws: Seq<StorageWrite>, asset: Address, before: bool) -> bool
    decreases ws.len(),
{
    if ws.len() == 0 {
        before
    } else {
        match ws.last() {
            StorageWrite::SetAllowedAsset(a, allowed) => if a == asset {
                allowed
            } else {
                last_allowance(ws.drop_last(), asset, before)
            },
            _ => last_allowance(ws.drop_last(), asset, before),
        }
    }
}

/// The ledger recorded for `holder` by the last `set_last_claim_ledger` for
/// it among `ws`, else `before`.
pub open spec fn last_claim_ledger_write(
    ws: Seq<StorageWrite>,
    holder: Address,
    before: Option<u32>,
) -> Option<u32>
    decreases ws.len(),
{
    if ws.len() == 0 {
        before
    } else {
        match ws.last() {
            StorageWrite::SetLastClaimLedger(h, l) => if h == holder {
                Some(l)
            } else {
                last_claim_ledger_write(ws.drop_last(), holder, before)
            },
            _ => last_claim_ledger_write(ws.drop_last(), holder, before),
        }
    }
}

/// Each setting reads back as its last write, whatever other writes come
/// before or after it, and as it was where nothing wrote it: the
/// administrator, the pending administrator (which a clearing empties), the
/// token, the calculator, the multiplier table, the pause flag, each asset's
/// allowance and each holder's last claim ledger. From a fresh contract,
/// unwritten settings read as the getters' defaults: no administrator,
/// token or table (whose getters then panic), not paused, no asset allowed,
/// no last claim ledger.
pub proof fn lemma_settings_read_last_write(
    s: ContractStateView,
    ws: Seq<StorageWrite>,
    asset: Address,
    holder: Address,
)
    ensures
        after_writes(s, ws).admin == last_admin(ws, s.admin),
        after_writes(s, ws).pending_admin == last_pending_admin(ws, s.pending_admin),
        after_writes(s, ws).token == last_token(ws, s.token),
        after_writes(s, ws).calc_address == last_calc_address(ws, s.calc_address),
        after_writes(s, ws).premium_table == last_table(ws, s.premium_table),
        after_writes(s, ws).paused == last_paused(ws, s.paused),
        asset_allowed(after_writes(s, ws), asset) == last_allowance(
            ws,
            asset,
            asset_allowed(s, asset),
        ),
        last_claim_ledger_at(after_writes(s, ws), holder) == last_claim_ledger_write(
            ws,
            holder,
            last_claim_ledger_at(s, holder),
        ),
        s == ContractState::new_view() ==> {
            &&& s.admin is None && s.token is None && s.premium_table is None
            &&& !s.paused
            &&& !asset_allowed(s, asset)
            &&& last_claim_ledger_at(s, holder) is None
        },
    decreases ws.len(),
{
    if ws.len() > 0 {
        lemma_settings_read_last_write(s, ws.drop_last(), asset, holder);
    }
}

} // verus!
