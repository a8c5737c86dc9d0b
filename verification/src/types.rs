use vstd::prelude::*;

// Ledger window constants, re-exported for ABI visibility: the frontend and
// backend take them from here rather than hard-coding their own values.
pub use crate::ledger::{
    LEDGERS_PER_DAY, LEDGERS_PER_HOUR, LEDGERS_PER_MIN, LEDGERS_PER_WEEK, POLICY_DURATION_LEDGERS,
    QUOTE_TTL_LEDGERS, RATE_LIMIT_WINDOW_LEDGERS, RENEWAL_WINDOW_LEDGERS, SECS_PER_LEDGER,
    VOTE_WINDOW_LEDGERS,
};

verus! {

// ── Field size limits ─────────────────────────────────────────────────────────
pub const DETAILS_MAX_LEN: u32 = 256;

pub const IMAGE_URL_MAX_LEN: u32 = 128;

pub const IMAGE_URLS_MAX: u32 = 5;

pub const REASON_MAX_LEN: u32 = 128;

pub const SAFETY_SCORE_MAX: u32 = 100;

// ── Addresses ─────────────────────────────────────────────────────────────────
/// Which kind of strkey an address is.
#[derive(Clone, Copy, PartialEq, Eq, Structural, Debug)]
pub enum AddressKind {
    /// An ed25519 account (`G...`).
    Account,
    /// A contract (`C...`).
    Contract,
}

/// A Stellar address as plain data: its kind and its 32-byte payload, held
/// big-endian as two 128-bit halves (`hi` is bytes 0..16, `lo` bytes 16..32).
/// Two addresses are the same account or contract exactly when they are equal.
#[derive(Clone, Copy, PartialEq, Eq, Structural, Debug)]
pub struct Address {
    pub kind: AddressKind,
    pub hi: u128,
    pub lo: u128,
}

// ── Enums ─────────────────────────────────────────────────────────────────────
#[derive(Clone, Copy, PartialEq, Eq, Structural, Debug)]
pub enum PolicyType {
    Auto,
    Health,
    Property,
}

#[derive(Clone, Copy, PartialEq, Eq, Structural, Debug)]
pub enum RegionTier {
    Low,
    Medium,
    High,
}

#[derive(Clone, Copy, PartialEq, Eq, Structural, Debug)]
pub enum AgeBand {
    Young,
    Adult,
    Senior,
}

#[derive(Clone, Copy, PartialEq, Eq, Structural, Debug)]
pub enum CoverageType {
    Basic,
    Standard,
    Premium,
}

/// Claim lifecycle state machine.
///
/// Transitions:
///   Processing → Approved (majority approve vote or deadline plurality)
///   Processing → Rejected (majority reject vote or deadline plurality/tie)
///   Approved   → Paid     (admin calls process_claim)
#[derive(Clone, Copy, PartialEq, Eq, Structural, Debug)]
pub enum ClaimStatus {
    Processing,
    Approved,
    Paid,
    Rejected,
}

impl ClaimStatus {
    /// A status is terminal when the vote on the claim is over.
    pub open spec fn spec_is_terminal(self) -> bool {
        self is Approved || self is Paid || self is Rejected
    }

    /// Only `Processing` is not terminal: a claim is terminal exactly when
    /// its vote is decided (approved or rejected) or it is paid.
    pub proof fn lemma_terminal_iff_not_processing(self)
        ensures
            self.spec_is_terminal() <==> self != ClaimStatus::Processing,
    {
    }

    pub fn is_terminal(&self) -> (r: bool)
        ensures
            r == self.spec_is_terminal(),
    {
        match self {
            ClaimStatus::Approved | ClaimStatus::Paid | ClaimStatus::Rejected => true,
            ClaimStatus::Processing => false,
        }
    }
}

#[derive(Clone, Copy, PartialEq, Eq, Structural, Debug)]
pub enum VoteOption {
    Approve,
    Reject,
}

// ── Premium engine structs ────────────────────────────────────────────────────
#[derive(Clone, Copy, PartialEq, Eq, Structural, Debug)]
pub struct RiskInput {
    pub region: RegionTier,
    pub age_band: AgeBand,
    pub coverage: CoverageType,
    pub safety_score: u32,
}

/// Multipliers per region tier; `None` where the table has no entry.
#[derive(Clone, Copy, PartialEq, Eq, Structural, Debug)]
pub struct RegionMultipliers {
    pub low: Option<i128>,
    pub medium: Option<i128>,
    pub high: Option<i128>,
}

/// Multipliers per age band; `None` where the table has no entry.
#[derive(Clone, Copy, PartialEq, Eq, Structural, Debug)]
pub struct AgeMultipliers {
    pub young: Option<i128>,
    pub adult: Option<i128>,
    pub senior: Option<i128>,
}

/// Multipliers per coverage type; `None` where the table has no entry.
#[derive(Clone, Copy, PartialEq, Eq, Structural, Debug)]
pub struct CoverageMultipliers {
    pub basic: Option<i128>,
    pub standard: Option<i128>,
    pub premium: Option<i128>,
}

#[derive(Clone, Copy, PartialEq, Eq, Structural, Debug)]
pub struct MultiplierTable {
    pub region: RegionMultipliers,
    pub age: AgeMultipliers,
    pub coverage: CoverageMultipliers,
    pub safety_discount: i128,
    pub version: u32,
}

#[derive(Clone, Copy, PartialEq, Eq, Structural, Debug)]
pub struct PremiumTableUpdated {
    pub version: u32,
}

#[derive(Clone, Copy, PartialEq, Eq, Structural, Debug)]
pub struct ClaimProcessed {
    pub claim_id: u64,
    pub recipient: Address,
    pub amount: i128,
}

// ── Core structs ──────────────────────────────────────────────────────────────
#[derive(Clone, Copy, PartialEq, Eq, Structural, Debug)]
pub struct Policy {
    pub holder: Address,
    pub policy_id: u32,
    pub policy_type: PolicyType,
    pub region: RegionTier,
    pub premium: i128,
    pub coverage: i128,
    pub is_active: bool,
    pub start_ledger: u32,
    pub end_ledger: u32,
    /// The asset in which the premium is paid and claims are paid out.
    pub asset: Address,
}

/// On-chain claim record.
///
/// `filed_at` is the ledger sequence at which the claim was filed.  It anchors
/// the voting deadline: votes are accepted while `now < filed_at + VOTE_WINDOW_LEDGERS`.
#[derive(Debug)]
pub struct Claim {
    pub claim_id: u64,
    pub policy_id: u32,
    pub claimant: Address,
    pub amount: i128,
    pub details: String,
    pub image_urls: Vec<String>,
    pub status: ClaimStatus,
    pub approve_votes: u32,
    pub reject_votes: u32,
    /// Ledger sequence at which this claim was filed (voting window anchor).
    pub filed_at: u32,
}

/// A claim as a value: its strings taken by their characters.
pub struct ClaimView {
    pub claim_id: u64,
    pub policy_id: u32,
    pub claimant: Address,
    pub amount: i128,
    pub details: Seq<char>,
    pub image_urls: Seq<Seq<char>>,
    pub status: ClaimStatus,
    pub approve_votes: u32,
    pub reject_votes: u32,
    pub filed_at: u32,
}

impl View for Claim {
    type V = ClaimView;

    open spec fn view(&self) -> ClaimView {
        ClaimView {
            claim_id: self.claim_id,
            policy_id: self.policy_id,
            claimant: self.claimant,
            amount: self.amount,
            details: self.details@,
            image_urls: self.image_urls@.map_values(|s: String| s@),
            status: self.status,
            approve_votes: self.approve_votes,
            reject_votes: self.reject_votes,
            filed_at: self.filed_at,
        }
    }
}

/// A copy of a list of strings, element by element.
pub fn copy_strings(v: &Vec<String>) -> (r: Vec<String>)
    ensures
        r@ == v@,
{
    let mut r: Vec<String> = Vec::new();
    let mut i: usize = 0;
    while i < v.len()
        invariant
            i <= v@.len(),
            r@ == v@.take(i as int),
        decreases v@.len() - i,
    {
        r.push(v[i].clone());
        proof {
            assert(v@.take(i + 1) == v@.take(i as int).push(v@[i as int]));
        }
        i = i + 1;
    }
    proof {
        assert(v@.take(v@.len() as int) == v@);
    }
    r
}

impl Clone for Claim {
    fn clone(&self) -> (r: Self)
        ensures
            r@ == self@,
    {
        Claim {
            claim_id: self.claim_id,
            policy_id: self.policy_id,
            claimant: self.claimant,
            amount: self.amount,
            details: self.details.clone(),
            image_urls: copy_strings(&self.image_urls),
            status: self.status,
            approve_votes: self.approve_votes,
            reject_votes: self.reject_votes,
            filed_at: self.filed_at,
        }
    }
}

#[derive(Clone, Debug, PartialEq, Eq)]
pub struct PremiumQuoteLineItem {
    pub component: String,
    pub factor: i128,
    pub amount: i128,
}

#[derive(Clone, Debug, PartialEq, Eq)]
pub struct PremiumQuote {
    pub total_premium: i128,
    pub line_items: Option<Vec<PremiumQuoteLineItem>>,
    pub valid_until_ledger: u32,
    pub config_version: u32,
}

} // verus!
