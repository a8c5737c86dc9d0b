use vstd::prelude::*;
pub use crate::ledger::QUOTE_TTL_LEDGERS;
use crate::ledger::POLICY_DURATION_LEDGERS;
use crate::storage::{
    active_count, add_voter, asset_allowed, has_policy, is_allowed_asset, is_paused,
    lemma_registry_with, next_policy_id, policy_at, policy_count, set_policy, with_next_policy_id,
    with_policy, with_voter_added, ContractState, ContractStateView, PolicyKey,
};
use crate::types::{
    Address, AgeBand, CoverageType, Policy, PolicyType, PremiumQuote, PremiumQuoteLineItem,
    RegionTier, RiskInput, SAFETY_SCORE_MAX,
};
use crate::validate::{check_policy, check_risk_input, policy_error, risk_input_error, Error};

verus! {

/// Current event schema version for PolicyInitiated.
pub const POLICY_EVENT_VERSION: u32 = 1;

#[derive(Clone, Copy, PartialEq, Eq, Structural, Debug)]
pub enum QuoteError {
    InvalidAge,
    InvalidRiskScore,
    InvalidQuoteTtl,
    ArithmeticOverflow,
}

impl QuoteError {
    /// The number under which the contract reports this error.
    pub open spec fn spec_code(self) -> u32 {
        match self {
            QuoteError::InvalidAge => 1,
            QuoteError::InvalidRiskScore => 2,
            QuoteError::InvalidQuoteTtl => 3,
            QuoteError::ArithmeticOverflow => 4,
        }
    }

    pub fn code(&self) -> (c: u32)
        ensures
            c == self.spec_code(),
    {
        match self {
            QuoteError::InvalidAge => 1,
            QuoteError::InvalidRiskScore => 2,
            QuoteError::InvalidQuoteTtl => 3,
            QuoteError::ArithmeticOverflow => 4,
        }
    }
}

/// Errors specific to policy initiation and lifecycle.
#[derive(Clone, Copy, PartialEq, Eq, Structural, Debug)]
pub enum PolicyError {
    /// Contract is paused by admin.
    ContractPaused,
    /// A policy with this (holder, policy_id) already exists.
    DuplicatePolicyId,
    /// Coverage must be > 0.
    InvalidCoverage,
    /// Computed premium is zero or negative (should not happen with valid inputs).
    InvalidPremium,
    /// Premium computation overflowed.
    PremiumOverflow,
    /// Policy duration would overflow ledger sequence.
    LedgerOverflow,
    /// Policy struct failed internal validation.
    PolicyValidation,
    /// Caller is not authorized (require_auth failed or wrong signer).
    Unauthorized,
    /// Age out of range (1..=120).
    InvalidAge,
    /// Risk score out of range (1..=10).
    InvalidRiskScore,
    /// Supplied asset is not on the admin-controlled allowlist.
    AssetNotAllowed,
}

impl PolicyError {
    /// The number under which the contract reports this error.
    pub open spec fn spec_code(self) -> u32 {
        match self {
            PolicyError::ContractPaused => 100,
            PolicyError::DuplicatePolicyId => 101,
            PolicyError::InvalidCoverage => 102,
            PolicyError::InvalidPremium => 103,
            PolicyError::PremiumOverflow => 104,
            PolicyError::LedgerOverflow => 105,
            PolicyError::PolicyValidation => 106,
            PolicyError::Unauthorized => 107,
            PolicyError::InvalidAge => 108,
            PolicyError::InvalidRiskScore => 109,
            PolicyError::AssetNotAllowed => 110,
        }
    }

    pub fn code(&self) -> (c: u32)
        ensures
            c == self.spec_code(),
    {
        match self {
            PolicyError::ContractPaused => 100,
            PolicyError::DuplicatePolicyId => 101,
            PolicyError::InvalidCoverage => 102,
            PolicyError::InvalidPremium => 103,
            PolicyError::PremiumOverflow => 104,
            PolicyError::LedgerOverflow => 105,
            PolicyError::PolicyValidation => 106,
            PolicyError::Unauthorized => 107,
            PolicyError::InvalidAge => 108,
            PolicyError::InvalidRiskScore => 109,
            PolicyError::AssetNotAllowed => 110,
        }
    }
}

#[derive(Clone, Debug, PartialEq, Eq)]
pub struct QuoteFailure {
    pub code: u32,
    pub message: String,
}

/// Versioned event emitted by `initiate_policy`.
///
/// Indexers subscribe to this event to render dashboards without scanning
/// entire storage.  The `version` field allows the indexer consumer to be
/// versioned alongside contract releases; `holder` is the indexed topic.
#[derive(Clone, Copy, PartialEq, Eq, Structural, Debug)]
pub struct PolicyInitiated {
    pub holder: Address,
    /// Schema version; currently 1.
    pub version: u32,
    pub policy_id: u32,
    pub premium: i128,
    pub asset: Address,
    pub policy_type: PolicyType,
    pub region: RegionTier,
    pub coverage: i128,
    pub start_ledger: u32,
    pub end_ledger: u32,
}

// ── Premium quotes ────────────────────────────────────────────────────────────
/// What the premium engine computed for a risk input and a base amount under
/// the stored multiplier table: the total premium, the version of the table
/// used and the breakdown of the premium into line items.
#[derive(Debug)]
pub struct PremiumComputation {
    pub total_premium: i128,
    pub config_version: u32,
    pub line_items: Vec<PremiumQuoteLineItem>,
}

/// Why a quote request is refused before any pricing, if it is: the risk
/// input is checked first, then the base amount, then the quote lifetime.
pub open spec fn quote_request_error(input: RiskInput, base_amount: i128) -> Option<Error> {
    if risk_input_error(input) is Some {
        risk_input_error(input)
    } else if base_amount <= 0 {
        Some(Error::InvalidBaseAmount)
    } else if QUOTE_TTL_LEDGERS == 0 {
        Some(Error::InvalidQuoteTtl)
    } else {
        None
    }
}

/// The checks that a quote request passes before it is priced.
pub fn check_quote_request(input: &RiskInput, base_amount: i128) -> (r: Result<(), Error>)
    ensures
        match quote_request_error(*input, base_amount) {
            Some(e) => r == Err::<(), Error>(e),
            None => r is Ok,
        },
{
    match check_risk_input(input) {
        Err(e) => {
            return Err(e);
        },
        Ok(()) => {},
    }
    if base_amount <= 0 {
        return Err(Error::InvalidBaseAmount);
    }
    if QUOTE_TTL_LEDGERS == 0 {
        return Err(Error::InvalidQuoteTtl);
    }
    Ok(())
}

/// Turns a priced risk input into a quote.
///
/// `computation` is what the premium engine returned for `input` and
/// `base_amount` under the stored multiplier table; it is consulted only when
/// the request passes `check_quote_request`. The quote stays valid for
/// `QUOTE_TTL_LEDGERS` ledgers after `current_ledger`, and carries the
/// engine's line items when `include_breakdown` is set.
pub fn generate_premium(
    input: &RiskInput,
    base_amount: i128,
    include_breakdown: bool,
    computation: Result<PremiumComputation, Error>,
    current_ledger: u32,
) -> (r: Result<PremiumQuote, Error>)
    ensures
        match quote_request_error(*input, base_amount) {
            Some(e) => r matches Err(x) && x == e,
            None => match computation {
                Err(e) => r matches Err(x) && x == e,
                Ok(c) => if current_ledger + QUOTE_TTL_LEDGERS > u32::MAX {
                    r matches Err(x) && x == Error::Overflow
                } else {
                    r matches Ok(q) && {
                        &&& q.total_premium == c.total_premium
                        &&& q.config_version == c.config_version
                        &&& q.valid_until_ledger == current_ledger + QUOTE_TTL_LEDGERS
                        &&& q.line_items is Some <==> include_breakdown
                        &&& q.line_items matches Some(items) ==> items@ == c.line_items@
                    }
                },
            },
        },
{
    match check_quote_request(input, base_amount) {
        Err(e) => {
            return Err(e);
        },
        Ok(()) => {},
    }
    let computation = match computation {
        Err(e) => {
            return Err(e);
        },
        Ok(c) => c,
    };
    let PremiumComputation { total_premium, config_version, line_items } = computation;
    let line_items = if include_breakdown {
        Some(line_items)
    } else {
        None
    };
    let valid_until_ledger = match current_ledger.checked_add(QUOTE_TTL_LEDGERS) {
        Some(l) => l,
        None => {
            return Err(Error::Overflow);
        },
    };
    Ok(PremiumQuote { total_premium, line_items, valid_until_ledger, config_version })
}

/// The message with which a failed quote is reported.
pub open spec fn quote_error_message(err: Error) -> Seq<char> {
    match err {
        Error::InvalidBaseAmount => "invalid base amount: expected > 0"@,
        Error::SafetyScoreOutOfRange => "invalid safety_score: expected 0..=100"@,
        Error::InvalidConfigVersion => "invalid premium table version: expected a strictly newer version"@,
        Error::MissingRegionMultiplier => "premium table missing one or more region multipliers"@,
        Error::MissingAgeMultiplier => "premium table missing one or more age-band multipliers"@,
        Error::MissingCoverageMultiplier => "premium table missing one or more coverage multipliers"@,
        Error::RegionMultiplierOutOfBounds => "region multiplier out of bounds: expected 0.5000x..=5.0000x"@,
        Error::AgeMultiplierOutOfBounds => "age-band multiplier out of bounds: expected 0.5000x..=5.0000x"@,
        Error::CoverageMultiplierOutOfBounds => "coverage multiplier out of bounds: expected 0.5000x..=5.0000x"@,
        Error::SafetyDiscountOutOfBounds => "safety discount out of bounds: expected 0.0000x..=0.5000x"@,
        Error::Overflow => "pricing arithmetic overflow: reduce base amount or multiplier values"@,
        Error::DivideByZero => "pricing divide by zero: check configured scaling factors"@,
        Error::InvalidQuoteTtl => "quote ttl misconfigured: contact support"@,
        Error::NegativePremiumNotSupported => "negative premium inputs are not supported"@,
        Error::ClaimNotFound => "claim not found"@,
        Error::InvalidAsset => "claim asset is not allowlisted for payout"@,
        Error::InsufficientTreasury => "treasury balance is insufficient for the approved payout"@,
        Error::AlreadyPaid => "claim payout already executed"@,
        Error::ClaimNotApproved => "claim must be approved before payout"@,
        Error::ZeroCoverage => "policy coverage must be greater than zero"@,
        Error::ZeroPremium => "policy premium must be greater than zero"@,
        Error::InvalidLedgerWindow => "invalid ledger window: end_ledger must be greater than start_ledger"@,
        Error::PolicyExpired => "policy is expired"@,
        Error::PolicyInactive => "policy is inactive"@,
        Error::ClaimAmountZero => "claim amount must be greater than zero"@,
        Error::ClaimExceedsCoverage => "claim amount exceeds policy coverage"@,
        Error::DetailsTooLong => "claim details exceed maximum length"@,
        Error::TooManyImageUrls => "too many image URLs supplied"@,
        Error::ImageUrlTooLong => "image URL exceeds maximum length"@,
        Error::ReasonTooLong => "termination reason exceeds maximum length"@,
        Error::ClaimAlreadyTerminal => "claim already reached a terminal status"@,
        Error::DuplicateVote => "duplicate vote detected"@,
        Error::CalculatorNotSet => "no external calculator configured"@,
        Error::CalculatorCallFailed => "cross-contract call to premium calculator failed"@,
        Error::CalculatorPaused => "premium calculator is paused; policy bind rejected"@,
        Error::VotingWindowClosed => "voting window has closed; use finalize_claim"@,
        Error::VotingWindowStillOpen => "voting window is still open; cannot finalize yet"@,
        Error::NotEligibleVoter => "caller is not in the claim voter snapshot"@,
        Error::RateLimitExceeded => "claim rate-limit: wait before filing another claim"@,
    }
}

/// Reports an error as a quote failure: its code and a message for the user.
pub fn map_quote_error(err: Error) -> (f: QuoteFailure)
    ensures
        f.code == err.spec_code(),
        f.message@ == quote_error_message(err),
{
    let message: &str = match err {
        Error::InvalidBaseAmount => "invalid base amount: expected > 0",
        Error::SafetyScoreOutOfRange => "invalid safety_score: expected 0..=100",
        Error::InvalidConfigVersion => "invalid premium table version: expected a strictly newer version",
        Error::MissingRegionMultiplier => "premium table missing one or more region multipliers",
        Error::MissingAgeMultiplier => "premium table missing one or more age-band multipliers",
        Error::MissingCoverageMultiplier => "premium table missing one or more coverage multipliers",
        Error::RegionMultiplierOutOfBounds => "region multiplier out of bounds: expected 0.5000x..=5.0000x",
        Error::AgeMultiplierOutOfBounds => "age-band multiplier out of bounds: expected 0.5000x..=5.0000x",
        Error::CoverageMultiplierOutOfBounds => "coverage multiplier out of bounds: expected 0.5000x..=5.0000x",
        Error::SafetyDiscountOutOfBounds => "safety discount out of bounds: expected 0.0000x..=0.5000x",
        Error::Overflow => "pricing arithmetic overflow: reduce base amount or multiplier values",
        Error::DivideByZero => "pricing divide by zero: check configured scaling factors",
        Error::InvalidQuoteTtl => "quote ttl misconfigured: contact support",
        Error::NegativePremiumNotSupported => "negative premium inputs are not supported",
        Error::ClaimNotFound => "claim not found",
        Error::InvalidAsset => "claim asset is not allowlisted for payout",
        Error::InsufficientTreasury => "treasury balance is insufficient for the approved payout",
        Error::AlreadyPaid => "claim payout already executed",
        Error::ClaimNotApproved => "claim must be approved before payout",
        Error::ZeroCoverage => "policy coverage must be greater than zero",
        Error::ZeroPremium => "policy premium must be greater than zero",
        Error::InvalidLedgerWindow => "invalid ledger window: end_ledger must be greater than start_ledger",
        Error::PolicyExpired => "policy is expired",
        Error::PolicyInactive => "policy is inactive",
        Error::ClaimAmountZero => "claim amount must be greater than zero",
        Error::ClaimExceedsCoverage => "claim amount exceeds policy coverage",
        Error::DetailsTooLong => "claim details exceed maximum length",
        Error::TooManyImageUrls => "too many image URLs supplied",
        Error::ImageUrlTooLong => "image URL exceeds maximum length",
        Error::ReasonTooLong => "termination reason exceeds maximum length",
        Error::ClaimAlreadyTerminal => "claim already reached a terminal status",
        Error::DuplicateVote => "duplicate vote detected",
        Error::CalculatorNotSet => "no external calculator configured",
        Error::CalculatorCallFailed => "cross-contract call to premium calculator failed",
        Error::CalculatorPaused => "premium calculator is paused; policy bind rejected",
        Error::VotingWindowClosed => "voting window has closed; use finalize_claim",
        Error::VotingWindowStillOpen => "voting window is still open; cannot finalize yet",
        Error::NotEligibleVoter => "caller is not in the claim voter snapshot",
        Error::RateLimitExceeded => "claim rate-limit: wait before filing another claim",
    };
    QuoteFailure { code: err.code(), message: String::from_str(message) }
}

/// The length of each quote-failure message, its first character and, where
/// it has one, its 35th: enough to tell every two messages apart.
proof fn lemma_message_shape(err: Error)
    ensures
        ({
            let m = quote_error_message(err);
            match err {
            Error::InvalidBaseAmount => m.len() == 33 && m[0] == 'i',
            Error::SafetyScoreOutOfRange => m.len() == 38 && m[0] == 'i' && m[34] == '=',
            Error::InvalidConfigVersion => m.len() == 64 && m[0] == 'i' && m[34] == 'e',
            Error::MissingRegionMultiplier => m.len() == 52 && m[0] == 'p' && m[34] == 'r',
            Error::MissingAgeMultiplier => m.len() == 54 && m[0] == 'p' && m[34] == 'a',
            Error::MissingCoverageMultiplier => m.len() == 54 && m[0] == 'p' && m[34] == 'c',
            Error::RegionMultiplierOutOfBounds => m.len() == 59 && m[0] == 'r' && m[34] == 'x',
            Error::AgeMultiplierOutOfBounds => m.len() == 61 && m[0] == 'a' && m[34] == ' ',
            Error::CoverageMultiplierOutOfBounds => m.len() == 61 && m[0] == 'c' && m[34] == ' ',
            Error::SafetyDiscountOutOfBounds => m.len() == 57 && m[0] == 's' && m[34] == 'e',
            Error::Overflow => m.len() == 68 && m[0] == 'p' && m[34] == 'e',
            Error::DivideByZero => m.len() == 56 && m[0] == 'p' && m[34] == 'i',
            Error::InvalidQuoteTtl => m.len() == 40 && m[0] == 'q' && m[34] == 'u',
            Error::NegativePremiumNotSupported => m.len() == 41 && m[0] == 'n' && m[34] == 'p',
            Error::ClaimNotFound => m.len() == 15 && m[0] == 'c',
            Error::InvalidAsset => m.len() == 41 && m[0] == 'c' && m[34] == ' ',
            Error::InsufficientTreasury => m.len() == 56 && m[0] == 't' && m[34] == 'o',
            Error::AlreadyPaid => m.len() == 29 && m[0] == 'c',
            Error::ClaimNotApproved => m.len() == 36 && m[0] == 'c' && m[34] == 'u',
            Error::ZeroCoverage => m.len() == 41 && m[0] == 'p' && m[34] == 'a',
            Error::ZeroPremium => m.len() == 40 && m[0] == 'p' && m[34] == 'n',
            Error::InvalidLedgerWindow => m.len() == 67 && m[0] == 'i' && m[34] == 'm',
            Error::PolicyExpired => m.len() == 17 && m[0] == 'p',
            Error::PolicyInactive => m.len() == 18 && m[0] == 'p',
            Error::ClaimAmountZero => m.len() == 38 && m[0] == 'c' && m[34] == 'z',
            Error::ClaimExceedsCoverage => m.len() == 36 && m[0] == 'c' && m[34] == 'g',
            Error::DetailsTooLong => m.len() == 35 && m[0] == 'c' && m[34] == 'h',
            Error::TooManyImageUrls => m.len() == 28 && m[0] == 't',
            Error::ImageUrlTooLong => m.len() == 32 && m[0] == 'i',
            Error::ReasonTooLong => m.len() == 41 && m[0] == 't' && m[34] == ' ',
            Error::ClaimAlreadyTerminal => m.len() == 39 && m[0] == 'c' && m[34] == 't',
            Error::DuplicateVote => m.len() == 23 && m[0] == 'd',
            Error::CalculatorNotSet => m.len() == 33 && m[0] == 'n',
            Error::CalculatorCallFailed => m.len() == 48 && m[0] == 'c' && m[34] == 'c',
            Error::CalculatorPaused => m.len() == 50 && m[0] == 'p' && m[34] == 'c',
            Error::VotingWindowClosed => m.len() == 44 && m[0] == 'v' && m[34] == 'l',
            Error::VotingWindowStillOpen => m.len() == 48 && m[0] == 'v' && m[34] == 't',
            Error::NotEligibleVoter => m.len() == 41 && m[0] == 'c' && m[34] == 'n',
            Error::RateLimitExceeded => m.len() == 50 && m[0] == 'c' && m[34] == 'n',
            }
        }),
{
    match err {
        Error::InvalidBaseAmount => {
            reveal_strlit("invalid base amount: expected > 0");
        },
        Error::SafetyScoreOutOfRange => {
            reveal_strlit("invalid safety_score: expected 0..=100");
        },
        Error::InvalidConfigVersion => {
            reveal_strlit("invalid premium table version: expected a strictly newer version");
        },
        Error::MissingRegionMultiplier => {
            reveal_strlit("premium table missing one or more region multipliers");
        },
        Error::MissingAgeMultiplier => {
            reveal_strlit("premium table missing one or more age-band multipliers");
        },
        Error::MissingCoverageMultiplier => {
            reveal_strlit("premium table missing one or more coverage multipliers");
        },
        Error::RegionMultiplierOutOfBounds => {
            reveal_strlit("region multiplier out of bounds: expected 0.5000x..=5.0000x");
        },
        Error::AgeMultiplierOutOfBounds => {
            reveal_strlit("age-band multiplier out of bounds: expected 0.5000x..=5.0000x");
        },
        Error::CoverageMultiplierOutOfBounds => {
            reveal_strlit("coverage multiplier out of bounds: expected 0.5000x..=5.0000x");
        },
        Error::SafetyDiscountOutOfBounds => {
            reveal_strlit("safety discount out of bounds: expected 0.0000x..=0.5000x");
        },
        Error::Overflow => {
            reveal_strlit("pricing arithmetic overflow: reduce base amount or multiplier values");
        },
        Error::DivideByZero => {
            reveal_strlit("pricing divide by zero: check configured scaling factors");
        },
        Error::InvalidQuoteTtl => {
            reveal_strlit("quote ttl misconfigured: contact support");
        },
        Error::NegativePremiumNotSupported => {
            reveal_strlit("negative premium inputs are not supported");
        },
        Error::ClaimNotFound => {
            reveal_strlit("claim not found");
        },
        Error::InvalidAsset => {
            reveal_strlit("claim asset is not allowlisted for payout");
        },
        Error::InsufficientTreasury => {
            reveal_strlit("treasury balance is insufficient for the approved payout");
        },
        Error::AlreadyPaid => {
            reveal_strlit("claim payout already executed");
        },
        Error::ClaimNotApproved => {
            reveal_strlit("claim must be approved before payout");
        },
        Error::ZeroCoverage => {
            reveal_strlit("policy coverage must be greater than zero");
        },
        Error::ZeroPremium => {
            reveal_strlit("policy premium must be greater than zero");
        },
        Error::InvalidLedgerWindow => {
            reveal_strlit("invalid ledger window: end_ledger must be greater than start_ledger");
        },
        Error::PolicyExpired => {
            reveal_strlit("policy is expired");
        },
        Error::PolicyInactive => {
            reveal_strlit("policy is inactive");
        },
        Error::ClaimAmountZero => {
            reveal_strlit("claim amount must be greater than zero");
        },
        Error::ClaimExceedsCoverage => {
            reveal_strlit("claim amount exceeds policy coverage");
        },
        Error::DetailsTooLong => {
            reveal_strlit("claim details exceed maximum length");
        },
        Error::TooManyImageUrls => {
            reveal_strlit("too many image URLs supplied");
        },
        Error::ImageUrlTooLong => {
            reveal_strlit("image URL exceeds maximum length");
        },
        Error::ReasonTooLong => {
            reveal_strlit("termination reason exceeds maximum length");
        },
        Error::ClaimAlreadyTerminal => {
            reveal_strlit("claim already reached a terminal status");
        },
        Error::DuplicateVote => {
            reveal_strlit("duplicate vote detected");
        },
        Error::CalculatorNotSet => {
            reveal_strlit("no external calculator configured");
        },
        Error::CalculatorCallFailed => {
            reveal_strlit("cross-contract call to premium calculator failed");
        },
        Error::CalculatorPaused => {
            reveal_strlit("premium calculator is paused; policy bind rejected");
        },
        Error::VotingWindowClosed => {
            reveal_strlit("voting window has closed; use finalize_claim");
        },
        Error::VotingWindowStillOpen => {
            reveal_strlit("voting window is still open; cannot finalize yet");
        },
        Error::NotEligibleVoter => {
            reveal_strlit("caller is not in the claim voter snapshot");
        },
        Error::RateLimitExceeded => {
            reveal_strlit("claim rate-limit: wait before filing another claim");
        },
    }
}

/// Every error is reported with its own code and its own message.
#[verifier::rlimit(50)]
pub proof fn lemma_quote_failures_distinct(a: Error, b: Error)
    requires
        a != b,
    ensures
        a.spec_code() != b.spec_code(),
        quote_error_message(a) != quote_error_message(b),
{
    crate::validate::lemma_error_codes_distinct(a, b);
    lemma_message_shape(a);
    lemma_message_shape(b);
}

// ── Policy initiation ─────────────────────────────────────────────────────────
/// The age band in which an age falls.
pub open spec fn spec_age_to_band(age: u32) -> AgeBand {
    if age < 30 {
        AgeBand::Young
    } else if age < 60 {
        AgeBand::Adult
    } else {
        AgeBand::Senior
    }
}

pub fn age_to_band(age: u32) -> (b: AgeBand)
    ensures
        b == spec_age_to_band(age),
{
    if age < 30 {
        AgeBand::Young
    } else if age < 60 {
        AgeBand::Adult
    } else {
        AgeBand::Senior
    }
}

/// The coverage type with which a risk score is priced.
pub open spec fn spec_risk_score_to_coverage(risk_score: u32) -> CoverageType {
    if risk_score <= 3 {
        CoverageType::Basic
    } else if risk_score <= 7 {
        CoverageType::Standard
    } else {
        CoverageType::Premium
    }
}

pub fn risk_score_to_coverage(risk_score: u32) -> (c: CoverageType)
    ensures
        c == spec_risk_score_to_coverage(risk_score),
{
    if risk_score <= 3 {
        CoverageType::Basic
    } else if risk_score <= 7 {
        CoverageType::Standard
    } else {
        CoverageType::Premium
    }
}

/// Why initiation is refused outright, if it is: a paused contract first,
/// then an asset off the allowlist.
pub open spec fn admission_error(paused: bool, asset_allowed: bool) -> Option<PolicyError> {
    if paused {
        Some(PolicyError::ContractPaused)
    } else if !asset_allowed {
        Some(PolicyError::AssetNotAllowed)
    } else {
        None
    }
}

pub fn check_admission(paused: bool, asset_allowed: bool) -> (r: Result<(), PolicyError>)
    ensures
        match admission_error(paused, asset_allowed) {
            Some(e) => r == Err::<(), PolicyError>(e),
            None => r is Ok,
        },
{
    if paused {
        return Err(PolicyError::ContractPaused);
    }
    if !asset_allowed {
        return Err(PolicyError::AssetNotAllowed);
    }
    Ok(())
}

/// Why the holder's request is invalid, if it is: the age must lie in
/// `1..=120`, then the risk score in `1..=10`, then the coverage be positive.
pub open spec fn request_error(age: u32, risk_score: u32, coverage: i128) -> Option<PolicyError> {
    if age == 0 || age > 120 {
        Some(PolicyError::InvalidAge)
    } else if risk_score == 0 || risk_score > 10 {
        Some(PolicyError::InvalidRiskScore)
    } else if coverage <= 0 {
        Some(PolicyError::InvalidCoverage)
    } else {
        None
    }
}

pub fn check_policy_request(age: u32, risk_score: u32, coverage: i128) -> (r: Result<(), PolicyError>)
    ensures
        match request_error(age, risk_score, coverage) {
            Some(e) => r == Err::<(), PolicyError>(e),
            None => r is Ok,
        },
{
    if age == 0 || age > 120 {
        return Err(PolicyError::InvalidAge);
    }
    if risk_score == 0 || risk_score > 10 {
        return Err(PolicyError::InvalidRiskScore);
    }
    if coverage <= 0 {
        return Err(PolicyError::InvalidCoverage);
    }
    Ok(())
}

/// The risk input and base amount for which the premium calculator prices a
/// policy: the age band and coverage type that age and risk score map to, a
/// safety score of 0, and a tenth of the coverage as base.
pub open spec fn spec_premium_request(
    region: RegionTier,
    age: u32,
    risk_score: u32,
    coverage: i128,
) -> (RiskInput, i128) {
    (
        RiskInput {
            region,
            age_band: spec_age_to_band(age),
            coverage: spec_risk_score_to_coverage(risk_score),
            safety_score: 0,
        },
        (coverage / 10) as i128,
    )
}

pub fn premium_request(region: RegionTier, age: u32, risk_score: u32, coverage: i128) -> (r: (
    RiskInput,
    i128,
))
    requires
        coverage > 0,
    ensures
        r == spec_premium_request(region, age, risk_score, coverage),
{
    let risk_input = RiskInput {
        region,
        age_band: age_to_band(age),
        coverage: risk_score_to_coverage(risk_score),
        safety_score: 0,
    };
    let base_amount = coverage / 10;
    (risk_input, base_amount)
}

/// The premium that the calculator's reply sets: its total when positive.
/// A paused calculator refuses the policy as a paused contract would; any
/// other calculator failure reports an overflow of the premium.
pub open spec fn quote_premium(quote: Result<PremiumQuote, Error>) -> Result<i128, PolicyError> {
    match quote {
        Err(Error::CalculatorPaused) => Err(PolicyError::ContractPaused),
        Err(_) => Err(PolicyError::PremiumOverflow),
        Ok(q) => if q.total_premium <= 0 {
            Err(PolicyError::InvalidPremium)
        } else {
            Ok(q.total_premium)
        },
    }
}

pub fn accept_quote(quote: Result<PremiumQuote, Error>) -> (r: Result<i128, PolicyError>)
    ensures
        r == quote_premium(quote),
{
    match quote {
        Err(Error::CalculatorPaused) => Err(PolicyError::ContractPaused),
        Err(_) => Err(PolicyError::PremiumOverflow),
        Ok(q) => if q.total_premium <= 0 {
            Err(PolicyError::InvalidPremium)
        } else {
            Ok(q.total_premium)
        },
    }
}

/// The policy bound from `current_ledger` on for `POLICY_DURATION_LEDGERS`
/// ledgers, active, or why it cannot be: its end overflows the ledger
/// sequence, or the record fails `check_policy`.
pub open spec fn bound_policy(
    holder: Address,
    policy_id: u32,
    policy_type: PolicyType,
    region: RegionTier,
    premium: i128,
    coverage: i128,
    asset: Address,
    current_ledger: u32,
) -> Result<Policy, PolicyError> {
    if current_ledger + POLICY_DURATION_LEDGERS > u32::MAX {
        Err(PolicyError::LedgerOverflow)
    } else {
        let policy = Policy {
            holder,
            policy_id,
            policy_type,
            region,
            premium,
            coverage,
            is_active: true,
            start_ledger: current_ledger,
            end_ledger: (current_ledger + POLICY_DURATION_LEDGERS) as u32,
            asset,
        };
        if policy_error(policy) is Some {
            Err(PolicyError::PolicyValidation)
        } else {
            Ok(policy)
        }
    }
}

pub fn build_policy(
    holder: Address,
    policy_id: u32,
    policy_type: PolicyType,
    region: RegionTier,
    premium: i128,
    coverage: i128,
    asset: Address,
    current_ledger: u32,
) -> (r: Result<Policy, PolicyError>)
    ensures
        r == bound_policy(
            holder,
            policy_id,
            policy_type,
            region,
            premium,
            coverage,
            asset,
            current_ledger,
        ),
{
    let end_ledger = match current_ledger.checked_add(POLICY_DURATION_LEDGERS) {
        Some(l) => l,
        None => {
            return Err(PolicyError::LedgerOverflow);
        },
    };
    let policy = Policy {
        holder,
        policy_id,
        policy_type,
        region,
        premium,
        coverage,
        is_active: true,
        start_ledger: current_ledger,
        end_ledger,
        asset,
    };
    match check_policy(&policy) {
        Err(_) => Err(PolicyError::PolicyValidation),
        Ok(()) => Ok(policy),
    }
}

/// The event that announces `policy`, freshly bound: schema version
/// `POLICY_EVENT_VERSION`, the holder as topic and the policy's terms.
pub open spec fn initiated_event(policy: Policy) -> PolicyInitiated {
    PolicyInitiated {
        holder: policy.holder,
        version: POLICY_EVENT_VERSION,
        policy_id: policy.policy_id,
        premium: policy.premium,
        asset: policy.asset,
        policy_type: policy.policy_type,
        region: policy.region,
        coverage: policy.coverage,
        start_ledger: policy.start_ledger,
        end_ledger: policy.end_ledger,
    }
}

pub fn policy_initiated(policy: &Policy) -> (e: PolicyInitiated)
    ensures
        e == initiated_event(*policy),
{
    PolicyInitiated {
        holder: policy.holder,
        version: POLICY_EVENT_VERSION,
        policy_id: policy.policy_id,
        premium: policy.premium,
        asset: policy.asset,
        policy_type: policy.policy_type,
        region: policy.region,
        coverage: policy.coverage,
        start_ledger: policy.start_ledger,
        end_ledger: policy.end_ledger,
    }
}

/// A token transfer that the host carries out: `amount` of token `asset`
/// from `from` to `to`.
#[derive(Clone, Copy, PartialEq, Eq, Structural, Debug)]
pub struct PremiumTransfer {
    pub asset: Address,
    pub from: Address,
    pub to: Address,
    pub amount: i128,
}

/// The premium payment of a policy: the holder pays the premium to the
/// contract, in the policy's asset.
pub open spec fn owed_transfer(holder: Address, asset: Address, premium: i128, contract: Address) -> PremiumTransfer {
    PremiumTransfer { asset, from: holder, to: contract, amount: premium }
}

pub fn premium_transfer(holder: Address, asset: Address, premium: i128, contract: Address) -> (t: PremiumTransfer)
    ensures
        t == owed_transfer(holder, asset, premium, contract),
{
    PremiumTransfer { asset, from: holder, to: contract, amount: premium }
}

/// A bound policy together with what its binding owes the host: the one
/// premium transfer and the one `PolicyInitiated` event.
#[derive(Clone, Copy, PartialEq, Eq, Structural, Debug)]
pub struct Initiation {
    pub policy: Policy,
    pub transfer: PremiumTransfer,
    pub event: PolicyInitiated,
}

/// What a successful initiation of `policy` owes the host, with `contract`
/// the contract's own address.
pub open spec fn bound_initiation(policy: Policy, contract: Address) -> Initiation {
    Initiation {
        policy,
        transfer: owed_transfer(policy.holder, policy.asset, policy.premium, contract),
        event: initiated_event(policy),
    }
}

/// Why initiation stops before a policy id is allocated, if it does: the
/// admission checks, then the request checks, then the calculator's reply.
pub open spec fn refusal_before_allocation(
    s: ContractStateView,
    asset: Address,
    age: u32,
    risk_score: u32,
    coverage: i128,
    quote: Result<PremiumQuote, Error>,
) -> Option<PolicyError> {
    if admission_error(s.paused, asset_allowed(s, asset)) is Some {
        admission_error(s.paused, asset_allowed(s, asset))
    } else if request_error(age, risk_score, coverage) is Some {
        request_error(age, risk_score, coverage)
    } else {
        match quote_premium(quote) {
            Err(e) => Some(e),
            Ok(_) => None,
        }
    }
}

/// The id that initiation allocates to `holder`: one past its counter.
pub open spec fn allocated_id(s: ContractStateView, holder: Address) -> u32 {
    (policy_count(s, holder) + 1) as u32
}

/// What initiation returns on storage `s`.
pub open spec fn initiation_result(
    s: ContractStateView,
    holder: Address,
    policy_type: PolicyType,
    region: RegionTier,
    coverage: i128,
    age: u32,
    risk_score: u32,
    asset: Address,
    quote: Result<PremiumQuote, Error>,
    current_ledger: u32,
) -> Result<Policy, PolicyError> {
    match refusal_before_allocation(s, asset, age, risk_score, coverage, quote) {
        Some(e) => Err(e),
        None => if s.policies.contains_key(PolicyKey { holder, policy_id: allocated_id(s, holder) }) {
            Err(PolicyError::DuplicatePolicyId)
        } else {
            match quote_premium(quote) {
                Ok(premium) => bound_policy(
                    holder,
                    allocated_id(s, holder),
                    policy_type,
                    region,
                    premium,
                    coverage,
                    asset,
                    current_ledger,
                ),
                Err(e) => Err(e),
            }
        },
    }
}

/// The storage that initiation leaves behind on storage `s`: unchanged when
/// refused before allocation; with the allocated id when refused after it;
/// with the policy stored, the holder registered as a voter and its active
/// policies counted up by one when it succeeds.
pub open spec fn initiation_state(
    s: ContractStateView,
    holder: Address,
    policy_type: PolicyType,
    region: RegionTier,
    coverage: i128,
    age: u32,
    risk_score: u32,
    asset: Address,
    quote: Result<PremiumQuote, Error>,
    current_ledger: u32,
) -> ContractStateView {
    if refusal_before_allocation(s, asset, age, risk_score, coverage, quote) is Some {
        s
    } else {
        match initiation_result(
            s,
            holder,
            policy_type,
            region,
            coverage,
            age,
            risk_score,
            asset,
            quote,
            current_ledger,
        ) {
            Err(_) => with_next_policy_id(s, holder),
            Ok(policy) => with_voter_added(with_policy(with_next_policy_id(s, holder), policy), holder),
        }
    }
}

/// Turns an accepted quote into an enforceable policy.
///
/// # Asset
/// `asset` must be on the admin-controlled allowlist at call time.
///
/// # Flow
/// 1. Check contract is not paused.
/// 2. Validate asset is allowlisted.
/// 3. Validate inputs (age, risk_score, coverage).
/// 4. Take the premium from `quote`, the premium calculator's reply to
///    `premium_request(region, age, risk_score, coverage)`.
/// 5. Allocate a unique per-holder `policy_id`.
/// 6. Build the `Policy` with `is_active = true`, bound to `asset` (used for
///    both premium payment and claim payouts), running from
///    `current_ledger` (the ledger sequence at binding) for
///    `POLICY_DURATION_LEDGERS` ledgers, and check it.
/// 7. Persist the policy and update the voter registry.
///
/// A successful initiation owes the host exactly one premium transfer, of
/// the premium from the holder to `contract` (the contract's own address) in
/// `asset`, made between steps 5 and 6, and exactly one `PolicyInitiated`
/// event for the policy, published after step 7; both come back in the
/// `Initiation`. A refused one owes nothing: the host rolls back every
/// effect of a call that fails. The holder's authorization (between steps 2
/// and 3) is the host's part.
pub fn initiate_policy(
    state: &mut ContractState,
    holder: Address,
    policy_type: PolicyType,
    region: RegionTier,
    coverage: i128,
    age: u32,
    risk_score: u32,
    asset: Address,
    quote: Result<PremiumQuote, Error>,
    current_ledger: u32,
    contract: Address,
) -> (r: Result<Initiation, PolicyError>)
    requires
        refusal_before_allocation(old(state)@, asset, age, risk_score, coverage, quote) is None
            ==> policy_count(old(state)@, holder) < u32::MAX,
        initiation_result(
            old(state)@,
            holder,
            policy_type,
            region,
            coverage,
            age,
            risk_score,
            asset,
            quote,
            current_ledger,
        ) is Ok ==> active_count(old(state)@, holder) < u32::MAX,
    ensures
        r == match initiation_result(
            old(state)@,
            holder,
            policy_type,
            region,
            coverage,
            age,
            risk_score,
            asset,
            quote,
            current_ledger,
        ) {
            Ok(policy) => Ok::<Initiation, PolicyError>(bound_initiation(policy, contract)),
            Err(e) => Err(e),
        },
        final(state)@ == initiation_state(
            old(state)@,
            holder,
            policy_type,
            region,
            coverage,
            age,
            risk_score,
            asset,
            quote,
            current_ledger,
        ),
{
    let ghost s = state@;
    let ghost q = quote;
    let paused = is_paused(state);
    let allowed = is_allowed_asset(state, &asset);
    match check_admission(paused, allowed) {
        Err(e) => {
            return Err(e);
        },
        Ok(()) => {},
    }
    match check_policy_request(age, risk_score, coverage) {
        Err(e) => {
            return Err(e);
        },
        Ok(()) => {},
    }
    let premium_amount = match accept_quote(quote) {
        Err(e) => {
            return Err(e);
        },
        Ok(p) => p,
    };
    let policy_id = next_policy_id(state, &holder);
    assert(state@ == with_next_policy_id(s, holder));
    if has_policy(state, &holder, policy_id) {
        return Err(PolicyError::DuplicatePolicyId);
    }
    let transfer = premium_transfer(holder, asset, premium_amount, contract);
    let policy = match build_policy(
        holder,
        policy_id,
        policy_type,
        region,
        premium_amount,
        coverage,
        asset,
        current_ledger,
    ) {
        Err(e) => {
            return Err(e);
        },
        Ok(p) => p,
    };
    set_policy(state, &policy);
    add_voter(state, &holder);
    let event = policy_initiated(&policy);
    Ok(Initiation { policy, transfer, event })
}

// ── Laws ──────────────────────────────────────────────────────────────────────
/// Initiation is admitted exactly on an unpaused contract with an
/// allowlisted asset; a paused contract refuses as paused whatever the asset,
/// an unpaused one with an asset off the allowlist as such.
pub proof fn lemma_admission_iff_open_and_allowed(paused: bool, asset_allowed: bool)
    ensures
        admission_error(paused, asset_allowed) is None <==> (!paused && asset_allowed),
        paused ==> admission_error(paused, asset_allowed) == Some(PolicyError::ContractPaused),
        !paused && !asset_allowed ==> admission_error(paused, asset_allowed) == Some(
            PolicyError::AssetNotAllowed,
        ),
{
}

/// What a bound policy owes the host: the holder pays exactly the policy's
/// premium to the contract in the policy's asset, and the event announces
/// the policy under schema version 1 with the holder, id, premium, asset,
/// type, region, coverage and ledger window of the policy.
pub proof fn lemma_initiation_owes_payment_and_announcement(policy: Policy, contract: Address)
    ensures
        ({
            let i = bound_initiation(policy, contract);
            &&& i.policy == policy
            &&& i.transfer.from == policy.holder
            &&& i.transfer.to == contract
            &&& i.transfer.asset == policy.asset
            &&& i.transfer.amount == policy.premium
            &&& i.event.version == 1
            &&& i.event.holder == policy.holder
            &&& i.event.policy_id == policy.policy_id
            &&& i.event.premium == policy.premium
            &&& i.event.asset == policy.asset
            &&& i.event.policy_type == policy.policy_type
            &&& i.event.region == policy.region
            &&& i.event.coverage == policy.coverage
            &&& i.event.start_ledger == policy.start_ledger
            &&& i.event.end_ledger == policy.end_ledger
        }),
{
}

/// A holder's request is valid exactly when the age lies in `1..=120`, the
/// risk score in `1..=10` and the coverage is positive; an invalid one is
/// refused for its age first, then its risk score, then its coverage.
pub proof fn lemma_request_valid_iff_in_range(age: u32, risk_score: u32, coverage: i128)
    ensures
        request_error(age, risk_score, coverage) is None <==> (1 <= age <= 120 && 1 <= risk_score
            <= 10 && coverage > 0),
        (age < 1 || age > 120) ==> request_error(age, risk_score, coverage) == Some(
            PolicyError::InvalidAge,
        ),
        1 <= age <= 120 && (risk_score < 1 || risk_score > 10) ==> request_error(
            age,
            risk_score,
            coverage,
        ) == Some(PolicyError::InvalidRiskScore),
        1 <= age <= 120 && 1 <= risk_score <= 10 && coverage <= 0 ==> request_error(
            age,
            risk_score,
            coverage,
        ) == Some(PolicyError::InvalidCoverage),
{
}

/// A quote request is priced exactly when its safety score is at most
/// `SAFETY_SCORE_MAX` and its base amount is positive.
pub proof fn lemma_quote_request_priced_iff_valid(input: RiskInput, base_amount: i128)
    ensures
        quote_request_error(input, base_amount) is None <==> (input.safety_score
            <= SAFETY_SCORE_MAX && base_amount > 0),
        input.safety_score > SAFETY_SCORE_MAX ==> quote_request_error(input, base_amount) == Some(
            Error::SafetyScoreOutOfRange,
        ),
        input.safety_score <= SAFETY_SCORE_MAX && base_amount <= 0 ==> quote_request_error(
            input,
            base_amount,
        ) == Some(Error::InvalidBaseAmount),
{
    crate::validate::lemma_risk_input_accepted_iff_score_in_range(input);
}

/// The calculator is asked to price the holder's own region, the age band of
/// the holder's age, the coverage type of its risk score and no safety
/// score, on a tenth of the coverage (rounded down) as base amount.
pub proof fn lemma_premium_request_carries_the_request(
    region: RegionTier,
    age: u32,
    risk_score: u32,
    coverage: i128,
)
    requires
        coverage > 0,
    ensures
        ({
            let (input, base) = spec_premium_request(region, age, risk_score, coverage);
            &&& input.region == region
            &&& input.safety_score == 0
            &&& (age < 30 ==> input.age_band == AgeBand::Young)
            &&& (30 <= age < 60 ==> input.age_band == AgeBand::Adult)
            &&& (60 <= age ==> input.age_band == AgeBand::Senior)
            &&& (risk_score <= 3 ==> input.coverage == CoverageType::Basic)
            &&& (3 < risk_score <= 7 ==> input.coverage == CoverageType::Standard)
            &&& (7 < risk_score ==> input.coverage == CoverageType::Premium)
            &&& 0 <= 10 * base <= coverage < 10 * base + 10
        }),
{
}

/// The calculator's reply sets the premium: a positive total is taken as it
/// is, a non-positive one is refused as an invalid premium, a paused
/// calculator refuses as a paused contract, and every other calculator
/// failure as a premium overflow.
pub proof fn lemma_quote_premium_follows_reply(quote: Result<PremiumQuote, Error>)
    ensures
        quote matches Ok(q) ==> (q.total_premium > 0 ==> quote_premium(quote) == Ok::<
            i128,
            PolicyError,
        >(q.total_premium)),
        quote matches Ok(q) ==> (q.total_premium <= 0 ==> quote_premium(quote) == Err::<
            i128,
            PolicyError,
        >(PolicyError::InvalidPremium)),
        quote == Err::<PremiumQuote, Error>(Error::CalculatorPaused) ==> quote_premium(quote)
            == Err::<i128, PolicyError>(PolicyError::ContractPaused),
        quote matches Err(e) ==> (e != Error::CalculatorPaused ==> quote_premium(quote)
            == Err::<i128, PolicyError>(PolicyError::PremiumOverflow)),
        quote_premium(quote) matches Ok(p) ==> p > 0,
{
}

/// Every admissible request is bound: on an unpaused contract with an
/// allowlisted asset, a request with age in `1..=120`, risk score in `1..=10`
/// and positive coverage, a positive calculator quote, a free next id and a
/// policy end that fits the ledger sequence yields the active policy of the
/// holder with the next id, the requested terms, the quoted premium and the
/// asset, running from the current ledger for `POLICY_DURATION_LEDGERS`.
pub proof fn lemma_admissible_request_is_bound(
    s: ContractStateView,
    holder: Address,
    policy_type: PolicyType,
    region: RegionTier,
    coverage: i128,
    age: u32,
    risk_score: u32,
    asset: Address,
    quote: Result<PremiumQuote, Error>,
    current_ledger: u32,
)
    requires
        !s.paused,
        asset_allowed(s, asset),
        1 <= age <= 120,
        1 <= risk_score <= 10,
        coverage > 0,
        quote matches Ok(q) && q.total_premium > 0,
        policy_count(s, holder) < u32::MAX,
        policy_at(s, holder, (policy_count(s, holder) + 1) as u32) is None,
        current_ledger + POLICY_DURATION_LEDGERS <= u32::MAX,
    ensures
        initiation_result(
            s,
            holder,
            policy_type,
            region,
            coverage,
            age,
            risk_score,
            asset,
            quote,
            current_ledger,
        ) == Ok::<Policy, PolicyError>(
            Policy {
                holder,
                policy_id: (policy_count(s, holder) + 1) as u32,
                policy_type,
                region,
                premium: quote->Ok_0.total_premium,
                coverage,
                is_active: true,
                start_ledger: current_ledger,
                end_ledger: (current_ledger + POLICY_DURATION_LEDGERS) as u32,
                asset,
            },
        ),
{
    lemma_request_valid_iff_in_range(age, risk_score, coverage);
    lemma_quote_premium_follows_reply(quote);
    let p = Policy {
        holder,
        policy_id: (policy_count(s, holder) + 1) as u32,
        policy_type,
        region,
        premium: quote->Ok_0.total_premium,
        coverage,
        is_active: true,
        start_ledger: current_ledger,
        end_ledger: (current_ledger + POLICY_DURATION_LEDGERS) as u32,
        asset,
    };
    crate::validate::lemma_policy_accepted_iff_sound(p);
}

/// A paused contract refuses every initiation with `ContractPaused` and
/// leaves its storage as it is.
pub proof fn lemma_paused_contract_refuses(
    s: ContractStateView,
    holder: Address,
    policy_type: PolicyType,
    region: RegionTier,
    coverage: i128,
    age: u32,
    risk_score: u32,
    asset: Address,
    quote: Result<PremiumQuote, Error>,
    current_ledger: u32,
)
    requires
        s.paused,
    ensures
        initiation_result(s, holder, policy_type, region, coverage, age, risk_score, asset, quote, current_ledger) == Err::<Policy, PolicyError>(PolicyError::ContractPaused),
        initiation_state(s, holder, policy_type, region, coverage, age, risk_score, asset, quote, current_ledger) == s,
{
}

/// An initiation refused before a policy id is allocated (paused contract,
/// asset off the allowlist, invalid request, calculator failure or
/// non-positive premium) reports that refusal and leaves storage as it is.
pub proof fn lemma_refusal_keeps_storage(
    s: ContractStateView,
    holder: Address,
    policy_type: PolicyType,
    region: RegionTier,
    coverage: i128,
    age: u32,
    risk_score: u32,
    asset: Address,
    quote: Result<PremiumQuote, Error>,
    current_ledger: u32,
)
    requires
        refusal_before_allocation(s, asset, age, risk_score, coverage, quote) is Some,
    ensures
        initiation_result(s, holder, policy_type, region, coverage, age, risk_score, asset, quote, current_ledger) == Err::<Policy, PolicyError>(
            refusal_before_allocation(s, asset, age, risk_score, coverage, quote)->0,
        ),
        initiation_state(s, holder, policy_type, region, coverage, age, risk_score, asset, quote, current_ledger) == s,
{
}

/// A successful initiation binds a fresh, active policy: it belongs to the
/// holder, carries the next id of the holder's counter (so no stored policy
/// is overwritten), the requested type, region, coverage and asset and the
/// calculator's positive premium, and runs from the current ledger for
/// `POLICY_DURATION_LEDGERS` ledgers. Afterwards the policy can be read back
/// under (holder, id), the holder is a registered voter and has one more
/// active policy counted. Only an unpaused contract, an allowlisted asset and
/// a valid request get this far. (The holder's counters are below
/// `u32::MAX`, as `initiate_policy` requires of a request that gets this far.)
pub proof fn lemma_initiation_success(
    s: ContractStateView,
    holder: Address,
    policy_type: PolicyType,
    region: RegionTier,
    coverage: i128,
    age: u32,
    risk_score: u32,
    asset: Address,
    quote: Result<PremiumQuote, Error>,
    current_ledger: u32,
)
    requires
        policy_count(s, holder) < u32::MAX,
        active_count(s, holder) < u32::MAX,
        initiation_result(s, holder, policy_type, region, coverage, age, risk_score, asset, quote, current_ledger) is Ok,
    ensures
        match initiation_result(s, holder, policy_type, region, coverage, age, risk_score, asset, quote, current_ledger) {
            Ok(p) => {
                let t = initiation_state(s, holder, policy_type, region, coverage, age, risk_score, asset, quote, current_ledger);
                &&& !s.paused
                &&& asset_allowed(s, asset)
                &&& request_error(age, risk_score, coverage) is None
                &&& p.holder == holder
                &&& p.policy_id == policy_count(s, holder) + 1
                &&& policy_at(s, holder, p.policy_id) is None
                &&& p.policy_type == policy_type
                &&& p.region == region
                &&& p.coverage == coverage && coverage > 0
                &&& p.asset == asset
                &&& quote matches Ok(q) && p.premium == q.total_premium && p.premium > 0
                &&& p.is_active
                &&& p.start_ledger == current_ledger
                &&& p.end_ledger == current_ledger + POLICY_DURATION_LEDGERS
                &&& policy_at(t, holder, p.policy_id) == Some(p)
                &&& policy_count(t, holder) == p.policy_id
                &&& t.voters.contains(holder)
                &&& active_count(t, holder) == active_count(s, holder) + 1
            },
            Err(_) => false,
        },
{
    lemma_registry_with(s.voters, holder, holder);
}

/// Initiation concerns the holder alone: every other holder's policies,
/// policy counter and active-policy count are as they were, and so are the
/// records that initiation never writes (claims, votes, electorates, the
/// allowlist and the instance settings).
pub proof fn lemma_initiation_touches_only_holder(
    s: ContractStateView,
    holder: Address,
    policy_type: PolicyType,
    region: RegionTier,
    coverage: i128,
    age: u32,
    risk_score: u32,
    asset: Address,
    quote: Result<PremiumQuote, Error>,
    current_ledger: u32,
    other: Address,
    policy_id: u32,
)
    requires
        other != holder,
    ensures
        ({
            let t = initiation_state(s, holder, policy_type, region, coverage, age, risk_score, asset, quote, current_ledger);
            &&& policy_at(t, other, policy_id) == policy_at(s, other, policy_id)
            &&& policy_count(t, other) == policy_count(s, other)
            &&& active_count(t, other) == active_count(s, other)
            &&& t.claims == s.claims
            &&& t.votes == s.votes
            &&& t.claim_voters == s.claim_voters
            &&& t.allowed_assets == s.allowed_assets
            &&& t.last_claim_ledger == s.last_claim_ledger
            &&& t.admin == s.admin && t.pending_admin == s.pending_admin && t.token == s.token
            &&& t.calc_address == s.calc_address && t.premium_table == s.premium_table
            &&& t.paused == s.paused && t.claim_counter == s.claim_counter
        }),
{
}

/// One request to bind a policy for a holder: what the holder asks for, the
/// calculator's reply and the ledger sequence at binding.
pub struct InitiationRequest {
    pub policy_type: PolicyType,
    pub region: RegionTier,
    pub coverage: i128,
    pub age: u32,
    pub risk_score: u32,
    pub asset: Address,
    pub quote: Result<PremiumQuote, Error>,
    pub current_ledger: u32,
}

/// What initiating `request` for `holder` on storage `s` returns.
pub open spec fn request_result(s: ContractStateView, holder: Address, request: InitiationRequest) -> Result<Policy, PolicyError> {
    initiation_result(
        s,
        holder,
        request.policy_type,
        request.region,
        request.coverage,
        request.age,
        request.risk_score,
        request.asset,
        request.quote,
        request.current_ledger,
    )
}

/// The storage that initiating `request` for `holder` on storage `s` leaves.
pub open spec fn request_state(s: ContractStateView, holder: Address, request: InitiationRequest) -> ContractStateView {
    initiation_state(
        s,
        holder,
        request.policy_type,
        request.region,
        request.coverage,
        request.age,
        request.risk_score,
        request.asset,
        request.quote,
        request.current_ledger,
    )
}

/// Policy ids are unique per holder: two successful initiations for one
/// holder get ids one apart (the first at least 1), and the second leaves the
/// first policy in place. Between the two, other holders may initiate
/// policies: `between` is any storage that agrees with the storage after the
/// first initiation on the holder's counter and first policy, as every
/// initiation for another holder does (`lemma_initiation_touches_only_holder`).
pub proof fn lemma_successive_initiations(
    s: ContractStateView,
    holder: Address,
    first: InitiationRequest,
    between: ContractStateView,
    second: InitiationRequest,
)
    requires
        policy_count(s, holder) < u32::MAX,
        active_count(s, holder) < u32::MAX,
        request_result(s, holder, first) is Ok,
        policy_count(between, holder) == policy_count(request_state(s, holder, first), holder),
        policy_at(between, holder, request_result(s, holder, first)->Ok_0.policy_id) == policy_at(
            request_state(s, holder, first),
            holder,
            request_result(s, holder, first)->Ok_0.policy_id,
        ),
        policy_count(between, holder) < u32::MAX,
        active_count(between, holder) < u32::MAX,
        request_result(between, holder, second) is Ok,
    ensures
        match (request_result(s, holder, first), request_result(between, holder, second)) {
            (Ok(p1), Ok(p2)) => {
                &&& p1.policy_id >= 1
                &&& p2.policy_id == p1.policy_id + 1
                &&& policy_at(request_state(between, holder, second), holder, p1.policy_id) == Some(p1)
                &&& policy_at(request_state(between, holder, second), holder, p2.policy_id) == Some(p2)
            },
            _ => false,
        },
{
    lemma_initiation_success(
        s,
        holder,
        first.policy_type,
        first.region,
        first.coverage,
        first.age,
        first.risk_score,
        first.asset,
        first.quote,
        first.current_ledger,
    );
    lemma_initiation_success(
        between,
        holder,
        second.policy_type,
        second.region,
        second.coverage,
        second.age,
        second.risk_score,
        second.asset,
        second.quote,
        second.current_ledger,
    );
}

/// The rank of an age band, youngest first.
pub open spec fn age_band_rank(b: AgeBand) -> int {
    match b {
        AgeBand::Young => 0,
        AgeBand::Adult => 1,
        AgeBand::Senior => 2,
    }
}

/// The rank of a coverage type, most basic first.
pub open spec fn coverage_rank(c: CoverageType) -> int {
    match c {
        CoverageType::Basic => 0,
        CoverageType::Standard => 1,
        CoverageType::Premium => 2,
    }
}

/// Age bands and coverage types grow with age and risk score: an older
/// holder never falls in a younger band, a riskier one is never priced with
/// a more basic coverage type.
pub proof fn lemma_bands_are_monotone(age1: u32, age2: u32, score1: u32, score2: u32)
    ensures
        age1 <= age2 ==> age_band_rank(spec_age_to_band(age1)) <= age_band_rank(
            spec_age_to_band(age2),
        ),
        score1 <= score2 ==> coverage_rank(spec_risk_score_to_coverage(score1)) <= coverage_rank(
            spec_risk_score_to_coverage(score2),
        ),
{
}

/// Distinct policy errors are reported under distinct codes.
pub proof fn lemma_policy_error_codes_distinct(a: PolicyError, b: PolicyError)
    requires
        a != b,
    ensures
        a.spec_code() != b.spec_code(),
{
}

} // verus!
