use vstd::prelude::*;
use crate::types::{Policy, RiskInput, SAFETY_SCORE_MAX};

verus! {

/// Errors of validation, pricing and claim handling, shared by the contract's
/// modules.
#[derive(Clone, Copy, PartialEq, Eq, Structural, Debug)]
pub enum Error {
    InvalidBaseAmount,
    SafetyScoreOutOfRange,
    InvalidConfigVersion,
    MissingRegionMultiplier,
    MissingAgeMultiplier,
    MissingCoverageMultiplier,
    RegionMultiplierOutOfBounds,
    AgeMultiplierOutOfBounds,
    CoverageMultiplierOutOfBounds,
    SafetyDiscountOutOfBounds,
    Overflow,
    DivideByZero,
    InvalidQuoteTtl,
    NegativePremiumNotSupported,
    ClaimNotFound,
    InvalidAsset,
    InsufficientTreasury,
    AlreadyPaid,
    ClaimNotApproved,
    ZeroCoverage,
    ZeroPremium,
    InvalidLedgerWindow,
    PolicyExpired,
    PolicyInactive,
    ClaimAmountZero,
    ClaimExceedsCoverage,
    DetailsTooLong,
    TooManyImageUrls,
    ImageUrlTooLong,
    ReasonTooLong,
    ClaimAlreadyTerminal,
    DuplicateVote,
    CalculatorNotSet,
    CalculatorCallFailed,
    CalculatorPaused,
    VotingWindowClosed,
    VotingWindowStillOpen,
    NotEligibleVoter,
    RateLimitExceeded,
}

impl Error {
    /// The number under which the contract reports this error, numbering the
    /// variants from 1 in the order in which they are declared.
    pub open spec fn spec_code(self) -> u32 {
        match self {
            Error::InvalidBaseAmount => 1,
            Error::SafetyScoreOutOfRange => 2,
            Error::InvalidConfigVersion => 3,
            Error::MissingRegionMultiplier => 4,
            Error::MissingAgeMultiplier => 5,
            Error::MissingCoverageMultiplier => 6,
            Error::RegionMultiplierOutOfBounds => 7,
            Error::AgeMultiplierOutOfBounds => 8,
            Error::CoverageMultiplierOutOfBounds => 9,
            Error::SafetyDiscountOutOfBounds => 10,
            Error::Overflow => 11,
            Error::DivideByZero => 12,
            Error::InvalidQuoteTtl => 13,
            Error::NegativePremiumNotSupported => 14,
            Error::ClaimNotFound => 15,
            Error::InvalidAsset => 16,
            Error::InsufficientTreasury => 17,
            Error::AlreadyPaid => 18,
            Error::ClaimNotApproved => 19,
            Error::ZeroCoverage => 20,
            Error::ZeroPremium => 21,
            Error::InvalidLedgerWindow => 22,
            Error::PolicyExpired => 23,
            Error::PolicyInactive => 24,
            Error::ClaimAmountZero => 25,
            Error::ClaimExceedsCoverage => 26,
            Error::DetailsTooLong => 27,
            Error::TooManyImageUrls => 28,
            Error::ImageUrlTooLong => 29,
            Error::ReasonTooLong => 30,
            Error::ClaimAlreadyTerminal => 31,
            Error::DuplicateVote => 32,
            Error::CalculatorNotSet => 33,
            Error::CalculatorCallFailed => 34,
            Error::CalculatorPaused => 35,
            Error::VotingWindowClosed => 36,
            Error::VotingWindowStillOpen => 37,
            Error::NotEligibleVoter => 38,
            Error::RateLimitExceeded => 39,
        }
    }

    pub fn code(&self) -> (c: u32)
        ensures
            c == self.spec_code(),
    {
        match self {
            Error::InvalidBaseAmount => 1,
            Error::SafetyScoreOutOfRange => 2,
            Error::InvalidConfigVersion => 3,
            Error::MissingRegionMultiplier => 4,
            Error::MissingAgeMultiplier => 5,
            Error::MissingCoverageMultiplier => 6,
            Error::RegionMultiplierOutOfBounds => 7,
            Error::AgeMultiplierOutOfBounds => 8,
            Error::CoverageMultiplierOutOfBounds => 9,
            Error::SafetyDiscountOutOfBounds => 10,
            Error::Overflow => 11,
            Error::DivideByZero => 12,
            Error::InvalidQuoteTtl => 13,
            Error::NegativePremiumNotSupported => 14,
            Error::ClaimNotFound => 15,
            Error::InvalidAsset => 16,
            Error::InsufficientTreasury => 17,
            Error::AlreadyPaid => 18,
            Error::ClaimNotApproved => 19,
            Error::ZeroCoverage => 20,
            Error::ZeroPremium => 21,
            Error::InvalidLedgerWindow => 22,
            Error::PolicyExpired => 23,
            Error::PolicyInactive => 24,
            Error::ClaimAmountZero => 25,
            Error::ClaimExceedsCoverage => 26,
            Error::DetailsTooLong => 27,
            Error::TooManyImageUrls => 28,
            Error::ImageUrlTooLong => 29,
            Error::ReasonTooLong => 30,
            Error::ClaimAlreadyTerminal => 31,
            Error::DuplicateVote => 32,
            Error::CalculatorNotSet => 33,
            Error::CalculatorCallFailed => 34,
            Error::CalculatorPaused => 35,
            Error::VotingWindowClosed => 36,
            Error::VotingWindowStillOpen => 37,
            Error::NotEligibleVoter => 38,
            Error::RateLimitExceeded => 39,
        }
    }
}

/// Distinct errors are reported under distinct codes.
pub proof fn lemma_error_codes_distinct(a: Error, b: Error)
    requires
        a != b,
    ensures
        a.spec_code() != b.spec_code(),
{
}

/// The risk input is priced only with a safety score in `0..=SAFETY_SCORE_MAX`.
pub open spec fn risk_input_error(input: RiskInput) -> Option<Error> {
    if input.safety_score > SAFETY_SCORE_MAX {
        Some(Error::SafetyScoreOutOfRange)
    } else {
        None
    }
}

pub fn check_risk_input(input: &RiskInput) -> (r: Result<(), Error>)
    ensures
        match risk_input_error(*input) {
            Some(e) => r == Err::<(), Error>(e),
            None => r is Ok,
        },
{
    if input.safety_score > SAFETY_SCORE_MAX {
        Err(Error::SafetyScoreOutOfRange)
    } else {
        Ok(())
    }
}

/// A policy record is sound when it covers and costs a positive amount and
/// ends after it starts; the first violated condition names the error.
pub open spec fn policy_error(policy: Policy) -> Option<Error> {
    if policy.coverage <= 0 {
        Some(Error::ZeroCoverage)
    } else if policy.premium <= 0 {
        Some(Error::ZeroPremium)
    } else if policy.end_ledger <= policy.start_ledger {
        Some(Error::InvalidLedgerWindow)
    } else {
        None
    }
}

pub fn check_policy(policy: &Policy) -> (r: Result<(), Error>)
    ensures
        match policy_error(*policy) {
            Some(e) => r == Err::<(), Error>(e),
            None => r is Ok,
        },
{
    if policy.coverage <= 0 {
        Err(Error::ZeroCoverage)
    } else if policy.premium <= 0 {
        Err(Error::ZeroPremium)
    } else if policy.end_ledger <= policy.start_ledger {
        Err(Error::InvalidLedgerWindow)
    } else {
        Ok(())
    }
}

/// A risk input is refused exactly when its safety score exceeds
/// `SAFETY_SCORE_MAX`, and then as out of range.
pub proof fn lemma_risk_input_accepted_iff_score_in_range(input: RiskInput)
    ensures
        risk_input_error(input) is None <==> input.safety_score <= SAFETY_SCORE_MAX,
        risk_input_error(input) is Some ==> risk_input_error(input) == Some(
            Error::SafetyScoreOutOfRange,
        ),
{
}

/// A policy record passes its check exactly when it covers and costs a
/// positive amount and ends after it starts; a failing record is refused with
/// the error of the first failing condition in that order.
pub proof fn lemma_policy_accepted_iff_sound(policy: Policy)
    ensures
        policy_error(policy) is None <==> (policy.coverage > 0 && policy.premium > 0
            && policy.end_ledger > policy.start_ledger),
        policy.coverage <= 0 ==> policy_error(policy) == Some(Error::ZeroCoverage),
        policy.coverage > 0 && policy.premium <= 0 ==> policy_error(policy) == Some(
            Error::ZeroPremium,
        ),
        policy.coverage > 0 && policy.premium > 0 && policy.end_ledger <= policy.start_ledger
            ==> policy_error(policy) == Some(Error::InvalidLedgerWindow),
{
}

} // verus!
