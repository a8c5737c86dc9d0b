use niffyinsure::policy::{
    age_to_band, map_quote_error, risk_score_to_coverage, PolicyError, QuoteError,
};
use niffyinsure::types::{
    Address, AddressKind, AgeBand, Claim, ClaimStatus, CoverageType, Policy, PolicyType,
    RegionTier, RiskInput,
};
use niffyinsure::validate::{check_policy, check_risk_input, Error};

fn account(n: u128) -> Address {
    Address { kind: AddressKind::Account, hi: n, lo: n * 7 + 1 }
}

#[test]
fn claim_status_terminality() {
    assert!(!ClaimStatus::Processing.is_terminal());
    assert!(ClaimStatus::Approved.is_terminal());
    assert!(ClaimStatus::Paid.is_terminal());
    assert!(ClaimStatus::Rejected.is_terminal());
}

#[test]
fn age_bands_at_their_edges() {
    assert_eq!(age_to_band(1), AgeBand::Young);
    assert_eq!(age_to_band(29), AgeBand::Young);
    assert_eq!(age_to_band(30), AgeBand::Adult);
    assert_eq!(age_to_band(59), AgeBand::Adult);
    assert_eq!(age_to_band(60), AgeBand::Senior);
    assert_eq!(age_to_band(120), AgeBand::Senior);
}

#[test]
fn coverage_types_at_their_edges() {
    assert_eq!(risk_score_to_coverage(1), CoverageType::Basic);
    assert_eq!(risk_score_to_coverage(3), CoverageType::Basic);
    assert_eq!(risk_score_to_coverage(4), CoverageType::Standard);
    assert_eq!(risk_score_to_coverage(7), CoverageType::Standard);
    assert_eq!(risk_score_to_coverage(8), CoverageType::Premium);
    assert_eq!(risk_score_to_coverage(10), CoverageType::Premium);
}

#[test]
fn bands_never_decrease_with_age_or_risk() {
    fn rank_band(b: AgeBand) -> u8 {
        match b {
            AgeBand::Young => 0,
            AgeBand::Adult => 1,
            AgeBand::Senior => 2,
        }
    }
    fn rank_cov(c: CoverageType) -> u8 {
        match c {
            CoverageType::Basic => 0,
            CoverageType::Standard => 1,
            CoverageType::Premium => 2,
        }
    }
    for a in 0..130u32 {
        assert!(rank_band(age_to_band(a)) <= rank_band(age_to_band(a + 1)));
    }
    for r in 0..12u32 {
        assert!(rank_cov(risk_score_to_coverage(r)) <= rank_cov(risk_score_to_coverage(r + 1)));
    }
}

#[test]
fn safety_score_limit() {
    let mut input = RiskInput {
        region: RegionTier::Low,
        age_band: AgeBand::Adult,
        coverage: CoverageType::Basic,
        safety_score: 100,
    };
    assert_eq!(check_risk_input(&input), Ok(()));
    input.safety_score = 0;
    assert_eq!(check_risk_input(&input), Ok(()));
    input.safety_score = 101;
    assert_eq!(check_risk_input(&input), Err(Error::SafetyScoreOutOfRange));
}

fn sample_policy() -> Policy {
    Policy {
        holder: account(1),
        policy_id: 1,
        policy_type: PolicyType::Health,
        region: RegionTier::High,
        premium: 50,
        coverage: 1_000,
        is_active: true,
        start_ledger: 10,
        end_ledger: 20,
        asset: Address { kind: AddressKind::Contract, hi: 5, lo: 6 },
    }
}

#[test]
fn policy_record_checks() {
    let p = sample_policy();
    assert_eq!(check_policy(&p), Ok(()));
    assert_eq!(check_policy(&Policy { coverage: 0, ..p }), Err(Error::ZeroCoverage));
    assert_eq!(check_policy(&Policy { premium: -1, ..p }), Err(Error::ZeroPremium));
    assert_eq!(check_policy(&Policy { end_ledger: 10, ..p }), Err(Error::InvalidLedgerWindow));
    assert_eq!(check_policy(&Policy { coverage: 0, premium: 0, ..p }), Err(Error::ZeroCoverage));
}

const ALL_ERRORS: [Error; 39] = [
    Error::InvalidBaseAmount,
    Error::SafetyScoreOutOfRange,
    Error::InvalidConfigVersion,
    Error::MissingRegionMultiplier,
    Error::MissingAgeMultiplier,
    Error::MissingCoverageMultiplier,
    Error::RegionMultiplierOutOfBounds,
    Error::AgeMultiplierOutOfBounds,
    Error::CoverageMultiplierOutOfBounds,
    Error::SafetyDiscountOutOfBounds,
    Error::Overflow,
    Error::DivideByZero,
    Error::InvalidQuoteTtl,
    Error::NegativePremiumNotSupported,
    Error::ClaimNotFound,
    Error::InvalidAsset,
    Error::InsufficientTreasury,
    Error::AlreadyPaid,
    Error::ClaimNotApproved,
    Error::ZeroCoverage,
    Error::ZeroPremium,
    Error::InvalidLedgerWindow,
    Error::PolicyExpired,
    Error::PolicyInactive,
    Error::ClaimAmountZero,
    Error::ClaimExceedsCoverage,
    Error::DetailsTooLong,
    Error::TooManyImageUrls,
    Error::ImageUrlTooLong,
    Error::ReasonTooLong,
    Error::ClaimAlreadyTerminal,
    Error::DuplicateVote,
    Error::CalculatorNotSet,
    Error::CalculatorCallFailed,
    Error::CalculatorPaused,
    Error::VotingWindowClosed,
    Error::VotingWindowStillOpen,
    Error::NotEligibleVoter,
    Error::RateLimitExceeded,
];

#[test]
fn error_codes_are_distinct() {
    for (i, a) in ALL_ERRORS.iter().enumerate() {
        assert_eq!(a.code(), i as u32 + 1);
        for b in ALL_ERRORS.iter().skip(i + 1) {
            assert_ne!(a.code(), b.code());
        }
    }
}

#[test]
fn quote_failure_messages() {
    let f = map_quote_error(Error::InvalidBaseAmount);
    assert_eq!(f.code, 1);
    assert_eq!(f.message, "invalid base amount: expected > 0");
    let f = map_quote_error(Error::SafetyScoreOutOfRange);
    assert_eq!(f.code, 2);
    assert_eq!(f.message, "invalid safety_score: expected 0..=100");
    let f = map_quote_error(Error::CoverageMultiplierOutOfBounds);
    assert_eq!(f.message, "coverage multiplier out of bounds: expected 0.5000x..=5.0000x");
    let f = map_quote_error(Error::RateLimitExceeded);
    assert_eq!(f.code, 39);
    assert_eq!(f.message, "claim rate-limit: wait before filing another claim");
    for e in ALL_ERRORS.iter() {
        let f = map_quote_error(*e);
        assert_eq!(f.code, e.code());
        assert!(!f.message.is_empty());
    }
}

#[test]
fn policy_and_quote_error_codes() {
    assert_eq!(QuoteError::InvalidAge.code(), 1);
    assert_eq!(QuoteError::InvalidRiskScore.code(), 2);
    assert_eq!(QuoteError::InvalidQuoteTtl.code(), 3);
    assert_eq!(QuoteError::ArithmeticOverflow.code(), 4);
    let all = [
        PolicyError::ContractPaused,
        PolicyError::DuplicatePolicyId,
        PolicyError::InvalidCoverage,
        PolicyError::InvalidPremium,
        PolicyError::PremiumOverflow,
        PolicyError::LedgerOverflow,
        PolicyError::PolicyValidation,
        PolicyError::Unauthorized,
        PolicyError::InvalidAge,
        PolicyError::InvalidRiskScore,
        PolicyError::AssetNotAllowed,
    ];
    for (i, e) in all.iter().enumerate() {
        assert_eq!(e.code(), 100 + i as u32);
    }
}

#[test]
fn claim_clone_keeps_every_field() {
    let c = Claim {
        claim_id: 9,
        policy_id: 2,
        claimant: account(3),
        amount: 400,
        details: String::from("hail damage"),
        image_urls: vec![String::from("https://a/1.png"), String::from("https://a/2.png")],
        status: ClaimStatus::Processing,
        approve_votes: 1,
        reject_votes: 2,
        filed_at: 77,
    };
    let d = c.clone();
    assert_eq!(d.claim_id, 9);
    assert_eq!(d.claimant, account(3));
    assert_eq!(d.details, "hail damage");
    assert_eq!(d.image_urls, c.image_urls);
    assert_eq!(d.status, ClaimStatus::Processing);
    assert_eq!((d.approve_votes, d.reject_votes, d.filed_at), (1, 2, 77));
}

#[test]
fn quote_failure_messages_are_distinct() {
    for (i, a) in ALL_ERRORS.iter().enumerate() {
        for b in ALL_ERRORS.iter().skip(i + 1) {
            assert_ne!(map_quote_error(*a).message, map_quote_error(*b).message);
        }
    }
}
