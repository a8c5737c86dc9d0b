use niffyinsure::ledger::{POLICY_DURATION_LEDGERS, QUOTE_TTL_LEDGERS};
use niffyinsure::policy::{
    accept_quote, build_policy, check_admission, check_policy_request, check_quote_request,
    generate_premium, initiate_policy, policy_initiated, premium_request, premium_transfer,
    PolicyError,
    PremiumComputation, POLICY_EVENT_VERSION,
};
use niffyinsure::storage::{
    get_active_policy_count, get_policy, get_policy_counter, get_voters, next_policy_id,
    set_allowed_asset, set_paused, set_policy, ContractState,
};
use niffyinsure::types::{
    Address, AddressKind, AgeBand, CoverageType, Policy, PolicyType, PremiumQuote,
    PremiumQuoteLineItem, RegionTier, RiskInput,
};
use niffyinsure::validate::Error;

fn account(n: u128) -> Address {
    Address { kind: AddressKind::Account, hi: n, lo: n * 7 + 1 }
}

fn asset() -> Address {
    Address { kind: AddressKind::Contract, hi: 42, lo: 43 }
}

fn quote(total: i128) -> Result<PremiumQuote, Error> {
    Ok(PremiumQuote { total_premium: total, line_items: None, valid_until_ledger: 0, config_version: 1 })
}

fn open_state() -> ContractState {
    let mut st = ContractState::new();
    set_allowed_asset(&mut st, &asset(), true);
    st
}

fn input(score: u32) -> RiskInput {
    RiskInput {
        region: RegionTier::Medium,
        age_band: AgeBand::Adult,
        coverage: CoverageType::Standard,
        safety_score: score,
    }
}

fn computation() -> PremiumComputation {
    PremiumComputation {
        total_premium: 1_234,
        config_version: 7,
        line_items: vec![
            PremiumQuoteLineItem { component: String::from("base"), factor: 10_000, amount: 1_000 },
            PremiumQuoteLineItem { component: String::from("region"), factor: 12_340, amount: 234 },
        ],
    }
}

// ── Quotes ────────────────────────────────────────────────────────────────────

#[test]
fn quote_request_checks_in_order() {
    assert_eq!(check_quote_request(&input(101), 0), Err(Error::SafetyScoreOutOfRange));
    assert_eq!(check_quote_request(&input(50), 0), Err(Error::InvalidBaseAmount));
    assert_eq!(check_quote_request(&input(50), -5), Err(Error::InvalidBaseAmount));
    assert_eq!(check_quote_request(&input(50), 1), Ok(()));
}

#[test]
fn generate_premium_with_breakdown() {
    let q = generate_premium(&input(10), 1_000, true, Ok(computation()), 500).unwrap();
    assert_eq!(q.total_premium, 1_234);
    assert_eq!(q.config_version, 7);
    assert_eq!(q.valid_until_ledger, 500 + QUOTE_TTL_LEDGERS);
    let items = q.line_items.unwrap();
    assert_eq!(items.len(), 2);
    assert_eq!(items[0].component, "base");
    assert_eq!(items[1].amount, 234);
}

#[test]
fn generate_premium_without_breakdown() {
    let q = generate_premium(&input(10), 1_000, false, Ok(computation()), 0).unwrap();
    assert_eq!(q.total_premium, 1_234);
    assert!(q.line_items.is_none());
    assert_eq!(q.valid_until_ledger, QUOTE_TTL_LEDGERS);
}

#[test]
fn generate_premium_refusals() {
    assert_eq!(
        generate_premium(&input(200), 1_000, true, Ok(computation()), 0).unwrap_err(),
        Error::SafetyScoreOutOfRange
    );
    assert_eq!(
        generate_premium(&input(10), 0, true, Ok(computation()), 0).unwrap_err(),
        Error::InvalidBaseAmount
    );
    assert_eq!(
        generate_premium(&input(10), 100, true, Err(Error::MissingAgeMultiplier), 0).unwrap_err(),
        Error::MissingAgeMultiplier
    );
    assert_eq!(
        generate_premium(&input(10), 100, false, Ok(computation()), u32::MAX - QUOTE_TTL_LEDGERS + 1)
            .unwrap_err(),
        Error::Overflow
    );
    let q = generate_premium(&input(10), 100, false, Ok(computation()), u32::MAX - QUOTE_TTL_LEDGERS)
        .unwrap();
    assert_eq!(q.valid_until_ledger, u32::MAX);
}

// ── Initiation steps ──────────────────────────────────────────────────────────

#[test]
fn admission_checks() {
    assert_eq!(check_admission(true, true), Err(PolicyError::ContractPaused));
    assert_eq!(check_admission(true, false), Err(PolicyError::ContractPaused));
    assert_eq!(check_admission(false, false), Err(PolicyError::AssetNotAllowed));
    assert_eq!(check_admission(false, true), Ok(()));
}

#[test]
fn request_checks() {
    assert_eq!(check_policy_request(0, 5, 100), Err(PolicyError::InvalidAge));
    assert_eq!(check_policy_request(121, 0, 0), Err(PolicyError::InvalidAge));
    assert_eq!(check_policy_request(120, 0, 100), Err(PolicyError::InvalidRiskScore));
    assert_eq!(check_policy_request(1, 11, 100), Err(PolicyError::InvalidRiskScore));
    assert_eq!(check_policy_request(1, 10, 0), Err(PolicyError::InvalidCoverage));
    assert_eq!(check_policy_request(1, 1, 1), Ok(()));
}

#[test]
fn premium_request_prices_a_tenth_of_coverage() {
    let (ri, base) = premium_request(RegionTier::High, 45, 9, 10_005);
    assert_eq!(ri.region, RegionTier::High);
    assert_eq!(ri.age_band, AgeBand::Adult);
    assert_eq!(ri.coverage, CoverageType::Premium);
    assert_eq!(ri.safety_score, 0);
    assert_eq!(base, 1_000);
}

#[test]
fn calculator_replies() {
    assert_eq!(accept_quote(quote(77)), Ok(77));
    assert_eq!(accept_quote(quote(0)), Err(PolicyError::InvalidPremium));
    assert_eq!(accept_quote(quote(-3)), Err(PolicyError::InvalidPremium));
    assert_eq!(accept_quote(Err(Error::CalculatorPaused)), Err(PolicyError::ContractPaused));
    assert_eq!(accept_quote(Err(Error::CalculatorCallFailed)), Err(PolicyError::PremiumOverflow));
    assert_eq!(accept_quote(Err(Error::CalculatorNotSet)), Err(PolicyError::PremiumOverflow));
    assert_eq!(accept_quote(Err(Error::Overflow)), Err(PolicyError::PremiumOverflow));
}

#[test]
fn policy_building() {
    let p = build_policy(account(1), 3, PolicyType::Auto, RegionTier::Low, 10, 100, asset(), 1_000).unwrap();
    assert_eq!(p.start_ledger, 1_000);
    assert_eq!(p.end_ledger, 1_000 + POLICY_DURATION_LEDGERS);
    assert!(p.is_active);
    assert_eq!(p.policy_id, 3);
    assert_eq!(p.asset, asset());
    assert_eq!(
        build_policy(account(1), 3, PolicyType::Auto, RegionTier::Low, 10, 100, asset(), u32::MAX),
        Err(PolicyError::LedgerOverflow)
    );
    assert_eq!(
        build_policy(account(1), 3, PolicyType::Auto, RegionTier::Low, 0, 100, asset(), 5),
        Err(PolicyError::PolicyValidation)
    );
}

#[test]
fn initiated_event_carries_the_policy() {
    let p = build_policy(account(5), 2, PolicyType::Health, RegionTier::High, 80, 900, asset(), 7).unwrap();
    let e = policy_initiated(&p);
    assert_eq!(e.version, POLICY_EVENT_VERSION);
    assert_eq!(e.holder, account(5));
    assert_eq!(e.policy_id, 2);
    assert_eq!(e.premium, 80);
    assert_eq!(e.asset, asset());
    assert_eq!(e.policy_type, PolicyType::Health);
    assert_eq!(e.region, RegionTier::High);
    assert_eq!(e.coverage, 900);
    assert_eq!((e.start_ledger, e.end_ledger), (7, 7 + POLICY_DURATION_LEDGERS));
}

// ── Initiation ────────────────────────────────────────────────────────────────

fn initiate(
    st: &mut ContractState,
    holder: Address,
    coverage: i128,
    age: u32,
    risk: u32,
    q: Result<PremiumQuote, Error>,
    now: u32,
) -> Result<Policy, PolicyError> {
    initiate_policy(
        st,
        holder,
        PolicyType::Auto,
        RegionTier::Low,
        coverage,
        age,
        risk,
        asset(),
        q,
        now,
        this_contract(),
    )
    .map(|i| i.policy)
}

fn this_contract() -> Address {
    Address { kind: AddressKind::Contract, hi: 77, lo: 78 }
}

#[test]
fn initiation_owes_one_transfer_and_one_event() {
    let mut st = open_state();
    let i = initiate_policy(
        &mut st,
        account(4),
        PolicyType::Property,
        RegionTier::High,
        8_000,
        64,
        8,
        asset(),
        quote(321),
        9_000,
        this_contract(),
    )
    .unwrap();
    assert_eq!(i.transfer.asset, asset());
    assert_eq!(i.transfer.from, account(4));
    assert_eq!(i.transfer.to, this_contract());
    assert_eq!(i.transfer.amount, 321);
    assert_eq!(i.event, policy_initiated(&i.policy));
    assert_eq!(i.event.version, 1);
    assert_eq!(i.event.holder, account(4));
    assert_eq!(i.event.policy_id, 1);
    assert_eq!(i.event.premium, 321);
    assert_eq!(i.event.asset, asset());
    assert_eq!(i.event.policy_type, PolicyType::Property);
    assert_eq!(i.event.region, RegionTier::High);
    assert_eq!(i.event.coverage, 8_000);
    assert_eq!(i.event.start_ledger, 9_000);
}

#[test]
fn premium_transfer_goes_from_holder_to_contract() {
    let t = premium_transfer(account(1), asset(), 55, this_contract());
    assert_eq!((t.asset, t.from, t.to, t.amount), (asset(), account(1), this_contract(), 55));
}

#[test]
fn initiation_binds_policies_with_fresh_ids() {
    let mut st = open_state();
    let p = initiate(&mut st, account(1), 10_000, 35, 4, quote(250), 1_000).unwrap();
    assert_eq!(p.holder, account(1));
    assert_eq!(p.policy_id, 1);
    assert_eq!(p.policy_type, PolicyType::Auto);
    assert_eq!(p.region, RegionTier::Low);
    assert_eq!(p.premium, 250);
    assert_eq!(p.coverage, 10_000);
    assert_eq!(p.asset, asset());
    assert!(p.is_active);
    assert_eq!(p.start_ledger, 1_000);
    assert_eq!(p.end_ledger, 1_000 + POLICY_DURATION_LEDGERS);
    assert_eq!(get_policy(&st, &account(1), 1), Some(p));
    assert_eq!(get_voters(&st), vec![account(1)]);
    assert_eq!(get_active_policy_count(&st, &account(1)), 1);

    let p2 = initiate(&mut st, account(1), 20_000, 70, 9, quote(900), 2_000).unwrap();
    assert_eq!(p2.policy_id, 2);
    assert_eq!(get_policy(&st, &account(1), 1), Some(p));
    assert_eq!(get_policy(&st, &account(1), 2), Some(p2));
    assert_eq!(get_voters(&st), vec![account(1)]);
    assert_eq!(get_active_policy_count(&st, &account(1)), 2);

    let p3 = initiate(&mut st, account(2), 5_000, 18, 1, quote(40), 3_000).unwrap();
    assert_eq!(p3.policy_id, 1);
    assert_eq!(get_voters(&st), vec![account(1), account(2)]);
}

#[test]
fn paused_contract_refuses_and_keeps_storage() {
    let mut st = open_state();
    set_paused(&mut st, true);
    assert_eq!(
        initiate(&mut st, account(1), 10_000, 35, 4, quote(250), 1_000),
        Err(PolicyError::ContractPaused)
    );
    assert_eq!(get_policy_counter(&st, &account(1)), 0);
    assert!(get_voters(&st).is_empty());
}

#[test]
fn asset_off_allowlist_is_refused() {
    let mut st = ContractState::new();
    assert_eq!(
        initiate(&mut st, account(1), 10_000, 35, 4, quote(250), 1_000),
        Err(PolicyError::AssetNotAllowed)
    );
    set_allowed_asset(&mut st, &asset(), true);
    set_allowed_asset(&mut st, &asset(), false);
    assert_eq!(
        initiate(&mut st, account(1), 10_000, 35, 4, quote(250), 1_000),
        Err(PolicyError::AssetNotAllowed)
    );
}

#[test]
fn invalid_requests_are_refused_before_allocation() {
    let mut st = open_state();
    let cases: [(i128, u32, u32, PolicyError); 6] = [
        (10_000, 0, 4, PolicyError::InvalidAge),
        (10_000, 121, 4, PolicyError::InvalidAge),
        (10_000, 30, 0, PolicyError::InvalidRiskScore),
        (10_000, 30, 11, PolicyError::InvalidRiskScore),
        (0, 30, 5, PolicyError::InvalidCoverage),
        (-10, 30, 5, PolicyError::InvalidCoverage),
    ];
    for (coverage, age, risk, err) in cases.iter() {
        assert_eq!(initiate(&mut st, account(1), *coverage, *age, *risk, quote(250), 1), Err(*err));
    }
    assert_eq!(get_policy_counter(&st, &account(1)), 0);
    assert!(get_voters(&st).is_empty());
}

#[test]
fn calculator_failures_are_refused_before_allocation() {
    let mut st = open_state();
    assert_eq!(
        initiate(&mut st, account(1), 10_000, 30, 5, Err(Error::CalculatorPaused), 1),
        Err(PolicyError::ContractPaused)
    );
    assert_eq!(
        initiate(&mut st, account(1), 10_000, 30, 5, Err(Error::CalculatorCallFailed), 1),
        Err(PolicyError::PremiumOverflow)
    );
    assert_eq!(
        initiate(&mut st, account(1), 10_000, 30, 5, quote(0), 1),
        Err(PolicyError::InvalidPremium)
    );
    assert_eq!(get_policy_counter(&st, &account(1)), 0);
}

#[test]
fn occupied_id_is_refused_after_allocation() {
    let mut st = open_state();
    let squatter = build_policy(account(1), 1, PolicyType::Health, RegionTier::High, 5, 50, asset(), 0).unwrap();
    set_policy(&mut st, &squatter);
    assert_eq!(
        initiate(&mut st, account(1), 10_000, 30, 5, quote(250), 1),
        Err(PolicyError::DuplicatePolicyId)
    );
    assert_eq!(get_policy_counter(&st, &account(1)), 1);
    assert_eq!(get_policy(&st, &account(1), 1), Some(squatter));
    assert!(get_voters(&st).is_empty());
    let p = initiate(&mut st, account(1), 10_000, 30, 5, quote(250), 1).unwrap();
    assert_eq!(p.policy_id, 2);
}

#[test]
fn ledger_overflow_is_refused_after_allocation() {
    let mut st = open_state();
    next_policy_id(&mut st, &account(1));
    assert_eq!(
        initiate(&mut st, account(1), 10_000, 30, 5, quote(250), u32::MAX - 1),
        Err(PolicyError::LedgerOverflow)
    );
    assert_eq!(get_policy_counter(&st, &account(1)), 2);
    assert_eq!(get_policy(&st, &account(1), 2), None);
    assert_eq!(get_active_policy_count(&st, &account(1)), 0);
}
