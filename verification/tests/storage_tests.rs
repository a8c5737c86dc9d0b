use niffyinsure::storage::{
    add_voter, clear_pending_admin, get_active_policy_count, get_admin, get_calc_address,
    get_claim, get_claim_counter, get_claim_voters, get_last_claim_ledger, get_multiplier_table,
    get_pending_admin, get_policy, get_policy_counter, get_token, get_vote, get_voters,
    has_policy, is_allowed_asset, is_paused, next_claim_id, next_policy_id, remove_voter,
    set_admin, set_allowed_asset, set_calc_address, set_claim, set_last_claim_ledger,
    set_multiplier_table, set_paused, set_pending_admin, set_policy, set_token, set_vote,
    set_voters, snapshot_claim_voters, with_voter, without_voter, ContractState,
};
use niffyinsure::types::{
    Address, AddressKind, AgeMultipliers, Claim, ClaimStatus, CoverageMultipliers,
    MultiplierTable, Policy, PolicyType, RegionMultipliers, RegionTier, VoteOption,
};

fn account(n: u128) -> Address {
    Address { kind: AddressKind::Account, hi: n, lo: n * 7 + 1 }
}

fn contract(n: u128) -> Address {
    Address { kind: AddressKind::Contract, hi: n, lo: n * 7 + 1 }
}

fn policy(holder: Address, id: u32) -> Policy {
    Policy {
        holder,
        policy_id: id,
        policy_type: PolicyType::Property,
        region: RegionTier::Medium,
        premium: 120,
        coverage: 5_000,
        is_active: true,
        start_ledger: 1,
        end_ledger: 100,
        asset: contract(9),
    }
}

#[test]
fn instance_settings_read_back() {
    let mut st = ContractState::new();
    set_admin(&mut st, &account(1));
    assert_eq!(get_admin(&st), account(1));
    set_admin(&mut st, &account(2));
    assert_eq!(get_admin(&st), account(2));

    assert_eq!(get_pending_admin(&st), None);
    set_pending_admin(&mut st, &account(3));
    assert_eq!(get_pending_admin(&st), Some(account(3)));
    clear_pending_admin(&mut st);
    assert_eq!(get_pending_admin(&st), None);

    set_token(&mut st, &contract(4));
    assert_eq!(get_token(&st), contract(4));

    assert_eq!(get_calc_address(&st), None);
    set_calc_address(&mut st, &contract(5));
    assert_eq!(get_calc_address(&st), Some(contract(5)));

    assert!(!is_paused(&st));
    set_paused(&mut st, true);
    assert!(is_paused(&st));
    set_paused(&mut st, false);
    assert!(!is_paused(&st));
}

#[test]
fn multiplier_table_read_back() {
    let mut st = ContractState::new();
    let table = MultiplierTable {
        region: RegionMultipliers { low: Some(8_000), medium: Some(10_000), high: None },
        age: AgeMultipliers { young: Some(12_000), adult: Some(10_000), senior: Some(15_000) },
        coverage: CoverageMultipliers { basic: Some(9_000), standard: None, premium: Some(20_000) },
        safety_discount: 2_000,
        version: 3,
    };
    set_multiplier_table(&mut st, &table);
    assert_eq!(get_multiplier_table(&st), table);
}

#[test]
fn allowlist_answers_last_setting() {
    let mut st = ContractState::new();
    assert!(!is_allowed_asset(&st, &contract(1)));
    set_allowed_asset(&mut st, &contract(1), true);
    assert!(is_allowed_asset(&st, &contract(1)));
    assert!(!is_allowed_asset(&st, &contract(2)));
    set_allowed_asset(&mut st, &contract(2), true);
    set_allowed_asset(&mut st, &contract(1), false);
    assert!(!is_allowed_asset(&st, &contract(1)));
    assert!(is_allowed_asset(&st, &contract(2)));
}

#[test]
fn claim_ids_count_up_from_one() {
    let mut st = ContractState::new();
    assert_eq!(get_claim_counter(&st), 0);
    assert_eq!(next_claim_id(&mut st), 1);
    assert_eq!(next_claim_id(&mut st), 2);
    assert_eq!(next_claim_id(&mut st), 3);
    assert_eq!(get_claim_counter(&st), 3);
}

#[test]
fn claims_read_back() {
    let mut st = ContractState::new();
    assert!(get_claim(&st, 1).is_none());
    let claim = Claim {
        claim_id: 1,
        policy_id: 4,
        claimant: account(2),
        amount: 900,
        details: String::from("flooded basement"),
        image_urls: vec![String::from("https://img/1")],
        status: ClaimStatus::Processing,
        approve_votes: 0,
        reject_votes: 0,
        filed_at: 55,
    };
    set_claim(&mut st, &claim);
    let back = get_claim(&st, 1).unwrap();
    assert_eq!(back.details, "flooded basement");
    assert_eq!(back.image_urls, vec![String::from("https://img/1")]);
    assert_eq!(back.amount, 900);
    assert!(get_claim(&st, 2).is_none());
    let mut updated = claim.clone();
    updated.status = ClaimStatus::Approved;
    updated.approve_votes = 3;
    set_claim(&mut st, &updated);
    let back = get_claim(&st, 1).unwrap();
    assert_eq!(back.status, ClaimStatus::Approved);
    assert_eq!(back.approve_votes, 3);
}

#[test]
fn votes_read_back() {
    let mut st = ContractState::new();
    assert_eq!(get_vote(&st, 1, &account(1)), None);
    set_vote(&mut st, 1, &account(1), &VoteOption::Approve);
    set_vote(&mut st, 1, &account(2), &VoteOption::Reject);
    set_vote(&mut st, 2, &account(1), &VoteOption::Reject);
    assert_eq!(get_vote(&st, 1, &account(1)), Some(VoteOption::Approve));
    assert_eq!(get_vote(&st, 1, &account(2)), Some(VoteOption::Reject));
    assert_eq!(get_vote(&st, 2, &account(1)), Some(VoteOption::Reject));
    assert_eq!(get_vote(&st, 2, &account(2)), None);
}

#[test]
fn last_claim_ledger_read_back() {
    let mut st = ContractState::new();
    assert_eq!(get_last_claim_ledger(&st, &account(1)), None);
    set_last_claim_ledger(&mut st, &account(1), 400);
    assert_eq!(get_last_claim_ledger(&st, &account(1)), Some(400));
    set_last_claim_ledger(&mut st, &account(1), 500);
    assert_eq!(get_last_claim_ledger(&st, &account(1)), Some(500));
    assert_eq!(get_last_claim_ledger(&st, &account(2)), None);
}

#[test]
fn policy_ids_count_per_holder() {
    let mut st = ContractState::new();
    assert_eq!(get_policy_counter(&st, &account(1)), 0);
    assert_eq!(next_policy_id(&mut st, &account(1)), 1);
    assert_eq!(next_policy_id(&mut st, &account(1)), 2);
    assert_eq!(next_policy_id(&mut st, &account(2)), 1);
    assert_eq!(get_policy_counter(&st, &account(1)), 2);
    assert_eq!(get_policy_counter(&st, &account(2)), 1);
}

#[test]
fn policies_read_back_by_holder_and_id() {
    let mut st = ContractState::new();
    let p1 = policy(account(1), 1);
    let p2 = policy(account(2), 1);
    assert!(!has_policy(&st, &account(1), 1));
    set_policy(&mut st, &p1);
    set_policy(&mut st, &p2);
    assert!(has_policy(&st, &account(1), 1));
    assert!(!has_policy(&st, &account(1), 2));
    assert_eq!(get_policy(&st, &account(1), 1), Some(p1));
    assert_eq!(get_policy(&st, &account(2), 1), Some(p2));
    assert_eq!(get_policy(&st, &account(2), 2), None);
    let p1b = Policy { is_active: false, ..p1 };
    set_policy(&mut st, &p1b);
    assert_eq!(get_policy(&st, &account(1), 1), Some(p1b));
}

#[test]
fn voter_registration_is_idempotent_and_counts_policies() {
    let mut st = ContractState::new();
    add_voter(&mut st, &account(1));
    add_voter(&mut st, &account(2));
    add_voter(&mut st, &account(1));
    assert_eq!(get_voters(&st), vec![account(1), account(2)]);
    assert_eq!(get_active_policy_count(&st, &account(1)), 2);
    assert_eq!(get_active_policy_count(&st, &account(2)), 1);
    assert_eq!(get_active_policy_count(&st, &account(3)), 0);
}

#[test]
fn voter_removal_keeps_others_in_order() {
    let mut st = ContractState::new();
    set_voters(&mut st, &vec![account(1), account(2), account(3), account(2)]);
    remove_voter(&mut st, &account(2));
    assert_eq!(get_voters(&st), vec![account(1), account(3)]);
    remove_voter(&mut st, &account(9));
    assert_eq!(get_voters(&st), vec![account(1), account(3)]);
    add_voter(&mut st, &account(1));
    remove_voter(&mut st, &account(1));
    assert_eq!(get_voters(&st), vec![account(3)]);
    assert_eq!(get_active_policy_count(&st, &account(1)), 1);
}

#[test]
fn registry_helpers() {
    let v = vec![account(1), account(2)];
    assert_eq!(with_voter(v.clone(), &account(2)), v);
    assert_eq!(with_voter(v.clone(), &account(3)), vec![account(1), account(2), account(3)]);
    assert_eq!(without_voter(&v, &account(1)), vec![account(2)]);
    assert_eq!(without_voter(&vec![], &account(1)), vec![]);
}

#[test]
fn claim_electorate_is_frozen_at_snapshot() {
    let mut st = ContractState::new();
    assert!(get_claim_voters(&st, 1).is_empty());
    add_voter(&mut st, &account(1));
    add_voter(&mut st, &account(2));
    snapshot_claim_voters(&mut st, 1);
    add_voter(&mut st, &account(3));
    remove_voter(&mut st, &account(1));
    assert_eq!(get_claim_voters(&st, 1), vec![account(1), account(2)]);
    assert_eq!(get_voters(&st), vec![account(2), account(3)]);
    snapshot_claim_voters(&mut st, 2);
    assert_eq!(get_claim_voters(&st, 2), vec![account(2), account(3)]);
    assert_eq!(get_claim_voters(&st, 1), vec![account(1), account(2)]);
}

#[test]
fn counters_advance_by_one() {
    assert_eq!(niffyinsure::storage::advance_counter(0), 1);
    assert_eq!(niffyinsure::storage::advance_counter(u32::MAX - 1), u32::MAX);
    assert_eq!(niffyinsure::storage::advance_claim_counter(41), 42);
    assert_eq!(niffyinsure::storage::advance_claim_counter(u64::MAX - 1), u64::MAX);
}

#[test]
fn removal_undoes_registration_of_a_newcomer() {
    let mut st = ContractState::new();
    set_voters(&mut st, &vec![account(1), account(2)]);
    add_voter(&mut st, &account(3));
    remove_voter(&mut st, &account(3));
    assert_eq!(get_voters(&st), vec![account(1), account(2)]);
}

#[test]
fn active_count_counts_registrations_only() {
    let mut st = ContractState::new();
    add_voter(&mut st, &account(1));
    remove_voter(&mut st, &account(1));
    add_voter(&mut st, &account(2));
    add_voter(&mut st, &account(1));
    set_voters(&mut st, &vec![]);
    add_voter(&mut st, &account(1));
    assert_eq!(get_active_policy_count(&st, &account(1)), 3);
    assert_eq!(get_active_policy_count(&st, &account(2)), 1);
    assert_eq!(get_voters(&st), vec![account(1)]);
}

#[test]
fn interleaved_policy_allocations() {
    let mut st = ContractState::new();
    let order = [1u128, 2, 1, 3, 1, 2];
    let mut got = vec![];
    for h in order.iter() {
        got.push(next_policy_id(&mut st, &account(*h)));
    }
    assert_eq!(got, vec![1, 1, 2, 1, 3, 2]);
    assert_eq!(get_policy_counter(&st, &account(1)), 3);
    assert_eq!(get_policy_counter(&st, &account(2)), 2);
    assert_eq!(get_policy_counter(&st, &account(3)), 1);
}

#[test]
fn settings_read_their_last_write_among_others() {
    let mut st = ContractState::new();
    set_admin(&mut st, &account(1));
    set_allowed_asset(&mut st, &contract(1), true);
    set_last_claim_ledger(&mut st, &account(5), 10);
    set_paused(&mut st, true);
    set_token(&mut st, &contract(2));
    add_voter(&mut st, &account(3));
    set_admin(&mut st, &account(2));
    set_allowed_asset(&mut st, &contract(2), false);
    set_last_claim_ledger(&mut st, &account(6), 20);
    next_claim_id(&mut st);
    set_paused(&mut st, false);
    assert_eq!(get_admin(&st), account(2));
    assert_eq!(get_token(&st), contract(2));
    assert!(is_allowed_asset(&st, &contract(1)));
    assert!(!is_allowed_asset(&st, &contract(2)));
    assert!(!is_paused(&st));
    assert_eq!(get_last_claim_ledger(&st, &account(5)), Some(10));
    assert_eq!(get_last_claim_ledger(&st, &account(6)), Some(20));
    assert_eq!(get_last_claim_ledger(&st, &account(7)), None);
}
