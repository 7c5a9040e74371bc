use payroll_program::addresses::{derive_org_address, derive_worker_address};
use payroll_program::admin::{add_worker, create_org, fund_treasury};
use payroll_program::settlement::process_payroll;
use payroll_program::states::{Organization, RosterAccount, Transfer, Worker};
use payroll_program::withdrawal::withdraw;
use payroll_program::PayrollError;

const PROGRAM: [u8; 32] = [7u8; 32];
const AUTHORITY: [u8; 32] = [1u8; 32];

fn test_org(treasury: u64, workers_count: u64) -> Organization {
    Organization {
        authority: AUTHORITY,
        name: b"acme".to_vec(),
        treasury,
        workers_count,
        bump: 0,
    }
}

fn org_address(org: &Organization) -> [u8; 32] {
    derive_org_address(&PROGRAM, &org.authority, &org.name).0
}

/// A valid (record, wallet) pair for one worker of the organization at
/// `org_addr`.
fn pair(org_addr: &[u8; 32], wallet: [u8; 32], salary: u64, last_paid_cycle: u64) -> [RosterAccount; 2] {
    let (record_address, bump) = derive_worker_address(&PROGRAM, org_addr, &wallet);
    let worker = Worker {
        org: *org_addr,
        worker_pubkey: wallet,
        salary,
        last_paid_cycle,
        bump,
    };
    [
        RosterAccount { address: record_address, record: Some(worker) },
        RosterAccount { address: wallet, record: None },
    ]
}

fn roster_of(pairs: &[[RosterAccount; 2]]) -> Vec<RosterAccount> {
    let mut roster = Vec::new();
    for p in pairs {
        roster.push(p[0]);
        roster.push(p[1]);
    }
    roster
}

#[test]
fn settle_pays_only_eligible_worker() {
    // Treasury 1000; worker A(300, last paid 0) is eligible for cycle 5,
    // worker B(400, last paid 5) is not.
    let mut org = test_org(1000, 2);
    let oa = org_address(&org);
    let wallet_a = [10u8; 32];
    let wallet_b = [11u8; 32];
    let pairs = [pair(&oa, wallet_a, 300, 0), pair(&oa, wallet_b, 400, 5)];
    let mut roster = roster_of(&pairs);

    let r = process_payroll(&PROGRAM, &AUTHORITY, &oa, &mut org, &mut roster, 5);

    let transfers = r.expect("settlement must succeed");
    assert_eq!(transfers, vec![Transfer { to: wallet_a, amount: 300 }]);
    assert_eq!(org.treasury, 700);
    assert_eq!(org.workers_count, 2);
    assert_eq!(roster[0].record.unwrap().last_paid_cycle, 5);
    assert_eq!(roster[0].record.unwrap().salary, 300);
    assert_eq!(roster[2], pairs[1][0], "ineligible worker must be untouched");
    assert_eq!(roster[1], pairs[0][1]);
    assert_eq!(roster[3], pairs[1][1]);
}

#[test]
fn settle_same_cycle_twice_is_a_no_op() {
    let mut org = test_org(1000, 2);
    let oa = org_address(&org);
    let pairs = [pair(&oa, [10u8; 32], 300, 0), pair(&oa, [11u8; 32], 400, 0)];
    let mut roster = roster_of(&pairs);

    process_payroll(&PROGRAM, &AUTHORITY, &oa, &mut org, &mut roster, 5).expect("first settlement");
    assert_eq!(org.treasury, 300);
    let roster_after_first = roster.clone();

    let r = process_payroll(&PROGRAM, &AUTHORITY, &oa, &mut org, &mut roster, 5);
    let transfers = r.expect("second settlement of the same cycle must still succeed");
    assert!(transfers.is_empty(), "replaying a cycle must issue no transfer");
    assert_eq!(org.treasury, 300, "replaying a cycle must not move funds");
    assert_eq!(roster, roster_after_first);
}

#[test]
fn settle_later_cycle_pays_again() {
    let mut org = test_org(1000, 1);
    let oa = org_address(&org);
    let mut roster = roster_of(&[pair(&oa, [10u8; 32], 300, 0)]);

    process_payroll(&PROGRAM, &AUTHORITY, &oa, &mut org, &mut roster, 5).expect("cycle 5");
    process_payroll(&PROGRAM, &AUTHORITY, &oa, &mut org, &mut roster, 6).expect("cycle 6");
    assert_eq!(org.treasury, 400);
    assert_eq!(roster[0].record.unwrap().last_paid_cycle, 6);
}

#[test]
fn settle_skips_worker_with_future_marker() {
    let mut org = test_org(1000, 1);
    let oa = org_address(&org);
    let pairs = [pair(&oa, [10u8; 32], 300, 10)];
    let mut roster = roster_of(&pairs);

    let transfers = process_payroll(&PROGRAM, &AUTHORITY, &oa, &mut org, &mut roster, 5).expect("settlement");
    assert!(transfers.is_empty());
    assert_eq!(org.treasury, 1000);
    assert_eq!(roster[0].record.unwrap().last_paid_cycle, 10, "marker must not move backwards");
}

#[test]
fn roster_size_must_be_twice_workers_count() {
    let oa = org_address(&test_org(1000, 2));
    let full = roster_of(&[pair(&oa, [10u8; 32], 300, 0), pair(&oa, [11u8; 32], 400, 0)]);

    // One account short, empty, and one account over: each rejected with no
    // mutation.
    for bad_len in [3usize, 0, 5] {
        let mut org = test_org(1000, 2);
        let mut roster: Vec<RosterAccount> = full.iter().cloned().cycle().take(bad_len).collect();
        let before = roster.clone();
        let r = process_payroll(&PROGRAM, &AUTHORITY, &oa, &mut org, &mut roster, 5);
        assert_eq!(r, Err(PayrollError::MissingWorkerAccount), "length {bad_len}");
        assert_eq!(org, test_org(1000, 2));
        assert_eq!(roster, before);
    }
}

#[test]
fn one_bad_pair_aborts_the_whole_batch() {
    // Ten accounts; only the fourth pair's record address is wrong.
    let mut org = test_org(100_000, 5);
    let oa = org_address(&org);
    let mut pairs = Vec::new();
    for i in 0..5u8 {
        pairs.push(pair(&oa, [20 + i; 32], 100 * (i as u64 + 1), 0));
    }
    let mut roster = roster_of(&pairs);
    roster[6].address = [99u8; 32];
    let before = roster.clone();

    let r = process_payroll(&PROGRAM, &AUTHORITY, &oa, &mut org, &mut roster, 5);
    assert_eq!(r, Err(PayrollError::InvalidWorkerPDA));
    assert_eq!(org, test_org(100_000, 5), "no mutation on rejection");
    assert_eq!(roster, before, "no worker may be paid or marked");
}

#[test]
fn record_address_equal_to_wallet_is_rejected() {
    // The derivation is not the identity: a record claimed to live at the
    // wallet's own address must fail the re-derivation check.
    let mut org = test_org(1000, 1);
    let oa = org_address(&org);
    let wallet = [10u8; 32];
    let (derived, _) = derive_worker_address(&PROGRAM, &oa, &wallet);
    assert_ne!(derived, wallet);
    let worker = Worker { org: oa, worker_pubkey: wallet, salary: 10, last_paid_cycle: 0, bump: 0 };
    let mut roster = vec![
        RosterAccount { address: wallet, record: Some(worker) },
        RosterAccount { address: wallet, record: None },
    ];
    let r = process_payroll(&PROGRAM, &AUTHORITY, &oa, &mut org, &mut roster, 5);
    assert_eq!(r, Err(PayrollError::InvalidWorkerPDA));
}

#[test]
fn duplicated_pair_is_paid_once() {
    // The same valid (record, wallet) pair stands in both slots of a
    // two-worker batch. Both pairs alias one stored record, so the batch
    // settles with a single payment: the feasibility check counts the
    // salary twice, but only the first occurrence moves funds.
    let mut org = test_org(1000, 2);
    let oa = org_address(&org);
    let p = pair(&oa, [10u8; 32], 300, 0);
    let mut roster = roster_of(&[p, p]);

    let transfers = process_payroll(&PROGRAM, &AUTHORITY, &oa, &mut org, &mut roster, 5)
        .expect("a duplicated pair aliases one record and settles");
    assert_eq!(transfers, vec![Transfer { to: [10u8; 32], amount: 300 }], "exactly one payment");
    assert_eq!(org.treasury, 700, "the salary must move once, not twice");
    assert_eq!(roster[0].record.unwrap().last_paid_cycle, 5);
    assert_eq!(roster[2].record.unwrap().last_paid_cycle, 5, "both copies of the record end marked");
}

#[test]
fn duplicated_pair_feasibility_counts_each_occurrence() {
    // Feasibility sums per roster occurrence: a treasury of 599 cannot
    // cover the doubled 300-salary even though only 300 would be paid.
    let mut org = test_org(599, 2);
    let oa = org_address(&org);
    let p = pair(&oa, [10u8; 32], 300, 0);
    let mut roster = roster_of(&[p, p]);
    let before = roster.clone();

    let r = process_payroll(&PROGRAM, &AUTHORITY, &oa, &mut org, &mut roster, 5);
    assert_eq!(r, Err(PayrollError::InsufficientFunds));
    assert_eq!(org.treasury, 599);
    assert_eq!(roster, before);
}

#[test]
fn bad_pair_is_reported_before_overflow() {
    // The roster validator runs over the whole batch before pass one
    // accumulates anything, so a mismatched pair is reported even when
    // the salaries before it would overflow the feasibility sum.
    let mut org = test_org(1000, 2);
    let oa = org_address(&org);
    let mut roster = roster_of(&[pair(&oa, [10u8; 32], u64::MAX, 0), pair(&oa, [11u8; 32], u64::MAX, 0)]);
    roster[2].address = [99u8; 32];
    let before = roster.clone();

    let r = process_payroll(&PROGRAM, &AUTHORITY, &oa, &mut org, &mut roster, 5);
    assert_eq!(r, Err(PayrollError::InvalidWorkerPDA));
    assert_eq!(org.treasury, 1000);
    assert_eq!(roster, before);
}

#[test]
fn record_slot_without_record_is_rejected() {
    let mut org = test_org(1000, 1);
    let oa = org_address(&org);
    let wallet = [10u8; 32];
    let (record_address, _) = derive_worker_address(&PROGRAM, &oa, &wallet);
    let mut roster = vec![
        RosterAccount { address: record_address, record: None },
        RosterAccount { address: wallet, record: None },
    ];
    let r = process_payroll(&PROGRAM, &AUTHORITY, &oa, &mut org, &mut roster, 5);
    assert_eq!(r, Err(PayrollError::MissingWorkerAccount));
    assert_eq!(org.treasury, 1000);
}

#[test]
fn settlement_rejects_wrong_caller() {
    let mut org = test_org(1000, 1);
    let oa = org_address(&org);
    let pairs = [pair(&oa, [10u8; 32], 300, 0)];
    let mut roster = roster_of(&pairs);
    let before = roster.clone();

    let r = process_payroll(&PROGRAM, &[2u8; 32], &oa, &mut org, &mut roster, 5);
    assert_eq!(r, Err(PayrollError::Unauthorized));
    assert_eq!(org, test_org(1000, 1));
    assert_eq!(roster, before);
}

#[test]
fn insufficient_treasury_rejects_whole_batch() {
    // Total payout 700 against treasury 699: nobody may be paid, not even
    // the first worker alone.
    let mut org = test_org(699, 2);
    let oa = org_address(&org);
    let pairs = [pair(&oa, [10u8; 32], 300, 0), pair(&oa, [11u8; 32], 400, 0)];
    let mut roster = roster_of(&pairs);
    let before = roster.clone();

    let r = process_payroll(&PROGRAM, &AUTHORITY, &oa, &mut org, &mut roster, 5);
    assert_eq!(r, Err(PayrollError::InsufficientFunds));
    assert_eq!(org.treasury, 699);
    assert_eq!(roster, before);
}

#[test]
fn exact_treasury_payout_drains_it() {
    let mut org = test_org(700, 2);
    let oa = org_address(&org);
    let pairs = [pair(&oa, [10u8; 32], 300, 0), pair(&oa, [11u8; 32], 400, 0)];
    let mut roster = roster_of(&pairs);

    let transfers = process_payroll(&PROGRAM, &AUTHORITY, &oa, &mut org, &mut roster, 5).expect("exact cover");
    assert_eq!(org.treasury, 0);
    assert_eq!(
        transfers,
        vec![
            Transfer { to: [10u8; 32], amount: 300 },
            Transfer { to: [11u8; 32], amount: 400 },
        ]
    );
}

#[test]
fn overflowing_payout_is_rejected() {
    let mut org = test_org(u64::MAX, 2);
    let oa = org_address(&org);
    let pairs = [pair(&oa, [10u8; 32], u64::MAX, 0), pair(&oa, [11u8; 32], 1, 0)];
    let mut roster = roster_of(&pairs);
    let before = roster.clone();

    let r = process_payroll(&PROGRAM, &AUTHORITY, &oa, &mut org, &mut roster, 5);
    assert_eq!(r, Err(PayrollError::InsufficientFunds));
    assert_eq!(org.treasury, u64::MAX);
    assert_eq!(roster, before);
}

#[test]
fn empty_roster_of_empty_organization_settles() {
    let mut org = test_org(1000, 0);
    let oa = org_address(&org);
    let mut roster = Vec::new();
    let transfers = process_payroll(&PROGRAM, &AUTHORITY, &oa, &mut org, &mut roster, 5).expect("empty batch");
    assert!(transfers.is_empty());
    assert_eq!(org.treasury, 1000);
}

#[test]
fn withdraw_zero_is_rejected() {
    let mut org = test_org(1000, 0);
    let r = withdraw(&AUTHORITY, &mut org, 0);
    assert_eq!(r, Err(PayrollError::InvalidAmount));
    assert_eq!(org.treasury, 1000);
}

#[test]
fn withdraw_more_than_treasury_is_rejected() {
    let mut org = test_org(1000, 0);
    let r = withdraw(&AUTHORITY, &mut org, 1001);
    assert_eq!(r, Err(PayrollError::InsufficientFunds));
    assert_eq!(org.treasury, 1000);
}

#[test]
fn withdraw_whole_treasury_leaves_zero() {
    let mut org = test_org(1000, 0);
    let r = withdraw(&AUTHORITY, &mut org, 1000);
    assert_eq!(r, Ok(Transfer { to: AUTHORITY, amount: 1000 }));
    assert_eq!(org.treasury, 0);
}

#[test]
fn withdraw_part_of_treasury() {
    let mut org = test_org(1000, 0);
    let r = withdraw(&AUTHORITY, &mut org, 250);
    assert_eq!(r, Ok(Transfer { to: AUTHORITY, amount: 250 }));
    assert_eq!(org.treasury, 750);
}

#[test]
fn withdraw_rejects_wrong_caller() {
    let mut org = test_org(1000, 0);
    let r = withdraw(&[2u8; 32], &mut org, 100);
    assert_eq!(r, Err(PayrollError::Unauthorized));
    assert_eq!(org, test_org(1000, 0));
}

#[test]
fn organization_lifecycle_settles_its_workers() {
    let (oa, mut org) = create_org(&PROGRAM, &AUTHORITY, b"acme".to_vec());
    assert_eq!(org.treasury, 0);
    assert_eq!(org.workers_count, 0);

    fund_treasury(&mut org, 1000);
    assert_eq!(org.treasury, 1000);

    let wallet_a = [10u8; 32];
    let wallet_b = [11u8; 32];
    let (addr_a, worker_a) = add_worker(&PROGRAM, &oa, &mut org, &wallet_a, 300);
    let (addr_b, worker_b) = add_worker(&PROGRAM, &oa, &mut org, &wallet_b, 400);
    assert_eq!(org.workers_count, 2);
    assert_eq!(worker_a.last_paid_cycle, 0);

    let mut roster = vec![
        RosterAccount { address: addr_a, record: Some(worker_a) },
        RosterAccount { address: wallet_a, record: None },
        RosterAccount { address: addr_b, record: Some(worker_b) },
        RosterAccount { address: wallet_b, record: None },
    ];
    let transfers = process_payroll(&PROGRAM, &AUTHORITY, &oa, &mut org, &mut roster, 1).expect("settlement");
    assert_eq!(org.treasury, 300);
    assert_eq!(transfers.len(), 2);
    assert_eq!(transfers[0], Transfer { to: wallet_a, amount: 300 });
    assert_eq!(transfers[1], Transfer { to: wallet_b, amount: 400 });
}

#[test]
fn derivation_matches_the_ledgers_own() {
    // The library's derivation must agree with the ledger's, seeds and all:
    // domain tag, organization address, wallet, under the same program id.
    let org = test_org(0, 0);
    let oa = org_address(&org);
    let program = anchor_lang::prelude::Pubkey::new_from_array(PROGRAM);

    let expected_org = anchor_lang::prelude::Pubkey::find_program_address(
        &[b"org", AUTHORITY.as_slice(), b"acme".as_slice()],
        &program,
    );
    assert_eq!(oa, expected_org.0.to_bytes());
    assert_eq!(derive_org_address(&PROGRAM, &AUTHORITY, &b"acme".to_vec()).1, expected_org.1);

    let wallet = [10u8; 32];
    let expected_worker = anchor_lang::prelude::Pubkey::find_program_address(
        &[b"worker", oa.as_slice(), wallet.as_slice()],
        &program,
    );
    assert_eq!(derive_worker_address(&PROGRAM, &oa, &wallet).0, expected_worker.0.to_bytes());
}
