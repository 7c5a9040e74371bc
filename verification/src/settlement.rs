//! The settlement engine: one payroll batch for one cycle, validated and
//! applied in passes.
//!
//! The roster validator first walks the whole batch pairwise and re-derives
//! every worker record's address; any mismatch rejects the batch before
//! anything else is examined. Pass one then loads the records and
//! accumulates the total payout of the still-unpaid workers with
//! overflow-checked addition, counting each roster occurrence; it writes
//! nothing. Only when the whole batch is feasible does pass two mark the
//! eligible workers paid, collect the transfers to issue, and debit the
//! treasury — so a failure can never leave some workers paid and others
//! not. A batch may name the same worker record in more than one pair: the
//! pairs alias one stored record, which the first occurrence settles, so
//! later occurrences are marked but not paid again.

use vstd::prelude::*;

use crate::addresses::{addresses_equal, derive_worker_address, worker_address_of};
use crate::states::{Organization, RosterAccount, Transfer, Worker};
use crate::PayrollError;

verus! {

/// A worker is eligible for `cycle` while its last-paid marker is strictly
/// below it; at most one payment per distinct cycle value.
pub open spec fn eligible(w: Worker, cycle: u64) -> bool {
    w.last_paid_cycle < cycle
}

/// The address of pair `i`'s record slot.
pub open spec fn record_address(roster: Seq<RosterAccount>, i: int) -> Seq<u8> {
    roster[2 * i].address@
}

/// Pair `i`'s record slot stands at exactly the address derived from the
/// organization and the claimed wallet in the adjacent slot.
pub open spec fn pair_derives(program: Seq<u8>, org_addr: Seq<u8>, roster: Seq<RosterAccount>, i: int) -> bool {
    roster[2 * i].address@ == worker_address_of(program, org_addr, roster[2 * i + 1].address@)
}

/// The first `n` pairs all pass the derivation check.
pub open spec fn pairs_derive_upto(program: Seq<u8>, org_addr: Seq<u8>, roster: Seq<RosterAccount>, n: int) -> bool {
    forall|i: int| 0 <= i < n ==> pair_derives(program, org_addr, roster, i)
}

/// Pair `i` is fully valid: it derives correctly and its record slot holds
/// a worker record.
pub open spec fn pair_ok(program: Seq<u8>, org_addr: Seq<u8>, roster: Seq<RosterAccount>, i: int) -> bool {
    &&& pair_derives(program, org_addr, roster, i)
    &&& roster[2 * i].record is Some
}

/// The first `n` pairs are fully valid.
pub open spec fn pairs_ok_upto(program: Seq<u8>, org_addr: Seq<u8>, roster: Seq<RosterAccount>, n: int) -> bool {
    forall|i: int| 0 <= i < n ==> pair_ok(program, org_addr, roster, i)
}

/// No earlier pair names the same record address as pair `i`: pair `i` is
/// its record's first occurrence in the batch.
pub open spec fn pair_distinct(roster: Seq<RosterAccount>, i: int) -> bool {
    forall|j: int| 0 <= j < i ==> record_address(roster, j) != record_address(roster, i)
}

/// What pair `i` contributes to the feasibility sum for `cycle`: the
/// worker's salary if the record is present and eligible, nothing
/// otherwise. Each occurrence of a duplicated record counts.
pub open spec fn pair_payout(roster: Seq<RosterAccount>, cycle: u64, i: int) -> int {
    if roster[2 * i].record is Some && eligible(roster[2 * i].record->0, cycle) {
        roster[2 * i].record->0.salary as int
    } else {
        0
    }
}

/// Feasibility sum for `cycle` over the first `n` pairs.
pub open spec fn payout_upto(roster: Seq<RosterAccount>, cycle: u64, n: int) -> int
    decreases n,
{
    if n <= 0 {
        0
    } else {
        payout_upto(roster, cycle, n - 1) + pair_payout(roster, cycle, n - 1)
    }
}

/// Pair `i` is actually paid for `cycle`: its record holds a still-unpaid
/// worker and no earlier pair names the same record. The pairs of a
/// duplicated record alias one stored account, which the first occurrence
/// settles; a later occurrence finds it already marked.
pub open spec fn pair_paid(roster: Seq<RosterAccount>, cycle: u64, i: int) -> bool {
    &&& roster[2 * i].record is Some
    &&& eligible(roster[2 * i].record->0, cycle)
    &&& pair_distinct(roster, i)
}

/// What pair `i` actually moves out of the treasury for `cycle`.
pub open spec fn pair_paid_amount(roster: Seq<RosterAccount>, cycle: u64, i: int) -> int {
    if pair_paid(roster, cycle, i) {
        roster[2 * i].record->0.salary as int
    } else {
        0
    }
}

/// Total actually paid for `cycle` over the first `n` pairs.
pub open spec fn paid_upto(roster: Seq<RosterAccount>, cycle: u64, n: int) -> int
    decreases n,
{
    if n <= 0 {
        0
    } else {
        paid_upto(roster, cycle, n - 1) + pair_paid_amount(roster, cycle, n - 1)
    }
}

/// The transfers pair `i` gives rise to: one to the claimed wallet, of the
/// worker's salary, where the pair is paid.
pub open spec fn pair_transfers(roster: Seq<RosterAccount>, cycle: u64, i: int) -> Seq<Transfer> {
    if pair_paid(roster, cycle, i) {
        seq![Transfer { to: roster[2 * i + 1].address, amount: roster[2 * i].record->0.salary }]
    } else {
        Seq::empty()
    }
}

/// The transfers a settlement of `cycle` issues for the first `n` pairs, in
/// roster order.
pub open spec fn transfers_upto(roster: Seq<RosterAccount>, cycle: u64, n: int) -> Seq<Transfer>
    decreases n,
{
    if n <= 0 {
        Seq::empty()
    } else {
        transfers_upto(roster, cycle, n - 1) + pair_transfers(roster, cycle, n - 1)
    }
}

/// The image of one worker record after settling `cycle`: marked paid if it
/// was eligible, untouched otherwise.
pub open spec fn settle_worker(w: Worker, cycle: u64) -> Worker {
    if eligible(w, cycle) {
        Worker {
            org: w.org,
            worker_pubkey: w.worker_pubkey,
            salary: w.salary,
            last_paid_cycle: cycle,
            bump: w.bump,
        }
    } else {
        w
    }
}

/// The image of a whole flat roster after pass two of settling `cycle`:
/// every record slot's eligible worker is marked — every occurrence of a
/// duplicated record, since they alias one stored account — and every
/// other slot is untouched.
pub open spec fn settled(roster: Seq<RosterAccount>, cycle: u64) -> Seq<RosterAccount> {
    Seq::new(roster.len(), |j: int|
        if j % 2 == 0 && roster[j].record is Some {
            RosterAccount { address: roster[j].address, record: Some(settle_worker(roster[j].record->0, cycle)) }
        } else {
            roster[j]
        })
}

/// The verdict of pass one scanning pairs from `k` on, with `acc` already
/// accumulated: the first failure in roster order — a record slot without
/// a record, or an overflowing accumulation — or the final feasibility
/// total. Derivation has already been checked for the whole batch when
/// this scan runs.
pub open spec fn pass_one_from(roster: Seq<RosterAccount>, cycle: u64, k: int, acc: u64) -> Result<u64, PayrollError>
    decreases roster.len() - 2 * k,
{
    if 2 * k + 1 >= roster.len() {
        Ok(acc)
    } else if roster[2 * k].record is None {
        Err(PayrollError::MissingWorkerAccount)
    } else if eligible(roster[2 * k].record->0, cycle) {
        if acc + roster[2 * k].record->0.salary > u64::MAX {
            Err(PayrollError::InsufficientFunds)
        } else {
            pass_one_from(roster, cycle, k + 1, (acc + roster[2 * k].record->0.salary) as u64)
        }
    } else {
        pass_one_from(roster, cycle, k + 1, acc)
    }
}

/// The verdict of pass one over the whole roster.
pub open spec fn pass_one(roster: Seq<RosterAccount>, cycle: u64) -> Result<u64, PayrollError> {
    pass_one_from(roster, cycle, 0, 0)
}

/// Salaries are non-negative, so the feasibility sum can only grow with
/// the number of pairs counted.
proof fn lemma_payout_monotonic(roster: Seq<RosterAccount>, cycle: u64, m: int, n: int)
    requires
        m <= n,
    ensures
        payout_upto(roster, cycle, m) <= payout_upto(roster, cycle, n),
    decreases n - m,
{
    if m < n {
        lemma_payout_monotonic(roster, cycle, m, n - 1);
    }
}

/// So can the paid total.
proof fn lemma_paid_monotonic(roster: Seq<RosterAccount>, cycle: u64, m: int, n: int)
    requires
        m <= n,
    ensures
        paid_upto(roster, cycle, m) <= paid_upto(roster, cycle, n),
    decreases n - m,
{
    if m < n {
        lemma_paid_monotonic(roster, cycle, m, n - 1);
    }
}

/// Each pair pays at most what the feasibility sum counted for it, so the
/// paid total never exceeds the feasibility total.
proof fn lemma_paid_le_payout(roster: Seq<RosterAccount>, cycle: u64, n: int)
    ensures
        paid_upto(roster, cycle, n) <= payout_upto(roster, cycle, n),
    decreases n,
{
    if n > 0 {
        lemma_paid_le_payout(roster, cycle, n - 1);
    }
}

/// Law: one settlement of `cycle` marks exactly the eligible workers. A
/// record slot whose worker's marker was below `cycle` carries `cycle`
/// afterwards, with its address and every other field untouched; every
/// other slot — an already-paid worker, a recordless slot, a wallet — is
/// untouched entirely.
pub proof fn lemma_settlement_marks_exactly_eligible(roster: Seq<RosterAccount>, cycle: u64, j: int)
    requires
        0 <= j < roster.len(),
    ensures
        j % 2 == 1 ==> settled(roster, cycle)[j] == roster[j],
        j % 2 == 0 && roster[j].record is None ==> settled(roster, cycle)[j] == roster[j],
        j % 2 == 0 && roster[j].record is Some && roster[j].record->0.last_paid_cycle < cycle ==> {
            &&& settled(roster, cycle)[j].address == roster[j].address
            &&& settled(roster, cycle)[j].record is Some
            &&& settled(roster, cycle)[j].record->0.last_paid_cycle == cycle
            &&& settled(roster, cycle)[j].record->0.salary == roster[j].record->0.salary
            &&& settled(roster, cycle)[j].record->0.org == roster[j].record->0.org
            &&& settled(roster, cycle)[j].record->0.worker_pubkey == roster[j].record->0.worker_pubkey
            &&& settled(roster, cycle)[j].record->0.bump == roster[j].record->0.bump
        },
        j % 2 == 0 && roster[j].record is Some && roster[j].record->0.last_paid_cycle >= cycle
            ==> settled(roster, cycle)[j] == roster[j],
{
}

/// Law: settling the same cycle twice is idempotent. Once a roster has
/// been settled for `cycle`, every worker in it carries a marker at or
/// above `cycle`, so a second settlement of that cycle finds the same
/// valid pairs, counts and pays out nothing, issues no transfers, and
/// leaves every record exactly as the first settlement left it.
pub proof fn lemma_settlement_idempotent(program: Seq<u8>, org_addr: Seq<u8>, roster: Seq<RosterAccount>, cycle: u64, n: int)
    requires
        0 <= n,
        2 * n <= roster.len(),
    ensures
        pairs_ok_upto(program, org_addr, roster, n)
            ==> pairs_ok_upto(program, org_addr, settled(roster, cycle), n),
        payout_upto(settled(roster, cycle), cycle, n) == 0,
        paid_upto(settled(roster, cycle), cycle, n) == 0,
        transfers_upto(settled(roster, cycle), cycle, n) == Seq::<Transfer>::empty(),
        settled(settled(roster, cycle), cycle) == settled(roster, cycle),
    decreases n,
{
    let s = settled(roster, cycle);
    if pairs_ok_upto(program, org_addr, roster, n) {
        assert forall|i: int| 0 <= i < n implies pair_ok(program, org_addr, s, i) by {
            assert(pair_ok(program, org_addr, roster, i));
            assert(s[2 * i].address == roster[2 * i].address);
            assert(s[2 * i + 1] == roster[2 * i + 1]);
        }
    }
    if n > 0 {
        lemma_settlement_idempotent(program, org_addr, roster, cycle, n - 1);
        assert(pair_payout(s, cycle, n - 1) == 0);
        assert(pair_paid_amount(s, cycle, n - 1) == 0);
        assert(transfers_upto(s, cycle, n) =~= Seq::<Transfer>::empty());
    }
    assert forall|j: int| 0 <= j < s.len() implies settled(s, cycle)[j] == s[j] by {
        if j % 2 == 0 && s[j].record is Some {
            assert(settle_worker(s[j].record->0, cycle) == s[j].record->0);
        }
    }
    assert(settled(s, cycle) =~= s);
}

/// Settles one payroll batch: pays every registered worker not yet paid for
/// `cycle_timestamp` its salary out of the organization's treasury.
///
/// `roster` is the flat caller-supplied batch, alternating claimed worker
/// record and claimed wallet; `caller` is the authenticated identity of the
/// signer and `org_address` the address the organization record was loaded
/// from. The validator checks the batch size and every pair's derivation
/// before anything else; feasibility then counts every eligible roster
/// occurrence, so a batch that names one record twice needs the treasury
/// to cover the doubled sum — yet pays the record only at its first
/// occurrence, since all its pairs alias one stored account. On success
/// the eligible workers carry the new cycle marker, the treasury is
/// debited by exactly the total paid, and the returned transfers — one
/// per paid pair, in roster order — are what the ledger must execute
/// within the same atomic call. On any rejection nothing is mutated.
#[verifier::loop_isolation(false)]
pub fn process_payroll(
    program_id: &[u8; 32],
    caller: &[u8; 32],
    org_address: &[u8; 32],
    org: &mut Organization,
    roster: &mut Vec<RosterAccount>,
    cycle_timestamp: u64,
) -> (r: Result<Vec<Transfer>, PayrollError>)
    ensures
        (r is Ok <==> {
            &&& caller@ == old(org).authority@
            &&& old(roster)@.len() == 2 * old(org).workers_count
            &&& pairs_ok_upto(program_id@, org_address@, old(roster)@, old(org).workers_count as int)
            &&& payout_upto(old(roster)@, cycle_timestamp, old(org).workers_count as int) <= old(org).treasury
        }),
        caller@ != old(org).authority@ ==> r == Err::<Vec<Transfer>, PayrollError>(PayrollError::Unauthorized),
        caller@ == old(org).authority@ && old(roster)@.len() != 2 * old(org).workers_count
            ==> r == Err::<Vec<Transfer>, PayrollError>(PayrollError::MissingWorkerAccount),
        caller@ == old(org).authority@ && old(roster)@.len() == 2 * old(org).workers_count
            && !pairs_derive_upto(program_id@, org_address@, old(roster)@, old(org).workers_count as int)
            ==> r == Err::<Vec<Transfer>, PayrollError>(PayrollError::InvalidWorkerPDA),
        caller@ == old(org).authority@ && old(roster)@.len() == 2 * old(org).workers_count
            && pairs_derive_upto(program_id@, org_address@, old(roster)@, old(org).workers_count as int)
            && pass_one(old(roster)@, cycle_timestamp) is Err
            ==> r == Err::<Vec<Transfer>, PayrollError>(pass_one(old(roster)@, cycle_timestamp)->Err_0),
        caller@ == old(org).authority@ && old(roster)@.len() == 2 * old(org).workers_count
            && pairs_derive_upto(program_id@, org_address@, old(roster)@, old(org).workers_count as int)
            && pass_one(old(roster)@, cycle_timestamp) is Ok
            && pass_one(old(roster)@, cycle_timestamp)->Ok_0 > old(org).treasury
            ==> r == Err::<Vec<Transfer>, PayrollError>(PayrollError::InsufficientFunds),
        r is Err ==> {
            &&& final(org).authority == old(org).authority
            &&& final(org).name@ == old(org).name@
            &&& final(org).treasury == old(org).treasury
            &&& final(org).workers_count == old(org).workers_count
            &&& final(org).bump == old(org).bump
            &&& final(roster)@ == old(roster)@
        },
        r is Ok ==> {
            &&& final(org).treasury == old(org).treasury
                - paid_upto(old(roster)@, cycle_timestamp, old(org).workers_count as int)
            &&& paid_upto(old(roster)@, cycle_timestamp, old(org).workers_count as int)
                <= old(org).treasury
            &&& final(org).authority == old(org).authority
            &&& final(org).name@ == old(org).name@
            &&& final(org).workers_count == old(org).workers_count
            &&& final(org).bump == old(org).bump
            &&& final(roster)@ == settled(old(roster)@, cycle_timestamp)
            &&& r->Ok_0@ == transfers_upto(old(roster)@, cycle_timestamp, old(org).workers_count as int)
        },
{
    if !addresses_equal(caller, &org.authority) {
        return Err(PayrollError::Unauthorized);
    }
    let roster_len: usize = roster.len();
    if org.workers_count > u64::MAX / 2 || (roster_len as u64) != 2 * org.workers_count {
        return Err(PayrollError::MissingWorkerAccount);
    }
    let num_workers: usize = roster_len / 2;
    let ghost p = program_id@;
    let ghost oa = org_address@;
    let ghost r0 = roster@;
    let ghost n: int = old(org).workers_count as int;
    assert(num_workers == n);
    assert(r0.len() == 2 * n);

    // Roster validator: re-derive every record address from the claimed
    // wallet before any record is even loaded; one bad pair rejects the
    // whole batch.
    let mut i: usize = 0;
    while i < num_workers
        invariant
            i <= num_workers,
            pairs_derive_upto(p, oa, r0, i as int),
        decreases num_workers - i,
    {
        let record_addr = roster[2 * i].address;
        let wallet_address = roster[2 * i + 1].address;
        let (expected, _salt) = derive_worker_address(program_id, org_address, &wallet_address);
        if !addresses_equal(&record_addr, &expected) {
            proof {
                assert(!pair_derives(p, oa, r0, i as int));
                assert(!pair_ok(p, oa, r0, i as int));
            }
            return Err(PayrollError::InvalidWorkerPDA);
        }
        proof {
            assert(pair_derives(p, oa, r0, i as int));
        }
        i = i + 1;
    }

    // Pass one: load each record and accumulate the feasibility sum —
    // every eligible occurrence counts — writing nothing, so that a
    // failure anywhere leaves every record untouched.
    let mut total: u64 = 0;
    let mut i: usize = 0;
    while i < num_workers
        invariant
            i <= num_workers,
            pairs_ok_upto(p, oa, r0, i as int),
            total == payout_upto(r0, cycle_timestamp, i as int),
            pass_one(r0, cycle_timestamp) == pass_one_from(r0, cycle_timestamp, i as int, total),
        decreases num_workers - i,
    {
        let record = roster[2 * i];
        match record.record {
            None => {
                proof {
                    assert(record == r0[2 * i]);
                    assert(!pair_ok(p, oa, r0, i as int));
                }
                return Err(PayrollError::MissingWorkerAccount);
            },
            Some(w) => {
                proof {
                    assert(pair_derives(p, oa, r0, i as int));
                    assert(pair_ok(p, oa, r0, i as int));
                }
                if w.last_paid_cycle < cycle_timestamp {
                    if total > u64::MAX - w.salary {
                        proof {
                            lemma_payout_monotonic(r0, cycle_timestamp, i + 1, n);
                        }
                        return Err(PayrollError::InsufficientFunds);
                    }
                    total = total + w.salary;
                }
            },
        }
        i = i + 1;
    }

    if org.treasury < total {
        return Err(PayrollError::InsufficientFunds);
    }

    // Pass two: the batch is feasible; mark each eligible worker paid,
    // record the transfer to its wallet at the record's first occurrence,
    // and debit the treasury.
    let ghost t0: u64 = old(org).treasury;
    assert(payout_upto(r0, cycle_timestamp, n) <= t0);
    let mut transfers: Vec<Transfer> = Vec::new();
    let mut i: usize = 0;
    while i < num_workers
        invariant
            i <= num_workers,
            roster@.len() == 2 * n,
            org.treasury == t0 - paid_upto(r0, cycle_timestamp, i as int),
            org.authority == old(org).authority,
            org.name@ == old(org).name@,
            org.workers_count == old(org).workers_count,
            org.bump == old(org).bump,
            forall|j: int| 2 * i <= j < 2 * n ==> roster@[j] == r0[j],
            forall|j: int| 0 <= j < 2 * i ==> roster@[j] == settled(r0, cycle_timestamp)[j],
            transfers@ == transfers_upto(r0, cycle_timestamp, i as int),
        decreases num_workers - i,
    {
        let record = roster[2 * i];
        match record.record {
            Some(w) => {
                if w.last_paid_cycle < cycle_timestamp {
                    // Is this pair its record's first occurrence? A later
                    // one aliases a record the first already settled.
                    let mut duplicate = false;
                    let mut j: usize = 0;
                    while j < i
                        invariant
                            j <= i,
                            duplicate ==> !pair_distinct(r0, i as int),
                            !duplicate ==> (forall|t: int| 0 <= t < j ==> record_address(r0, t) != record.address@),
                        decreases i - j,
                    {
                        if addresses_equal(&roster[2 * j].address, &record.address) {
                            proof {
                                assert(roster@[2 * j] == settled(r0, cycle_timestamp)[2 * j]);
                                assert(settled(r0, cycle_timestamp)[2 * j].address == r0[2 * j].address);
                                assert(record == r0[2 * i]);
                                assert(record_address(r0, j as int) == record_address(r0, i as int));
                                assert(!pair_distinct(r0, i as int));
                            }
                            duplicate = true;
                        }
                        j = j + 1;
                    }
                    let updated = Worker {
                        org: w.org,
                        worker_pubkey: w.worker_pubkey,
                        salary: w.salary,
                        last_paid_cycle: cycle_timestamp,
                        bump: w.bump,
                    };
                    roster[2 * i] = RosterAccount { address: record.address, record: Some(updated) };
                    if !duplicate {
                        proof {
                            assert(record == r0[2 * i]);
                            assert(pair_distinct(r0, i as int));
                            assert(pair_paid(r0, cycle_timestamp, i as int));
                            lemma_paid_monotonic(r0, cycle_timestamp, i + 1, n);
                            lemma_paid_le_payout(r0, cycle_timestamp, n);
                        }
                        let wallet_address = roster[2 * i + 1].address;
                        transfers.push(Transfer { to: wallet_address, amount: w.salary });
                        proof {
                            assert(transfers@ =~= transfers_upto(r0, cycle_timestamp, i + 1));
                        }
                        org.treasury = org.treasury - w.salary;
                    } else {
                        proof {
                            assert(transfers@ =~= transfers_upto(r0, cycle_timestamp, i + 1));
                        }
                    }
                } else {
                    proof {
                        assert(roster@[2 * i] == settled(r0, cycle_timestamp)[2 * i]);
                        assert(transfers@ =~= transfers_upto(r0, cycle_timestamp, i + 1));
                    }
                }
            },
            None => {
                proof {
                    assert(pair_ok(p, oa, r0, i as int));
                    assert(false);
                }
            },
        }
        i = i + 1;
    }
    proof {
        assert(roster@ =~= settled(r0, cycle_timestamp));
    }
    Ok(transfers)
}

} // verus!
