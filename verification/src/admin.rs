//! Creation and funding of the persisted entities. The ledger itself
//! allocates the records; these functions build the entity values stored in
//! them and keep the organization's counters right.

use vstd::prelude::*;

use crate::addresses::{derive_org_address, derive_worker_address, org_address_of, worker_address_of};
use crate::states::{Organization, Worker, MAX_NAME_LEN};

verus! {

/// Builds a new organization and the derived address its record lives at.
///
/// The name is carried as UTF-8 bytes; it is bounded by the storage cap and
/// by the 32-byte limit a single derivation seed may have. The new
/// organization starts with an empty treasury and no workers.
pub fn create_org(program_id: &[u8; 32], authority: &[u8; 32], name: Vec<u8>) -> (r: ([u8; 32], Organization))
    requires
        name@.len() <= 32,
        name@.len() <= MAX_NAME_LEN,
    ensures
        r.0@ == org_address_of(program_id@, authority@, name@),
        r.1.authority == *authority,
        r.1.name@ == name@,
        r.1.treasury == 0,
        r.1.workers_count == 0,
{
    let (address, bump) = derive_org_address(program_id, authority, &name);
    let org = Organization {
        authority: *authority,
        name,
        treasury: 0,
        workers_count: 0,
        bump,
    };
    (address, org)
}

/// Registers one more worker for the organization at `org_address`: builds
/// the worker record and the derived address it must be stored at, and
/// counts it, so that future settlement batches are sized to include it.
pub fn add_worker(
    program_id: &[u8; 32],
    org_address: &[u8; 32],
    org: &mut Organization,
    worker_pubkey: &[u8; 32],
    salary: u64,
) -> (r: ([u8; 32], Worker))
    requires
        old(org).workers_count < u64::MAX,
    ensures
        final(org).workers_count == old(org).workers_count + 1,
        final(org).authority == old(org).authority,
        final(org).name@ == old(org).name@,
        final(org).treasury == old(org).treasury,
        final(org).bump == old(org).bump,
        r.0@ == worker_address_of(program_id@, org_address@, worker_pubkey@),
        r.1.org == *org_address,
        r.1.worker_pubkey == *worker_pubkey,
        r.1.salary == salary,
        r.1.last_paid_cycle == 0,
{
    let (address, bump) = derive_worker_address(program_id, org_address, worker_pubkey);
    let worker = Worker {
        org: *org_address,
        worker_pubkey: *worker_pubkey,
        salary,
        last_paid_cycle: 0,
        bump,
    };
    org.workers_count = org.workers_count + 1;
    (address, worker)
}

/// Deposits `amount` units into the treasury.
pub fn fund_treasury(org: &mut Organization, amount: u64)
    requires
        old(org).treasury + amount <= u64::MAX,
    ensures
        final(org).treasury == old(org).treasury + amount,
        final(org).authority == old(org).authority,
        final(org).name@ == old(org).name@,
        final(org).workers_count == old(org).workers_count,
        final(org).bump == old(org).bump,
{
    org.treasury = org.treasury + amount;
}

} // verus!
