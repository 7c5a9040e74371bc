//! Treasury withdrawal: the authority extracts funds from the pooled
//! balance, sharing the transfer primitive with the settlement engine.

use vstd::prelude::*;

use crate::addresses::addresses_equal;
use crate::states::{Organization, Transfer};
use crate::PayrollError;

verus! {

/// Withdraws `amount` units from the treasury to the authority's own
/// wallet.
///
/// Rejected, mutating nothing, when the caller is not the authority, when
/// the amount is zero, or when the treasury cannot cover it. On success the
/// treasury is debited by exactly `amount` and the returned transfer — to
/// the authority, of `amount` — is what the ledger must execute within the
/// same atomic call.
pub fn withdraw(caller: &[u8; 32], org: &mut Organization, amount: u64) -> (r: Result<Transfer, PayrollError>)
    ensures
        (r is Ok <==> caller@ == old(org).authority@ && amount > 0 && amount <= old(org).treasury),
        caller@ != old(org).authority@ ==> r == Err::<Transfer, PayrollError>(PayrollError::Unauthorized),
        caller@ == old(org).authority@ && amount == 0
            ==> r == Err::<Transfer, PayrollError>(PayrollError::InvalidAmount),
        caller@ == old(org).authority@ && amount > 0 && amount > old(org).treasury
            ==> r == Err::<Transfer, PayrollError>(PayrollError::InsufficientFunds),
        r is Err ==> {
            &&& final(org).authority == old(org).authority
            &&& final(org).name@ == old(org).name@
            &&& final(org).treasury == old(org).treasury
            &&& final(org).workers_count == old(org).workers_count
            &&& final(org).bump == old(org).bump
        },
        r is Ok ==> {
            &&& final(org).treasury == old(org).treasury - amount
            &&& final(org).authority == old(org).authority
            &&& final(org).name@ == old(org).name@
            &&& final(org).workers_count == old(org).workers_count
            &&& final(org).bump == old(org).bump
            &&& r->Ok_0 == (Transfer { to: old(org).authority, amount })
        },
{
    if !addresses_equal(caller, &org.authority) {
        return Err(PayrollError::Unauthorized);
    }
    if amount == 0 {
        return Err(PayrollError::InvalidAmount);
    }
    if org.treasury < amount {
        return Err(PayrollError::InsufficientFunds);
    }
    let destination = org.authority;
    org.treasury = org.treasury - amount;
    Ok(Transfer { to: destination, amount })
}

} // verus!
