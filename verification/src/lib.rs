//! Batch payroll settlement engine.
//!
//! An organization holds a pooled `treasury` and periodically pays a roster
//! of workers, each at most once per settlement cycle. Worker records are
//! bound to their organization by a derived address rather than by a stored
//! membership list, so every caller-supplied record is re-checked against the
//! derivation before any funds move. The settlement itself runs in two
//! passes: the first validates the whole batch and computes the total payout
//! without writing anything, the second applies the per-worker updates and
//! emits the transfers.
//!
//! Record storage, transaction atomicity and caller authentication are the
//! business of the surrounding ledger: this crate receives the loaded
//! records and the authenticated caller identity as plain values, decides,
//! and hands back the mutated records together with the transfers to issue.

use vstd::prelude::*;

pub mod addresses;
pub mod admin;
pub mod settlement;
pub mod states;
pub mod withdrawal;

verus! {

/// The reasons a settlement or withdrawal call is rejected. Every rejection
/// happens before any record is mutated.
#[derive(Clone, Copy, Debug, PartialEq, Eq, Structural)]
pub enum PayrollError {
    /// The caller is not the organization's authority.
    Unauthorized,
    /// A withdrawal of zero was requested.
    InvalidAmount,
    /// A claimed worker record's address does not match the address derived
    /// from the organization and the claimed wallet.
    InvalidWorkerPDA,
    /// The roster's size is not one (record, wallet) account pair per
    /// registered worker, or a record slot holds no worker record.
    MissingWorkerAccount,
    /// The treasury cannot cover the total payout, or accumulating the
    /// payout would overflow.
    InsufficientFunds,
}

} // verus!
