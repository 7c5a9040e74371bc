//! The persisted entities and the plain-value account images that the
//! settlement engine works on.
//!
//! Addresses and identities are 32-byte values, the form in which the ledger
//! keys its records. An organization's `name` is carried as its UTF-8 bytes,
//! which is also the form the address derivation consumes.

use vstd::prelude::*;

verus! {

/// Upper bound, in bytes, on an organization's stored name.
pub const MAX_NAME_LEN: usize = 100;

/// The paying entity: a pooled treasury, its controlling authority and the
/// count of registered workers.
#[derive(Clone, Debug, PartialEq, Eq)]
pub struct Organization {
    /// Identity of the sole principal allowed to settle and withdraw.
    pub authority: [u8; 32],
    /// UTF-8 bytes of the organization's name; immutable after creation and
    /// part of the organization's derived address.
    pub name: Vec<u8>,
    /// Pooled balance, in the smallest transferable unit.
    pub treasury: u64,
    /// Number of registered workers; sizes every settlement batch.
    pub workers_count: u64,
    /// Derivation salt produced when the organization's address was derived;
    /// regenerates the address that authorizes transfers on its behalf.
    pub bump: u8,
}

/// A payee: salary per cycle and the marker of the last cycle it was paid
/// for.
#[derive(Clone, Copy, Debug, PartialEq, Eq)]
pub struct Worker {
    /// Derived address of the owning organization.
    pub org: [u8; 32],
    /// The worker's payout destination identity.
    pub worker_pubkey: [u8; 32],
    /// Amount paid in every cycle the worker is eligible for.
    pub salary: u64,
    /// Monotonic cycle marker; the worker is skipped for any cycle at or
    /// below it.
    pub last_paid_cycle: u64,
    /// Derivation salt of the worker record's own address.
    pub bump: u8,
}

/// One caller-supplied account reference of a settlement batch: the address
/// the account lives at and, where the account holds one, its decoded worker
/// record.
///
/// A roster is a flat sequence of these, alternating worker record and
/// worker wallet; wallet entries carry no record.
#[derive(Clone, Copy, Debug, PartialEq, Eq)]
pub struct RosterAccount {
    /// The address the account was loaded from.
    pub address: [u8; 32],
    /// The worker record stored at that address, if any.
    pub record: Option<Worker>,
}

/// One transfer the ledger is asked to perform on the organization's
/// behalf: `amount` units from the treasury to `to`.
#[derive(Clone, Copy, Debug, PartialEq, Eq)]
pub struct Transfer {
    /// Destination identity.
    pub to: [u8; 32],
    /// Amount moved, in the smallest transferable unit.
    pub amount: u64,
}

} // verus!
