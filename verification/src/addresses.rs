//! Address derivation: deterministic, domain-separated mappings from an
//! entity's defining attributes to the ledger address its record lives at.
//!
//! There is no stored membership index. A worker record belongs to an
//! organization exactly when the record's address equals
//! `worker_address_of(program, organization address, wallet)`, so every
//! component that receives a caller-supplied record re-derives the expected
//! address and rejects on mismatch.

use vstd::prelude::*;

verus! {

/// The address derived for an organization record from the program
/// identity, the authority's identity and the organization name's bytes.
pub uninterp spec fn org_address_of(program: Seq<u8>, authority: Seq<u8>, name: Seq<u8>) -> Seq<u8>;

/// The address derived for a worker record from the program identity, the
/// owning organization's address and the worker's wallet identity.
pub uninterp spec fn worker_address_of(program: Seq<u8>, org: Seq<u8>, wallet: Seq<u8>) -> Seq<u8>;

/// Derives an organization record's address and its salt byte.
///
/// Relies on `anchor_lang::prelude::Pubkey::find_program_address`: a pure,
/// collision-resistant function of the program id and the seed list, here
/// the domain tag `"org"`, the authority's bytes and the name's bytes. Each
/// seed is capped at 32 bytes, hence the bound on the name; the function is
/// assumed to find a salt for well-sized seeds, as the ledger's own account
/// creation does.
#[verifier::external_body]
pub fn derive_org_address(program_id: &[u8; 32], authority: &[u8; 32], name: &Vec<u8>) -> (r: ([u8; 32], u8))
    requires
        name@.len() <= 32,
    ensures
        r.0@ == org_address_of(program_id@, authority@, name@),
{
    let (address, bump) = anchor_lang::prelude::Pubkey::find_program_address(
        &[b"org", authority.as_slice(), name.as_slice()],
        &anchor_lang::prelude::Pubkey::new_from_array(*program_id),
    );
    (address.to_bytes(), bump)
}

/// Derives a worker record's address and its salt byte.
///
/// Relies on `anchor_lang::prelude::Pubkey::find_program_address`: a pure,
/// collision-resistant function of the program id and the seed list, here
/// the domain tag `"worker"`, the organization's address bytes and the
/// wallet's bytes; assumed to find a salt, as above.
#[verifier::external_body]
pub fn derive_worker_address(program_id: &[u8; 32], org: &[u8; 32], wallet: &[u8; 32]) -> (r: ([u8; 32], u8))
    ensures
        r.0@ == worker_address_of(program_id@, org@, wallet@),
{
    let (address, bump) = anchor_lang::prelude::Pubkey::find_program_address(
        &[b"worker", org.as_slice(), wallet.as_slice()],
        &anchor_lang::prelude::Pubkey::new_from_array(*program_id),
    );
    (address.to_bytes(), bump)
}

/// Compares two addresses byte for byte.
pub fn addresses_equal(a: &[u8; 32], b: &[u8; 32]) -> (r: bool)
    ensures
        r == (a@ == b@),
{
    let mut i: usize = 0;
    while i < 32
        invariant
            i <= 32,
            forall|j: int| 0 <= j < i ==> a@[j] == b@[j],
        decreases 32 - i,
    {
        if a[i] != b[i] {
            assert(a@ != b@);
            return false;
        }
        i += 1;
    }
    assert(a@ =~= b@);
    true
}

} // verus!
