//! Authority derivation.
//!
//! The program's signing identity is an address derived deterministically
//! from a fixed namespace salt and a one-byte discriminant (the "bump").
//! The discriminant is chosen once, when the configuration record is
//! created, and stored in it; every later privileged call re-derives the
//! address from the salt and the stored discriminant and compares it with
//! the record's own address. No private key exists anywhere.

use vstd::prelude::*;
use crate::addr::{is_address, addr_eq};

verus! {

/// The bytes of the fixed namespace salt, `token_data`.
pub open spec fn authority_seed_spec() -> Seq<u8> {
    seq![116u8, 111u8, 107u8, 101u8, 110u8, 95u8, 100u8, 97u8, 116u8, 97u8]
}

/// The fixed namespace salt as a byte vector.
pub fn authority_seed() -> (r: Vec<u8>)
    ensures
        r@ == authority_seed_spec(),
{
    let mut r: Vec<u8> = Vec::new();
    r.push(116);
    r.push(111);
    r.push(107);
    r.push(101);
    r.push(110);
    r.push(95);
    r.push(100);
    r.push(97);
    r.push(116);
    r.push(97);
    proof {
        assert(r@ =~= authority_seed_spec());
    }
    r
}

/// The address that the host ledger's one-way derivation yields for a seed,
/// a discriminant and a program id — or `None` when that combination yields
/// no valid program-owned address.
pub uninterp spec fn derived_address(seed: Seq<u8>, bump: u8, program_id: Seq<u8>) -> Option<Seq<u8>>;

/// Relies on `Pubkey::create_program_address` (through `anchor_lang`'s
/// re-export of `solana_program`): off the ledger it hashes the seeds, the
/// program id and a fixed marker with SHA-256, failing exactly when a seed
/// is over-long or the digest lies on the ed25519 curve — a function of its
/// arguments alone.
#[verifier::external_body]
fn create_address_bytes(seed: &Vec<u8>, bump: u8, program_id: &Vec<u8>) -> (r: Option<Vec<u8>>)
    requires
        is_address(program_id@),
    ensures
        (match r {
            Some(a) => derived_address(seed@, bump, program_id@) == Some(a@) && is_address(a@),
            None => derived_address(seed@, bump, program_id@) is None,
        }),
{
    let pid = anchor_lang::solana_program::pubkey::Pubkey::try_from(program_id.as_slice()).unwrap();
    match anchor_lang::solana_program::pubkey::Pubkey::create_program_address(
        &[seed.as_slice(), &[bump]],
        &pid,
    ) {
        Ok(a) => Some(a.to_bytes().to_vec()),
        Err(_) => None,
    }
}

/// Relies on `Pubkey::try_find_program_address`: it tries discriminants
/// from 255 downward and returns the first pair whose derivation succeeds,
/// so any returned pair re-derives to the returned address — a function of
/// its arguments alone.
#[verifier::external_body]
fn find_address_bytes(seed: &Vec<u8>, program_id: &Vec<u8>) -> (r: Option<(Vec<u8>, u8)>)
    requires
        is_address(program_id@),
    ensures
        (match r {
            Some(p) => derived_address(seed@, p.1, program_id@) == Some(p.0@) && is_address(p.0@),
            None => true,
        }),
{
    let pid = anchor_lang::solana_program::pubkey::Pubkey::try_from(program_id.as_slice()).unwrap();
    match anchor_lang::solana_program::pubkey::Pubkey::try_find_program_address(
        &[seed.as_slice()],
        &pid,
    ) {
        Some((a, b)) => Some((a.to_bytes().to_vec(), b)),
        None => None,
    }
}

/// Derives the authority address for a discriminant, or `None` when the
/// fixed salt and this discriminant yield no valid address.
pub fn derive_authority_address(bump: u8, program_id: &Vec<u8>) -> (r: Option<Vec<u8>>)
    requires
        is_address(program_id@),
    ensures
        (match r {
            Some(a) => derived_address(authority_seed_spec(), bump, program_id@) == Some(a@)
                && is_address(a@),
            None => derived_address(authority_seed_spec(), bump, program_id@) is None,
        }),
{
    let seed = authority_seed();
    create_address_bytes(&seed, bump, program_id)
}

/// Searches for a discriminant under the fixed salt; the returned pair
/// re-derives to the returned address.
pub fn find_authority_address(program_id: &Vec<u8>) -> (r: Option<(Vec<u8>, u8)>)
    requires
        is_address(program_id@),
    ensures
        (match r {
            Some(p) => derived_address(authority_seed_spec(), p.1, program_id@) == Some(p.0@)
                && is_address(p.0@),
            None => true,
        }),
{
    let seed = authority_seed();
    find_address_bytes(&seed, program_id)
}

/// True exactly when the discriminant re-derives the expected address under
/// the fixed salt.
pub open spec fn rederives(bump: u8, expected: Seq<u8>, program_id: Seq<u8>) -> bool {
    derived_address(authority_seed_spec(), bump, program_id) == Some(expected)
}

/// Re-derives the authority address from a discriminant and compares it
/// with the address a record claims for itself.
pub fn check_derived(expected: &Vec<u8>, bump: u8, program_id: &Vec<u8>) -> (r: bool)
    requires
        is_address(program_id@),
    ensures
        r == rederives(bump, expected@, program_id@),
{
    match derive_authority_address(bump, program_id) {
        Some(a) => addr_eq(&a, expected),
        None => false,
    }
}

/// The derivation is a function of the salt, the discriminant and the
/// program id alone: a stored discriminant can only ever reproduce the one
/// address the record was created at, and a discriminant that derives a
/// different address can never pass the comparison against the record's
/// own address.
pub proof fn lemma_derivation_deterministic(bump: u8, program_id: Seq<u8>, a1: Seq<u8>, a2: Seq<u8>)
    ensures
        rederives(bump, a1, program_id) && rederives(bump, a2, program_id) ==> a1 == a2,
        derived_address(authority_seed_spec(), bump, program_id) != Some(a1)
            ==> !rederives(bump, a1, program_id),
{
}

} // verus!
