//! The derived-address authority model.
//!
//! A vesting account lives at an address computed deterministically from
//! seed bytes plus a bump byte, chosen so the address has no private key.
//! Every mutating instruction recomputes that address and compares it to
//! the account the caller supplied; a mismatch is fatal. The derivation
//! itself is the ledger SDK's; its result is named, not restated.

use vstd::prelude::*;

use crate::keys::Pubkey;

verus! {

/// The address that the ledger SDK derives from seed bytes and an owning
/// program, or nothing when the candidate bumps all fall on the curve or
/// a seed is over-long. A pure function of its arguments.
pub uninterp spec fn pda_of(seeds: Seq<Seq<u8>>, program: Seq<u8>) -> Option<Seq<u8>>;

/// The first valid derived address and its bump seed, searching bumps
/// downward from 255, or nothing when no bump is valid. A pure function
/// of its arguments.
pub uninterp spec fn fpa_of(seeds: Seq<Seq<u8>>, program: Seq<u8>) -> Option<(Seq<u8>, u8)>;

/// Relies on solana_program's Pubkey::create_program_address: the
/// derived address for these exact seeds, or an error when a seed is
/// over-long or the result falls on the curve.
#[verifier::external_body]
fn create_program_address_raw(seeds: &Vec<Vec<u8>>, program_id: &Pubkey) -> (r: Option<Pubkey>)
    ensures
        match r {
            Some(p) => pda_of(seeds.deep_view(), program_id@) == Some(p@),
            None => pda_of(seeds.deep_view(), program_id@) is None,
        },
{
    let refs: Vec<&[u8]> = seeds.iter().map(|s| s.as_slice()).collect();
    let program = solana_program::pubkey::Pubkey::new_from_array(program_id.0);
    match solana_program::pubkey::Pubkey::create_program_address(&refs, &program) {
        Ok(p) => Some(Pubkey(p.to_bytes())),
        Err(_) => None,
    }
}

/// Relies on solana_program's Pubkey::try_find_program_address: the
/// first valid derived address and its bump, or nothing.
#[verifier::external_body]
fn try_find_program_address_raw(seeds: &Vec<Vec<u8>>, program_id: &Pubkey) -> (r: Option<
    (Pubkey, u8),
>)
    ensures
        match r {
            Some(p) => fpa_of(seeds.deep_view(), program_id@) == Some((p.0@, p.1)),
            None => fpa_of(seeds.deep_view(), program_id@) is None,
        },
{
    let refs: Vec<&[u8]> = seeds.iter().map(|s| s.as_slice()).collect();
    let program = solana_program::pubkey::Pubkey::new_from_array(program_id.0);
    match solana_program::pubkey::Pubkey::try_find_program_address(&refs, &program) {
        Some((p, bump)) => Some((Pubkey(p.to_bytes()), bump)),
        None => None,
    }
}

/// Turns an address into the one-element seed vector its bytes form.
fn seed_vec(seed: &Pubkey) -> (r: Vec<Vec<u8>>)
    ensures
        r.deep_view() == seq![seed@],
{
    let mut bytes: Vec<u8> = Vec::new();
    seed.append_to(&mut bytes);
    let mut seeds: Vec<Vec<u8>> = Vec::new();
    seeds.push(bytes);
    proof {
        assert(seeds.deep_view()[0] =~= seed@);
        assert(seeds.deep_view() =~~= seq![seed@]);
    }
    seeds
}

/// The canonical vesting address for a 32-byte seed, or nothing when the
/// seed derives no valid address.
pub fn derive_address(seed: &Pubkey, program_id: &Pubkey) -> (r: Option<Pubkey>)
    ensures
        match r {
            Some(p) => pda_of(seq![seed@], program_id@) == Some(p@),
            None => pda_of(seq![seed@], program_id@) is None,
        },
{
    let seeds = seed_vec(seed);
    create_program_address_raw(&seeds, program_id)
}

/// Recomputes the canonical address for `seed` and compares it with the
/// caller-supplied candidate. True exactly when they match.
pub fn verify(candidate: &Pubkey, seed: &Pubkey, program_id: &Pubkey) -> (r: bool)
    ensures
        r == (pda_of(seq![seed@], program_id@) == Some(candidate@)),
{
    match derive_address(seed, program_id) {
        Some(p) => {
            let eq = p == *candidate;
            proof {
                if eq {
                    assert(p@ =~= candidate@);
                    assert(pda_of(seq![seed@], program_id@) == Some(candidate@));
                }
            }
            eq
        },
        None => false,
    }
}

/// The derived address and bump for arbitrary seed material, searching
/// bumps downward, or nothing when no bump is valid.
pub fn find_derived_address(seeds: &Vec<Vec<u8>>, program_id: &Pubkey) -> (r: Option<(Pubkey, u8)>)
    ensures
        match r {
            Some(p) => fpa_of(seeds.deep_view(), program_id@) == Some((p.0@, p.1)),
            None => fpa_of(seeds.deep_view(), program_id@) is None,
        },
{
    try_find_program_address_raw(seeds, program_id)
}

} // verus!
