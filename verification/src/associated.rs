//! The associated vesting account program.
//!
//! Derives the canonical vesting account address for a wallet and mint,
//! checks a caller-supplied account against it, and decides how the
//! account is brought into existence: topping up and assigning an
//! address that already holds funds, or creating it outright. The
//! caller performs the chosen allocation steps.

use vstd::prelude::*;

use crate::authority::{find_derived_address, fpa_of};
use crate::error::ErrorCode;
use crate::keys::Pubkey;
use crate::state::STATE_LEN;

verus! {

/// The associated-account program's instruction set.
#[derive(Clone, Copy, Debug, PartialEq, Eq, Structural)]
pub enum AssociatedVestingIx {
    Create,
}

/// An empty record, or a single zero tag byte, decodes as Create.
pub open spec fn spec_associated_ix_bytes_valid(s: Seq<u8>) -> bool {
    s.len() == 0 || (s.len() == 1 && s[0] == 0)
}

impl AssociatedVestingIx {
    /// Decodes the instruction record.
    pub fn unpack(data: &Vec<u8>) -> (r: Result<AssociatedVestingIx, ErrorCode>)
        ensures
            spec_associated_ix_bytes_valid(data@) ==> r == Ok::<AssociatedVestingIx, ErrorCode>(
                AssociatedVestingIx::Create,
            ),
            !spec_associated_ix_bytes_valid(data@) ==> r == Err::<AssociatedVestingIx, ErrorCode>(
                ErrorCode::InvalidInstruction,
            ),
    {
        let n = data.len();
        if n == 0 || (n == 1 && data[0] == 0) {
            Ok(AssociatedVestingIx::Create)
        } else {
            Err(ErrorCode::InvalidInstruction)
        }
    }
}

/// The three seeds the associated vesting address is derived from.
fn associated_seeds(wallet_address: &Pubkey, mint: &Pubkey, vesting_program: &Pubkey) -> (r: Vec<
    Vec<u8>,
>)
    ensures
        r.deep_view() == seq![wallet_address@, vesting_program@, mint@],
{
    let mut w: Vec<u8> = Vec::new();
    wallet_address.append_to(&mut w);
    let mut v: Vec<u8> = Vec::new();
    vesting_program.append_to(&mut v);
    let mut m: Vec<u8> = Vec::new();
    mint.append_to(&mut m);
    let mut seeds: Vec<Vec<u8>> = Vec::new();
    seeds.push(w);
    seeds.push(v);
    seeds.push(m);
    proof {
        assert(seeds.deep_view()[0] =~= wallet_address@);
        assert(seeds.deep_view()[1] =~= vesting_program@);
        assert(seeds.deep_view()[2] =~= mint@);
        assert(seeds.deep_view() =~~= seq![wallet_address@, vesting_program@, mint@]);
    }
    seeds
}

/// The associated vesting address and its bump seed, or nothing when no
/// bump derives a valid address.
pub fn get_associated_vesting_address_and_bump_seed_internal(
    wallet_address: &Pubkey,
    mint: &Pubkey,
    program_id: &Pubkey,
    vesting_program: &Pubkey,
) -> (r: Option<(Pubkey, u8)>)
    ensures
        match r {
            Some(p) => fpa_of(seq![wallet_address@, vesting_program@, mint@], program_id@)
                == Some((p.0@, p.1)),
            None => fpa_of(seq![wallet_address@, vesting_program@, mint@], program_id@) is None,
        },
{
    let seeds = associated_seeds(wallet_address, mint, vesting_program);
    find_derived_address(&seeds, program_id)
}

/// The associated vesting address and its bump seed.
pub fn get_associated_vesting_address_and_bump_seed(
    wallet_address: &Pubkey,
    mint: &Pubkey,
    program_id: &Pubkey,
    vesting_program: &Pubkey,
) -> (r: Option<(Pubkey, u8)>)
    ensures
        match r {
            Some(p) => fpa_of(seq![wallet_address@, vesting_program@, mint@], program_id@)
                == Some((p.0@, p.1)),
            None => fpa_of(seq![wallet_address@, vesting_program@, mint@], program_id@) is None,
        },
{
    get_associated_vesting_address_and_bump_seed_internal(
        wallet_address,
        mint,
        program_id,
        vesting_program,
    )
}

/// The associated vesting address for a wallet and mint.
pub fn get_associated_vesting_address(
    wallet_address: &Pubkey,
    mint: &Pubkey,
    program_id: &Pubkey,
    vesting_program: &Pubkey,
) -> (r: Option<Pubkey>)
    ensures
        match r {
            Some(p) => (match fpa_of(
                seq![wallet_address@, vesting_program@, mint@],
                program_id@,
            ) {
                Some(q) => q.0 == p@,
                None => false,
            }),
            None => fpa_of(seq![wallet_address@, vesting_program@, mint@], program_id@) is None,
        },
{
    match get_associated_vesting_address_and_bump_seed(
        wallet_address,
        mint,
        program_id,
        vesting_program,
    ) {
        Some((p, _)) => Some(p),
        None => None,
    }
}

/// How a derived account is brought into existence.
#[derive(Clone, Copy, Debug, PartialEq, Eq, Structural)]
pub enum CreatePlan {
    /// The address already holds funds: top it up to the rent minimum
    /// (a zero amount means no transfer), then allocate `space` bytes
    /// and assign the owner.
    TopUp { transfer_amount: u64, space: u64 },
    /// A fresh address: one combined create step with these lamports.
    CreateAccount { lamports: u64, space: u64 },
}

/// The rent floor: the rent minimum, and at least one lamport.
pub open spec fn spec_rent_floor(rent_minimum: u64) -> int {
    if rent_minimum >= 1 {
        rent_minimum as int
    } else {
        1
    }
}

/// Decides the allocation steps for a derived account, from its current
/// balance and the rent minimum for `space` bytes.
pub fn plan_pda_account(existing_lamports: u64, rent_minimum: u64, space: u64) -> (r: CreatePlan)
    ensures
        existing_lamports > 0 ==> r == (CreatePlan::TopUp {
            transfer_amount: (if spec_rent_floor(rent_minimum) > existing_lamports {
                (spec_rent_floor(rent_minimum) - existing_lamports) as u64
            } else {
                0u64
            }),
            space,
        }),
        existing_lamports == 0 ==> r == (CreatePlan::CreateAccount {
            lamports: spec_rent_floor(rent_minimum) as u64,
            space,
        }),
{
    let floor: u64 = if rent_minimum >= 1 {
        rent_minimum
    } else {
        1
    };
    if existing_lamports > 0 {
        let transfer_amount: u64 = if floor > existing_lamports {
            floor - existing_lamports
        } else {
            0
        };
        CreatePlan::TopUp { transfer_amount, space }
    } else {
        CreatePlan::CreateAccount { lamports: floor, space }
    }
}

pub struct Processor;

impl Processor {
    /// Create: verifies the supplied account is the derived associated
    /// vesting address and still owned by the system program, then
    /// decides its allocation, sized for a full vesting state record.
    pub fn process_create_associated_vesting_account(
        program_id: &Pubkey,
        wallet: &Pubkey,
        mint: &Pubkey,
        vesting_account_key: &Pubkey,
        vesting_account_owner: &Pubkey,
        vesting_program: &Pubkey,
        existing_lamports: u64,
        rent_minimum: u64,
    ) -> (r: Result<(u8, CreatePlan), ErrorCode>)
        ensures
            ({
                let derived = fpa_of(seq![wallet@, vesting_program@, mint@], program_id@);
                match r {
                    Ok((bump, plan)) => {
                        &&& (match derived {
                            Some(q) => q.0 == vesting_account_key@ && q.1 == bump,
                            None => false,
                        })
                        &&& vesting_account_owner@ == Seq::new(32, |i: int| 0u8)
                        &&& plan == (if existing_lamports > 0 {
                            CreatePlan::TopUp {
                                transfer_amount: (if spec_rent_floor(rent_minimum)
                                    > existing_lamports {
                                    (spec_rent_floor(rent_minimum) - existing_lamports) as u64
                                } else {
                                    0u64
                                }),
                                space: STATE_LEN as u64,
                            }
                        } else {
                            CreatePlan::CreateAccount {
                                lamports: spec_rent_floor(rent_minimum) as u64,
                                space: STATE_LEN as u64,
                            }
                        })
                    },
                    Err(e) => {
                        &&& (e == ErrorCode::InvalidSeeds <==> (match derived {
                            Some(q) => q.0 != vesting_account_key@,
                            None => true,
                        }))
                        &&& (e == ErrorCode::IllegalOwner <==> ((match derived {
                            Some(q) => q.0 == vesting_account_key@,
                            None => false,
                        }) && vesting_account_owner@ != Seq::new(32, |i: int| 0u8)))
                        &&& (e == ErrorCode::InvalidSeeds || e == ErrorCode::IllegalOwner)
                    },
                }
            }),
    {
        let derived = get_associated_vesting_address_and_bump_seed_internal(
            wallet,
            mint,
            program_id,
            vesting_program,
        );
        let (address, bump) = match derived {
            Some(p) => p,
            None => {
                return Err(ErrorCode::InvalidSeeds);
            },
        };
        if !(address == *vesting_account_key) {
            return Err(ErrorCode::InvalidSeeds);
        }
        let system_program = Pubkey::zeroed();
        if !(*vesting_account_owner == system_program) {
            return Err(ErrorCode::IllegalOwner);
        }
        let plan = plan_pda_account(existing_lamports, rent_minimum, STATE_LEN as u64);
        Ok((bump, plan))
    }

    /// Decodes the record and runs the only instruction this program
    /// has.
    pub fn process(
        program_id: &Pubkey,
        wallet: &Pubkey,
        mint: &Pubkey,
        vesting_account_key: &Pubkey,
        vesting_account_owner: &Pubkey,
        vesting_program: &Pubkey,
        existing_lamports: u64,
        rent_minimum: u64,
        data: &Vec<u8>,
    ) -> (r: Result<(u8, CreatePlan), ErrorCode>)
        ensures
            !spec_associated_ix_bytes_valid(data@) ==> r == Err::<(u8, CreatePlan), ErrorCode>(
                ErrorCode::InvalidInstruction,
            ),
            spec_associated_ix_bytes_valid(data@) ==> ({
                let derived = fpa_of(seq![wallet@, vesting_program@, mint@], program_id@);
                match r {
                    Ok((bump, plan)) => {
                        &&& (match derived {
                            Some(q) => q.0 == vesting_account_key@ && q.1 == bump,
                            None => false,
                        })
                        &&& vesting_account_owner@ == Seq::new(32, |i: int| 0u8)
                        &&& plan == (if existing_lamports > 0 {
                            CreatePlan::TopUp {
                                transfer_amount: (if spec_rent_floor(rent_minimum)
                                    > existing_lamports {
                                    (spec_rent_floor(rent_minimum) - existing_lamports) as u64
                                } else {
                                    0u64
                                }),
                                space: STATE_LEN as u64,
                            }
                        } else {
                            CreatePlan::CreateAccount {
                                lamports: spec_rent_floor(rent_minimum) as u64,
                                space: STATE_LEN as u64,
                            }
                        })
                    },
                    Err(e) => e == ErrorCode::InvalidSeeds || e == ErrorCode::IllegalOwner,
                }
            }),
    {
        match AssociatedVestingIx::unpack(data) {
            Ok(AssociatedVestingIx::Create) => Self::process_create_associated_vesting_account(
                program_id,
                wallet,
                mint,
                vesting_account_key,
                vesting_account_owner,
                vesting_program,
                existing_lamports,
                rent_minimum,
            ),
            Err(e) => Err(e),
        }
    }
}

} // verus!
