//! Instruction wire formats and instruction builders.
//!
//! Instructions are tag-prefixed binary records: one tag byte, then the
//! variant's payload at fixed offsets, little-endian, no padding. Unknown
//! tags and payloads of the wrong width are decode failures, never
//! coerced.

use vstd::prelude::*;

use vstd::bytes::spec_u64_to_le_bytes;

use crate::error::ErrorCode;
use crate::keys::Pubkey;
use crate::state::{push_u64_le, read_u64_le};

verus! {

/// One account an instruction touches, and how.
#[derive(Clone, Debug, PartialEq, Eq)]
pub struct AccountMeta {
    pub pubkey: Pubkey,
    pub is_signer: bool,
    pub is_writable: bool,
}

impl AccountMeta {
    /// A writable account.
    pub fn new(pubkey: Pubkey, is_signer: bool) -> (r: AccountMeta)
        ensures
            r == (AccountMeta { pubkey, is_signer, is_writable: true }),
    {
        AccountMeta { pubkey, is_signer, is_writable: true }
    }

    /// A read-only account.
    pub fn new_readonly(pubkey: Pubkey, is_signer: bool) -> (r: AccountMeta)
        ensures
            r == (AccountMeta { pubkey, is_signer, is_writable: false }),
    {
        AccountMeta { pubkey, is_signer, is_writable: false }
    }
}

/// A ready-to-submit instruction: target program, account list, payload.
#[derive(Clone, Debug, PartialEq, Eq)]
pub struct Instruction {
    pub program_id: Pubkey,
    pub accounts: Vec<AccountMeta>,
    pub data: Vec<u8>,
}

/// The vesting program's public wire format.
#[derive(Clone, Copy, Debug, PartialEq, Eq)]
pub enum VestingInstruction {
    /// Allocate and fund the vesting account.
    ///
    /// Accounts expected:
    /// `[s,w]` Authority
    /// `[w]` Vesting Account
    /// `[]` System Program
    Init,
    /// Write the schedule and move the deposit into the vault.
    ///
    /// Accounts expected:
    /// `[s,w]` Authority
    /// `[w]` Token Account
    /// `[w]` Vesting Account
    /// `[w]` Vault
    /// `[]` Metadata Account
    /// `[]` Token Program
    CreateVesting {
        beneficiary: Pubkey,
        start_ts: u64,
        end_ts: u64,
        period_count: u64,
        nonce: u8,
        amount: u64,
    },
    /// Pay out released funds.
    ///
    /// Accounts expected:
    /// `[s,w]` Authority
    /// `[w]` Token Account
    /// `[w]` Vesting Account
    /// `[w]` Vault
    /// `[]` Metadata Account
    /// `[]` Token Program
    Withdraw { amount: u64 },
    /// Point the agreement at a new beneficiary.
    ///
    /// Accounts expected:
    /// `[w,s]` Authority
    /// `[w]` New Beneficiary Authority
    /// `[w]` New Beneficiary Vesting Account
    /// `[w]` New Beneficiary Token Account
    /// `[]` Token Program
    SetBeneficiary { new_beneficiary: Pubkey },
}

/// Packed form of a `VestingInstruction`.
pub open spec fn spec_pack_instruction(ix: VestingInstruction) -> Seq<u8> {
    match ix {
        VestingInstruction::Init => seq![0u8],
        VestingInstruction::CreateVesting {
            beneficiary,
            start_ts,
            end_ts,
            period_count,
            nonce,
            amount,
        } => seq![1u8] + beneficiary@ + spec_u64_to_le_bytes(start_ts) + spec_u64_to_le_bytes(
            end_ts,
        ) + spec_u64_to_le_bytes(period_count) + seq![nonce] + spec_u64_to_le_bytes(amount),
        VestingInstruction::Withdraw { amount } => seq![2u8] + spec_u64_to_le_bytes(amount),
        VestingInstruction::SetBeneficiary { new_beneficiary } => seq![3u8] + new_beneficiary@,
    }
}

/// The bytes form one complete instruction record.
pub open spec fn spec_instruction_bytes_valid(s: Seq<u8>) -> bool {
    s.len() >= 1 && ((s[0] == 0 && s.len() == 1) || (s[0] == 1 && s.len() == 66) || (s[0] == 2
        && s.len() == 9) || (s[0] == 3 && s.len() == 33))
}

impl VestingInstruction {
    /// Encodes the instruction: tag byte, then the payload at fixed
    /// offsets.
    pub fn pack(&self) -> (out: Vec<u8>)
        ensures
            out@ == spec_pack_instruction(*self),
    {
        let mut buf: Vec<u8> = Vec::new();
        match self {
            VestingInstruction::Init => {
                buf.push(0);
                proof {
                    assert(buf@ =~= spec_pack_instruction(*self));
                }
            },
            VestingInstruction::CreateVesting {
                beneficiary,
                start_ts,
                end_ts,
                period_count,
                nonce,
                amount,
            } => {
                buf.push(1);
                beneficiary.append_to(&mut buf);
                push_u64_le(&mut buf, *start_ts);
                push_u64_le(&mut buf, *end_ts);
                push_u64_le(&mut buf, *period_count);
                buf.push(*nonce);
                push_u64_le(&mut buf, *amount);
                proof {
                    assert(buf@ =~= spec_pack_instruction(*self));
                }
            },
            VestingInstruction::Withdraw { amount } => {
                buf.push(2);
                push_u64_le(&mut buf, *amount);
                proof {
                    assert(buf@ =~= spec_pack_instruction(*self));
                }
            },
            VestingInstruction::SetBeneficiary { new_beneficiary } => {
                buf.push(3);
                new_beneficiary.append_to(&mut buf);
                proof {
                    assert(buf@ =~= spec_pack_instruction(*self));
                }
            },
        }
        buf
    }

    /// Decodes an instruction record. Returns the unique instruction the
    /// bytes encode; malformed or unknown payloads are rejected.
    pub fn unpack(data: &Vec<u8>) -> (r: Result<VestingInstruction, ErrorCode>)
        ensures
            ({
                match r {
                    Ok(ix) => spec_instruction_bytes_valid(data@) && data@
                        == spec_pack_instruction(ix),
                    Err(e) => !spec_instruction_bytes_valid(data@) && e
                        == ErrorCode::InvalidInstruction,
                }
            }),
    {
        proof {
            vstd::bytes::lemma_auto_spec_u64_to_from_le_bytes();
        }
        let n = data.len();
        if n == 0 {
            return Err(ErrorCode::InvalidInstruction);
        }
        let tag = data[0];
        if tag == 0 && n == 1 {
            let ix = VestingInstruction::Init;
            proof {
                assert(data@ =~= spec_pack_instruction(ix));
            }
            Ok(ix)
        } else if tag == 1 && n == 66 {
            let beneficiary = Pubkey::from_bytes(data, 1);
            let start_ts = read_u64_le(data, 33);
            let end_ts = read_u64_le(data, 41);
            let period_count = read_u64_le(data, 49);
            let nonce = data[57];
            let amount = read_u64_le(data, 58);
            let ix = VestingInstruction::CreateVesting {
                beneficiary,
                start_ts,
                end_ts,
                period_count,
                nonce,
                amount,
            };
            proof {
                assert(data@ =~= spec_pack_instruction(ix));
            }
            Ok(ix)
        } else if tag == 2 && n == 9 {
            let amount = read_u64_le(data, 1);
            let ix = VestingInstruction::Withdraw { amount };
            proof {
                assert(data@ =~= spec_pack_instruction(ix));
            }
            Ok(ix)
        } else if tag == 3 && n == 33 {
            let new_beneficiary = Pubkey::from_bytes(data, 1);
            let ix = VestingInstruction::SetBeneficiary { new_beneficiary };
            proof {
                assert(data@ =~= spec_pack_instruction(ix));
            }
            Ok(ix)
        } else {
            Err(ErrorCode::InvalidInstruction)
        }
    }
}

/// Whitelist maintenance instructions of the lockup program.
#[derive(Clone, Copy, Debug, PartialEq, Eq)]
pub enum LockupInstruction {
    New,
    WhitelistAdd { entry: Pubkey },
    WhitelistDelete { entry: Pubkey },
    WhitelistAuthority { entry: Pubkey },
}

/// Packed form of a `LockupInstruction`.
pub open spec fn spec_pack_lockup(ix: LockupInstruction) -> Seq<u8> {
    match ix {
        LockupInstruction::New => seq![0u8],
        LockupInstruction::WhitelistAdd { entry } => seq![1u8] + entry@,
        LockupInstruction::WhitelistDelete { entry } => seq![2u8] + entry@,
        LockupInstruction::WhitelistAuthority { entry } => seq![3u8] + entry@,
    }
}

/// The bytes form one complete lockup instruction record.
pub open spec fn spec_lockup_bytes_valid(s: Seq<u8>) -> bool {
    s.len() >= 1 && ((s[0] == 0 && s.len() == 1) || (1 <= s[0] <= 3 && s.len() == 33))
}

impl LockupInstruction {
    /// Encodes the instruction: tag byte, then the entry address.
    pub fn pack(&self) -> (out: Vec<u8>)
        ensures
            out@ == spec_pack_lockup(*self),
    {
        let mut buf: Vec<u8> = Vec::new();
        match self {
            LockupInstruction::New => {
                buf.push(0);
            },
            LockupInstruction::WhitelistAdd { entry } => {
                buf.push(1);
                entry.append_to(&mut buf);
            },
            LockupInstruction::WhitelistDelete { entry } => {
                buf.push(2);
                entry.append_to(&mut buf);
            },
            LockupInstruction::WhitelistAuthority { entry } => {
                buf.push(3);
                entry.append_to(&mut buf);
            },
        }
        proof {
            assert(buf@ =~= spec_pack_lockup(*self));
        }
        buf
    }

    /// Reads the 32-byte whitelist entry at `offset`.
    pub fn unpack_entry(data: &Vec<u8>, offset: usize) -> (r: Result<Pubkey, ErrorCode>)
        ensures
            offset + 32 <= data@.len() ==> (r matches Ok(p) && p@ == data@.subrange(
                offset as int,
                offset + 32,
            )),
            offset + 32 > data@.len() ==> r == Err::<Pubkey, ErrorCode>(
                ErrorCode::InvalidInstruction,
            ),
    {
        let n = data.len();
        if offset > n || n - offset < 32 {
            return Err(ErrorCode::InvalidInstruction);
        }
        Ok(Pubkey::from_bytes(data, offset))
    }

    /// Decodes a lockup instruction record.
    pub fn unpack(data: &Vec<u8>) -> (r: Result<LockupInstruction, ErrorCode>)
        ensures
            ({
                match r {
                    Ok(ix) => spec_lockup_bytes_valid(data@) && data@ == spec_pack_lockup(ix),
                    Err(e) => !spec_lockup_bytes_valid(data@) && e
                        == ErrorCode::InvalidInstruction,
                }
            }),
    {
        let n = data.len();
        if n == 0 {
            return Err(ErrorCode::InvalidInstruction);
        }
        let tag = data[0];
        if tag == 0 && n == 1 {
            let ix = LockupInstruction::New;
            proof {
                assert(data@ =~= spec_pack_lockup(ix));
            }
            Ok(ix)
        } else if 1 <= tag && tag <= 3 && n == 33 {
            let entry = match Self::unpack_entry(data, 1) {
                Ok(p) => p,
                Err(e) => {
                    proof {
                        assert(false);
                    }
                    return Err(e);
                },
            };
            let ix = if tag == 1 {
                LockupInstruction::WhitelistAdd { entry }
            } else if tag == 2 {
                LockupInstruction::WhitelistDelete { entry }
            } else {
                LockupInstruction::WhitelistAuthority { entry }
            };
            proof {
                assert(data@ =~= spec_pack_lockup(ix));
            }
            Ok(ix)
        } else {
            Err(ErrorCode::InvalidInstruction)
        }
    }
}

/// Builds the Init instruction: allocate the vesting account.
pub fn init(
    program_id: &Pubkey,
    payer: &Pubkey,
    vesting: &Pubkey,
    system_program: &Pubkey,
) -> (r: Result<Instruction, ErrorCode>)
    ensures
        ({
            match r {
                Ok(ins) => {
                    &&& ins.program_id == *program_id
                    &&& ins.data@ == spec_pack_instruction(VestingInstruction::Init)
                    &&& ins.accounts@ == seq![
                        (AccountMeta { pubkey: *payer, is_signer: true, is_writable: true }),
                        (AccountMeta { pubkey: *vesting, is_signer: false, is_writable: true }),
                        (
                        AccountMeta {
                            pubkey: *system_program,
                            is_signer: false,
                            is_writable: false,
                        }
                        ),
                    ]
                },
                Err(_) => false,
            }
        }),
{
    let mut accounts: Vec<AccountMeta> = Vec::new();
    accounts.push(AccountMeta::new(*payer, true));
    accounts.push(AccountMeta::new(*vesting, false));
    accounts.push(AccountMeta::new_readonly(*system_program, false));
    let data = VestingInstruction::Init.pack();
    proof {
        assert(accounts@ =~= seq![
            (AccountMeta { pubkey: *payer, is_signer: true, is_writable: true }),
            (AccountMeta { pubkey: *vesting, is_signer: false, is_writable: true }),
            (AccountMeta { pubkey: *system_program, is_signer: false, is_writable: false }),
        ]);
    }
    Ok(Instruction { program_id: *program_id, accounts, data })
}

/// Builds the Create instruction: write the schedule and fund the vault.
pub fn create_vesting(
    program_id: &Pubkey,
    vesting: &Pubkey,
    vault: &Pubkey,
    authority: &Pubkey,
    token_account: &Pubkey,
    metadata: &Pubkey,
    token_program: &Pubkey,
    beneficiary: Pubkey,
    start_ts: u64,
    end_ts: u64,
    period_count: u64,
    nonce: u8,
    amount: u64,
) -> (r: Result<Instruction, ErrorCode>)
    ensures
        ({
            match r {
                Ok(ins) => {
                    &&& ins.program_id == *program_id
                    &&& ins.data@ == spec_pack_instruction(
                        VestingInstruction::CreateVesting {
                            beneficiary,
                            start_ts,
                            end_ts,
                            period_count,
                            nonce,
                            amount,
                        },
                    )
                    &&& ins.accounts@ == seq![
                        (AccountMeta { pubkey: *vesting, is_signer: false, is_writable: true }),
                        (AccountMeta { pubkey: *vault, is_signer: false, is_writable: true }),
                        (AccountMeta { pubkey: *authority, is_signer: true, is_writable: true }),
                        (
                        AccountMeta {
                            pubkey: *token_account,
                            is_signer: false,
                            is_writable: true,
                        }
                        ),
                        (AccountMeta { pubkey: *metadata, is_signer: false, is_writable: false }),
                        (
                        AccountMeta {
                            pubkey: *token_program,
                            is_signer: false,
                            is_writable: false,
                        }
                        ),
                    ]
                },
                Err(_) => false,
            }
        }),
{
    let mut accounts: Vec<AccountMeta> = Vec::new();
    accounts.push(AccountMeta::new(*vesting, false));
    accounts.push(AccountMeta::new(*vault, false));
    accounts.push(AccountMeta::new(*authority, true));
    accounts.push(AccountMeta::new(*token_account, false));
    accounts.push(AccountMeta::new_readonly(*metadata, false));
    accounts.push(AccountMeta::new_readonly(*token_program, false));
    let data = VestingInstruction::CreateVesting {
        beneficiary,
        start_ts,
        end_ts,
        period_count,
        nonce,
        amount,
    }.pack();
    proof {
        assert(accounts@ =~= seq![
            (AccountMeta { pubkey: *vesting, is_signer: false, is_writable: true }),
            (AccountMeta { pubkey: *vault, is_signer: false, is_writable: true }),
            (AccountMeta { pubkey: *authority, is_signer: true, is_writable: true }),
            (AccountMeta { pubkey: *token_account, is_signer: false, is_writable: true }),
            (AccountMeta { pubkey: *metadata, is_signer: false, is_writable: false }),
            (AccountMeta { pubkey: *token_program, is_signer: false, is_writable: false }),
        ]);
    }
    Ok(Instruction { program_id: *program_id, accounts, data })
}

/// Builds the Withdraw instruction: pay out released funds.
pub fn withdraw(
    program_id: &Pubkey,
    vesting: &Pubkey,
    vault: &Pubkey,
    authority: &Pubkey,
    token_account: &Pubkey,
    metadata: &Pubkey,
    token_program: &Pubkey,
    amount: u64,
) -> (r: Result<Instruction, ErrorCode>)
    ensures
        ({
            match r {
                Ok(ins) => {
                    &&& ins.program_id == *program_id
                    &&& ins.data@ == spec_pack_instruction(VestingInstruction::Withdraw { amount })
                    &&& ins.accounts@ == seq![
                        (AccountMeta { pubkey: *vesting, is_signer: false, is_writable: true }),
                        (AccountMeta { pubkey: *vault, is_signer: false, is_writable: true }),
                        (AccountMeta { pubkey: *authority, is_signer: true, is_writable: true }),
                        (
                        AccountMeta {
                            pubkey: *token_account,
                            is_signer: false,
                            is_writable: true,
                        }
                        ),
                        (AccountMeta { pubkey: *metadata, is_signer: false, is_writable: false }),
                        (
                        AccountMeta {
                            pubkey: *token_program,
                            is_signer: false,
                            is_writable: false,
                        }
                        ),
                    ]
                },
                Err(_) => false,
            }
        }),
{
    let mut accounts: Vec<AccountMeta> = Vec::new();
    accounts.push(AccountMeta::new(*vesting, false));
    accounts.push(AccountMeta::new(*vault, false));
    accounts.push(AccountMeta::new(*authority, true));
    accounts.push(AccountMeta::new(*token_account, false));
    accounts.push(AccountMeta::new_readonly(*metadata, false));
    accounts.push(AccountMeta::new_readonly(*token_program, false));
    let data = VestingInstruction::Withdraw { amount }.pack();
    proof {
        assert(accounts@ =~= seq![
            (AccountMeta { pubkey: *vesting, is_signer: false, is_writable: true }),
            (AccountMeta { pubkey: *vault, is_signer: false, is_writable: true }),
            (AccountMeta { pubkey: *authority, is_signer: true, is_writable: true }),
            (AccountMeta { pubkey: *token_account, is_signer: false, is_writable: true }),
            (AccountMeta { pubkey: *metadata, is_signer: false, is_writable: false }),
            (AccountMeta { pubkey: *token_program, is_signer: false, is_writable: false }),
        ]);
    }
    Ok(Instruction { program_id: *program_id, accounts, data })
}

/// Builds the SetBeneficiary instruction: hand the agreement to a new
/// beneficiary.
pub fn set_beneficiary(
    program_id: &Pubkey,
    authority: &Pubkey,
    new_beneficiary: &Pubkey,
    new_beneficiary_vesting_address: &Pubkey,
    new_beneficiary_token_address: &Pubkey,
    token_program: &Pubkey,
) -> (r: Result<Instruction, ErrorCode>)
    ensures
        ({
            match r {
                Ok(ins) => {
                    &&& ins.program_id == *program_id
                    &&& ins.data@ == spec_pack_instruction(
                        VestingInstruction::SetBeneficiary { new_beneficiary: *new_beneficiary },
                    )
                    &&& ins.accounts@ == seq![
                        (AccountMeta { pubkey: *authority, is_signer: true, is_writable: true }),
                        (
                        AccountMeta {
                            pubkey: *new_beneficiary,
                            is_signer: false,
                            is_writable: true,
                        }
                        ),
                        (
                        AccountMeta {
                            pubkey: *new_beneficiary_vesting_address,
                            is_signer: false,
                            is_writable: true,
                        }
                        ),
                        (
                        AccountMeta {
                            pubkey: *new_beneficiary_token_address,
                            is_signer: false,
                            is_writable: true,
                        }
                        ),
                        (
                        AccountMeta {
                            pubkey: *token_program,
                            is_signer: false,
                            is_writable: false,
                        }
                        ),
                    ]
                },
                Err(_) => false,
            }
        }),
{
    let mut accounts: Vec<AccountMeta> = Vec::new();
    accounts.push(AccountMeta::new(*authority, true));
    accounts.push(AccountMeta::new(*new_beneficiary, false));
    accounts.push(AccountMeta::new(*new_beneficiary_vesting_address, false));
    accounts.push(AccountMeta::new(*new_beneficiary_token_address, false));
    accounts.push(AccountMeta::new_readonly(*token_program, false));
    let data = VestingInstruction::SetBeneficiary { new_beneficiary: *new_beneficiary }.pack();
    proof {
        assert(accounts@ =~= seq![
            (AccountMeta { pubkey: *authority, is_signer: true, is_writable: true }),
            (AccountMeta { pubkey: *new_beneficiary, is_signer: false, is_writable: true }),
            (
            AccountMeta {
                pubkey: *new_beneficiary_vesting_address,
                is_signer: false,
                is_writable: true,
            }
            ),
            (
            AccountMeta {
                pubkey: *new_beneficiary_token_address,
                is_signer: false,
                is_writable: true,
            }
            ),
            (AccountMeta { pubkey: *token_program, is_signer: false, is_writable: false }),
        ]);
    }
    Ok(Instruction { program_id: *program_id, accounts, data })
}

} // verus!
