//! The vesting-metadata sibling program: pool parameters kept in a
//! small fixed-layout record.
//!
//! Create and Update rewrite the record wholesale from the instruction's
//! fields. Account closure is deliberately not provided: the record is
//! created and updated, never deleted.

use vstd::prelude::*;

use vstd::bytes::{spec_u64_from_le_bytes, spec_u64_to_le_bytes};

use crate::error::DecodeError;
use crate::instruction::{AccountMeta, Instruction};
use crate::keys::Pubkey;
use crate::state::{push_u64_le, read_u64_le};

verus! {

/// Width of the packed metadata state record.
pub const METADATA_STATE_LEN: usize = 105;

/// Width of the packed metadata instruction payload.
pub const IX_CTX_LEN: usize = 104;

/// The metadata program's error kinds.
#[derive(Clone, Copy, Debug, PartialEq, Eq, Structural)]
pub enum ErrorCode {
    InvalidInstruction,
    RemainingBalance,
}

impl ErrorCode {
    /// The error family, for log prefixes.
    pub fn type_of() -> (r: &'static str)
        ensures
            r@ == "Metadata Error"@,
    {
        "Metadata Error"
    }

    /// A human-readable description of the error.
    pub fn message(&self) -> &'static str {
        match self {
            ErrorCode::InvalidInstruction => "Invalid Instruction.",
            ErrorCode::RemainingBalance => "Account has remaining balance.",
        }
    }
}

/// The pool parameters an instruction carries.
#[derive(Clone, Copy, Debug, PartialEq, Eq)]
pub struct IxCtx {
    /// Must match the authority for the provided pool and vault.
    pub authority: Pubkey,
    /// The token account for staked tokens.
    pub vault: Pubkey,
    /// Time that must elapse before rewards are fully realised.
    pub duration: u64,
    /// Interest generated over twelve months, as a percentage.
    pub apr: u64,
    pub withdrawal_timelock: u64,
    pub early_withdrawal_fee: u64,
    pub lifetime: u64,
}

/// Packed form of the instruction payload: two addresses then five
/// counters, at fixed offsets.
pub open spec fn spec_pack_ix_ctx(c: IxCtx) -> Seq<u8> {
    c.authority@ + c.vault@ + spec_u64_to_le_bytes(c.duration) + spec_u64_to_le_bytes(c.apr)
        + spec_u64_to_le_bytes(c.withdrawal_timelock) + spec_u64_to_le_bytes(
        c.early_withdrawal_fee,
    ) + spec_u64_to_le_bytes(c.lifetime)
}

impl IxCtx {
    /// Encodes the payload at its fixed 104-byte layout.
    pub fn pack(&self) -> (out: Vec<u8>)
        ensures
            out@ == spec_pack_ix_ctx(*self),
            out@.len() == IX_CTX_LEN,
    {
        let mut out: Vec<u8> = Vec::new();
        self.authority.append_to(&mut out);
        self.vault.append_to(&mut out);
        push_u64_le(&mut out, self.duration);
        push_u64_le(&mut out, self.apr);
        push_u64_le(&mut out, self.withdrawal_timelock);
        push_u64_le(&mut out, self.early_withdrawal_fee);
        push_u64_le(&mut out, self.lifetime);
        proof {
            vstd::bytes::lemma_auto_spec_u64_to_from_le_bytes();
            assert(out@ =~= spec_pack_ix_ctx(*self));
        }
        out
    }

    /// Decodes the payload stored at `offset`; the record must run
    /// exactly to the end of the data.
    pub fn unpack(data: &Vec<u8>, offset: usize) -> (r: Result<IxCtx, ErrorCode>)
        ensures
            ({
                match r {
                    Ok(c) => data@.len() - offset == IX_CTX_LEN && data@.subrange(
                        offset as int,
                        data@.len() as int,
                    ) == spec_pack_ix_ctx(c),
                    Err(e) => data@.len() - offset != IX_CTX_LEN && e
                        == ErrorCode::InvalidInstruction,
                }
            }),
    {
        let n = data.len();
        if offset > n || n - offset != IX_CTX_LEN {
            return Err(ErrorCode::InvalidInstruction);
        }
        let c = IxCtx {
            authority: Pubkey::from_bytes(data, offset),
            vault: Pubkey::from_bytes(data, offset + 32),
            duration: read_u64_le(data, offset + 64),
            apr: read_u64_le(data, offset + 72),
            withdrawal_timelock: read_u64_le(data, offset + 80),
            early_withdrawal_fee: read_u64_le(data, offset + 88),
            lifetime: read_u64_le(data, offset + 96),
        };
        proof {
            vstd::bytes::lemma_auto_spec_u64_to_from_le_bytes();
            assert(data@.subrange(offset as int, n as int) =~= spec_pack_ix_ctx(c));
        }
        Ok(c)
    }
}

/// The metadata program's instruction set.
#[derive(Clone, Copy, Debug, PartialEq, Eq)]
pub enum MetadataInstruction {
    /// Accounts expected for all instructions:
    /// `[s]` Authority
    /// `[w]` Metadata account
    Create(IxCtx),
    Update(IxCtx),
    Delete(IxCtx),
}

/// Packed form of a `MetadataInstruction`: a tag byte, then the payload.
pub open spec fn spec_pack_metadata_ix(ix: MetadataInstruction) -> Seq<u8> {
    match ix {
        MetadataInstruction::Create(c) => seq![0u8] + spec_pack_ix_ctx(c),
        MetadataInstruction::Update(c) => seq![1u8] + spec_pack_ix_ctx(c),
        MetadataInstruction::Delete(c) => seq![2u8] + spec_pack_ix_ctx(c),
    }
}

/// The bytes form one complete metadata instruction record.
pub open spec fn spec_metadata_ix_bytes_valid(s: Seq<u8>) -> bool {
    s.len() == 1 + IX_CTX_LEN && s[0] <= 2
}

impl MetadataInstruction {
    /// Encodes the instruction.
    pub fn pack(&self) -> (out: Vec<u8>)
        ensures
            out@ == spec_pack_metadata_ix(*self),
    {
        let mut out: Vec<u8> = Vec::new();
        match self {
            MetadataInstruction::Create(c) => {
                out.push(0);
                let mut body = c.pack();
                out.append(&mut body);
            },
            MetadataInstruction::Update(c) => {
                out.push(1);
                let mut body = c.pack();
                out.append(&mut body);
            },
            MetadataInstruction::Delete(c) => {
                out.push(2);
                let mut body = c.pack();
                out.append(&mut body);
            },
        }
        proof {
            assert(out@ =~= spec_pack_metadata_ix(*self));
        }
        out
    }

    /// Decodes an instruction record.
    pub fn unpack(data: &Vec<u8>) -> (r: Result<MetadataInstruction, ErrorCode>)
        ensures
            ({
                match r {
                    Ok(ix) => spec_metadata_ix_bytes_valid(data@) && data@
                        == spec_pack_metadata_ix(ix),
                    Err(e) => !spec_metadata_ix_bytes_valid(data@) && e
                        == ErrorCode::InvalidInstruction,
                }
            }),
    {
        let n = data.len();
        if n != 1 + IX_CTX_LEN {
            return Err(ErrorCode::InvalidInstruction);
        }
        let tag = data[0];
        if tag > 2 {
            return Err(ErrorCode::InvalidInstruction);
        }
        let c = match IxCtx::unpack(data, 1) {
            Ok(c) => c,
            Err(_) => {
                proof {
                    assert(false);
                }
                return Err(ErrorCode::InvalidInstruction);
            },
        };
        let ix = if tag == 0 {
            MetadataInstruction::Create(c)
        } else if tag == 1 {
            MetadataInstruction::Update(c)
        } else {
            MetadataInstruction::Delete(c)
        };
        proof {
            assert(data@ =~= spec_pack_metadata_ix(ix));
        }
        Ok(ix)
    }
}

/// The metadata record a pool keeps.
#[derive(Clone, Copy, Debug, PartialEq, Eq)]
pub struct MetadataState {
    pub is_initialized: bool,
    pub authority: Pubkey,
    pub vault: Pubkey,
    pub duration: u64,
    pub apr: u64,
    pub withdrawal_timelock: u64,
    pub early_withdrawal_fee: u64,
    pub lifetime: u64,
}

/// Packed form of the metadata record.
pub open spec fn spec_pack_metadata_state(st: MetadataState) -> Seq<u8> {
    seq![if st.is_initialized {
        1u8
    } else {
        0u8
    }] + st.authority@ + st.vault@ + spec_u64_to_le_bytes(st.duration) + spec_u64_to_le_bytes(
        st.apr,
    ) + spec_u64_to_le_bytes(st.withdrawal_timelock) + spec_u64_to_le_bytes(
        st.early_withdrawal_fee,
    ) + spec_u64_to_le_bytes(st.lifetime)
}

/// The record a Create or Update writes for this payload.
pub open spec fn spec_state_of_ctx(c: IxCtx) -> MetadataState {
    MetadataState {
        is_initialized: true,
        authority: c.authority,
        vault: c.vault,
        duration: c.duration,
        apr: c.apr,
        withdrawal_timelock: c.withdrawal_timelock,
        early_withdrawal_fee: c.early_withdrawal_fee,
        lifetime: c.lifetime,
    }
}

impl MetadataState {
    /// Whether the record has been written.
    pub fn is_initialized(&self) -> (r: bool)
        ensures
            r == self.is_initialized,
    {
        self.is_initialized
    }

    /// Encodes the record at its fixed 105-byte layout.
    pub fn pack(&self) -> (out: Vec<u8>)
        ensures
            out@ == spec_pack_metadata_state(*self),
            out@.len() == METADATA_STATE_LEN,
    {
        let mut out: Vec<u8> = Vec::new();
        out.push(if self.is_initialized {
            1
        } else {
            0
        });
        self.authority.append_to(&mut out);
        self.vault.append_to(&mut out);
        push_u64_le(&mut out, self.duration);
        push_u64_le(&mut out, self.apr);
        push_u64_le(&mut out, self.withdrawal_timelock);
        push_u64_le(&mut out, self.early_withdrawal_fee);
        push_u64_le(&mut out, self.lifetime);
        proof {
            vstd::bytes::lemma_auto_spec_u64_to_from_le_bytes();
            assert(out@ =~= spec_pack_metadata_state(*self));
        }
        out
    }

    /// Decodes the record at the start of `data`. The initialization
    /// byte must be 0 or 1.
    pub fn unpack_from_slice(data: &Vec<u8>) -> (r: Result<MetadataState, DecodeError>)
        ensures
            ({
                let s = data@;
                match r {
                    Ok(st) => {
                        &&& s.len() >= METADATA_STATE_LEN
                        &&& (s[0] == 0 || s[0] == 1)
                        &&& st.is_initialized == (s[0] == 1)
                        &&& st.authority@ == s.subrange(1, 33)
                        &&& st.vault@ == s.subrange(33, 65)
                        &&& st.duration == spec_u64_from_le_bytes(s.subrange(65, 73))
                        &&& st.apr == spec_u64_from_le_bytes(s.subrange(73, 81))
                        &&& st.withdrawal_timelock == spec_u64_from_le_bytes(s.subrange(81, 89))
                        &&& st.early_withdrawal_fee == spec_u64_from_le_bytes(s.subrange(89, 97))
                        &&& st.lifetime == spec_u64_from_le_bytes(s.subrange(97, 105))
                    },
                    Err(e) => (s.len() < METADATA_STATE_LEN || !(s[0] == 0 || s[0] == 1)) && e
                        == (if s.len() < METADATA_STATE_LEN {
                        DecodeError::Truncated
                    } else {
                        DecodeError::OutOfRange
                    }),
                }
            }),
    {
        let n = data.len();
        if n < METADATA_STATE_LEN {
            return Err(DecodeError::Truncated);
        }
        let tag = data[0];
        if tag > 1 {
            return Err(DecodeError::OutOfRange);
        }
        Ok(
            MetadataState {
                is_initialized: tag == 1,
                authority: Pubkey::from_bytes(data, 1),
                vault: Pubkey::from_bytes(data, 33),
                duration: read_u64_le(data, 65),
                apr: read_u64_le(data, 73),
                withdrawal_timelock: read_u64_le(data, 81),
                early_withdrawal_fee: read_u64_le(data, 89),
                lifetime: read_u64_le(data, 97),
            },
        )
    }
}

/// Shared account list and payload of the endpoint builders.
#[derive(Clone, Copy, Debug)]
pub struct EndpointCtx {
    pub program_id: Pubkey,
    pub tx_auth: Pubkey,
    pub metadata: Pubkey,
    pub authority: Pubkey,
    pub vault: Pubkey,
    pub duration: u64,
    pub apr: u64,
    pub withdrawal_timelock: u64,
    pub early_withdrawal_fee: u64,
    pub lifetime: u64,
}

/// The instruction payload an endpoint context carries.
pub open spec fn spec_ctx_payload(ctx: EndpointCtx) -> IxCtx {
    IxCtx {
        authority: ctx.authority,
        vault: ctx.vault,
        duration: ctx.duration,
        apr: ctx.apr,
        withdrawal_timelock: ctx.withdrawal_timelock,
        early_withdrawal_fee: ctx.early_withdrawal_fee,
        lifetime: ctx.lifetime,
    }
}

/// Builds one endpoint instruction around a packed payload.
fn endpoint_instruction(ctx: &EndpointCtx, data: Vec<u8>) -> (r: Instruction)
    ensures
        r.program_id == ctx.program_id,
        r.data == data,
        r.accounts@ == seq![
            (AccountMeta { pubkey: ctx.tx_auth, is_signer: true, is_writable: true }),
            (AccountMeta { pubkey: ctx.metadata, is_signer: false, is_writable: true }),
        ],
{
    let mut accounts: Vec<AccountMeta> = Vec::new();
    accounts.push(AccountMeta::new(ctx.tx_auth, true));
    accounts.push(AccountMeta::new(ctx.metadata, false));
    proof {
        assert(accounts@ =~= seq![
            (AccountMeta { pubkey: ctx.tx_auth, is_signer: true, is_writable: true }),
            (AccountMeta { pubkey: ctx.metadata, is_signer: false, is_writable: true }),
        ]);
    }
    Instruction { program_id: ctx.program_id, accounts, data }
}

/// Builds the Create endpoint instruction.
pub fn create(ctx: &EndpointCtx) -> (r: Result<Instruction, ErrorCode>)
    ensures
        ({
            match r {
                Ok(ins) => ins.program_id == ctx.program_id && ins.data@
                    == spec_pack_metadata_ix(MetadataInstruction::Create(spec_ctx_payload(*ctx)))
                    && ins.accounts@ == seq![
                    (AccountMeta { pubkey: ctx.tx_auth, is_signer: true, is_writable: true }),
                    (AccountMeta { pubkey: ctx.metadata, is_signer: false, is_writable: true }),
                ],
                Err(_) => false,
            }
        }),
{
    let payload = IxCtx {
        authority: ctx.authority,
        vault: ctx.vault,
        duration: ctx.duration,
        apr: ctx.apr,
        withdrawal_timelock: ctx.withdrawal_timelock,
        early_withdrawal_fee: ctx.early_withdrawal_fee,
        lifetime: ctx.lifetime,
    };
    let data = MetadataInstruction::Create(payload).pack();
    Ok(endpoint_instruction(ctx, data))
}

/// Builds the Update endpoint instruction.
pub fn update(ctx: &EndpointCtx) -> (r: Result<Instruction, ErrorCode>)
    ensures
        ({
            match r {
                Ok(ins) => ins.program_id == ctx.program_id && ins.data@
                    == spec_pack_metadata_ix(MetadataInstruction::Update(spec_ctx_payload(*ctx)))
                    && ins.accounts@ == seq![
                    (AccountMeta { pubkey: ctx.tx_auth, is_signer: true, is_writable: true }),
                    (AccountMeta { pubkey: ctx.metadata, is_signer: false, is_writable: true }),
                ],
                Err(_) => false,
            }
        }),
{
    let payload = IxCtx {
        authority: ctx.authority,
        vault: ctx.vault,
        duration: ctx.duration,
        apr: ctx.apr,
        withdrawal_timelock: ctx.withdrawal_timelock,
        early_withdrawal_fee: ctx.early_withdrawal_fee,
        lifetime: ctx.lifetime,
    };
    let data = MetadataInstruction::Update(payload).pack();
    Ok(endpoint_instruction(ctx, data))
}

pub struct Processor;

impl Processor {
    /// Create: writes a fresh initialized record from the payload.
    pub fn process_create(ix_ctx: &IxCtx, metadata_data: &mut Vec<u8>) -> (r: Result<
        (),
        ErrorCode,
    >)
        ensures
            match r {
                Ok(()) => old(metadata_data)@.len() == METADATA_STATE_LEN
                    && final(metadata_data)@ == spec_pack_metadata_state(
                    spec_state_of_ctx(*ix_ctx),
                ),
                Err(e) => old(metadata_data)@.len() != METADATA_STATE_LEN && final(metadata_data)@
                    == old(metadata_data)@ && e == ErrorCode::InvalidInstruction,
            },
    {
        if metadata_data.len() != METADATA_STATE_LEN {
            return Err(ErrorCode::InvalidInstruction);
        }
        let state = MetadataState {
            is_initialized: true,
            authority: ix_ctx.authority,
            vault: ix_ctx.vault,
            duration: ix_ctx.duration,
            apr: ix_ctx.apr,
            withdrawal_timelock: ix_ctx.withdrawal_timelock,
            early_withdrawal_fee: ix_ctx.early_withdrawal_fee,
            lifetime: ix_ctx.lifetime,
        };
        *metadata_data = state.pack();
        Ok(())
    }

    /// Update: rewrites the record wholesale from the payload.
    pub fn process_update(ix_ctx: &IxCtx, metadata_data: &mut Vec<u8>) -> (r: Result<
        (),
        ErrorCode,
    >)
        ensures
            match r {
                Ok(()) => old(metadata_data)@.len() == METADATA_STATE_LEN
                    && final(metadata_data)@ == spec_pack_metadata_state(
                    spec_state_of_ctx(*ix_ctx),
                ),
                Err(e) => old(metadata_data)@.len() != METADATA_STATE_LEN && final(metadata_data)@
                    == old(metadata_data)@ && e == ErrorCode::InvalidInstruction,
            },
    {
        Self::process_create(ix_ctx, metadata_data)
    }

    /// Decodes the record and runs the matching transition. Account
    /// closure is deliberately not provided, so Delete is rejected. A
    /// Create or Update rewrites the record to an initialized copy of
    /// the payload's bytes.
    pub fn process(data: &Vec<u8>, metadata_data: &mut Vec<u8>) -> (r: Result<(), ErrorCode>)
        ensures
            !spec_metadata_ix_bytes_valid(data@) ==> r == Err::<(), ErrorCode>(
                ErrorCode::InvalidInstruction,
            ),
            spec_metadata_ix_bytes_valid(data@) && data@[0] <= 1 ==> (match r {
                Ok(()) => old(metadata_data)@.len() == METADATA_STATE_LEN
                    && final(metadata_data)@ == seq![1u8] + data@.subrange(1, 1 + IX_CTX_LEN),
                Err(e) => old(metadata_data)@.len() != METADATA_STATE_LEN && e
                    == ErrorCode::InvalidInstruction,
            }),
            spec_metadata_ix_bytes_valid(data@) && data@[0] == 2 ==> r == Err::<(), ErrorCode>(
                ErrorCode::InvalidInstruction,
            ),
            r is Err ==> final(metadata_data)@ == old(metadata_data)@,
    {
        proof {
            vstd::bytes::lemma_auto_spec_u64_to_from_le_bytes();
        }
        let ix = match MetadataInstruction::unpack(data) {
            Ok(ix) => ix,
            Err(e) => {
                return Err(e);
            },
        };
        match ix {
            MetadataInstruction::Create(c) => {
                proof {
                    assert(data@.subrange(1, 1 + IX_CTX_LEN) =~= spec_pack_ix_ctx(c));
                    assert(spec_pack_metadata_state(spec_state_of_ctx(c)) =~= seq![1u8]
                        + spec_pack_ix_ctx(c));
                }
                Self::process_create(&c, metadata_data)
            },
            MetadataInstruction::Update(c) => {
                proof {
                    assert(data@.subrange(1, 1 + IX_CTX_LEN) =~= spec_pack_ix_ctx(c));
                    assert(spec_pack_metadata_state(spec_state_of_ctx(c)) =~= seq![1u8]
                        + spec_pack_ix_ctx(c));
                }
                Self::process_update(&c, metadata_data)
            },
            MetadataInstruction::Delete(_) => Err(ErrorCode::InvalidInstruction),
        }
    }
}

} // verus!
