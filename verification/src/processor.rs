//! The instruction processor: the vesting account's state machine.
//!
//! A vesting account moves from uninitialized, through Init (allocated
//! empty) and Create (schedule written, vault funded), to repeated
//! Unlocks that zero claimed quantities in place. Every handler is a
//! pure decision function from plain account values to either an error
//! or the mutated state plus the single ledger side effect to perform;
//! the caller executes the side effect. A handler that errs changes
//! nothing: validation is all-or-nothing.

use vstd::prelude::*;

use vstd::bytes::{
    spec_u32_from_le_bytes, spec_u32_to_le_bytes, spec_u64_from_le_bytes, u32_to_le_bytes,
};

use crate::authority::{pda_of, verify};
use crate::error::ErrorCode;
use crate::instruction::{AccountMeta, Instruction};
use crate::keys::Pubkey;
use crate::state::{
    read_u32_le, pack_releases_into, spec_header_beneficiary, spec_header_bytes_valid,
    spec_header_is_initialized, spec_pack_header, spec_pack_release, spec_pack_releases,
    spec_unpack_release, unpack_releases, VestingHeader, VestingInfo, HEADER_LEN, RELEASE_LEN,
};
use crate::schedule::spec_sum_quantities;
use crate::token::{spec_token_account_wf, unpack_token_account};

verus! {

/// The asset program's well-known address.
pub open spec fn spec_token_program_id() -> Seq<u8> {
    seq![
        6u8, 221u8, 246u8, 225u8, 215u8, 101u8, 161u8, 147u8, 217u8, 203u8, 225u8, 70u8, 206u8,
        235u8, 121u8, 172u8, 28u8, 180u8, 133u8, 237u8, 95u8, 91u8, 55u8, 145u8, 58u8, 140u8,
        245u8, 133u8, 126u8, 255u8, 0u8, 169u8,
    ]
}

/// Relies on spl_token::id: the constant program address the asset
/// program is deployed under.
#[verifier::external_body]
pub fn token_program_id() -> (r: Pubkey)
    ensures
        r@ == spec_token_program_id(),
{
    Pubkey(spl_token::id().to_bytes())
}

/// The vesting program's own wire format, decoded.
#[derive(Clone, Debug, PartialEq, Eq)]
pub enum VestingIx {
    /// Allocate the vesting account for `release_count` schedule slots.
    Init { seed: Pubkey, release_count: u32 },
    /// Write the schedule and fund the vault with its total.
    Create { seed: Pubkey, mint: Pubkey, recipient: Pubkey, releases: Vec<VestingInfo> },
    /// Pay every elapsed, still-unclaimed release to the beneficiary.
    Unlock { seed: Pubkey },
}

/// Packed form of a `VestingIx`: tag byte, fixed-offset fields, and for
/// Create the release array to the end of the record.
pub open spec fn spec_pack_vesting_ix(ix: VestingIx) -> Seq<u8> {
    match ix {
        VestingIx::Init { seed, release_count } => seq![0u8] + seed@ + spec_u32_to_le_bytes(
            release_count,
        ),
        VestingIx::Create { seed, mint, recipient, releases } => seq![1u8] + seed@ + mint@
            + recipient@ + spec_pack_releases(releases@),
        VestingIx::Unlock { seed } => seq![2u8] + seed@,
    }
}

/// The bytes form one complete vesting instruction record.
pub open spec fn spec_vesting_ix_bytes_valid(s: Seq<u8>) -> bool {
    s.len() >= 1 && ((s[0] == 0 && s.len() == 37) || (s[0] == 1 && s.len() >= 97 && (s.len()
        - 97) % 12 == 0) || (s[0] == 2 && s.len() == 33))
}

impl VestingIx {
    /// Encodes the instruction.
    pub fn pack(&self) -> (out: Vec<u8>)
        ensures
            out@ == spec_pack_vesting_ix(*self),
    {
        let mut buf: Vec<u8> = Vec::new();
        match self {
            VestingIx::Init { seed, release_count } => {
                buf.push(0);
                seed.append_to(&mut buf);
                let mut rc = u32_to_le_bytes(*release_count);
                buf.append(&mut rc);
            },
            VestingIx::Create { seed, mint, recipient, releases } => {
                buf.push(1);
                seed.append_to(&mut buf);
                mint.append_to(&mut buf);
                recipient.append_to(&mut buf);
                pack_releases_into(releases, &mut buf);
            },
            VestingIx::Unlock { seed } => {
                buf.push(2);
                seed.append_to(&mut buf);
            },
        }
        proof {
            assert(buf@ =~= spec_pack_vesting_ix(*self));
        }
        buf
    }

    /// Decodes an instruction record: the unique instruction the bytes
    /// encode, or a decode failure.
    pub fn unpack(data: &Vec<u8>) -> (r: Result<VestingIx, ErrorCode>)
        ensures
            ({
                match r {
                    Ok(ix) => spec_vesting_ix_bytes_valid(data@) && data@ == spec_pack_vesting_ix(
                        ix,
                    ),
                    Err(e) => !spec_vesting_ix_bytes_valid(data@) && e
                        == ErrorCode::InvalidInstruction,
                }
            }),
    {
        let n = data.len();
        if n == 0 {
            return Err(ErrorCode::InvalidInstruction);
        }
        let tag = data[0];
        if tag == 0 && n == 37 {
            let seed = Pubkey::from_bytes(data, 1);
            let release_count = read_u32_le(data, 33);
            let ix = VestingIx::Init { seed, release_count };
            proof {
                vstd::bytes::lemma_auto_spec_u32_to_from_le_bytes();
                assert(data@ =~= spec_pack_vesting_ix(ix));
            }
            Ok(ix)
        } else if tag == 1 && n >= 97 && (n - 97) % RELEASE_LEN == 0 {
            let seed = Pubkey::from_bytes(data, 1);
            let mint = Pubkey::from_bytes(data, 33);
            let recipient = Pubkey::from_bytes(data, 65);
            let releases = match unpack_releases(data, 97) {
                Ok(v) => v,
                Err(_) => {
                    proof {
                        assert(false);
                    }
                    return Err(ErrorCode::InvalidInstruction);
                },
            };
            let ix = VestingIx::Create { seed, mint, recipient, releases };
            proof {
                let tail = data@.subrange(97, n as int);
                assert forall|k: int| 0 <= k < releases@.len() implies #[trigger] releases@[k]
                    == spec_unpack_release(tail.subrange(12 * k, 12 * k + 12)) by {
                    assert(tail.subrange(12 * k, 12 * k + 12) =~= data@.subrange(
                        97 + 12 * k,
                        97 + 12 * k + 12,
                    ));
                }
                crate::state::lemma_releases_repack(tail, releases@);
                assert(data@ =~= spec_pack_vesting_ix(ix));
            }
            Ok(ix)
        } else if tag == 2 && n == 33 {
            let seed = Pubkey::from_bytes(data, 1);
            let ix = VestingIx::Unlock { seed };
            proof {
                assert(data@ =~= spec_pack_vesting_ix(ix));
            }
            Ok(ix)
        } else {
            Err(ErrorCode::InvalidInstruction)
        }
    }
}

/// What a handler reads of a supplied ledger account.
#[derive(Clone, Copy, Debug)]
pub struct AccountView {
    pub key: Pubkey,
    pub owner: Pubkey,
    pub is_signer: bool,
}

/// The allocation Init requests: a rent-funded account of `size` bytes
/// at the derived address, owned by the vesting program, signed for via
/// `seed`.
#[derive(Clone, Copy, Debug, PartialEq, Eq)]
pub struct AllocateAction {
    pub payer: Pubkey,
    pub new_address: Pubkey,
    pub size: u64,
    pub owner: Pubkey,
    pub seed: Pubkey,
}

/// The single balance transfer a handler commits to.
#[derive(Clone, Copy, Debug, PartialEq, Eq)]
pub struct TransferAction {
    pub from: Pubkey,
    pub to: Pubkey,
    pub authority: Pubkey,
    pub amount: u64,
}

/// The ledger side effect a successful instruction performs.
#[derive(Clone, Copy, Debug, PartialEq, Eq)]
pub enum VestingAction {
    Allocate(AllocateAction),
    Transfer(TransferAction),
}

/// Every release encoded after the header, in order.
pub open spec fn spec_unpack_releases(s: Seq<u8>) -> Seq<VestingInfo> {
    Seq::new((s.len() / 12) as nat, |k: int| spec_unpack_release(s.subrange(12 * k, 12 * k + 12)))
}

/// Decoding what `spec_pack_releases` wrote gives the releases back.
pub proof fn lemma_unpack_pack_releases(v: Seq<VestingInfo>)
    ensures
        spec_unpack_releases(spec_pack_releases(v)) == v,
    decreases v.len(),
{
    crate::state::lemma_pack_releases_len(v);
    let s = spec_pack_releases(v);
    assert(s.len() == 12 * v.len());
    assert(s.len() as int / 12 == v.len()) by (nonlinear_arith)
        requires
            s.len() == 12 * v.len(),
    ;
    if v.len() == 0 {
        assert(spec_unpack_releases(s) =~= v);
    } else {
        lemma_unpack_pack_releases(v.drop_last());
        let s0 = spec_pack_releases(v.drop_last());
        crate::state::lemma_pack_releases_len(v.drop_last());
        crate::state::lemma_release_round_trip(v.last());
        assert forall|k: int| 0 <= k < v.len() implies spec_unpack_releases(s)[k] == v[k] by {
            if k < v.len() - 1 {
                assert(s.subrange(12 * k, 12 * k + 12) =~= s0.subrange(12 * k, 12 * k + 12));
                assert(spec_unpack_releases(s0)[k] == v.drop_last()[k]);
            } else {
                assert(s.subrange(12 * k, 12 * k + 12) =~= spec_pack_release(v.last()));
            }
        }
        assert(spec_unpack_releases(s) =~= v);
    }
}

/// Sum of the quantities of the releases whose timestamp has elapsed.
pub open spec fn spec_eligible_sum(rs: Seq<VestingInfo>, now: u32) -> int
    decreases rs.len(),
{
    if rs.len() == 0 {
        0
    } else {
        spec_eligible_sum(rs.drop_last(), now) + if rs.last().timestamp <= now {
            rs.last().quantity as int
        } else {
            0
        }
    }
}

/// The releases after an unlock: elapsed quantities zeroed in place,
/// timestamps kept as an audit trail.
pub open spec fn spec_zero_eligible(rs: Seq<VestingInfo>, now: u32) -> Seq<VestingInfo> {
    Seq::new(
        rs.len(),
        |k: int|
            if rs[k].timestamp <= now {
                VestingInfo { timestamp: rs[k].timestamp, quantity: 0 }
            } else {
                rs[k]
            },
    )
}

/// One more release moves the running totals one step.
proof fn lemma_take_step(s: Seq<VestingInfo>, now: u32, i: int)
    requires
        0 <= i < s.len(),
    ensures
        spec_sum_quantities(s.subrange(0, i + 1)) == spec_sum_quantities(s.subrange(0, i))
            + s[i].quantity,
        spec_eligible_sum(s.subrange(0, i + 1), now) == spec_eligible_sum(s.subrange(0, i), now)
            + if s[i].timestamp <= now {
            s[i].quantity as int
        } else {
            0
        },
{
    assert(s.subrange(0, i + 1).drop_last() =~= s.subrange(0, i));
}

/// A prefix never sums to more than the whole.
proof fn lemma_prefix_bounds(s: Seq<VestingInfo>, now: u32, i: int)
    requires
        0 <= i <= s.len(),
    ensures
        spec_sum_quantities(s.subrange(0, i)) <= spec_sum_quantities(s),
        spec_eligible_sum(s.subrange(0, i), now) <= spec_eligible_sum(s, now),
    decreases s.len() - i,
{
    if i == s.len() {
        assert(s.subrange(0, i) =~= s);
    } else {
        lemma_take_step(s, now, i);
        lemma_prefix_bounds(s, now, i + 1);
    }
}

/// Validation chain of Create, in instruction order: the first failing
/// check names the error; `None` means every check passed.
pub open spec fn spec_create_error(
    program: Seq<u8>,
    authority_is_signer: bool,
    funding_bytes: Seq<u8>,
    vesting_key: Seq<u8>,
    vesting_owner: Seq<u8>,
    vesting_data: Seq<u8>,
    vault_bytes: Seq<u8>,
    seed: Seq<u8>,
    releases: Seq<VestingInfo>,
) -> Option<ErrorCode> {
    if !authority_is_signer {
        Some(ErrorCode::Unauthorized)
    } else if pda_of(seq![seed], program) != Some(vesting_key) {
        Some(ErrorCode::InvalidSeeds)
    } else if vesting_owner != program {
        Some(ErrorCode::IllegalOwner)
    } else if vesting_data.len() != HEADER_LEN + RELEASE_LEN * releases.len() {
        Some(ErrorCode::InvalidSchedule)
    } else if vesting_data[0] == 1 {
        Some(ErrorCode::AlreadyInitialized)
    } else if !spec_token_account_wf(vault_bytes) {
        Some(ErrorCode::InvalidInstruction)
    } else if vault_bytes.subrange(32, 64) != vesting_key {
        Some(ErrorCode::InvalidVaultOwner)
    } else if vault_bytes[72] == 1 || vault_bytes[129] == 1 {
        Some(ErrorCode::InvalidVaultAmount)
    } else if spec_sum_quantities(releases) > u64::MAX {
        Some(ErrorCode::Overflow)
    } else if !spec_token_account_wf(funding_bytes) {
        Some(ErrorCode::InvalidInstruction)
    } else if spec_u64_from_le_bytes(funding_bytes.subrange(64, 72)) < spec_sum_quantities(
        releases,
    ) {
        Some(ErrorCode::InsufficientFunds)
    } else {
        None
    }
}

/// Validation chain of Unlock, in instruction order.
pub open spec fn spec_unlock_error(
    program: Seq<u8>,
    vesting_key: Seq<u8>,
    vesting_owner: Seq<u8>,
    vesting_data: Seq<u8>,
    vault_bytes: Seq<u8>,
    recipient_key: Seq<u8>,
    token_program_key: Seq<u8>,
    seed: Seq<u8>,
    now: u32,
) -> Option<ErrorCode> {
    if pda_of(seq![seed], program) != Some(vesting_key) {
        Some(ErrorCode::InvalidSeeds)
    } else if vesting_owner != program {
        Some(ErrorCode::IllegalOwner)
    } else if token_program_key != spec_token_program_id() {
        Some(ErrorCode::InvalidProgramAddress)
    } else if !spec_header_bytes_valid(vesting_data) {
        Some(ErrorCode::InvalidInstruction)
    } else if !spec_header_is_initialized(vesting_data) {
        Some(ErrorCode::UnrealizedVesting)
    } else if spec_header_beneficiary(vesting_data) != recipient_key {
        Some(ErrorCode::Unauthorized)
    } else if !spec_token_account_wf(vault_bytes) {
        Some(ErrorCode::InvalidInstruction)
    } else if vault_bytes.subrange(32, 64) != vesting_key {
        Some(ErrorCode::InvalidVaultOwner)
    } else if (vesting_data.len() - HEADER_LEN) % (RELEASE_LEN as int) != 0 {
        Some(ErrorCode::InvalidInstruction)
    } else if spec_eligible_sum(
        spec_unpack_releases(vesting_data.subrange(65, vesting_data.len() as int)),
        now,
    ) > u64::MAX {
        Some(ErrorCode::Overflow)
    } else if spec_eligible_sum(
        spec_unpack_releases(vesting_data.subrange(65, vesting_data.len() as int)),
        now,
    ) == 0 {
        Some(ErrorCode::NoEligibleRelease)
    } else {
        None
    }
}

pub struct Processor;

impl Processor {
    /// Init: verifies the derived address and requests the allocation of
    /// an empty vesting account sized for `release_count` releases.
    pub fn process_init(
        program_id: &Pubkey,
        payer: &Pubkey,
        vesting_account: &Pubkey,
        seed: &Pubkey,
        release_count: u32,
    ) -> (r: Result<AllocateAction, ErrorCode>)
        ensures
            match r {
                Ok(a) => {
                    &&& pda_of(seq![seed@], program_id@) == Some(vesting_account@)
                    &&& a.payer == *payer
                    &&& a.new_address == *vesting_account
                    &&& a.owner == *program_id
                    &&& a.seed == *seed
                    &&& a.size == HEADER_LEN + RELEASE_LEN * release_count
                },
                Err(e) => {
                    &&& e == ErrorCode::InvalidSeeds
                    &&& pda_of(seq![seed@], program_id@) != Some(vesting_account@)
                },
            },
    {
        if !verify(vesting_account, seed, program_id) {
            return Err(ErrorCode::InvalidSeeds);
        }
        let size: u64 = (HEADER_LEN as u64) + (RELEASE_LEN as u64) * (release_count as u64);
        Ok(
            AllocateAction {
                payer: *payer,
                new_address: *vesting_account,
                size,
                owner: *program_id,
                seed: *seed,
            },
        )
    }

    /// Create: validates authority, derived address, emptiness and the
    /// vault's invariants, then writes header and schedule and commits
    /// to transferring the schedule total from the funding account into
    /// the vault. On any error nothing is written and nothing moves.
    pub fn process_create_vesting(
        program_id: &Pubkey,
        authority: &AccountView,
        token_account_key: &Pubkey,
        token_account_data: &Vec<u8>,
        vesting_account: &AccountView,
        vesting_data: &mut Vec<u8>,
        vault_key: &Pubkey,
        vault_data: &Vec<u8>,
        seed: &Pubkey,
        mint: Pubkey,
        recipient: Pubkey,
        releases: &Vec<VestingInfo>,
    ) -> (r: Result<TransferAction, ErrorCode>)
        ensures
            ({
                let chain = spec_create_error(
                    program_id@,
                    authority.is_signer,
                    token_account_data@,
                    vesting_account.key@,
                    vesting_account.owner@,
                    old(vesting_data)@,
                    vault_data@,
                    seed@,
                    releases@,
                );
                match r {
                    Ok(t) => {
                        &&& chain is None
                        &&& t.from == *token_account_key
                        &&& t.to == *vault_key
                        &&& t.authority == authority.key
                        &&& t.amount == spec_sum_quantities(releases@)
                        &&& final(vesting_data)@ == spec_pack_header(
                            VestingHeader { is_initialized: true, mint, beneficiary: recipient },
                        ) + spec_pack_releases(releases@)
                        &&& final(vesting_data)@.len() == old(vesting_data)@.len()
                    },
                    Err(e) => {
                        &&& chain == Some(e)
                        &&& final(vesting_data)@ == old(vesting_data)@
                    },
                }
            }),
    {
        if !authority.is_signer {
            return Err(ErrorCode::Unauthorized);
        }
        if !verify(&vesting_account.key, seed, program_id) {
            return Err(ErrorCode::InvalidSeeds);
        }
        if !(vesting_account.owner == *program_id) {
            return Err(ErrorCode::IllegalOwner);
        }
        let n = vesting_data.len();
        if n < HEADER_LEN || (n - HEADER_LEN) % RELEASE_LEN != 0 || (n - HEADER_LEN) / RELEASE_LEN
            != releases.len() {
            proof {
                vstd::arithmetic::div_mod::lemma_fundamental_div_mod((n - HEADER_LEN) as int, 12);
            }
            return Err(ErrorCode::InvalidSchedule);
        }
        proof {
            vstd::arithmetic::div_mod::lemma_fundamental_div_mod((n - HEADER_LEN) as int, 12);
        }
        if vesting_data[0] == 1 {
            return Err(ErrorCode::AlreadyInitialized);
        }
        let vault = match unpack_token_account(vault_data) {
            Ok(v) => v,
            Err(e) => {
                return Err(e);
            },
        };
        if !(vault.owner == vesting_account.key) {
            return Err(ErrorCode::InvalidVaultOwner);
        }
        if vault.has_delegate || vault.has_close_authority {
            return Err(ErrorCode::InvalidVaultAmount);
        }
        let total = match Self::sum_quantities_checked(releases) {
            Some(t) => t,
            None => {
                return Err(ErrorCode::Overflow);
            },
        };
        let funding = match unpack_token_account(token_account_data) {
            Ok(v) => v,
            Err(e) => {
                return Err(e);
            },
        };
        if funding.amount < total {
            return Err(ErrorCode::InsufficientFunds);
        }
        let header = VestingHeader { is_initialized: true, mint, beneficiary: recipient };
        let mut out = header.pack();
        pack_releases_into(releases, &mut out);
        proof {
            crate::state::lemma_pack_releases_len(releases@);
        }
        *vesting_data = out;
        Ok(
            TransferAction {
                from: *token_account_key,
                to: *vault_key,
                authority: authority.key,
                amount: total,
            },
        )
    }

    /// Adds up the schedule's quantities, detecting overflow exactly.
    fn sum_quantities_checked(releases: &Vec<VestingInfo>) -> (r: Option<u64>)
        ensures
            match r {
                Some(t) => t == spec_sum_quantities(releases@),
                None => spec_sum_quantities(releases@) > u64::MAX,
            },
    {
        let mut total: u64 = 0;
        let mut i: usize = 0;
        while i < releases.len()
            invariant
                i <= releases@.len(),
                total == spec_sum_quantities(releases@.subrange(0, i as int)),
            decreases releases@.len() - i,
        {
            proof {
                lemma_take_step(releases@, 0, i as int);
            }
            total = match total.checked_add(releases[i].quantity) {
                Some(t) => t,
                None => {
                    proof {
                        lemma_prefix_bounds(releases@, 0, i + 1);
                    }
                    return None;
                },
            };
            i = i + 1;
        }
        proof {
            assert(releases@.subrange(0, releases@.len() as int) =~= releases@);
        }
        Some(total)
    }

    /// Unlock: validates the derived address and account identities,
    /// then pays the sum of every elapsed, still-unclaimed release to
    /// the beneficiary and zeroes those quantities in place, keeping
    /// their timestamps. With nothing eligible it fails and mutates
    /// nothing; the caller may safely retry later.
    #[verifier::loop_isolation(false)]
    pub fn process_unlock_tokens(
        program_id: &Pubkey,
        vesting_account: &AccountView,
        vesting_data: &mut Vec<u8>,
        vault_key: &Pubkey,
        vault_data: &Vec<u8>,
        recipient_key: &Pubkey,
        recipient_token_key: &Pubkey,
        token_program_key: &Pubkey,
        seed: &Pubkey,
        now: u32,
    ) -> (r: Result<TransferAction, ErrorCode>)
        ensures
            ({
                let chain = spec_unlock_error(
                    program_id@,
                    vesting_account.key@,
                    vesting_account.owner@,
                    old(vesting_data)@,
                    vault_data@,
                    recipient_key@,
                    token_program_key@,
                    seed@,
                    now,
                );
                match r {
                    Ok(t) => {
                        let s = old(vesting_data)@;
                        let rs = spec_unpack_releases(s.subrange(65, s.len() as int));
                        &&& chain is None
                        &&& t.from == *vault_key
                        &&& t.to == *recipient_token_key
                        &&& t.authority == vesting_account.key
                        &&& t.amount == spec_eligible_sum(rs, now)
                        &&& t.amount > 0
                        &&& final(vesting_data)@ == s.subrange(0, 65) + spec_pack_releases(
                            spec_zero_eligible(rs, now),
                        )
                        &&& final(vesting_data)@.len() == s.len()
                    },
                    Err(e) => {
                        &&& chain == Some(e)
                        &&& final(vesting_data)@ == old(vesting_data)@
                    },
                }
            }),
    {
        if !verify(&vesting_account.key, seed, program_id) {
            return Err(ErrorCode::InvalidSeeds);
        }
        if !(vesting_account.owner == *program_id) {
            return Err(ErrorCode::IllegalOwner);
        }
        let expected_token_program = token_program_id();
        if !(*token_program_key == expected_token_program) {
            return Err(ErrorCode::InvalidProgramAddress);
        }
        let header = match VestingHeader::unpack(vesting_data) {
            Ok(h) => h,
            Err(_) => {
                return Err(ErrorCode::InvalidInstruction);
            },
        };
        if !header.is_initialized {
            return Err(ErrorCode::UnrealizedVesting);
        }
        if !(header.beneficiary == *recipient_key) {
            return Err(ErrorCode::Unauthorized);
        }
        let vault = match unpack_token_account(vault_data) {
            Ok(v) => v,
            Err(e) => {
                return Err(e);
            },
        };
        if !(vault.owner == vesting_account.key) {
            return Err(ErrorCode::InvalidVaultOwner);
        }
        let releases = match unpack_releases(vesting_data, HEADER_LEN) {
            Ok(v) => v,
            Err(_) => {
                return Err(ErrorCode::InvalidInstruction);
            },
        };
        let ghost s = vesting_data@;
        let ghost rs = spec_unpack_releases(s.subrange(65, s.len() as int));
        proof {
            assert forall|k: int| 0 <= k < releases@.len() implies releases@[k] == rs[k] by {
                assert(s.subrange(65, s.len() as int).subrange(12 * k, 12 * k + 12) =~= s.subrange(
                    65 + 12 * k,
                    65 + 12 * k + 12,
                ));
            }
            assert(releases@ =~= rs);
        }

        let mut sum: u64 = 0;
        let mut zeroed: Vec<VestingInfo> = Vec::new();
        let mut i: usize = 0;
        while i < releases.len()
            invariant
                i <= releases@.len(),
                sum == spec_eligible_sum(releases@.subrange(0, i as int), now),
                zeroed@.len() == i,
                forall|j: int|
                    0 <= j < i ==> #[trigger] zeroed@[j] == spec_zero_eligible(releases@, now)[j],
            decreases releases@.len() - i,
        {
            proof {
                lemma_take_step(releases@, now, i as int);
            }
            let entry = releases[i];
            if entry.timestamp <= now {
                sum = match sum.checked_add(entry.quantity) {
                    Some(t) => t,
                    None => {
                        proof {
                            lemma_prefix_bounds(releases@, now, i + 1);
                        }
                        return Err(ErrorCode::Overflow);
                    },
                };
                zeroed.push(VestingInfo { timestamp: entry.timestamp, quantity: 0 });
            } else {
                zeroed.push(entry);
            }
            i = i + 1;
        }
        proof {
            assert(releases@.subrange(0, releases@.len() as int) =~= releases@);
            assert(zeroed@ =~= spec_zero_eligible(releases@, now));
        }
        if sum == 0 {
            return Err(ErrorCode::NoEligibleRelease);
        }

        let mut out: Vec<u8> = Vec::new();
        let mut j: usize = 0;
        while j < HEADER_LEN
            invariant
                j <= HEADER_LEN,
                vesting_data@ == s,
                s.len() >= HEADER_LEN,
                out@ == s.subrange(0, j as int),
            decreases HEADER_LEN - j,
        {
            out.push(vesting_data[j]);
            proof {
                assert(out@ =~= s.subrange(0, j + 1));
            }
            j = j + 1;
        }
        pack_releases_into(&zeroed, &mut out);
        proof {
            crate::state::lemma_pack_releases_len(zeroed@);
        }
        *vesting_data = out;
        Ok(
            TransferAction {
                from: *vault_key,
                to: *recipient_token_key,
                authority: vesting_account.key,
                amount: sum,
            },
        )
    }
}

impl Processor {
    /// Decodes an instruction record and runs the matching handler on
    /// the supplied accounts. Exactly the decoded handler's outcome:
    /// nothing is reinterpreted on the way through.
    pub fn process_instruction(
        program_id: &Pubkey,
        authority: &AccountView,
        token_account_key: &Pubkey,
        token_account_data: &Vec<u8>,
        vesting_account: &AccountView,
        vesting_data: &mut Vec<u8>,
        vault_key: &Pubkey,
        vault_data: &Vec<u8>,
        recipient_key: &Pubkey,
        recipient_token_key: &Pubkey,
        token_program_key: &Pubkey,
        data: &Vec<u8>,
        now: u32,
    ) -> (r: Result<VestingAction, ErrorCode>)
        ensures
            ({
                let s = data@;
                let d_old = old(vesting_data)@;
                &&& (!spec_vesting_ix_bytes_valid(s) ==> r == Err::<VestingAction, ErrorCode>(
                    ErrorCode::InvalidInstruction,
                ) && final(vesting_data)@ == d_old)
                &&& (spec_vesting_ix_bytes_valid(s) && s[0] == 0 ==> final(vesting_data)@ == d_old
                    && (match r {
                    Ok(VestingAction::Allocate(al)) => {
                        &&& pda_of(seq![s.subrange(1, 33)], program_id@) == Some(
                            vesting_account.key@,
                        )
                        &&& al.payer == authority.key
                        &&& al.new_address == vesting_account.key
                        &&& al.owner == *program_id
                        &&& al.seed@ == s.subrange(1, 33)
                        &&& al.size == HEADER_LEN + RELEASE_LEN * spec_u32_from_le_bytes(
                            s.subrange(33, 37),
                        )
                    },
                    Ok(_) => false,
                    Err(e) => e == ErrorCode::InvalidSeeds && pda_of(
                        seq![s.subrange(1, 33)],
                        program_id@,
                    ) != Some(vesting_account.key@),
                }))
                &&& (spec_vesting_ix_bytes_valid(s) && s[0] == 1 ==> ({
                    let rs = spec_unpack_releases(s.subrange(97, s.len() as int));
                    let chain = spec_create_error(
                        program_id@,
                        authority.is_signer,
                        token_account_data@,
                        vesting_account.key@,
                        vesting_account.owner@,
                        d_old,
                        vault_data@,
                        s.subrange(1, 33),
                        rs,
                    );
                    match r {
                        Ok(VestingAction::Transfer(t)) => {
                            &&& chain is None
                            &&& t.from == *token_account_key
                            &&& t.to == *vault_key
                            &&& t.authority == authority.key
                            &&& t.amount == spec_sum_quantities(rs)
                            &&& final(vesting_data)@ == seq![1u8] + s.subrange(33, 65)
                                + s.subrange(65, 97) + spec_pack_releases(rs)
                            &&& final(vesting_data)@.len() == d_old.len()
                        },
                        Ok(_) => false,
                        Err(e) => chain == Some(e) && final(vesting_data)@ == d_old,
                    }
                }))
                &&& (spec_vesting_ix_bytes_valid(s) && s[0] == 2 ==> ({
                    let rs = spec_unpack_releases(d_old.subrange(65, d_old.len() as int));
                    let chain = spec_unlock_error(
                        program_id@,
                        vesting_account.key@,
                        vesting_account.owner@,
                        d_old,
                        vault_data@,
                        recipient_key@,
                        token_program_key@,
                        s.subrange(1, 33),
                        now,
                    );
                    match r {
                        Ok(VestingAction::Transfer(t)) => {
                            &&& chain is None
                            &&& t.from == *vault_key
                            &&& t.to == *recipient_token_key
                            &&& t.authority == vesting_account.key
                            &&& t.amount == spec_eligible_sum(rs, now)
                            &&& t.amount > 0
                            &&& final(vesting_data)@ == d_old.subrange(0, 65)
                                + spec_pack_releases(spec_zero_eligible(rs, now))
                        },
                        Ok(_) => false,
                        Err(e) => chain == Some(e) && final(vesting_data)@ == d_old,
                    }
                }))
            }),
    {
        let ix = match VestingIx::unpack(data) {
            Ok(ix) => ix,
            Err(e) => {
                return Err(e);
            },
        };
        let ghost s = data@;
        match ix {
            VestingIx::Init { seed, release_count } => {
                proof {
                    vstd::bytes::lemma_auto_spec_u32_to_from_le_bytes();
                    assert(seed@ =~= s.subrange(1, 33));
                    assert(s.subrange(33, 37) =~= spec_u32_to_le_bytes(release_count));
                }
                match Self::process_init(
                    program_id,
                    &authority.key,
                    &vesting_account.key,
                    &seed,
                    release_count,
                ) {
                    Ok(a) => Ok(VestingAction::Allocate(a)),
                    Err(e) => Err(e),
                }
            },
            VestingIx::Create { seed, mint, recipient, releases } => {
                proof {
                    assert(seed@ =~= s.subrange(1, 33));
                    assert(mint@ =~= s.subrange(33, 65));
                    assert(recipient@ =~= s.subrange(65, 97));
                    assert(s.subrange(97, s.len() as int) =~= spec_pack_releases(releases@));
                    lemma_unpack_pack_releases(releases@);
                }
                match Self::process_create_vesting(
                    program_id,
                    authority,
                    token_account_key,
                    token_account_data,
                    vesting_account,
                    vesting_data,
                    vault_key,
                    vault_data,
                    &seed,
                    mint,
                    recipient,
                    &releases,
                ) {
                    Ok(t) => {
                        proof {
                            assert(spec_pack_header(
                                VestingHeader { is_initialized: true, mint, beneficiary: recipient },
                            ) + spec_pack_releases(releases@) =~= seq![1u8] + s.subrange(33, 65)
                                + s.subrange(65, 97) + spec_pack_releases(releases@));
                        }
                        Ok(VestingAction::Transfer(t))
                    },
                    Err(e) => Err(e),
                }
            },
            VestingIx::Unlock { seed } => {
                proof {
                    assert(seed@ =~= s.subrange(1, 33));
                }
                match Self::process_unlock_tokens(
                    program_id,
                    vesting_account,
                    vesting_data,
                    vault_key,
                    vault_data,
                    recipient_key,
                    recipient_token_key,
                    token_program_key,
                    &seed,
                    now,
                ) {
                    Ok(t) => Ok(VestingAction::Transfer(t)),
                    Err(e) => Err(e),
                }
            },
        }
    }
}

/// Builds the Init record for the vesting program: allocate the account
/// at the address derived from `seed`, sized for `release_count` slots.
pub fn init(
    program_id: &Pubkey,
    payer: &Pubkey,
    vesting: &Pubkey,
    system_program: &Pubkey,
    seed: Pubkey,
    release_count: u32,
) -> (r: Result<Instruction, ErrorCode>)
    ensures
        ({
            match r {
                Ok(ins) => {
                    &&& ins.program_id == *program_id
                    &&& ins.data@ == spec_pack_vesting_ix(VestingIx::Init { seed, release_count })
                    &&& ins.accounts@ == seq![
                        (AccountMeta { pubkey: *payer, is_signer: true, is_writable: true }),
                        (AccountMeta { pubkey: *vesting, is_signer: false, is_writable: true }),
                        (
                        AccountMeta {
                            pubkey: *system_program,
                            is_signer: false,
                            is_writable: false,
                        }
                        ),
                    ]
                },
                Err(_) => false,
            }
        }),
{
    let mut accounts: Vec<AccountMeta> = Vec::new();
    accounts.push(AccountMeta::new(*payer, true));
    accounts.push(AccountMeta::new(*vesting, false));
    accounts.push(AccountMeta::new_readonly(*system_program, false));
    let data = VestingIx::Init { seed, release_count }.pack();
    proof {
        assert(accounts@ =~= seq![
            (AccountMeta { pubkey: *payer, is_signer: true, is_writable: true }),
            (AccountMeta { pubkey: *vesting, is_signer: false, is_writable: true }),
            (AccountMeta { pubkey: *system_program, is_signer: false, is_writable: false }),
        ]);
    }
    Ok(Instruction { program_id: *program_id, accounts, data })
}

/// Builds the Create record: write the schedule for `beneficiary` and
/// fund the vault from `token_account`.
pub fn create(
    program_id: &Pubkey,
    payer: &Pubkey,
    token_account: &Pubkey,
    vesting: &Pubkey,
    vault: &Pubkey,
    token_program: &Pubkey,
    seed: Pubkey,
    mint: Pubkey,
    beneficiary: Pubkey,
    releases: Vec<VestingInfo>,
) -> (r: Result<Instruction, ErrorCode>)
    ensures
        ({
            match r {
                Ok(ins) => {
                    &&& ins.program_id == *program_id
                    &&& ins.data@ == spec_pack_vesting_ix(
                        VestingIx::Create { seed, mint, recipient: beneficiary, releases },
                    )
                    &&& ins.accounts@ == seq![
                        (AccountMeta { pubkey: *payer, is_signer: true, is_writable: true }),
                        (
                        AccountMeta {
                            pubkey: *token_account,
                            is_signer: false,
                            is_writable: true,
                        }
                        ),
                        (AccountMeta { pubkey: *vesting, is_signer: false, is_writable: true }),
                        (AccountMeta { pubkey: *vault, is_signer: false, is_writable: true }),
                        (
                        AccountMeta {
                            pubkey: *token_program,
                            is_signer: false,
                            is_writable: false,
                        }
                        ),
                    ]
                },
                Err(_) => false,
            }
        }),
{
    let mut accounts: Vec<AccountMeta> = Vec::new();
    accounts.push(AccountMeta::new(*payer, true));
    accounts.push(AccountMeta::new(*token_account, false));
    accounts.push(AccountMeta::new(*vesting, false));
    accounts.push(AccountMeta::new(*vault, false));
    accounts.push(AccountMeta::new_readonly(*token_program, false));
    let ix = VestingIx::Create { seed, mint, recipient: beneficiary, releases };
    let data = ix.pack();
    proof {
        assert(accounts@ =~= seq![
            (AccountMeta { pubkey: *payer, is_signer: true, is_writable: true }),
            (AccountMeta { pubkey: *token_account, is_signer: false, is_writable: true }),
            (AccountMeta { pubkey: *vesting, is_signer: false, is_writable: true }),
            (AccountMeta { pubkey: *vault, is_signer: false, is_writable: true }),
            (AccountMeta { pubkey: *token_program, is_signer: false, is_writable: false }),
        ]);
    }
    Ok(Instruction { program_id: *program_id, accounts, data })
}

/// Builds the Unlock record: pay out what has vested under `seed`.
pub fn unlock(
    program_id: &Pubkey,
    vesting: &Pubkey,
    vault: &Pubkey,
    beneficiary: &Pubkey,
    beneficiary_token: &Pubkey,
    token_program: &Pubkey,
    seed: Pubkey,
) -> (r: Result<Instruction, ErrorCode>)
    ensures
        ({
            match r {
                Ok(ins) => {
                    &&& ins.program_id == *program_id
                    &&& ins.data@ == spec_pack_vesting_ix(VestingIx::Unlock { seed })
                    &&& ins.accounts@ == seq![
                        (AccountMeta { pubkey: *vesting, is_signer: false, is_writable: true }),
                        (AccountMeta { pubkey: *vault, is_signer: false, is_writable: true }),
                        (
                        AccountMeta { pubkey: *beneficiary, is_signer: false, is_writable: true }
                        ),
                        (
                        AccountMeta {
                            pubkey: *beneficiary_token,
                            is_signer: false,
                            is_writable: true,
                        }
                        ),
                        (
                        AccountMeta {
                            pubkey: *token_program,
                            is_signer: false,
                            is_writable: false,
                        }
                        ),
                    ]
                },
                Err(_) => false,
            }
        }),
{
    let mut accounts: Vec<AccountMeta> = Vec::new();
    accounts.push(AccountMeta::new(*vesting, false));
    accounts.push(AccountMeta::new(*vault, false));
    accounts.push(AccountMeta::new(*beneficiary, false));
    accounts.push(AccountMeta::new(*beneficiary_token, false));
    accounts.push(AccountMeta::new_readonly(*token_program, false));
    let data = VestingIx::Unlock { seed }.pack();
    proof {
        assert(accounts@ =~= seq![
            (AccountMeta { pubkey: *vesting, is_signer: false, is_writable: true }),
            (AccountMeta { pubkey: *vault, is_signer: false, is_writable: true }),
            (AccountMeta { pubkey: *beneficiary, is_signer: false, is_writable: true }),
            (AccountMeta { pubkey: *beneficiary_token, is_signer: false, is_writable: true }),
            (AccountMeta { pubkey: *token_program, is_signer: false, is_writable: false }),
        ]);
    }
    Ok(Instruction { program_id: *program_id, accounts, data })
}

/// Zeroing every elapsed release leaves nothing eligible: the eligible
/// sum of an unlocked schedule is zero, at the same clock.
pub proof fn lemma_unlock_idempotent(rs: Seq<VestingInfo>, now: u32)
    ensures
        spec_eligible_sum(spec_zero_eligible(rs, now), now) == 0,
    decreases rs.len(),
{
    let z = spec_zero_eligible(rs, now);
    if rs.len() > 0 {
        lemma_unlock_idempotent(rs.drop_last(), now);
        assert(z.drop_last() =~= spec_zero_eligible(rs.drop_last(), now));
    }
}

/// A second Unlock with no time elapsed is rejected: on the state a
/// successful Unlock wrote, the same call fails with NoEligibleRelease
/// and every earlier validation still passes.
pub proof fn lemma_unlock_retry_rejected(
    program: Seq<u8>,
    vesting_key: Seq<u8>,
    vesting_owner: Seq<u8>,
    old_data: Seq<u8>,
    new_data: Seq<u8>,
    vault_bytes: Seq<u8>,
    recipient_key: Seq<u8>,
    token_program_key: Seq<u8>,
    seed: Seq<u8>,
    now: u32,
)
    requires
        spec_unlock_error(
            program,
            vesting_key,
            vesting_owner,
            old_data,
            vault_bytes,
            recipient_key,
            token_program_key,
            seed,
            now,
        ) is None,
        new_data == old_data.subrange(0, 65) + spec_pack_releases(
            spec_zero_eligible(spec_unpack_releases(old_data.subrange(65, old_data.len() as int)), now),
        ),
    ensures
        spec_unlock_error(
            program,
            vesting_key,
            vesting_owner,
            new_data,
            vault_bytes,
            recipient_key,
            token_program_key,
            seed,
            now,
        ) == Some(ErrorCode::NoEligibleRelease),
{
    let rs = spec_unpack_releases(old_data.subrange(65, old_data.len() as int));
    let z = spec_zero_eligible(rs, now);
    crate::state::lemma_pack_releases_len(z);
    assert(new_data.len() == 65 + 12 * z.len());
    assert(new_data[0] == old_data[0]);
    assert(spec_header_beneficiary(new_data) =~= spec_header_beneficiary(old_data));
    assert((new_data.len() - 65) % 12 == 0) by (nonlinear_arith)
        requires
            new_data.len() == 65 + 12 * z.len(),
    ;
    assert(new_data.subrange(65, new_data.len() as int) =~= spec_pack_releases(z));
    lemma_unpack_pack_releases(z);
    lemma_unlock_idempotent(rs, now);
}

} // verus!
