//! Plain-value view of a token account.
//!
//! The vault and the funding account are token accounts of the asset
//! program. The vesting logic reads only their owner, balance, and
//! whether a delegate or close authority is configured; this module
//! decodes those fields into a plain struct the verified handlers take.

use vstd::prelude::*;

use vstd::bytes::spec_u64_from_le_bytes;

use crate::error::ErrorCode;
use crate::keys::Pubkey;

verus! {

/// What the vesting logic reads of a token account.
#[derive(Clone, Copy, Debug)]
pub struct TokenAccountView {
    pub mint: Pubkey,
    pub owner: Pubkey,
    pub amount: u64,
    pub has_delegate: bool,
    pub has_close_authority: bool,
}

/// The bytes decode as an initialized token account: the fixed 165-byte
/// layout, in-range option tags, and a state byte other than
/// uninitialized.
pub open spec fn spec_token_account_wf(s: Seq<u8>) -> bool {
    &&& s.len() == 165
    &&& (s[72] == 0 || s[72] == 1) && s[73] == 0 && s[74] == 0 && s[75] == 0
    &&& (s[108] == 1 || s[108] == 2)
    &&& (s[109] == 0 || s[109] == 1) && s[110] == 0 && s[111] == 0 && s[112] == 0
    &&& (s[129] == 0 || s[129] == 1) && s[130] == 0 && s[131] == 0 && s[132] == 0
}

/// Relies on spl_token's Account::unpack: mint at 0, owner at 32, amount
/// little-endian at 64, the delegate option tag at 72, the close
/// authority option tag at 129; rejects anything but an initialized
/// 165-byte record with in-range option tags.
#[verifier::external_body]
pub fn unpack_token_account(data: &Vec<u8>) -> (r: Result<TokenAccountView, ErrorCode>)
    ensures
        match r {
            Ok(v) => {
                &&& spec_token_account_wf(data@)
                &&& v.mint@ == data@.subrange(0, 32)
                &&& v.owner@ == data@.subrange(32, 64)
                &&& v.amount == spec_u64_from_le_bytes(data@.subrange(64, 72))
                &&& v.has_delegate == (data@[72] == 1)
                &&& v.has_close_authority == (data@[129] == 1)
            },
            Err(e) => !spec_token_account_wf(data@) && e == ErrorCode::InvalidInstruction,
        },
{
    match <spl_token::state::Account as solana_program::program_pack::Pack>::unpack(
        data.as_slice(),
    ) {
        Ok(a) => Ok(TokenAccountView {
            mint: Pubkey(a.mint.to_bytes()),
            owner: Pubkey(a.owner.to_bytes()),
            amount: a.amount,
            has_delegate: a.delegate.is_some(),
            has_close_authority: a.close_authority.is_some(),
        }),
        Err(_) => Err(ErrorCode::InvalidInstruction),
    }
}

} // verus!
