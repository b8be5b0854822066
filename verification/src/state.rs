//! Persistent vesting state and its fixed-layout binary codec.
//!
//! A vesting account holds a fixed-size header followed by
//! `period_count` release entries, all at fixed offsets, little-endian,
//! with no padding and no length prefixes. `unpack` fails with
//! `Truncated` when fewer bytes are available than the layout requires,
//! and rejects out-of-range enumerants instead of coercing them.

use vstd::prelude::*;

use vstd::bytes::{
    spec_u32_from_le_bytes, spec_u32_to_le_bytes, spec_u64_from_le_bytes, spec_u64_to_le_bytes,
    u32_from_le_bytes, u32_to_le_bytes, u64_from_le_bytes, u64_to_le_bytes,
};
use vstd::slice::slice_subrange;

use crate::error::DecodeError;
use crate::keys::Pubkey;

verus! {

/// Width of one packed release entry.
pub const RELEASE_LEN: usize = 12;

/// Width of the packed vesting header.
pub const HEADER_LEN: usize = 65;

/// Width of the packed full vesting state record.
pub const STATE_LEN: usize = 242;

/// One schedule entry: the instant an installment becomes claimable and
/// the exact amount it releases, in base units.
#[derive(Clone, Copy, Debug, PartialEq, Eq, Structural)]
pub struct VestingInfo {
    pub timestamp: u32,
    pub quantity: u64,
}

/// The fixed-size record at the start of a vesting account.
#[derive(Clone, Copy, Debug, PartialEq, Eq)]
pub struct VestingHeader {
    pub is_initialized: bool,
    pub mint: Pubkey,
    pub beneficiary: Pubkey,
}

// ---- byte helpers ----

/// Reads a little-endian `u32` at `offset`.
pub fn read_u32_le(data: &Vec<u8>, offset: usize) -> (x: u32)
    requires
        offset + 4 <= data@.len(),
    ensures
        x == spec_u32_from_le_bytes(data@.subrange(offset as int, offset + 4)),
{
    let n = data.len();
    let s = slice_subrange(data.as_slice(), offset, offset + 4);
    u32_from_le_bytes(s)
}

/// Reads a little-endian `u64` at `offset`.
pub fn read_u64_le(data: &Vec<u8>, offset: usize) -> (x: u64)
    requires
        offset + 8 <= data@.len(),
    ensures
        x == spec_u64_from_le_bytes(data@.subrange(offset as int, offset + 8)),
{
    let n = data.len();
    let s = slice_subrange(data.as_slice(), offset, offset + 8);
    u64_from_le_bytes(s)
}

/// Appends a `u32` in little-endian order.
pub fn push_u32_le(dst: &mut Vec<u8>, x: u32)
    ensures
        final(dst)@ == old(dst)@ + spec_u32_to_le_bytes(x),
{
    let mut b = u32_to_le_bytes(x);
    dst.append(&mut b);
}

/// Appends a `u64` in little-endian order.
pub fn push_u64_le(dst: &mut Vec<u8>, x: u64)
    ensures
        final(dst)@ == old(dst)@ + spec_u64_to_le_bytes(x),
{
    let mut b = u64_to_le_bytes(x);
    dst.append(&mut b);
}

/// Overwrites 8 bytes at `offset` with a little-endian `u64`, leaving
/// every other byte unchanged.
pub fn write_u64_le_at(data: &mut Vec<u8>, offset: usize, x: u64)
    requires
        offset + 8 <= old(data)@.len(),
    ensures
        final(data)@.len() == old(data)@.len(),
        final(data)@.subrange(offset as int, offset + 8) == spec_u64_to_le_bytes(x),
        forall|j: int|
            0 <= j < old(data)@.len() && !(offset <= j < offset + 8) ==> final(data)@[j] == old(
                data,
            )@[j],
{
    let b = u64_to_le_bytes(x);
    let n = data.len();
    let mut k: usize = 0;
    while k < 8
        invariant
            k <= 8,
            offset + 8 <= n,
            n == data@.len(),
            b@ == spec_u64_to_le_bytes(x),
            b@.len() == 8,
            forall|j: int| 0 <= j < k ==> data@[offset + j] == b@[j],
            forall|j: int|
                0 <= j < n && !(offset <= j < offset + k) ==> data@[j] == old(data)@[j],
        decreases 8 - k,
    {
        data.set(offset + k, b[k]);
        k = k + 1;
    }
    proof {
        assert(data@.subrange(offset as int, offset + 8) =~= spec_u64_to_le_bytes(x));
    }
}

// ---- release codec ----

/// Packed form of one release: timestamp then quantity, little-endian.
pub open spec fn spec_pack_release(r: VestingInfo) -> Seq<u8> {
    spec_u32_to_le_bytes(r.timestamp) + spec_u64_to_le_bytes(r.quantity)
}

/// The release encoded in the first 12 bytes of `s`.
pub open spec fn spec_unpack_release(s: Seq<u8>) -> VestingInfo {
    VestingInfo {
        timestamp: spec_u32_from_le_bytes(s.subrange(0, 4)),
        quantity: spec_u64_from_le_bytes(s.subrange(4, 12)),
    }
}

/// Unpacking a packed release gives back the release, for every release,
/// including boundary quantities.
pub proof fn lemma_release_round_trip(r: VestingInfo)
    ensures
        spec_pack_release(r).len() == RELEASE_LEN,
        spec_unpack_release(spec_pack_release(r)) == r,
{
    vstd::bytes::lemma_auto_spec_u32_to_from_le_bytes();
    vstd::bytes::lemma_auto_spec_u64_to_from_le_bytes();
    assert(spec_pack_release(r).subrange(0, 4) =~= spec_u32_to_le_bytes(r.timestamp));
    assert(spec_pack_release(r).subrange(4, 12) =~= spec_u64_to_le_bytes(r.quantity));
}

/// Any 12 bytes repack to themselves after decoding: the release codec
/// loses nothing in either direction.
pub proof fn lemma_release_repack(s: Seq<u8>)
    requires
        s.len() == RELEASE_LEN,
    ensures
        spec_pack_release(spec_unpack_release(s)) == s,
{
    vstd::bytes::lemma_auto_spec_u32_to_from_le_bytes();
    vstd::bytes::lemma_auto_spec_u64_to_from_le_bytes();
    assert(spec_pack_release(spec_unpack_release(s)) =~= s);
}

/// A decoded release array repacks to the bytes it came from.
pub proof fn lemma_releases_repack(s: Seq<u8>, v: Seq<VestingInfo>)
    requires
        s.len() as int % (RELEASE_LEN as int) == 0,
        v.len() as int == s.len() as int / (RELEASE_LEN as int),
        forall|k: int|
            0 <= k < v.len() ==> #[trigger] v[k] == spec_unpack_release(
                s.subrange(12 * k, 12 * k + 12),
            ),
    ensures
        spec_pack_releases(v) == s,
    decreases v.len(),
{
    vstd::arithmetic::div_mod::lemma_fundamental_div_mod(s.len() as int, 12);
    if v.len() == 0 {
        assert(s =~= Seq::<u8>::empty());
    } else {
        let s0 = s.subrange(0, s.len() - 12);
        vstd::arithmetic::div_mod::lemma_fundamental_div_mod(s0.len() as int, 12);
        assert(s0.len() == 12 * (v.len() - 1));
        assert(s0.len() % 12 == 0 && s0.len() / 12 == v.len() - 1) by (nonlinear_arith)
            requires
                s0.len() == 12 * (v.len() - 1),
                v.len() >= 1,
        ;
        assert forall|k: int| 0 <= k < v.drop_last().len() implies #[trigger] v.drop_last()[k]
            == spec_unpack_release(s0.subrange(12 * k, 12 * k + 12)) by {
            assert(s0.subrange(12 * k, 12 * k + 12) =~= s.subrange(12 * k, 12 * k + 12));
        }
        lemma_releases_repack(s0, v.drop_last());
        let tail = s.subrange(s.len() - 12, s.len() as int);
        lemma_release_repack(tail);
        assert(v.last() == spec_unpack_release(
            s.subrange(12 * (v.len() - 1), 12 * (v.len() - 1) + 12),
        ));
        assert(tail =~= s.subrange(12 * (v.len() - 1), 12 * (v.len() - 1) + 12));
        assert(spec_pack_releases(v) == s0 + tail);
        assert(s0 + tail =~= s);
    }
}

impl VestingInfo {
    /// Encodes the release at its fixed 12-byte layout.
    pub fn pack(&self) -> (out: Vec<u8>)
        ensures
            out@ == spec_pack_release(*self),
            out@.len() == RELEASE_LEN,
    {
        let mut out = u32_to_le_bytes(self.timestamp);
        let mut q = u64_to_le_bytes(self.quantity);
        out.append(&mut q);
        out
    }

    /// Decodes the release stored at `offset`.
    pub fn unpack(data: &Vec<u8>, offset: usize) -> (r: Result<VestingInfo, DecodeError>)
        ensures
            offset + RELEASE_LEN <= data@.len() ==> r == Ok::<VestingInfo, DecodeError>(
                spec_unpack_release(data@.subrange(offset as int, offset + RELEASE_LEN)),
            ),
            offset + RELEASE_LEN > data@.len() ==> r == Err::<VestingInfo, DecodeError>(
                DecodeError::Truncated,
            ),
    {
        let n = data.len();
        if offset > n || n - offset < RELEASE_LEN {
            return Err(DecodeError::Truncated);
        }
        let timestamp = read_u32_le(data, offset);
        let quantity = read_u64_le(data, offset + 4);
        proof {
            let s = data@.subrange(offset as int, offset + RELEASE_LEN);
            assert(data@.subrange(offset as int, offset + 4) =~= s.subrange(0, 4));
            assert(data@.subrange(offset + 4, offset + 12) =~= s.subrange(4, 12));
        }
        Ok(VestingInfo { timestamp, quantity })
    }
}

// ---- release array codec ----

/// Packed form of a release sequence: each entry at its fixed offset.
pub open spec fn spec_pack_releases(rs: Seq<VestingInfo>) -> Seq<u8>
    decreases rs.len(),
{
    if rs.len() == 0 {
        Seq::empty()
    } else {
        spec_pack_releases(rs.drop_last()) + spec_pack_release(rs.last())
    }
}

/// A packed release sequence occupies 12 bytes per entry.
pub proof fn lemma_pack_releases_len(rs: Seq<VestingInfo>)
    ensures
        spec_pack_releases(rs).len() == RELEASE_LEN * rs.len(),
    decreases rs.len(),
{
    if rs.len() > 0 {
        lemma_pack_releases_len(rs.drop_last());
        lemma_release_round_trip(rs.last());
    }
}

/// Appends the packed releases to `dst`.
pub fn pack_releases_into(releases: &Vec<VestingInfo>, dst: &mut Vec<u8>)
    ensures
        final(dst)@ == old(dst)@ + spec_pack_releases(releases@),
{
    let mut i: usize = 0;
    while i < releases.len()
        invariant
            i <= releases@.len(),
            dst@ == old(dst)@ + spec_pack_releases(releases@.subrange(0, i as int)),
        decreases releases@.len() - i,
    {
        let mut entry = releases[i].pack();
        dst.append(&mut entry);
        proof {
            assert(releases@.subrange(0, i + 1).drop_last() =~= releases@.subrange(0, i as int));
            assert(releases@.subrange(0, i + 1).last() == releases@[i as int]);
        }
        i = i + 1;
    }
    proof {
        assert(releases@.subrange(0, releases@.len() as int) =~= releases@);
    }
}

/// Decodes every release stored from `offset` to the end of `data`.
pub fn unpack_releases(data: &Vec<u8>, offset: usize) -> (r: Result<
    Vec<VestingInfo>,
    DecodeError,
>)
    ensures
        ({
            let s = data@;
            if offset <= s.len() && (s.len() - offset) % (RELEASE_LEN as int) == 0 {
                match r {
                    Ok(v) => {
                        &&& v@.len() == (s.len() - offset) / (RELEASE_LEN as int)
                        &&& forall|k: int|
                            0 <= k < v@.len() ==> #[trigger] v@[k] == spec_unpack_release(
                                s.subrange(offset + 12 * k, offset + 12 * k + 12),
                            )
                    },
                    Err(_) => false,
                }
            } else {
                r == Err::<Vec<VestingInfo>, DecodeError>(DecodeError::Truncated)
            }
        }),
{
    let n = data.len();
    if offset > n || (n - offset) % RELEASE_LEN != 0 {
        return Err(DecodeError::Truncated);
    }
    let count = (n - offset) / RELEASE_LEN;
    let mut out: Vec<VestingInfo> = Vec::new();
    let mut k: usize = 0;
    while k < count
        invariant
            k <= count,
            n == data@.len(),
            offset <= n,
            count == (n - offset) / (RELEASE_LEN as int),
            (n - offset) % (RELEASE_LEN as int) == 0,
            out@.len() == k,
            forall|j: int|
                0 <= j < k ==> #[trigger] out@[j] == spec_unpack_release(
                    data@.subrange(offset + 12 * j, offset + 12 * j + 12),
                ),
        decreases count - k,
    {
        proof {
            vstd::arithmetic::div_mod::lemma_fundamental_div_mod((n - offset) as int, 12);
        }
        let item = match VestingInfo::unpack(data, offset + k * RELEASE_LEN) {
            Ok(x) => x,
            Err(e) => {
                proof {
                    assert(false);
                }
                return Err(e);
            },
        };
        out.push(item);
        k = k + 1;
    }
    proof {
        vstd::arithmetic::div_mod::lemma_fundamental_div_mod((n - offset) as int, 12);
    }
    Ok(out)
}

// ---- header codec ----

/// Packed form of the header: an initialization byte, then the mint and
/// beneficiary addresses.
pub open spec fn spec_pack_header(h: VestingHeader) -> Seq<u8> {
    seq![if h.is_initialized {
        1u8
    } else {
        0u8
    }] + h.mint@ + h.beneficiary@
}

/// The bytes hold a decodable header: enough of them, and an
/// initialization byte inside its enumerant range.
pub open spec fn spec_header_bytes_valid(s: Seq<u8>) -> bool {
    s.len() >= HEADER_LEN && (s[0] == 0 || s[0] == 1)
}

/// The initialization flag encoded in `s`.
pub open spec fn spec_header_is_initialized(s: Seq<u8>) -> bool {
    s[0] == 1
}

/// The mint address bytes encoded in `s`.
pub open spec fn spec_header_mint(s: Seq<u8>) -> Seq<u8> {
    s.subrange(1, 33)
}

/// The beneficiary address bytes encoded in `s`.
pub open spec fn spec_header_beneficiary(s: Seq<u8>) -> Seq<u8> {
    s.subrange(33, 65)
}

/// Unpacking a packed header gives back every field, for every header.
pub proof fn lemma_header_round_trip(h: VestingHeader)
    ensures
        spec_pack_header(h).len() == HEADER_LEN,
        spec_header_bytes_valid(spec_pack_header(h)),
        spec_header_is_initialized(spec_pack_header(h)) == h.is_initialized,
        spec_header_mint(spec_pack_header(h)) == h.mint@,
        spec_header_beneficiary(spec_pack_header(h)) == h.beneficiary@,
{
    let s = spec_pack_header(h);
    assert(spec_header_mint(s) =~= h.mint@);
    assert(spec_header_beneficiary(s) =~= h.beneficiary@);
}

impl VestingHeader {
    /// Encodes the header at its fixed 65-byte layout.
    pub fn pack(&self) -> (out: Vec<u8>)
        ensures
            out@ == spec_pack_header(*self),
            out@.len() == HEADER_LEN,
    {
        let mut out: Vec<u8> = Vec::new();
        out.push(if self.is_initialized {
            1
        } else {
            0
        });
        self.mint.append_to(&mut out);
        self.beneficiary.append_to(&mut out);
        proof {
            assert(out@ =~= spec_pack_header(*self));
        }
        out
    }

    /// Decodes the header at the start of `data`. The initialization
    /// byte must be 0 or 1; anything else is a hard decode failure.
    pub fn unpack(data: &Vec<u8>) -> (r: Result<VestingHeader, DecodeError>)
        ensures
            ({
                let s = data@;
                match r {
                    Ok(h) => {
                        &&& spec_header_bytes_valid(s)
                        &&& h.is_initialized == spec_header_is_initialized(s)
                        &&& h.mint@ == spec_header_mint(s)
                        &&& h.beneficiary@ == spec_header_beneficiary(s)
                    },
                    Err(e) => !spec_header_bytes_valid(s) && e == (if s.len() < HEADER_LEN {
                        DecodeError::Truncated
                    } else {
                        DecodeError::OutOfRange
                    }),
                }
            }),
    {
        let n = data.len();
        if n < HEADER_LEN {
            return Err(DecodeError::Truncated);
        }
        let tag = data[0];
        if tag > 1 {
            return Err(DecodeError::OutOfRange);
        }
        Ok(
            VestingHeader {
                is_initialized: tag == 1,
                mint: Pubkey::from_bytes(data, 1),
                beneficiary: Pubkey::from_bytes(data, 33),
            },
        )
    }
}

// ---- full state record codec ----

/// The full vesting state record, stored ahead of the release array.
#[derive(Clone, Copy, Debug, PartialEq, Eq)]
pub struct VestingState {
    pub is_initialized: bool,
    /// The account with the permission to change state.
    pub authority: Pubkey,
    /// The owner of this vesting account.
    pub beneficiary: Pubkey,
    /// Address of the account's token vault.
    pub vault: Pubkey,
    /// The mint of the token locked up.
    pub mint: Pubkey,
    /// The owner of the token account funding this account.
    pub grantor: Pubkey,
    pub metadata: Pubkey,
    /// The outstanding deposit backing this account; withdrawals deduct
    /// from it.
    pub outstanding: u64,
    /// How much was originally deposited.
    pub start_balance: u64,
    /// When this vesting account was created.
    pub created_ts: u64,
    /// When vesting begins.
    pub start_ts: u64,
    /// When all tokens are vested.
    pub end_ts: u64,
    /// The number of times vesting will occur.
    pub period_count: u64,
    /// Signer nonce.
    pub nonce: u8,
}

/// Packed form of the full state record: the initialization byte, six
/// addresses, six counters, and the nonce, at fixed offsets.
pub open spec fn spec_pack_state(st: VestingState) -> Seq<u8> {
    seq![if st.is_initialized {
        1u8
    } else {
        0u8
    }] + st.authority@ + st.beneficiary@ + st.vault@ + st.mint@ + st.grantor@ + st.metadata@
        + spec_u64_to_le_bytes(st.outstanding) + spec_u64_to_le_bytes(st.start_balance)
        + spec_u64_to_le_bytes(st.created_ts) + spec_u64_to_le_bytes(st.start_ts)
        + spec_u64_to_le_bytes(st.end_ts) + spec_u64_to_le_bytes(st.period_count) + seq![st.nonce]
}

/// The bytes hold a decodable state record.
pub open spec fn spec_state_bytes_valid(s: Seq<u8>) -> bool {
    s.len() >= STATE_LEN && (s[0] == 0 || s[0] == 1)
}

/// Unpacking a packed state record gives back every field, for every
/// record.
pub proof fn lemma_state_round_trip(st: VestingState)
    ensures
        ({
            let s = spec_pack_state(st);
            &&& s.len() == STATE_LEN
            &&& spec_state_bytes_valid(s)
            &&& (s[0] == 1) == st.is_initialized
            &&& s.subrange(1, 33) == st.authority@
            &&& s.subrange(33, 65) == st.beneficiary@
            &&& s.subrange(65, 97) == st.vault@
            &&& s.subrange(97, 129) == st.mint@
            &&& s.subrange(129, 161) == st.grantor@
            &&& s.subrange(161, 193) == st.metadata@
            &&& spec_u64_from_le_bytes(s.subrange(193, 201)) == st.outstanding
            &&& spec_u64_from_le_bytes(s.subrange(201, 209)) == st.start_balance
            &&& spec_u64_from_le_bytes(s.subrange(209, 217)) == st.created_ts
            &&& spec_u64_from_le_bytes(s.subrange(217, 225)) == st.start_ts
            &&& spec_u64_from_le_bytes(s.subrange(225, 233)) == st.end_ts
            &&& spec_u64_from_le_bytes(s.subrange(233, 241)) == st.period_count
            &&& s[241] == st.nonce
        }),
{
    vstd::bytes::lemma_auto_spec_u64_to_from_le_bytes();
    let s = spec_pack_state(st);
    assert(s.subrange(1, 33) =~= st.authority@);
    assert(s.subrange(33, 65) =~= st.beneficiary@);
    assert(s.subrange(65, 97) =~= st.vault@);
    assert(s.subrange(97, 129) =~= st.mint@);
    assert(s.subrange(129, 161) =~= st.grantor@);
    assert(s.subrange(161, 193) =~= st.metadata@);
    assert(s.subrange(193, 201) =~= spec_u64_to_le_bytes(st.outstanding));
    assert(s.subrange(201, 209) =~= spec_u64_to_le_bytes(st.start_balance));
    assert(s.subrange(209, 217) =~= spec_u64_to_le_bytes(st.created_ts));
    assert(s.subrange(217, 225) =~= spec_u64_to_le_bytes(st.start_ts));
    assert(s.subrange(225, 233) =~= spec_u64_to_le_bytes(st.end_ts));
    assert(s.subrange(233, 241) =~= spec_u64_to_le_bytes(st.period_count));
}

impl VestingState {
    /// Encodes the state record at its fixed 242-byte layout.
    pub fn pack(&self) -> (out: Vec<u8>)
        ensures
            out@ == spec_pack_state(*self),
            out@.len() == STATE_LEN,
    {
        let mut out: Vec<u8> = Vec::new();
        out.push(if self.is_initialized {
            1
        } else {
            0
        });
        self.authority.append_to(&mut out);
        self.beneficiary.append_to(&mut out);
        self.vault.append_to(&mut out);
        self.mint.append_to(&mut out);
        self.grantor.append_to(&mut out);
        self.metadata.append_to(&mut out);
        push_u64_le(&mut out, self.outstanding);
        push_u64_le(&mut out, self.start_balance);
        push_u64_le(&mut out, self.created_ts);
        push_u64_le(&mut out, self.start_ts);
        push_u64_le(&mut out, self.end_ts);
        push_u64_le(&mut out, self.period_count);
        out.push(self.nonce);
        proof {
            vstd::bytes::lemma_auto_spec_u64_to_from_le_bytes();
            assert(out@ =~= spec_pack_state(*self));
        }
        out
    }

    /// Decodes the state record at the start of `data`. The
    /// initialization byte must be 0 or 1; anything else is a hard
    /// decode failure.
    pub fn unpack(data: &Vec<u8>) -> (r: Result<VestingState, DecodeError>)
        ensures
            ({
                let s = data@;
                match r {
                    Ok(st) => {
                        &&& spec_state_bytes_valid(s)
                        &&& st.is_initialized == (s[0] == 1)
                        &&& st.authority@ == s.subrange(1, 33)
                        &&& st.beneficiary@ == s.subrange(33, 65)
                        &&& st.vault@ == s.subrange(65, 97)
                        &&& st.mint@ == s.subrange(97, 129)
                        &&& st.grantor@ == s.subrange(129, 161)
                        &&& st.metadata@ == s.subrange(161, 193)
                        &&& st.outstanding == spec_u64_from_le_bytes(s.subrange(193, 201))
                        &&& st.start_balance == spec_u64_from_le_bytes(s.subrange(201, 209))
                        &&& st.created_ts == spec_u64_from_le_bytes(s.subrange(209, 217))
                        &&& st.start_ts == spec_u64_from_le_bytes(s.subrange(217, 225))
                        &&& st.end_ts == spec_u64_from_le_bytes(s.subrange(225, 233))
                        &&& st.period_count == spec_u64_from_le_bytes(s.subrange(233, 241))
                        &&& st.nonce == s[241]
                    },
                    Err(e) => !spec_state_bytes_valid(s) && e == (if s.len() < STATE_LEN {
                        DecodeError::Truncated
                    } else {
                        DecodeError::OutOfRange
                    }),
                }
            }),
    {
        let n = data.len();
        if n < STATE_LEN {
            return Err(DecodeError::Truncated);
        }
        let tag = data[0];
        if tag > 1 {
            return Err(DecodeError::OutOfRange);
        }
        Ok(
            VestingState {
                is_initialized: tag == 1,
                authority: Pubkey::from_bytes(data, 1),
                beneficiary: Pubkey::from_bytes(data, 33),
                vault: Pubkey::from_bytes(data, 65),
                mint: Pubkey::from_bytes(data, 97),
                grantor: Pubkey::from_bytes(data, 129),
                metadata: Pubkey::from_bytes(data, 161),
                outstanding: read_u64_le(data, 193),
                start_balance: read_u64_le(data, 201),
                created_ts: read_u64_le(data, 209),
                start_ts: read_u64_le(data, 217),
                end_ts: read_u64_le(data, 225),
                period_count: read_u64_le(data, 233),
                nonce: data[241],
            },
        )
    }
}

} // verus!
