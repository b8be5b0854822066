//! Ledger addresses as plain 32-byte values.
//!
//! Contracts throughout the crate speak of an address as its byte
//! sequence (`key@`), so equality of addresses is equality of bytes.

use vstd::prelude::*;

verus! {

/// Width of a ledger address in bytes.
pub const PK_LEN: usize = 32;

/// A ledger address: 32 raw bytes.
#[derive(Clone, Copy, Debug)]
pub struct Pubkey(pub [u8; 32]);

impl View for Pubkey {
    type V = Seq<u8>;

    open spec fn view(&self) -> Seq<u8> {
        self.0@
    }
}

impl PartialEq for Pubkey {
    fn eq(&self, other: &Pubkey) -> (r: bool) {
        let mut i: usize = 0;
        while i < 32
            invariant
                i <= 32,
                forall|j: int| 0 <= j < i ==> self.0@[j] == other.0@[j],
            decreases 32 - i,
        {
            if self.0[i] != other.0[i] {
                return false;
            }
            i = i + 1;
        }
        proof {
            assert(self.0@ =~= other.0@);
        }
        true
    }
}

impl vstd::std_specs::cmp::PartialEqSpecImpl for Pubkey {
    open spec fn obeys_eq_spec() -> bool {
        true
    }

    open spec fn eq_spec(&self, other: &Pubkey) -> bool {
        self.0@ == other.0@
    }
}

impl Eq for Pubkey {}

impl Pubkey {
    /// The all-zero address.
    pub fn zeroed() -> (r: Pubkey)
        ensures
            r@ == Seq::new(32, |i: int| 0u8),
    {
        let k = Pubkey([0u8; 32]);
        proof {
            assert(k@ =~= Seq::new(32, |i: int| 0u8));
        }
        k
    }

    /// Builds an address from 32 bytes of `src` starting at `offset`.
    pub fn from_bytes(src: &Vec<u8>, offset: usize) -> (r: Pubkey)
        requires
            offset + 32 <= src@.len(),
        ensures
            r@ == src@.subrange(offset as int, offset + 32),
    {
        let n = src.len();
        let mut out = [0u8; 32];
        let mut i: usize = 0;
        while i < 32
            invariant
                i <= 32,
                offset + 32 <= n,
                n == src@.len(),
                forall|j: int| 0 <= j < i ==> out@[j] == src@[offset + j],
            decreases 32 - i,
        {
            out[i] = src[offset + i];
            i = i + 1;
        }
        let r = Pubkey(out);
        proof {
            assert(r@ =~= src@.subrange(offset as int, offset + 32));
        }
        r
    }

    /// Appends the address bytes to `dst`.
    pub fn append_to(&self, dst: &mut Vec<u8>)
        ensures
            final(dst)@ == old(dst)@ + self@,
    {
        let mut i: usize = 0;
        while i < 32
            invariant
                i <= 32,
                dst@ == old(dst)@ + self@.subrange(0, i as int),
            decreases 32 - i,
        {
            dst.push(self.0[i]);
            proof {
                assert(dst@ =~= old(dst)@ + self@.subrange(0, i + 1));
            }
            i = i + 1;
        }
        proof {
            assert(self@.subrange(0, 32) =~= self@);
        }
    }
}

} // verus!
