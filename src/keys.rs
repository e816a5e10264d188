use vstd::prelude::*;
use blake2::Digest;
use crate::queries::{Address, LogQuery};
use crate::word::U256;

verus! {

/// The Blake2s-256 digest of a byte string.
pub uninterp spec fn blake2s256_of(data: Seq<u8>) -> Seq<u8>;

/// Relies on blake2's `Blake2s256::digest`: the 32-byte Blake2s-256 digest,
/// which depends on the input bytes alone.
#[verifier::external_body]
fn blake2s256(data: &[u8; 64]) -> (r: [u8; 32])
    ensures
        r@ == blake2s256_of(data@),
{
    blake2::Blake2s256::digest(data).into()
}

/// The limb of a word, `0` the least significant.
pub open spec fn limb_at(w: U256, i: int) -> u64 {
    if i == 0 { w.l0 } else if i == 1 { w.l1 } else if i == 2 { w.l2 } else { w.l3 }
}

/// Byte `j` of a word written big-endian in 32 bytes.
pub open spec fn be_byte(w: U256, j: int) -> u8 {
    (limb_at(w, 3 - j / 8) >> ((8 * (7 - j % 8)) as u64)) as u8
}

/// A word written big-endian in 32 bytes.
pub open spec fn be_bytes(w: U256) -> Seq<u8> {
    Seq::new(32, |j: int| be_byte(w, j))
}

/// The 64 bytes hashed to name a storage slot: twelve zero bytes, the address,
/// then the key big-endian.
pub open spec fn spec_key_derivation_bytes(address: Address, key: U256) -> Seq<u8> {
    Seq::new(64, |i: int| if i < 12 { 0u8 } else if i < 32 { address.0@[i - 12] } else { be_byte(key, i - 32) })
}

/// A limb from eight bytes, most significant first.
fn join8(b: &[u8; 32], start: usize) -> (r: u64)
    requires
        start + 8 <= 32,
    ensures
        forall|k: int| 0 <= k < 8 ==> #[trigger] ((r >> ((8 * (7 - k)) as u64)) as u8) == b@[start + k],
{
    let b0 = b[start];
    let b1 = b[start + 1];
    let b2 = b[start + 2];
    let b3 = b[start + 3];
    let b4 = b[start + 4];
    let b5 = b[start + 5];
    let b6 = b[start + 6];
    let b7 = b[start + 7];
    let r = ((b0 as u64) << 56u64) | ((b1 as u64) << 48u64) | ((b2 as u64) << 40u64) | ((b3 as u64) << 32u64)
        | ((b4 as u64) << 24u64) | ((b5 as u64) << 16u64) | ((b6 as u64) << 8u64) | (b7 as u64);
    assert(((r >> 56u64) as u8) == b0 && ((r >> 48u64) as u8) == b1 && ((r >> 40u64) as u8) == b2
        && ((r >> 32u64) as u8) == b3 && ((r >> 24u64) as u8) == b4 && ((r >> 16u64) as u8) == b5
        && ((r >> 8u64) as u8) == b6 && ((r >> 0u64) as u8) == b7) by (bit_vector)
        requires
            r == ((b0 as u64) << 56u64) | ((b1 as u64) << 48u64) | ((b2 as u64) << 40u64) | ((b3 as u64) << 32u64)
                | ((b4 as u64) << 24u64) | ((b5 as u64) << 16u64) | ((b6 as u64) << 8u64) | (b7 as u64);
    assert forall|k: int| 0 <= k < 8 implies #[trigger] ((r >> ((8 * (7 - k)) as u64)) as u8) == b@[start + k] by {
        if k == 0 {} else if k == 1 {} else if k == 2 {} else if k == 3 {}
        else if k == 4 {} else if k == 5 {} else if k == 6 {} else {}
    }
    r
}

impl U256 {
    /// The word written big-endian in `b`.
    pub fn from_be_bytes(b: [u8; 32]) -> (r: U256)
        ensures
            be_bytes(r) == b@,
    {
        let l3 = join8(&b, 0);
        let l2 = join8(&b, 8);
        let l1 = join8(&b, 16);
        let l0 = join8(&b, 24);
        let r = U256 { l0, l1, l2, l3 };
        assert forall|j: int| 0 <= j < 32 implies #[trigger] be_bytes(r)[j] == b@[j] by {
            let k = j % 8;
            if j < 8 {
                assert(j / 8 == 0);
                assert(((l3 >> ((8 * (7 - k)) as u64)) as u8) == b@[0 + k]);
            } else if j < 16 {
                assert(j / 8 == 1);
                assert(((l2 >> ((8 * (7 - k)) as u64)) as u8) == b@[8 + k]);
            } else if j < 24 {
                assert(j / 8 == 2);
                assert(((l1 >> ((8 * (7 - k)) as u64)) as u8) == b@[16 + k]);
            } else {
                assert(j / 8 == 3);
                assert(((l0 >> ((8 * (7 - k)) as u64)) as u8) == b@[24 + k]);
            }
        }
        assert(be_bytes(r) =~= b@);
        r
    }

    /// The word written big-endian.
    pub fn to_be_bytes(&self) -> (r: [u8; 32])
        ensures
            r@ == be_bytes(*self),
    {
        let mut r = [0u8; 32];
        let mut j: usize = 0;
        while j < 32
            invariant
                j <= 32,
                r@.len() == 32,
                forall|i: int| 0 <= i < j ==> r@[i] == be_byte(*self, i),
            decreases 32 - j,
        {
            let limb = if j < 8 { self.l3 } else if j < 16 { self.l2 } else if j < 24 { self.l1 } else { self.l0 };
            let shift: u64 = (8 * (7 - j % 8)) as u64;
            r[j] = (limb >> shift) as u8;
            j += 1;
        }
        assert(r@ =~= be_bytes(*self));
        r
    }
}

/// The 64 bytes hashed to name the storage slot of `key` at `address`.
fn key_bytes_for_params(address: &Address, key: &U256) -> (r: [u8; 64])
    ensures
        r@ == spec_key_derivation_bytes(*address, *key),
{
    let key_bytes = key.to_be_bytes();
    let mut result = [0u8; 64];
    let mut i: usize = 12;
    while i < 64
        invariant
            12 <= i <= 64,
            result@.len() == 64,
            key_bytes@ == be_bytes(*key),
            forall|k: int| 0 <= k < 12 ==> result@[k] == 0u8,
            forall|k: int| 12 <= k < i ==> result@[k] == spec_key_derivation_bytes(*address, *key)[k],
        decreases 64 - i,
    {
        if i < 32 {
            result[i] = address.0[i - 12];
        } else {
            result[i] = key_bytes[i - 32];
        }
        i += 1;
    }
    assert(result@ =~= spec_key_derivation_bytes(*address, *key));
    result
}

impl LogQuery {
    /// The storage slot of `key` at `address`: the Blake2s-256 digest of the
    /// address and the key laid out in 64 bytes.
    pub fn derive_final_address_for_params(address: &Address, key: &U256) -> (r: [u8; 32])
        ensures
            r@ == blake2s256_of(spec_key_derivation_bytes(*address, *key)),
    {
        let buffer = key_bytes_for_params(address, key);
        blake2s256(&buffer)
    }

    /// The 64 bytes hashed to name this query's storage slot.
    pub fn key_derivation_bytes(&self) -> (r: [u8; 64])
        ensures
            r@ == spec_key_derivation_bytes(self.address, self.key),
    {
        key_bytes_for_params(&self.address, &self.key)
    }

    /// The storage slot of this query.
    pub fn derive_final_address(&self) -> (r: [u8; 32])
        ensures
            r@ == blake2s256_of(spec_key_derivation_bytes(self.address, self.key)),
    {
        Self::derive_final_address_for_params(&self.address, &self.key)
    }
}

} // verus!
