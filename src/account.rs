use vstd::prelude::*;
use crate::keys::be_bytes;
use crate::queries::Address;
use crate::word::U256;

verus! {

/// The place of an account in the global state tree, named by its address.
#[derive(Clone, Copy, Debug, PartialEq, Eq, PartialOrd, Ord, Hash)]
pub struct AccountTreeId {
    address: Address,
}

/// An address in the low 20 bytes of a big-endian word.
pub open spec fn word_bytes_of_address(a: Address) -> Seq<u8> {
    Seq::new(32, |i: int| if i < 12 { 0u8 } else { a.0@[i - 12] })
}

impl AccountTreeId {
    pub closed spec fn view(self) -> Address {
        self.address
    }

    pub fn new(address: Address) -> (r: Self)
        ensures
            r@ == address,
    {
        Self { address }
    }

    pub fn address(&self) -> (r: &Address)
        ensures
            *r == self@,
    {
        &self.address
    }

    /// The address bytes, most significant first.
    pub fn to_fixed_bytes(&self) -> (r: [u8; 20])
        ensures
            r == self@.0,
    {
        self.address.0
    }

    pub fn from_fixed_bytes(value: [u8; 20]) -> (r: Self)
        ensures
            r@ == Address(value),
    {
        Self { address: Address(value) }
    }

    /// The address as a number: its bytes are the low 20 of the big-endian word.
    pub fn to_u256(self) -> (r: U256)
        ensures
            be_bytes(r) == word_bytes_of_address(self@),
    {
        let mut be_data = [0u8; 32];
        let mut i: usize = 12;
        while i < 32
            invariant
                12 <= i <= 32,
                be_data@.len() == 32,
                forall|k: int| 0 <= k < 12 ==> be_data@[k] == 0u8,
                forall|k: int| 12 <= k < i ==> be_data@[k] == self.address.0@[k - 12],
            decreases 32 - i,
        {
            be_data[i] = self.address.0[i - 12];
            i += 1;
        }
        assert(be_data@ =~= word_bytes_of_address(self@));
        U256::from_be_bytes(be_data)
    }

    /// The account of the low 20 bytes of a big-endian word.
    pub fn from_u256(val: U256) -> (r: Self)
        ensures
            r@.0@ == be_bytes(val).subrange(12, 32),
    {
        let be_data = val.to_be_bytes();
        let mut bytes = [0u8; 20];
        let mut i: usize = 0;
        while i < 20
            invariant
                i <= 20,
                bytes@.len() == 20,
                be_data@ == be_bytes(val),
                forall|k: int| 0 <= k < i ==> bytes@[k] == be_data@[k + 12],
            decreases 20 - i,
        {
            bytes[i] = be_data[i + 12];
            i += 1;
        }
        assert(bytes@ =~= be_bytes(val).subrange(12, 32));
        Self { address: Address(bytes) }
    }
}

impl Default for AccountTreeId {
    fn default() -> (r: Self)
        ensures
            forall|i: int| 0 <= i < 20 ==> r@.0@[i] == 0u8,
    {
        Self { address: Address::zero() }
    }
}

} // verus!
