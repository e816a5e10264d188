use vstd::prelude::*;

verus! {

/// A 256-bit unsigned integer held as four 64-bit limbs, `l0` the least significant.
#[derive(Clone, Copy, Debug, PartialEq, Eq, Structural, Hash)]
pub struct U256 {
    pub l0: u64,
    pub l1: u64,
    pub l2: u64,
    pub l3: u64,
}

impl U256 {
    /// The numeric value of the word.
    pub open spec fn value(self) -> nat {
        self.l0 as nat + self.l1 as nat * 0x1_0000_0000_0000_0000nat
            + self.l2 as nat * 0x1_0000_0000_0000_0000_0000_0000_0000_0000nat
            + self.l3 as nat * 0x1_0000_0000_0000_0000_0000_0000_0000_0000_0000_0000_0000_0000nat
    }

    /// The limbs as a sequence, least significant first.
    pub open spec fn limb_seq(self) -> Seq<u64> {
        seq![self.l0, self.l1, self.l2, self.l3]
    }

    /// The value zero.
    pub fn zero() -> (r: U256)
        ensures
            r.value() == 0,
            r == (U256 { l0: 0, l1: 0, l2: 0, l3: 0 }),
    {
        U256 { l0: 0, l1: 0, l2: 0, l3: 0 }
    }

    /// The word holding a 64-bit value.
    pub fn from_u64(v: u64) -> (r: U256)
        ensures
            r.value() == v as nat,
            r == (U256 { l0: v, l1: 0, l2: 0, l3: 0 }),
    {
        U256 { l0: v, l1: 0, l2: 0, l3: 0 }
    }

    /// Builds a word from its limbs, least significant first.
    pub fn from_limbs(limbs: [u64; 4]) -> (r: U256)
        ensures
            r.limb_seq() == limbs@,
    {
        let r = U256 { l0: limbs[0], l1: limbs[1], l2: limbs[2], l3: limbs[3] };
        assert(r.limb_seq() =~= limbs@);
        r
    }

    /// The limbs of the word, least significant first.
    pub fn as_limbs(&self) -> (r: [u64; 4])
        ensures
            r@ == self.limb_seq(),
    {
        let r = [self.l0, self.l1, self.l2, self.l3];
        assert(r@ =~= self.limb_seq());
        r
    }

    /// The low 32 bits of the word.
    pub fn low_u32(&self) -> (r: u32)
        ensures
            r as nat == self.value() % 0x1_0000_0000,
    {
        let x = self.l0;
        let r = (x & 0xffff_ffffu64) as u32;
        assert((x & 0xffff_ffffu64) == x % 0x1_0000_0000) by (bit_vector);
        assert(self.value() % 0x1_0000_0000 == self.l0 as nat % 0x1_0000_0000) by (nonlinear_arith);
        r
    }
}

} // verus!
