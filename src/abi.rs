use vstd::prelude::*;
use crate::word::U256;

verus! {

/// The low 32 bits of a limb.
pub open spec fn low_half(x: u64) -> u32 {
    (x & 0xffff_ffffu64) as u32
}

/// The high 32 bits of a limb.
pub open spec fn high_half(x: u64) -> u32 {
    (x >> 32u64) as u32
}

/// A limb made of a low and a high 32-bit half.
pub open spec fn join_halves(lo: u32, hi: u32) -> u64 {
    (lo as u64) | ((hi as u64) << 32u64)
}

proof fn lemma_halves_of_join(lo: u32, hi: u32)
    ensures
        low_half(join_halves(lo, hi)) == lo,
        high_half(join_halves(lo, hi)) == hi,
{
    assert(((((lo as u64) | ((hi as u64) << 32u64)) & 0xffff_ffffu64) as u32) == lo) by (bit_vector);
    assert(((((lo as u64) | ((hi as u64) << 32u64)) >> 32u64) as u32) == hi) by (bit_vector);
}

proof fn lemma_join_of_halves(x: u64)
    ensures
        join_halves(low_half(x), high_half(x)) == x,
{
    assert((((x & 0xffff_ffffu64) as u32) as u64) | ((((x >> 32u64) as u32) as u64) << 32u64) == x) by (bit_vector);
}


/// The descriptor of a precompile call, packed into a 256-bit word. Offsets and
/// lengths are interpreted by the callee.
#[derive(Clone, Copy, Debug, PartialEq, Eq, Structural, PartialOrd, Ord, Hash)]
pub struct PrecompileCallABI {
    pub input_memory_offset: u32,
    pub input_memory_length: u32,
    pub output_memory_offset: u32,
    pub output_memory_length: u32,
    pub memory_page_to_read: u32,
    pub memory_page_to_write: u32,
    pub precompile_interpreted_data: u64,
}

/// The descriptor that a word decodes to.
pub open spec fn abi_of_word(w: U256) -> PrecompileCallABI {
    PrecompileCallABI {
        input_memory_offset: low_half(w.l0),
        input_memory_length: high_half(w.l0),
        output_memory_offset: low_half(w.l1),
        output_memory_length: high_half(w.l1),
        memory_page_to_read: low_half(w.l2),
        memory_page_to_write: high_half(w.l2),
        precompile_interpreted_data: w.l3,
    }
}

/// The word that a descriptor encodes to.
pub open spec fn word_of_abi(a: PrecompileCallABI) -> U256 {
    U256 {
        l0: join_halves(a.input_memory_offset, a.input_memory_length),
        l1: join_halves(a.output_memory_offset, a.output_memory_length),
        l2: join_halves(a.memory_page_to_read, a.memory_page_to_write),
        l3: a.precompile_interpreted_data,
    }
}

fn split_limb(x: u64) -> (r: (u32, u32))
    ensures
        r.0 == low_half(x),
        r.1 == high_half(x),
{
    ((x & 0xffff_ffffu64) as u32, (x >> 32u64) as u32)
}

fn join_limb(lo: u32, hi: u32) -> (r: u64)
    ensures
        r == join_halves(lo, hi),
{
    (lo as u64) | ((hi as u64) << 32u64)
}

impl PrecompileCallABI {
    /// Decodes the descriptor from its packed word.
    pub fn from_u256(raw_value: U256) -> (r: Self)
        ensures
            r == abi_of_word(raw_value),
    {
        let raw = raw_value.as_limbs();
        let (input_memory_offset, input_memory_length) = split_limb(raw[0]);
        let (output_memory_offset, output_memory_length) = split_limb(raw[1]);
        let (memory_page_to_read, memory_page_to_write) = split_limb(raw[2]);
        let precompile_interpreted_data = raw[3];
        Self {
            input_memory_offset,
            input_memory_length,
            output_memory_offset,
            output_memory_length,
            memory_page_to_read,
            memory_page_to_write,
            precompile_interpreted_data,
        }
    }

    /// Packs the descriptor into a word.
    pub fn to_u256(self) -> (r: U256)
        ensures
            r == word_of_abi(self),
    {
        let mut result_limbs = U256::zero().as_limbs();
        result_limbs[0] = join_limb(self.input_memory_offset, self.input_memory_length);
        result_limbs[1] = join_limb(self.output_memory_offset, self.output_memory_length);
        result_limbs[2] = join_limb(self.memory_page_to_read, self.memory_page_to_write);
        result_limbs[3] = self.precompile_interpreted_data;
        U256::from_limbs(result_limbs)
    }
}

/// Decoding what was encoded gives back the descriptor.
pub proof fn lemma_decode_encode(x: PrecompileCallABI)
    ensures
        abi_of_word(word_of_abi(x)) == x,
{
    lemma_halves_of_join(x.input_memory_offset, x.input_memory_length);
    lemma_halves_of_join(x.output_memory_offset, x.output_memory_length);
    lemma_halves_of_join(x.memory_page_to_read, x.memory_page_to_write);
}

/// Encoding what was decoded gives back the word: all 256 bits are kept.
pub proof fn lemma_encode_decode(v: U256)
    ensures
        word_of_abi(abi_of_word(v)) == v,
{
    lemma_join_of_halves(v.l0);
    lemma_join_of_halves(v.l1);
    lemma_join_of_halves(v.l2);
}

} // verus!
