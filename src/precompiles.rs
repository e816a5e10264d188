use vstd::prelude::*;
use crate::abi::{abi_of_word, PrecompileCallABI};
use crate::params::{
    ECRECOVER_INNER_FUNCTION_PRECOMPILE_ADDRESS, KECCAK256_ROUND_FUNCTION_PRECOMPILE_ADDRESS,
    SHA256_ROUND_FUNCTION_PRECOMPILE_ADDRESS,
};
use crate::queries::{Address, LogQuery};
use crate::vm::{Memory, PrecompileKind, PrecompilesProcessor};

verus! {

/// The descriptor carried in a precompile query's key.
pub fn precompile_abi_in_log(query: LogQuery) -> (r: PrecompileCallABI)
    ensures
        r == abi_of_word(query.key),
{
    PrecompileCallABI::from_u256(query.key)
}

/// The low 16 bits of an address read as a number: its last two bytes.
pub open spec fn spec_address_low(address: Address) -> int {
    address.0@[19] as int + 256 * address.0@[18] as int
}

/// The low 16 bits of an address.
pub fn address_low(address: &Address) -> (r: u16)
    ensures
        r as int == spec_address_low(*address),
{
    address.0[19] as u16 + (address.0[18] as u16) * 256
}

/// The precompile that an address names, if any.
pub open spec fn spec_precompile_for_address(address: Address) -> Option<PrecompileKind> {
    let low = spec_address_low(address);
    if low == KECCAK256_ROUND_FUNCTION_PRECOMPILE_ADDRESS as int {
        Some(PrecompileKind::Keccak256)
    } else if low == SHA256_ROUND_FUNCTION_PRECOMPILE_ADDRESS as int {
        Some(PrecompileKind::Sha256)
    } else if low == ECRECOVER_INNER_FUNCTION_PRECOMPILE_ADDRESS as int {
        Some(PrecompileKind::ECRecover)
    } else {
        None
    }
}

/// Routes an address to its precompile; other addresses name none, which is
/// allowed so that privileged contracts can burn ergs.
pub fn precompile_for_address(address: &Address) -> (r: Option<PrecompileKind>)
    ensures
        r == spec_precompile_for_address(*address),
{
    let low = address_low(address);
    if low == KECCAK256_ROUND_FUNCTION_PRECOMPILE_ADDRESS {
        Some(PrecompileKind::Keccak256)
    } else if low == SHA256_ROUND_FUNCTION_PRECOMPILE_ADDRESS {
        Some(PrecompileKind::Sha256)
    } else if low == ECRECOVER_INNER_FUNCTION_PRECOMPILE_ADDRESS {
        Some(PrecompileKind::ECRecover)
    } else {
        None
    }
}

/// The processor of the built-in precompiles; `B` says whether witnesses are
/// produced.
#[derive(Clone, Copy)]
pub struct DefaultPrecompilesProcessor<const B: bool> {
    received: Ghost<Seq<LogQuery>>,
}

impl<const B: bool> DefaultPrecompilesProcessor<B> {
    /// A processor that has received no call.
    pub fn new() -> (r: Self)
        ensures
            r.calls() == Seq::<LogQuery>::empty(),
    {
        DefaultPrecompilesProcessor { received: Ghost(Seq::empty()) }
    }

    /// The witness that a call produces: the precompile, when witnesses are on
    /// and the address names one.
    pub fn witness_for(&self, query: &LogQuery) -> (r: Option<PrecompileKind>)
        ensures
            r == if B { spec_precompile_for_address(query.address) } else { None },
    {
        if B {
            precompile_for_address(&query.address)
        } else {
            None
        }
    }
}

impl<const B: bool> PrecompilesProcessor for DefaultPrecompilesProcessor<B> {
    closed spec fn calls(&self) -> Seq<LogQuery> {
        self.received@
    }

    fn start_frame(&mut self) {
        // no precompile can be rolled back
    }

    fn execute_precompile<M: Memory>(
        &mut self,
        _monotonic_cycle_counter: u32,
        query: LogQuery,
        _memory: &mut M,
    ) -> (r: Option<PrecompileKind>)
        ensures
            r == (if B { spec_precompile_for_address(query.address) } else { None }),
            *final(_memory) == *old(_memory),
    {
        self.received = Ghost(self.received@.push(query));
        self.witness_for(&query)
    }

    fn finish_frame(&mut self, _panicked: bool) {
        // no precompile can be rolled back
    }
}

} // verus!
