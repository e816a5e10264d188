use vstd::prelude::*;
use crate::params::PubdataParams;
use crate::queries::{Address, LogQuery, MemoryLocation, MemoryPage, Timestamp};
use crate::word::U256;

verus! {

/// A 256-bit value as held in a register, with its pointer flag.
#[derive(Clone, Copy, Debug, PartialEq, Eq, Structural, Hash)]
pub struct PrimitiveValue {
    pub value: U256,
    pub is_pointer: bool,
}

impl PrimitiveValue {
    /// Zero, not a pointer.
    pub open spec fn empty_spec() -> PrimitiveValue {
        PrimitiveValue { value: U256 { l0: 0, l1: 0, l2: 0, l3: 0 }, is_pointer: false }
    }

    pub fn empty() -> (r: PrimitiveValue)
        ensures
            r == Self::empty_spec(),
    {
        PrimitiveValue { value: U256::zero(), is_pointer: false }
    }
}

/// What the storage oracle refunds for a write.
#[derive(Clone, Copy, Debug, PartialEq, Eq, Structural, Hash)]
pub struct RefundedAmounts {
    pub pubdata_bytes: u32,
    pub ergs: u32,
}

/// The storage oracle's estimate for a write before it is made.
#[derive(Clone, Copy, Debug, PartialEq, Eq, Structural, Hash)]
pub enum RefundType {
    NoRefund,
    RepeatedWrite(RefundedAmounts),
}

impl RefundType {
    pub open spec fn spec_pubdata_refund(self) -> u32 {
        match self {
            RefundType::NoRefund => 0,
            RefundType::RepeatedWrite(a) => a.pubdata_bytes,
        }
    }

    /// The pubdata bytes refunded.
    pub fn pubdata_refund(&self) -> (r: u32)
        ensures
            r == self.spec_pubdata_refund(),
    {
        match self {
            RefundType::NoRefund => 0,
            RefundType::RepeatedWrite(a) => a.pubdata_bytes,
        }
    }
}

/// The precompiles that the default processor knows.
#[derive(Clone, Copy, Debug, PartialEq, Eq, Structural, Hash)]
pub enum PrecompileKind {
    Keccak256,
    Sha256,
    ECRecover,
}

/// Persistent storage, behind its oracle.
pub trait Storage {
    /// The queries performed so far, in order.
    spec fn accesses(&self) -> Seq<LogQuery>;

    /// What a write would be refunded, asked before the write is made; asking
    /// performs nothing.
    fn refund_for_partial_query(&mut self, monotonic_cycle_counter: u32, partial_query: &LogQuery) -> (r: RefundType)
        ensures
            final(self).accesses() == old(self).accesses();

    /// Performs a read or write; a read comes back with `read_value` filled.
    fn access_storage(&mut self, monotonic_cycle_counter: u32, query: LogQuery) -> (r: LogQuery)
        ensures
            final(self).accesses() == old(self).accesses().push(query);
}

/// The VM's memory, as far as log opcodes write to it.
pub trait Memory {
    /// The destination writes made so far, in order.
    spec fn dst0_writes(&self) -> Seq<(PrimitiveValue, Option<MemoryLocation>)>;

    /// Writes the opcode's destination.
    fn perform_dst0_update(&mut self, monotonic_cycle_counter: u32, value: PrimitiveValue, location: Option<MemoryLocation>)
        ensures
            final(self).dst0_writes() == old(self).dst0_writes().push((value, location));
}

/// The append-only sink of events and messages to L1.
pub trait EventSink {
    /// The queries emitted so far, in order.
    spec fn events(&self) -> Seq<LogQuery>;

    fn emit_event(&mut self, monotonic_cycle_counter: u32, query: LogQuery)
        ensures
            final(self).events() == old(self).events().push(query);
}

/// Runs precompiles; returns which one produced a witness, if any did.
pub trait PrecompilesProcessor {
    /// The precompile calls received so far, in order.
    spec fn calls(&self) -> Seq<LogQuery>;

    /// Called when a frame is entered.
    fn start_frame(&mut self);

    /// Called when a frame is left, with whether it panicked.
    fn finish_frame(&mut self, panicked: bool);

    /// Runs the precompile that the query names; the destination of the
    /// calling opcode is not the processor's to write.
    fn execute_precompile<M: Memory>(&mut self, monotonic_cycle_counter: u32, query: LogQuery, memory: &mut M) -> (r: Option<PrecompileKind>)
        ensures
            final(self).calls() == old(self).calls().push(query),
            final(memory).dst0_writes() == old(memory).dst0_writes();
}

/// The frame of the running contract.
#[derive(Clone, Copy, Debug, PartialEq, Eq, Hash)]
pub struct CallStackEntry {
    pub this_address: Address,
    pub this_shard_id: u8,
    pub ergs_remaining: u32,
    pub base_memory_page: MemoryPage,
    pub pc: u16,
}

impl CallStackEntry {
    pub open spec fn spec_heap_page_from_base(base: MemoryPage) -> MemoryPage {
        MemoryPage((base.0 + 2) as u32)
    }

    /// The heap page of the frame whose pages start at `base`.
    pub fn heap_page_from_base(base: MemoryPage) -> (r: MemoryPage)
        requires
            base.0 + 2 <= u32::MAX,
        ensures
            r == Self::spec_heap_page_from_base(base),
    {
        MemoryPage(base.0 + 2)
    }
}

/// The state that log opcodes read and change.
#[derive(Clone, Copy, Debug, PartialEq, Eq, Hash)]
pub struct VmLocalState {
    pub current_frame: CallStackEntry,
    pub tx_number_in_block: u16,
    pub monotonic_cycle_counter: u32,
    /// The first tick of the current cycle.
    pub timestamp: u32,
    pub current_ergs_per_pubdata_byte: u32,
    pub spent_pubdata_counter: u32,
}

/// The first of the cycle's two reserved ticks: that of every log query.
pub open spec fn first_sub_timestamp(s: VmLocalState) -> Timestamp {
    Timestamp((s.timestamp + 1) as u32)
}

/// The second reserved tick: that of a precompile's memory writes.
pub open spec fn second_sub_timestamp(s: VmLocalState) -> Timestamp {
    Timestamp((s.timestamp + 2) as u32)
}

impl VmLocalState {
    /// The cycle's ticks fit in 32 bits.
    pub open spec fn ticks_fit(&self) -> bool {
        self.timestamp + 2 <= u32::MAX
    }

    pub fn timestamp_for_first_decommit_or_precompile_read(&self) -> (r: Timestamp)
        requires
            self.timestamp + 1 <= u32::MAX,
        ensures
            r == first_sub_timestamp(*self),
    {
        Timestamp(self.timestamp + 1)
    }

    pub fn timestamp_for_second_decommit_or_precompile_write(&self) -> (r: Timestamp)
        requires
            self.ticks_fit(),
        ensures
            r == second_sub_timestamp(*self),
    {
        Timestamp(self.timestamp + 2)
    }
}

/// The second reserved tick of a cycle follows the first.
pub proof fn lemma_sub_timestamps_consecutive(s: VmLocalState)
    requires
        s.ticks_fit(),
    ensures
        second_sub_timestamp(s).0 == first_sub_timestamp(s).0 + 1,
{
}

/// The VM with its collaborators.
pub struct VmState<S, M, EV, PP> {
    pub local_state: VmLocalState,
    pub pubdata_params: PubdataParams,
    pub storage: S,
    pub memory: M,
    pub event_sink: EV,
    pub precompiles_processor: PP,
}

} // verus!
