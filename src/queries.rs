use vstd::prelude::*;
use crate::word::U256;

verus! {

/// A tick of the VM's clock; each cycle owns a few consecutive ticks.
#[derive(Clone, Copy, Debug, PartialEq, Eq, Structural, PartialOrd, Ord, Hash)]
pub struct Timestamp(pub u32);

impl Timestamp {
    pub fn empty() -> (r: Timestamp)
        ensures
            r.0 == 0,
    {
        Timestamp(0)
    }
}

/// The number of a memory page.
#[derive(Clone, Copy, Debug, PartialEq, Eq, Structural, PartialOrd, Ord, Hash)]
pub struct MemoryPage(pub u32);

/// The index of a 32-byte word within a memory page.
#[derive(Clone, Copy, Debug, PartialEq, Eq, Structural, PartialOrd, Ord, Hash)]
pub struct MemoryIndex(pub u32);

/// The kind of memory a location lies in.
#[derive(Clone, Copy, Debug, PartialEq, Eq, Structural, PartialOrd, Ord, Hash)]
pub enum MemoryType {
    Stack,
    Heap,
    AuxHeap,
    FatPointer,
    Code,
}

/// A word-sized location in memory.
#[derive(Clone, Copy, Debug, PartialEq, Eq, Structural, PartialOrd, Ord, Hash)]
pub struct MemoryLocation {
    pub memory_type: MemoryType,
    pub page: MemoryPage,
    pub index: MemoryIndex,
}

impl MemoryLocation {
    pub open spec fn empty_spec() -> MemoryLocation {
        MemoryLocation { memory_type: MemoryType::Heap, page: MemoryPage(0), index: MemoryIndex(0) }
    }

    pub fn empty() -> (r: MemoryLocation)
        ensures
            r == Self::empty_spec(),
    {
        MemoryLocation { memory_type: MemoryType::Heap, page: MemoryPage(0), index: MemoryIndex(0) }
    }
}

/// A 20-byte account address, most significant byte first.
#[derive(Clone, Copy, Debug, PartialEq, Eq, PartialOrd, Ord, Hash)]
pub struct Address(pub [u8; 20]);

impl Address {
    /// The all-zero address.
    pub fn zero() -> (r: Address)
        ensures
            forall|i: int| 0 <= i < 20 ==> r.0@[i] == 0u8,
    {
        Address([0u8; 20])
    }
}

/// A record of one memory access.
#[derive(Clone, Copy, Debug, PartialEq, Eq, Structural, Hash)]
pub struct MemoryQuery {
    pub timestamp: Timestamp,
    pub location: MemoryLocation,
    pub value: U256,
    pub rw_flag: bool,
    pub value_is_pointer: bool,
}

impl MemoryQuery {
    /// A read of zero at the empty location and time zero.
    pub fn empty() -> (r: Self)
        ensures
            r.timestamp.0 == 0,
            r.location == MemoryLocation::empty_spec(),
            r.value.value() == 0,
            !r.rw_flag,
            !r.value_is_pointer,
    {
        Self {
            timestamp: Timestamp::empty(),
            location: MemoryLocation::empty(),
            rw_flag: false,
            value_is_pointer: false,
            value: U256::zero(),
        }
    }
}

/// The record of one storage access, event, message or precompile call.
#[derive(Clone, Copy, Debug, PartialEq, Eq, Hash)]
pub struct LogQuery {
    pub timestamp: Timestamp,
    pub tx_number_in_block: u16,
    pub aux_byte: u8,
    pub shard_id: u8,
    pub address: Address,
    pub key: U256,
    pub read_value: U256,
    pub written_value: U256,
    pub rw_flag: bool,
    pub rollback: bool,
    pub is_service: bool,
}

/// A request to unpack the code behind a hash into a memory page.
#[derive(Clone, Copy, Debug, PartialEq, Eq, Structural, Hash)]
pub struct DecommittmentQuery {
    pub hash: U256,
    pub timestamp: Timestamp,
    pub memory_page: MemoryPage,
    pub decommitted_length: u16,
    pub is_fresh: bool,
}

} // verus!
