use vstd::prelude::*;
use crate::queries::{LogQuery, MemoryLocation};
use crate::vm::{EventSink, Memory, PrimitiveValue, RefundType, Storage};
use crate::word::U256;

verus! {

/// A memory that keeps every destination write, in order.
pub struct RecordingMemory {
    pub writes: Vec<(PrimitiveValue, Option<MemoryLocation>)>,
}

impl RecordingMemory {
    pub fn new() -> (r: Self)
        ensures
            r.writes@ == Seq::<(PrimitiveValue, Option<MemoryLocation>)>::empty(),
    {
        RecordingMemory { writes: Vec::new() }
    }
}

impl Memory for RecordingMemory {
    open spec fn dst0_writes(&self) -> Seq<(PrimitiveValue, Option<MemoryLocation>)> {
        self.writes@
    }

    fn perform_dst0_update(&mut self, _monotonic_cycle_counter: u32, value: PrimitiveValue, location: Option<MemoryLocation>) {
        self.writes.push((value, location));
    }
}

/// An event sink that keeps every query emitted, in order.
pub struct RecordingEventSink {
    pub events: Vec<LogQuery>,
}

impl RecordingEventSink {
    pub fn new() -> (r: Self)
        ensures
            r.events@ == Seq::<LogQuery>::empty(),
    {
        RecordingEventSink { events: Vec::new() }
    }
}

impl EventSink for RecordingEventSink {
    open spec fn events(&self) -> Seq<LogQuery> {
        self.events@
    }

    fn emit_event(&mut self, _monotonic_cycle_counter: u32, query: LogQuery) {
        self.events.push(query);
    }
}

/// A storage whose oracle gives a fixed refund and whose reads give a fixed
/// value; it keeps every refund request and every access, in order.
pub struct ScriptedStorage {
    pub refund: RefundType,
    pub read_value: U256,
    pub refund_requests: Vec<LogQuery>,
    pub log: Vec<LogQuery>,
}

impl ScriptedStorage {
    pub fn new(refund: RefundType, read_value: U256) -> (r: Self)
        ensures
            r.refund == refund,
            r.read_value == read_value,
            r.refund_requests@ == Seq::<LogQuery>::empty(),
            r.log@ == Seq::<LogQuery>::empty(),
    {
        ScriptedStorage { refund, read_value, refund_requests: Vec::new(), log: Vec::new() }
    }
}

impl Storage for ScriptedStorage {
    open spec fn accesses(&self) -> Seq<LogQuery> {
        self.log@
    }

    fn refund_for_partial_query(&mut self, _monotonic_cycle_counter: u32, partial_query: &LogQuery) -> (r: RefundType) {
        self.refund_requests.push(*partial_query);
        self.refund
    }

    fn access_storage(&mut self, _monotonic_cycle_counter: u32, query: LogQuery) -> (r: LogQuery) {
        self.log.push(query);
        let mut answered = query;
        if !query.rw_flag {
            answered.read_value = self.read_value;
        }
        answered
    }
}

} // verus!
