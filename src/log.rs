use vstd::prelude::*;
use crate::abi::{abi_of_word, word_of_abi, PrecompileCallABI};
use crate::cost::{charge, ergs_on_pubdata, spec_charge, spec_ergs_on_pubdata, spec_net_pubdata, Charge, LogFatalError, LogOpcode};
use crate::params::{EVENT_AUX_BYTE, L1_MESSAGE_AUX_BYTE, PRECOMPILE_AUX_BYTE, STORAGE_AUX_BYTE};
use crate::queries::{LogQuery, MemoryLocation, MemoryPage, Timestamp};
use crate::vm::{
    first_sub_timestamp, second_sub_timestamp, CallStackEntry, EventSink, Memory, PrecompilesProcessor,
    PrimitiveValue, Storage, VmLocalState, VmState,
};
use crate::word::U256;

verus! {

/// A decoded log opcode.
#[derive(Clone, Copy, Debug, PartialEq, Eq, Structural, Hash)]
pub struct DecodedOpcode {
    pub variant: LogOpcode,
    /// The opcode's first-message flag; emitted queries carry it as `is_service`.
    pub is_first_message: bool,
}

/// The operands and destination that the fetch-decode step hands to an opcode.
#[derive(Clone, Copy, Debug, PartialEq, Eq, Structural, Hash)]
pub struct PreState {
    pub src0: PrimitiveValue,
    pub src1: PrimitiveValue,
    pub dst0_mem_location: Option<MemoryLocation>,
    pub new_pc: u16,
}

/// What one log-opcode cycle did.
#[derive(Clone, Copy, Debug, PartialEq, Eq, Hash)]
pub struct LogCycleOutcome {
    /// The storage oracle's pubdata refund for a storage write; zero otherwise.
    pub pubdata_refund: u32,
    pub ergs_on_pubdata: u32,
    pub extra_cost: u32,
    pub not_enough_power: bool,
    /// The query handed to the storage, the event sink or the precompile processor.
    pub query: Option<LogQuery>,
    /// What storage answered a read.
    pub storage_answer: Option<LogQuery>,
    /// The value written to the destination.
    pub dst0_update: Option<PrimitiveValue>,
    /// The tick reserved for a precompile's memory writes.
    pub precompile_write_timestamp: Option<Timestamp>,
}

impl LogFatalError {
    pub open spec fn spec_pubdata_refund(self) -> u32 {
        match self {
            LogFatalError::RefundExceedsCost { pubdata_refund } => pubdata_refund,
            LogFatalError::RefundOnNonRollupShard { pubdata_refund } => pubdata_refund,
        }
    }
}

/// The descriptor with each zero memory page replaced by the frame's heap page.
pub open spec fn spec_default_memory_pages(a: PrecompileCallABI, base: MemoryPage) -> PrecompileCallABI {
    let heap = CallStackEntry::spec_heap_page_from_base(base).0;
    PrecompileCallABI {
        memory_page_to_read: if a.memory_page_to_read == 0 { heap } else { a.memory_page_to_read },
        memory_page_to_write: if a.memory_page_to_write == 0 { heap } else { a.memory_page_to_write },
        ..a
    }
}

/// Replaces each zero memory page of the descriptor by the heap page of the
/// frame whose pages start at `base`.
pub fn default_memory_pages(abi: PrecompileCallABI, base: MemoryPage) -> (r: PrecompileCallABI)
    requires
        abi.memory_page_to_read == 0 || abi.memory_page_to_write == 0 ==> base.0 + 2 <= u32::MAX,
    ensures
        r == spec_default_memory_pages(abi, base),
{
    let mut abi = abi;
    if abi.memory_page_to_read == 0 {
        abi.memory_page_to_read = CallStackEntry::heap_page_from_base(base).0;
    }
    if abi.memory_page_to_write == 0 {
        abi.memory_page_to_write = CallStackEntry::heap_page_from_base(base).0;
    }
    abi
}

/// The query of the current cycle and frame with the given contents.
pub open spec fn spec_query(
    s: VmLocalState,
    aux_byte: u8,
    key: U256,
    written_value: U256,
    rw_flag: bool,
    is_service: bool,
) -> LogQuery {
    LogQuery {
        timestamp: first_sub_timestamp(s),
        tx_number_in_block: s.tx_number_in_block,
        aux_byte,
        shard_id: s.current_frame.this_shard_id,
        address: s.current_frame.this_address,
        key,
        read_value: U256 { l0: 0, l1: 0, l2: 0, l3: 0 },
        written_value,
        rw_flag,
        rollback: false,
        is_service,
    }
}

/// The query that a cycle hands to a collaborator, if any: none when a write,
/// a message or a precompile call runs short of ergs.
pub open spec fn spec_emitted_query(
    op: DecodedOpcode,
    s: VmLocalState,
    src0: U256,
    src1: U256,
    not_enough_power: bool,
) -> Option<LogQuery> {
    let zero = U256 { l0: 0, l1: 0, l2: 0, l3: 0 };
    let service = op.is_first_message;
    match op.variant {
        LogOpcode::StorageRead => Some(spec_query(s, STORAGE_AUX_BYTE, src0, zero, false, service)),
        LogOpcode::StorageWrite => if not_enough_power { None } else {
            Some(spec_query(s, STORAGE_AUX_BYTE, src0, src1, true, service))
        },
        LogOpcode::Event => if not_enough_power { None } else {
            Some(spec_query(s, EVENT_AUX_BYTE, src0, src1, true, service))
        },
        LogOpcode::ToL1Message => if not_enough_power { None } else {
            Some(spec_query(s, L1_MESSAGE_AUX_BYTE, src0, src1, true, service))
        },
        LogOpcode::PrecompileCall => if not_enough_power { None } else {
            let abi = spec_default_memory_pages(abi_of_word(src0), s.current_frame.base_memory_page);
            Some(spec_query(s, PRECOMPILE_AUX_BYTE, word_of_abi(abi), zero, false, service))
        },
    }
}

/// The extra ergs that a variant costs besides pubdata: the low 32 bits of the
/// second operand for a precompile call.
pub open spec fn spec_extra_cost(op: LogOpcode, src1: U256) -> u32 {
    if op == LogOpcode::PrecompileCall { (src1.value() % 0x1_0000_0000) as u32 } else { 0 }
}

/// A query as a sequence of at most one entry.
pub open spec fn seq_of(q: Option<LogQuery>) -> Seq<LogQuery> {
    match q {
        Some(x) => seq![x],
        None => Seq::empty(),
    }
}

/// What a collaborator's log grows by in a cycle: the handed query when the
/// collaborator serves the variant, nothing otherwise.
pub open spec fn handed_if(serves: bool, q: Option<LogQuery>) -> Seq<LogQuery> {
    if serves { seq_of(q) } else { Seq::empty() }
}

/// What memory's log of destination writes grows by in a cycle.
pub open spec fn dst0_written(
    v: Option<PrimitiveValue>,
    location: Option<MemoryLocation>,
) -> Seq<(PrimitiveValue, Option<MemoryLocation>)> {
    match v {
        Some(x) => seq![(x, location)],
        None => Seq::empty(),
    }
}

/// The local state after a cycle that moved to `new_pc` and charged `c`.
pub open spec fn spec_charged_state(s: VmLocalState, new_pc: u16, c: Charge) -> VmLocalState {
    VmLocalState {
        current_frame: CallStackEntry { pc: new_pc, ergs_remaining: c.ergs_remaining, ..s.current_frame },
        spent_pubdata_counter: (s.spent_pubdata_counter + c.spent_pubdata_delta) as u32,
        ..s
    }
}

/// The query of the current cycle and frame.
fn make_query(
    s: &VmLocalState,
    timestamp: Timestamp,
    aux_byte: u8,
    key: U256,
    written_value: U256,
    rw_flag: bool,
    is_service: bool,
) -> (r: LogQuery)
    requires
        timestamp == first_sub_timestamp(*s),
    ensures
        r == spec_query(*s, aux_byte, key, written_value, rw_flag, is_service),
{
    LogQuery {
        timestamp,
        tx_number_in_block: s.tx_number_in_block,
        aux_byte,
        shard_id: s.current_frame.this_shard_id,
        address: s.current_frame.this_address,
        key,
        read_value: U256::zero(),
        written_value,
        rw_flag,
        rollback: false,
        is_service,
    }
}

impl DecodedOpcode {
    /// Executes one log opcode: advances the program counter, charges ergs for
    /// the variant and its pubdata, then reads or writes storage, emits an
    /// event or a message, or calls a precompile, as ergs allow. A storage
    /// oracle that breaks the refund rules ends the cycle with an error, after
    /// the program counter moved and before anything was charged.
    pub fn log_opcode_apply<S: Storage, M: Memory, EV: EventSink, PP: PrecompilesProcessor>(
        &self,
        vm_state: &mut VmState<S, M, EV, PP>,
        prestate: PreState,
    ) -> (r: Result<LogCycleOutcome, LogFatalError>)
        requires
            old(vm_state).local_state.timestamp + 1 <= u32::MAX,
            self.variant == LogOpcode::StorageWrite && old(vm_state).local_state.current_frame.this_shard_id == 0
                ==> old(vm_state).local_state.spent_pubdata_counter
                    + old(vm_state).local_state.current_ergs_per_pubdata_byte
                    * old(vm_state).pubdata_params.initial_storage_write_pubdata_bytes <= u32::MAX,
            self.variant == LogOpcode::ToL1Message
                ==> old(vm_state).local_state.spent_pubdata_counter
                    + old(vm_state).local_state.current_ergs_per_pubdata_byte
                    * old(vm_state).pubdata_params.l1_message_pubdata_bytes <= u32::MAX,
            // a paid precompile call takes the second tick, and may default its pages
            self.variant == LogOpcode::PrecompileCall
                && spec_extra_cost(self.variant, prestate.src1.value) <= old(vm_state).local_state.current_frame.ergs_remaining
                ==> old(vm_state).local_state.ticks_fit() && (
                    abi_of_word(prestate.src0.value).memory_page_to_read == 0
                        || abi_of_word(prestate.src0.value).memory_page_to_write == 0
                    ==> old(vm_state).local_state.current_frame.base_memory_page.0 + 2 <= u32::MAX),
        ensures
            final(vm_state).pubdata_params == old(vm_state).pubdata_params,
            match r {
                Ok(out) => {
                    let s = old(vm_state).local_state;
                    let c = spec_charge(s.current_frame.ergs_remaining, out.extra_cost, out.ergs_on_pubdata);
                    &&& self.variant != LogOpcode::StorageWrite ==> out.pubdata_refund == 0
                    &&& spec_ergs_on_pubdata(
                        self.variant,
                        s.current_frame.this_shard_id == 0,
                        s.current_ergs_per_pubdata_byte,
                        out.pubdata_refund,
                        old(vm_state).pubdata_params,
                    ) == Ok::<int, LogFatalError>(out.ergs_on_pubdata as int)
                    &&& out.extra_cost == spec_extra_cost(self.variant, prestate.src1.value)
                    &&& out.not_enough_power == c.not_enough_power
                    &&& final(vm_state).local_state == spec_charged_state(s, prestate.new_pc, c)
                    // ergs never grow
                    &&& final(vm_state).local_state.current_frame.ergs_remaining <= s.current_frame.ergs_remaining
                    // the pubdata counter grows by at most the pubdata ergs, by exactly them when paid
                    &&& final(vm_state).local_state.spent_pubdata_counter <= s.spent_pubdata_counter + out.ergs_on_pubdata
                    &&& !out.not_enough_power ==> final(vm_state).local_state.spent_pubdata_counter
                        == s.spent_pubdata_counter + out.ergs_on_pubdata
                    &&& (self.variant == LogOpcode::StorageRead || self.variant == LogOpcode::Event)
                        ==> !out.not_enough_power
                    &&& out.query == spec_emitted_query(*self, s, prestate.src0.value, prestate.src1.value, out.not_enough_power)
                    &&& out.query is Some ==> out.query->Some_0.timestamp == first_sub_timestamp(s)
                    &&& match self.variant {
                        LogOpcode::StorageRead => out.dst0_update is Some && !out.dst0_update->Some_0.is_pointer,
                        LogOpcode::PrecompileCall => out.dst0_update == Some(
                            if out.not_enough_power {
                                PrimitiveValue::empty_spec()
                            } else {
                                PrimitiveValue { value: U256 { l0: 1, l1: 0, l2: 0, l3: 0 }, is_pointer: false }
                            },
                        ),
                        _ => out.dst0_update is None,
                    }
                    &&& out.precompile_write_timestamp == if self.variant == LogOpcode::PrecompileCall
                        && !out.not_enough_power {
                        Some(second_sub_timestamp(s))
                    } else {
                        None
                    }
                    &&& out.precompile_write_timestamp is Some ==> out.precompile_write_timestamp->Some_0.0
                        == out.query->Some_0.timestamp.0 + 1
                    // what each collaborator was handed
                    &&& final(vm_state).storage.accesses() == old(vm_state).storage.accesses() + handed_if(
                        self.variant == LogOpcode::StorageRead || self.variant == LogOpcode::StorageWrite,
                        out.query,
                    )
                    &&& final(vm_state).event_sink.events() == old(vm_state).event_sink.events() + handed_if(
                        self.variant == LogOpcode::Event || self.variant == LogOpcode::ToL1Message,
                        out.query,
                    )
                    &&& final(vm_state).precompiles_processor.calls() == old(vm_state).precompiles_processor.calls()
                        + handed_if(self.variant == LogOpcode::PrecompileCall, out.query)
                    &&& final(vm_state).memory.dst0_writes() == old(vm_state).memory.dst0_writes()
                        + dst0_written(out.dst0_update, prestate.dst0_mem_location)
                    // a read writes what storage answered
                    &&& if self.variant == LogOpcode::StorageRead {
                        &&& out.storage_answer is Some
                        &&& out.dst0_update == Some(
                            PrimitiveValue { value: out.storage_answer->Some_0.read_value, is_pointer: false },
                        )
                    } else {
                        out.storage_answer is None
                    }
                },
                Err(e) => {
                    let s = old(vm_state).local_state;
                    &&& self.variant == LogOpcode::StorageWrite
                    &&& spec_net_pubdata(
                        self.variant,
                        s.current_frame.this_shard_id == 0,
                        e.spec_pubdata_refund(),
                        old(vm_state).pubdata_params,
                    ) == Err::<u32, LogFatalError>(e)
                    &&& final(vm_state).local_state == (VmLocalState {
                        current_frame: CallStackEntry { pc: prestate.new_pc, ..s.current_frame },
                        ..s
                    })
                    &&& final(vm_state).storage.accesses() == old(vm_state).storage.accesses()
                    &&& final(vm_state).event_sink.events() == old(vm_state).event_sink.events()
                    &&& final(vm_state).precompiles_processor.calls() == old(vm_state).precompiles_processor.calls()
                    &&& final(vm_state).memory.dst0_writes() == old(vm_state).memory.dst0_writes()
                },
            },
    {
        let src0 = prestate.src0.value;
        let src1 = prestate.src1.value;
        let variant = self.variant;
        let is_first_message = self.is_first_message;
        vm_state.local_state.current_frame.pc = prestate.new_pc;

        let shard_id = vm_state.local_state.current_frame.this_shard_id;
        let ergs_available = vm_state.local_state.current_frame.ergs_remaining;
        let is_rollup = shard_id == 0;
        let timestamp_for_log = vm_state.local_state.timestamp_for_first_decommit_or_precompile_read();
        let cycle = vm_state.local_state.monotonic_cycle_counter;

        // the oracle sees the written value to estimate the refund
        let pubdata_refund: u32 = match variant {
            LogOpcode::StorageWrite => {
                let partial_query = make_query(
                    &vm_state.local_state,
                    timestamp_for_log,
                    STORAGE_AUX_BYTE,
                    src0,
                    src1,
                    true,
                    false,
                );
                let refund = vm_state.storage.refund_for_partial_query(cycle, &partial_query);
                refund.pubdata_refund()
            },
            _ => 0,
        };

        let ergs_on_pubdata = match ergs_on_pubdata(
            variant,
            is_rollup,
            vm_state.local_state.current_ergs_per_pubdata_byte,
            pubdata_refund,
            vm_state.pubdata_params,
        ) {
            Ok(c) => c,
            Err(e) => {
                return Err(e);
            },
        };

        let extra_cost: u32 = match variant {
            LogOpcode::PrecompileCall => src1.low_u32(),
            _ => 0,
        };

        let charged = charge(ergs_available, extra_cost, ergs_on_pubdata);
        let not_enough_power = charged.not_enough_power;
        vm_state.local_state.current_frame.ergs_remaining = charged.ergs_remaining;
        vm_state.local_state.spent_pubdata_counter =
            vm_state.local_state.spent_pubdata_counter + charged.spent_pubdata_delta;

        let mut out = LogCycleOutcome {
            pubdata_refund,
            ergs_on_pubdata,
            extra_cost,
            not_enough_power,
            query: None,
            storage_answer: None,
            dst0_update: None,
            precompile_write_timestamp: None,
        };

        match variant {
            LogOpcode::StorageRead => {
                let query = make_query(
                    &vm_state.local_state,
                    timestamp_for_log,
                    STORAGE_AUX_BYTE,
                    src0,
                    U256::zero(),
                    false,
                    is_first_message,
                );
                let answered = vm_state.storage.access_storage(cycle, query);
                let result = PrimitiveValue { value: answered.read_value, is_pointer: false };
                vm_state.memory.perform_dst0_update(cycle, result, prestate.dst0_mem_location);
                out.query = Some(query);
                out.storage_answer = Some(answered);
                out.dst0_update = Some(result);
            },
            LogOpcode::StorageWrite => {
                if !not_enough_power {
                    let query = make_query(
                        &vm_state.local_state,
                        timestamp_for_log,
                        STORAGE_AUX_BYTE,
                        src0,
                        src1,
                        true,
                        is_first_message,
                    );
                    // the answer only records the write for the witness
                    let _answered = vm_state.storage.access_storage(cycle, query);
                    out.query = Some(query);
                }
            },
            LogOpcode::Event | LogOpcode::ToL1Message => {
                if !not_enough_power {
                    let aux_byte = if variant == LogOpcode::Event { EVENT_AUX_BYTE } else { L1_MESSAGE_AUX_BYTE };
                    let query = make_query(
                        &vm_state.local_state,
                        timestamp_for_log,
                        aux_byte,
                        src0,
                        src1,
                        true,
                        is_first_message,
                    );
                    vm_state.event_sink.emit_event(cycle, query);
                    out.query = Some(query);
                }
            },
            LogOpcode::PrecompileCall => {
                if not_enough_power {
                    let empty = PrimitiveValue::empty();
                    vm_state.memory.perform_dst0_update(cycle, empty, prestate.dst0_mem_location);
                    out.dst0_update = Some(empty);
                } else {
                    let precompile_abi = default_memory_pages(
                        PrecompileCallABI::from_u256(src0),
                        vm_state.local_state.current_frame.base_memory_page,
                    );
                    let timestamp_to_write = vm_state.local_state.timestamp_for_second_decommit_or_precompile_write();
                    let query = make_query(
                        &vm_state.local_state,
                        timestamp_for_log,
                        PRECOMPILE_AUX_BYTE,
                        precompile_abi.to_u256(),
                        U256::zero(),
                        false,
                        is_first_message,
                    );
                    let _witness = vm_state.precompiles_processor.execute_precompile(cycle, query, &mut vm_state.memory);
                    let result = PrimitiveValue { value: U256::from_u64(1), is_pointer: false };
                    vm_state.memory.perform_dst0_update(cycle, result, prestate.dst0_mem_location);
                    out.query = Some(query);
                    out.dst0_update = Some(result);
                    out.precompile_write_timestamp = Some(timestamp_to_write);
                }
            },
        }
        Ok(out)
    }
}

} // verus!
