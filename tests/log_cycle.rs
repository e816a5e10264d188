use axon_log_vm::abi::PrecompileCallABI;
use axon_log_vm::cost::{charge, ergs_on_pubdata, LogFatalError, LogOpcode};
use axon_log_vm::log::{DecodedOpcode, PreState};
use axon_log_vm::params::{PubdataParams, EVENT_AUX_BYTE, L1_MESSAGE_AUX_BYTE, PRECOMPILE_AUX_BYTE, STORAGE_AUX_BYTE};
use axon_log_vm::queries::{Address, MemoryPage, Timestamp};
use axon_log_vm::precompiles::DefaultPrecompilesProcessor;
use axon_log_vm::recording::{RecordingEventSink, RecordingMemory, ScriptedStorage};
use axon_log_vm::vm::{CallStackEntry, PrimitiveValue, RefundType, RefundedAmounts, VmLocalState, VmState};
use axon_log_vm::word::U256;

type TestVm = VmState<ScriptedStorage, RecordingMemory, RecordingEventSink, DefaultPrecompilesProcessor<true>>;

fn refund_of(pubdata_bytes: u32, ergs: u32) -> RefundType {
    if pubdata_bytes == 0 && ergs == 0 {
        RefundType::NoRefund
    } else {
        RefundType::RepeatedWrite(RefundedAmounts { pubdata_bytes, ergs })
    }
}

fn vm(shard: u8, ergs: u32, epb: u32, params: PubdataParams) -> TestVm {
    VmState {
        local_state: VmLocalState {
            current_frame: CallStackEntry {
                this_address: Address([0x11; 20]),
                this_shard_id: shard,
                ergs_remaining: ergs,
                base_memory_page: MemoryPage(7),
                pc: 10,
            },
            tx_number_in_block: 3,
            monotonic_cycle_counter: 100,
            timestamp: 400,
            current_ergs_per_pubdata_byte: epb,
            spent_pubdata_counter: 1000,
        },
        pubdata_params: params,
        storage: ScriptedStorage::new(RefundType::NoRefund, U256::zero()),
        memory: RecordingMemory::new(),
        event_sink: RecordingEventSink::new(),
        precompiles_processor: DefaultPrecompilesProcessor::new(),
    }
}

fn scenario_params() -> PubdataParams {
    PubdataParams { initial_storage_write_pubdata_bytes: 5000, l1_message_pubdata_bytes: 500 }
}

fn pre(src0: U256, src1: U256) -> PreState {
    PreState {
        src0: PrimitiveValue { value: src0, is_pointer: true },
        src1: PrimitiveValue { value: src1, is_pointer: true },
        dst0_mem_location: None,
        new_pc: 11,
    }
}

fn op(variant: LogOpcode) -> DecodedOpcode {
    DecodedOpcode { variant, is_first_message: true }
}

#[test]
fn rollup_storage_write_with_refund() {
    let mut v = vm(0, 1_000_000, 16, scenario_params());
    v.storage.refund = refund_of(100, 0);
    let out = op(LogOpcode::StorageWrite).log_opcode_apply(&mut v, pre(U256::from_u64(7), U256::from_u64(42))).unwrap();
    assert_eq!(v.local_state.current_frame.ergs_remaining, 921_600);
    assert_eq!(v.local_state.spent_pubdata_counter, 1000 + 78_400);
    assert_eq!(v.local_state.current_frame.pc, 11);
    assert_eq!(out.ergs_on_pubdata, 78_400);
    assert_eq!(v.storage.log.len(), 1);
    let q = v.storage.log[0];
    assert_eq!(q.aux_byte, STORAGE_AUX_BYTE);
    assert!(q.rw_flag);
    assert_eq!(q.key, U256::from_u64(7));
    assert_eq!(q.written_value, U256::from_u64(42));
    assert!(q.is_service);
    assert!(!v.storage.refund_requests[0].is_service);
    assert_eq!(out.query, Some(q));
    assert!(v.memory.writes.is_empty());
}

#[test]
fn validium_storage_write_costs_nothing() {
    let mut v = vm(1, 100, 16, scenario_params());
    let out = op(LogOpcode::StorageWrite).log_opcode_apply(&mut v, pre(U256::from_u64(1), U256::from_u64(2))).unwrap();
    assert_eq!(v.local_state.current_frame.ergs_remaining, 100);
    assert_eq!(v.local_state.spent_pubdata_counter, 1000);
    assert_eq!(v.storage.log.len(), 1);
    assert!(v.storage.log[0].rw_flag);
    assert!(!out.not_enough_power);
}

#[test]
fn validium_nonzero_refund_is_fatal() {
    let mut v = vm(1, 100, 16, scenario_params());
    v.storage.refund = refund_of(7, 0);
    let r = op(LogOpcode::StorageWrite).log_opcode_apply(&mut v, pre(U256::from_u64(1), U256::from_u64(2)));
    assert_eq!(r, Err(LogFatalError::RefundOnNonRollupShard { pubdata_refund: 7 }));
    assert!(v.storage.log.is_empty());
    assert_eq!(v.local_state.current_frame.ergs_remaining, 100);
}

#[test]
fn rollup_refund_above_cost_is_fatal() {
    let mut v = vm(0, 100, 16, scenario_params());
    v.storage.refund = refund_of(5001, 0);
    let r = op(LogOpcode::StorageWrite).log_opcode_apply(&mut v, pre(U256::zero(), U256::zero()));
    assert_eq!(r, Err(LogFatalError::RefundExceedsCost { pubdata_refund: 5001 }));
}

#[test]
fn l1_message_short_of_ergs_is_dropped() {
    let mut v = vm(0, 1000, 16, scenario_params());
    let out = op(LogOpcode::ToL1Message).log_opcode_apply(&mut v, pre(U256::from_u64(1), U256::from_u64(2))).unwrap();
    assert!(out.not_enough_power);
    assert_eq!(v.local_state.current_frame.ergs_remaining, 0);
    assert_eq!(v.local_state.spent_pubdata_counter, 1000 + 1000);
    assert!(v.event_sink.events.is_empty());
    assert!(v.memory.writes.is_empty());
    assert_eq!(out.query, None);
}

#[test]
fn l1_message_emitted_when_paid() {
    let mut v = vm(0, 10_000, 16, scenario_params());
    let out = op(LogOpcode::ToL1Message).log_opcode_apply(&mut v, pre(U256::from_u64(1), U256::from_u64(2))).unwrap();
    assert_eq!(v.local_state.current_frame.ergs_remaining, 2000);
    assert_eq!(v.local_state.spent_pubdata_counter, 1000 + 8000);
    assert_eq!(v.event_sink.events.len(), 1);
    assert_eq!(v.event_sink.events[0].aux_byte, L1_MESSAGE_AUX_BYTE);
    assert_eq!(out.query, Some(v.event_sink.events[0]));
}

#[test]
fn precompile_short_of_ergs_writes_zero() {
    let mut v = vm(0, 50, 16, scenario_params());
    let out = op(LogOpcode::PrecompileCall).log_opcode_apply(&mut v, pre(U256::zero(), U256::from_u64(200))).unwrap();
    assert!(out.not_enough_power);
    assert_eq!(v.local_state.current_frame.ergs_remaining, 0);
    assert_eq!(v.memory.writes, vec![(PrimitiveValue::empty(), None)]);
    assert_eq!(out.query, None);
    assert_eq!(v.local_state.spent_pubdata_counter, 1000);
}

#[test]
fn precompile_defaults_pages_and_marks_success() {
    let mut v = vm(0, 10_000, 16, scenario_params());
    let abi = PrecompileCallABI {
        input_memory_offset: 1,
        input_memory_length: 2,
        output_memory_offset: 3,
        output_memory_length: 4,
        memory_page_to_read: 0,
        memory_page_to_write: 0,
        precompile_interpreted_data: 5,
    };
    // the high limbs of the second operand do not count towards the cost
    let src1 = U256::from_limbs([100, 1, 0, 0]);
    let out = op(LogOpcode::PrecompileCall).log_opcode_apply(&mut v, pre(abi.to_u256(), src1)).unwrap();
    let heap = CallStackEntry::heap_page_from_base(MemoryPage(7)).0;
    assert_eq!(heap, 9);
    let expected = PrecompileCallABI { memory_page_to_read: heap, memory_page_to_write: heap, ..abi };
    assert_eq!(v.local_state.current_frame.ergs_remaining, 9_900);
    let q = out.query.unwrap();
    assert_eq!(q.key, expected.to_u256());
    assert_eq!(q.aux_byte, PRECOMPILE_AUX_BYTE);
    assert!(!q.rw_flag);
    assert_eq!(q.timestamp, Timestamp(401));
    assert_eq!(out.precompile_write_timestamp, Some(Timestamp(402)));
    assert_eq!(v.memory.writes, vec![(PrimitiveValue { value: U256::from_u64(1), is_pointer: false }, None)]);
}

#[test]
fn precompile_keeps_nonzero_pages() {
    let mut v = vm(0, 10_000, 16, scenario_params());
    let abi = PrecompileCallABI {
        input_memory_offset: 0,
        input_memory_length: 0,
        output_memory_offset: 0,
        output_memory_length: 0,
        memory_page_to_read: 0,
        memory_page_to_write: 33,
        precompile_interpreted_data: 0,
    };
    let out = op(LogOpcode::PrecompileCall).log_opcode_apply(&mut v, pre(abi.to_u256(), U256::zero())).unwrap();
    let got = PrecompileCallABI::from_u256(out.query.unwrap().key);
    assert_eq!(got.memory_page_to_read, 9);
    assert_eq!(got.memory_page_to_write, 33);
}

#[test]
fn storage_read_fills_destination() {
    let mut v = vm(0, 0, 16, scenario_params());
    v.storage.read_value = U256::from_u64(77);
    let out = op(LogOpcode::StorageRead).log_opcode_apply(&mut v, pre(U256::from_u64(5), U256::zero())).unwrap();
    assert!(!out.not_enough_power);
    assert_eq!(v.memory.writes, vec![(PrimitiveValue { value: U256::from_u64(77), is_pointer: false }, None)]);
    let q = v.storage.log[0];
    assert!(!q.rw_flag);
    assert_eq!(q.aux_byte, STORAGE_AUX_BYTE);
    assert_eq!(q.timestamp, Timestamp(401));
    assert_eq!(q.tx_number_in_block, 3);
    assert_eq!(q.address, Address([0x11; 20]));
    assert!(v.storage.refund_requests.is_empty());
}

#[test]
fn event_emitted_with_zero_ergs() {
    let mut v = vm(0, 0, 16, scenario_params());
    let out = op(LogOpcode::Event).log_opcode_apply(&mut v, pre(U256::from_u64(1), U256::from_u64(2))).unwrap();
    assert!(!out.not_enough_power);
    assert_eq!(v.event_sink.events.len(), 1);
    let q = v.event_sink.events[0];
    assert_eq!(q.aux_byte, EVENT_AUX_BYTE);
    assert!(q.rw_flag && !q.rollback && q.is_service);
    assert_eq!(q.timestamp, Timestamp(401));
    assert_eq!(q.read_value, U256::zero());
}

#[test]
fn storage_write_short_of_ergs_leaves_destination() {
    let mut v = vm(0, 10, 16, scenario_params());
    let out = op(LogOpcode::StorageWrite).log_opcode_apply(&mut v, pre(U256::zero(), U256::zero())).unwrap();
    assert!(out.not_enough_power);
    assert_eq!(v.local_state.current_frame.ergs_remaining, 0);
    assert_eq!(v.local_state.spent_pubdata_counter, 1010);
    assert!(v.storage.log.is_empty());
    assert!(v.memory.writes.is_empty());
}

#[test]
fn accountant_functions() {
    let p = PubdataParams::protocol();
    assert_eq!(p.initial_storage_write_pubdata_bytes, 64);
    assert_eq!(p.l1_message_pubdata_bytes, 88);
    assert_eq!(ergs_on_pubdata(LogOpcode::StorageWrite, true, 10, 4, p), Ok(600));
    assert_eq!(ergs_on_pubdata(LogOpcode::StorageWrite, false, 10, 0, p), Ok(0));
    assert_eq!(ergs_on_pubdata(LogOpcode::StorageWrite, false, 10, 1, p), Err(LogFatalError::RefundOnNonRollupShard { pubdata_refund: 1 }));
    assert_eq!(ergs_on_pubdata(LogOpcode::ToL1Message, false, 10, 0, p), Ok(880));
    assert_eq!(ergs_on_pubdata(LogOpcode::PrecompileCall, true, 10, 0, p), Ok(0));
    let c = charge(100, 30, 50);
    assert_eq!((c.ergs_remaining, c.spent_pubdata_delta, c.not_enough_power), (20, 50, false));
    let c = charge(60, 30, 50);
    assert_eq!((c.ergs_remaining, c.spent_pubdata_delta, c.not_enough_power), (0, 50, true));
    let c = charge(40, 0, 50);
    assert_eq!((c.ergs_remaining, c.spent_pubdata_delta, c.not_enough_power), (0, 40, true));
}

#[test]
fn sub_timestamps() {
    let v = vm(0, 0, 0, scenario_params());
    let a = v.local_state.timestamp_for_first_decommit_or_precompile_read();
    let b = v.local_state.timestamp_for_second_decommit_or_precompile_write();
    assert_eq!(a, Timestamp(401));
    assert_eq!(b.0, a.0 + 1);
}

#[test]
fn validium_write_cost_same_for_any_accepted_refund() {
    let mut a = vm(2, 500, 16, scenario_params());
    let mut b = vm(2, 500, 16, scenario_params());
    b.storage.refund = refund_of(0, 99);
    let out_a = op(LogOpcode::StorageWrite).log_opcode_apply(&mut a, pre(U256::from_u64(1), U256::from_u64(2))).unwrap();
    let out_b = op(LogOpcode::StorageWrite).log_opcode_apply(&mut b, pre(U256::from_u64(1), U256::from_u64(2))).unwrap();
    assert_eq!(out_a.ergs_on_pubdata, 0);
    assert_eq!(out_b.ergs_on_pubdata, 0);
    assert_eq!(a.local_state.current_frame.ergs_remaining, b.local_state.current_frame.ergs_remaining);
    assert_eq!(a.local_state.spent_pubdata_counter, b.local_state.spent_pubdata_counter);
}

#[test]
fn rollup_refund_of_whole_cost() {
    let mut v = vm(0, 10, 16, scenario_params());
    v.storage.refund = refund_of(5000, 0);
    let out = op(LogOpcode::StorageWrite).log_opcode_apply(&mut v, pre(U256::zero(), U256::zero())).unwrap();
    assert_eq!(out.pubdata_refund, 5000);
    assert_eq!(out.ergs_on_pubdata, 0);
    assert_eq!(v.local_state.current_frame.ergs_remaining, 10);
}
