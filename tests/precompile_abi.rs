use axon_log_vm::abi::PrecompileCallABI;
use axon_log_vm::precompiles::{precompile_abi_in_log, precompile_for_address, DefaultPrecompilesProcessor};
use axon_log_vm::queries::{Address, LogQuery, Timestamp};
use axon_log_vm::recording::RecordingMemory;
use axon_log_vm::vm::{PrecompileKind, PrecompilesProcessor};
use axon_log_vm::word::U256;

fn sample() -> PrecompileCallABI {
    PrecompileCallABI {
        input_memory_offset: 1,
        input_memory_length: 2,
        output_memory_offset: 3,
        output_memory_length: 4,
        memory_page_to_read: 5,
        memory_page_to_write: 6,
        precompile_interpreted_data: 7,
    }
}

#[test]
fn encoding_layout() {
    let w = sample().to_u256();
    assert_eq!(w.as_limbs(), [1 | (2 << 32), 3 | (4 << 32), 5 | (6 << 32), 7]);
}

#[test]
fn decode_of_encode_is_identity() {
    let x = PrecompileCallABI {
        input_memory_offset: u32::MAX,
        input_memory_length: 0,
        output_memory_offset: 0x1234_5678,
        output_memory_length: u32::MAX,
        memory_page_to_read: 0,
        memory_page_to_write: 9,
        precompile_interpreted_data: u64::MAX,
    };
    assert_eq!(PrecompileCallABI::from_u256(x.to_u256()), x);
    assert_eq!(PrecompileCallABI::from_u256(sample().to_u256()), sample());
}

#[test]
fn encode_of_decode_is_identity() {
    let v = U256::from_limbs([0xdead_beef_0123_4567, u64::MAX, 0x8000_0000_0000_0001, 42]);
    assert_eq!(PrecompileCallABI::from_u256(v).to_u256(), v);
    let d = PrecompileCallABI::from_u256(v);
    assert_eq!(d.input_memory_offset, 0x0123_4567);
    assert_eq!(d.input_memory_length, 0xdead_beef);
    assert_eq!(d.memory_page_to_read, 1);
    assert_eq!(d.memory_page_to_write, 0x8000_0000);
    assert_eq!(d.precompile_interpreted_data, 42);
}

fn address_ending(hi: u8, lo: u8) -> Address {
    let mut b = [0u8; 20];
    b[18] = hi;
    b[19] = lo;
    Address(b)
}

#[test]
fn precompile_routing() {
    assert_eq!(precompile_for_address(&address_ending(0x80, 0x10)), Some(PrecompileKind::Keccak256));
    assert_eq!(precompile_for_address(&address_ending(0x00, 0x02)), Some(PrecompileKind::Sha256));
    assert_eq!(precompile_for_address(&address_ending(0x00, 0x01)), Some(PrecompileKind::ECRecover));
    assert_eq!(precompile_for_address(&address_ending(0x10, 0x80)), None);
    assert_eq!(precompile_for_address(&address_ending(0x00, 0x03)), None);
}

fn query_to(address: Address, key: U256) -> LogQuery {
    LogQuery {
        timestamp: Timestamp(5),
        tx_number_in_block: 0,
        aux_byte: 3,
        shard_id: 0,
        address,
        key,
        read_value: U256::zero(),
        written_value: U256::zero(),
        rw_flag: false,
        rollback: false,
        is_service: false,
    }
}

#[test]
fn default_processor_witness_only_when_enabled() {
    let q = query_to(address_ending(0x00, 0x02), U256::zero());
    assert_eq!(DefaultPrecompilesProcessor::<true>::new().witness_for(&q), Some(PrecompileKind::Sha256));
    assert_eq!(DefaultPrecompilesProcessor::<false>::new().witness_for(&q), None);
    let unknown = query_to(address_ending(0x12, 0x34), U256::zero());
    assert_eq!(DefaultPrecompilesProcessor::<true>::new().witness_for(&unknown), None);
}

#[test]
fn abi_in_log_reads_key() {
    let q = query_to(Address::zero(), sample().to_u256());
    assert_eq!(precompile_abi_in_log(q), sample());
}

#[test]
fn execute_precompile_results() {
    let mut memory = RecordingMemory::new();
    let mut on = DefaultPrecompilesProcessor::<true>::new();
    let mut off = DefaultPrecompilesProcessor::<false>::new();
    let keccak = query_to(address_ending(0x80, 0x10), U256::zero());
    let ecrecover = query_to(address_ending(0x00, 0x01), U256::zero());
    let unknown = query_to(address_ending(0xff, 0xff), U256::zero());
    assert_eq!(on.execute_precompile(1, keccak, &mut memory), Some(PrecompileKind::Keccak256));
    assert_eq!(on.execute_precompile(1, ecrecover, &mut memory), Some(PrecompileKind::ECRecover));
    assert_eq!(on.execute_precompile(1, unknown, &mut memory), None);
    assert_eq!(off.execute_precompile(1, keccak, &mut memory), None);
    assert_eq!(off.execute_precompile(1, unknown, &mut memory), None);
    assert!(memory.writes.is_empty());
}
