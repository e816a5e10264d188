use vstd::prelude::*;

verus! {

/// Aux byte of storage reads and writes.
pub const STORAGE_AUX_BYTE: u8 = 0;
/// Aux byte of events.
pub const EVENT_AUX_BYTE: u8 = 1;
/// Aux byte of messages to L1.
pub const L1_MESSAGE_AUX_BYTE: u8 = 2;
/// Aux byte of precompile calls.
pub const PRECOMPILE_AUX_BYTE: u8 = 3;

/// Pubdata bytes of a first write to a storage slot on a rollup shard.
pub const INITIAL_STORAGE_WRITE_PUBDATA_BYTES: u32 = 64;
/// Pubdata bytes of one message to L1.
pub const L1_MESSAGE_PUBDATA_BYTES: u32 = 88;

/// Low 16 address bits of the keccak-256 round function.
pub const KECCAK256_ROUND_FUNCTION_PRECOMPILE_ADDRESS: u16 = 0x8010;
/// Low 16 address bits of the sha-256 round function.
pub const SHA256_ROUND_FUNCTION_PRECOMPILE_ADDRESS: u16 = 0x0002;
/// Low 16 address bits of the ecrecover function.
pub const ECRECOVER_INNER_FUNCTION_PRECOMPILE_ADDRESS: u16 = 0x0001;

/// The pubdata prices that the accountant charges by.
#[derive(Clone, Copy, Debug, PartialEq, Eq, Structural, Hash)]
pub struct PubdataParams {
    pub initial_storage_write_pubdata_bytes: u32,
    pub l1_message_pubdata_bytes: u32,
}

impl PubdataParams {
    /// The protocol's prices.
    pub fn protocol() -> (r: PubdataParams)
        ensures
            r.initial_storage_write_pubdata_bytes == INITIAL_STORAGE_WRITE_PUBDATA_BYTES,
            r.l1_message_pubdata_bytes == L1_MESSAGE_PUBDATA_BYTES,
    {
        PubdataParams {
            initial_storage_write_pubdata_bytes: INITIAL_STORAGE_WRITE_PUBDATA_BYTES,
            l1_message_pubdata_bytes: L1_MESSAGE_PUBDATA_BYTES,
        }
    }
}

} // verus!
