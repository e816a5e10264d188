use vstd::prelude::*;
use crate::params::PubdataParams;

verus! {

/// The variants of the log opcode.
#[derive(Clone, Copy, Debug, PartialEq, Eq, Structural, Hash)]
pub enum LogOpcode {
    StorageRead,
    StorageWrite,
    ToL1Message,
    Event,
    PrecompileCall,
}

/// A broken invariant of the accountant; the VM cannot go on after one.
#[derive(Clone, Copy, Debug, PartialEq, Eq, Structural, Hash)]
pub enum LogFatalError {
    /// The storage oracle refunded more pubdata than a write costs.
    RefundExceedsCost { pubdata_refund: u32 },
    /// The storage oracle refunded pubdata on a shard that posts none.
    RefundOnNonRollupShard { pubdata_refund: u32 },
}

/// The pubdata bytes that a variant pays for, given the oracle's refund for a
/// storage write.
pub open spec fn spec_net_pubdata(
    op: LogOpcode,
    is_rollup: bool,
    pubdata_refund: u32,
    params: PubdataParams,
) -> Result<u32, LogFatalError> {
    match op {
        LogOpcode::StorageWrite => if is_rollup {
            if pubdata_refund <= params.initial_storage_write_pubdata_bytes {
                Ok((params.initial_storage_write_pubdata_bytes - pubdata_refund) as u32)
            } else {
                Err(LogFatalError::RefundExceedsCost { pubdata_refund })
            }
        } else {
            if pubdata_refund == 0 {
                Ok(0u32)
            } else {
                Err(LogFatalError::RefundOnNonRollupShard { pubdata_refund })
            }
        },
        LogOpcode::ToL1Message => Ok(params.l1_message_pubdata_bytes),
        _ => Ok(0u32),
    }
}

/// The ergs that a variant pays for pubdata.
pub open spec fn spec_ergs_on_pubdata(
    op: LogOpcode,
    is_rollup: bool,
    ergs_per_pubdata_byte: u32,
    pubdata_refund: u32,
    params: PubdataParams,
) -> Result<int, LogFatalError> {
    match spec_net_pubdata(op, is_rollup, pubdata_refund, params) {
        Ok(bytes) => Ok(ergs_per_pubdata_byte * bytes),
        Err(e) => Err(e),
    }
}

/// Ergs charged for pubdata by one log opcode: the storage oracle's refund
/// counts only for storage writes.
pub fn ergs_on_pubdata(
    op: LogOpcode,
    is_rollup: bool,
    ergs_per_pubdata_byte: u32,
    pubdata_refund: u32,
    params: PubdataParams,
) -> (r: Result<u32, LogFatalError>)
    requires
        op == LogOpcode::StorageWrite && is_rollup
            ==> ergs_per_pubdata_byte * params.initial_storage_write_pubdata_bytes <= u32::MAX,
        op == LogOpcode::ToL1Message ==> ergs_per_pubdata_byte * params.l1_message_pubdata_bytes <= u32::MAX,
    ensures
        match r {
            Ok(c) => spec_ergs_on_pubdata(op, is_rollup, ergs_per_pubdata_byte, pubdata_refund, params) == Ok::<int, LogFatalError>(c as int),
            Err(e) => spec_ergs_on_pubdata(op, is_rollup, ergs_per_pubdata_byte, pubdata_refund, params) == Err::<int, LogFatalError>(e),
        },
        r is Ok ==> match op {
            LogOpcode::StorageWrite => if is_rollup {
                r->Ok_0 <= ergs_per_pubdata_byte * params.initial_storage_write_pubdata_bytes
            } else {
                r->Ok_0 == 0
            },
            LogOpcode::ToL1Message => r->Ok_0 == ergs_per_pubdata_byte * params.l1_message_pubdata_bytes,
            _ => r->Ok_0 == 0,
        },
{
    let net_pubdata: u32 = match op {
        LogOpcode::StorageWrite => {
            if is_rollup {
                if pubdata_refund > params.initial_storage_write_pubdata_bytes {
                    return Err(LogFatalError::RefundExceedsCost { pubdata_refund });
                }
                params.initial_storage_write_pubdata_bytes - pubdata_refund
            } else {
                if pubdata_refund != 0 {
                    return Err(LogFatalError::RefundOnNonRollupShard { pubdata_refund });
                }
                0
            }
        },
        LogOpcode::ToL1Message => params.l1_message_pubdata_bytes,
        _ => 0,
    };
    proof {
        assert(ergs_per_pubdata_byte * net_pubdata <= ergs_per_pubdata_byte * params.initial_storage_write_pubdata_bytes
            || !(op == LogOpcode::StorageWrite && is_rollup)) by (nonlinear_arith)
            requires
                op == LogOpcode::StorageWrite && is_rollup ==> net_pubdata <= params.initial_storage_write_pubdata_bytes;
        assert(ergs_per_pubdata_byte * 0u32 == 0) by (nonlinear_arith);
    }
    Ok(ergs_per_pubdata_byte * net_pubdata)
}

/// What one charge leaves: the ergs remaining, what the pubdata counter grows
/// by, and whether the ergs fell short.
#[derive(Clone, Copy, Debug, PartialEq, Eq, Structural, Hash)]
pub struct Charge {
    pub ergs_remaining: u32,
    pub spent_pubdata_delta: u32,
    pub not_enough_power: bool,
}

/// Charging `extra_cost + ergs_on_pubdata` against `ergs_available`. Short of
/// ergs, all of them go, and the pubdata counter grows only by what they could pay.
pub open spec fn spec_charge(ergs_available: u32, extra_cost: u32, ergs_on_pubdata: u32) -> Charge {
    if extra_cost + ergs_on_pubdata <= ergs_available {
        Charge {
            ergs_remaining: (ergs_available - extra_cost - ergs_on_pubdata) as u32,
            spent_pubdata_delta: ergs_on_pubdata,
            not_enough_power: false,
        }
    } else {
        Charge {
            ergs_remaining: 0,
            spent_pubdata_delta: if ergs_available <= ergs_on_pubdata { ergs_available } else { ergs_on_pubdata },
            not_enough_power: true,
        }
    }
}

/// Charges a cycle's cost against the ergs available.
pub fn charge(ergs_available: u32, extra_cost: u32, ergs_on_pubdata: u32) -> (r: Charge)
    requires
        extra_cost + ergs_on_pubdata <= u32::MAX,
    ensures
        r == spec_charge(ergs_available, extra_cost, ergs_on_pubdata),
        r.ergs_remaining <= ergs_available,
        r.spent_pubdata_delta <= ergs_on_pubdata,
{
    let total_cost = extra_cost + ergs_on_pubdata;
    if total_cost <= ergs_available {
        Charge {
            ergs_remaining: ergs_available - total_cost,
            spent_pubdata_delta: ergs_on_pubdata,
            not_enough_power: false,
        }
    } else {
        let spent_pubdata_delta = if ergs_available <= ergs_on_pubdata { ergs_available } else { ergs_on_pubdata };
        Charge { ergs_remaining: 0, spent_pubdata_delta, not_enough_power: true }
    }
}

/// On a shard other than the rollup's, a storage write costs no pubdata ergs
/// whatever the refund oracle answers, whenever it answers acceptably.
pub proof fn lemma_validium_write_cost_ignores_refund(
    ergs_per_pubdata_byte: u32,
    refund_a: u32,
    refund_b: u32,
    params: PubdataParams,
)
    ensures
        spec_ergs_on_pubdata(LogOpcode::StorageWrite, false, ergs_per_pubdata_byte, refund_a, params) is Ok
            && spec_ergs_on_pubdata(LogOpcode::StorageWrite, false, ergs_per_pubdata_byte, refund_b, params) is Ok
            ==> spec_ergs_on_pubdata(LogOpcode::StorageWrite, false, ergs_per_pubdata_byte, refund_a, params)
                == spec_ergs_on_pubdata(LogOpcode::StorageWrite, false, ergs_per_pubdata_byte, refund_b, params),
        spec_ergs_on_pubdata(LogOpcode::StorageWrite, false, ergs_per_pubdata_byte, refund_a, params) is Ok
            ==> spec_ergs_on_pubdata(LogOpcode::StorageWrite, false, ergs_per_pubdata_byte, refund_a, params) == Ok::<int, LogFatalError>(0),
{
    assert(ergs_per_pubdata_byte * 0u32 == 0) by (nonlinear_arith);
}

/// A storage read costs nothing, so it never runs short of ergs.
pub proof fn lemma_storage_read_never_short(
    ergs_available: u32,
    is_rollup: bool,
    ergs_per_pubdata_byte: u32,
    pubdata_refund: u32,
    params: PubdataParams,
)
    ensures
        spec_ergs_on_pubdata(LogOpcode::StorageRead, is_rollup, ergs_per_pubdata_byte, pubdata_refund, params) == Ok::<int, LogFatalError>(0),
        !spec_charge(ergs_available, 0, 0).not_enough_power,
{
    assert(ergs_per_pubdata_byte * 0u32 == 0) by (nonlinear_arith);
}

} // verus!
