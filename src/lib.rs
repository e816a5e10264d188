//! Log and interaction opcode dispatcher of a zero-knowledge virtual machine:
//! gas and pubdata accounting, query records, and the precompile call codec.

pub mod word;
pub mod abi;
pub mod queries;
pub mod params;
pub mod cost;
pub mod vm;
pub mod log;
pub mod precompiles;
pub mod recording;
pub mod keys;
pub mod chain;
pub mod account;
pub mod hex;
