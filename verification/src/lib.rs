//! Instruction building, address derivation, transaction assembly and
//! confirmation polling for an account-based ledger, with contracts that
//! state the exact bytes and decisions each step produces.

pub mod address;
pub mod builder;
pub mod confirm;
pub mod cpi;
pub mod derivation;
pub mod error;
pub mod instruction;
pub mod payload;
pub mod plan;
pub mod programs;
pub mod rent;
pub mod signers;
pub mod transaction;
pub mod wire;
