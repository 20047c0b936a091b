//! A deterministic ledger-state contract: a token treasury released to a
//! single beneficiary according to an externally reported "ecostate" metric.
//!
//! The host execution environment delivers one command per invocation
//! together with the caller identity and block information; the contract
//! produces a new persisted state, at most one outbound transfer
//! instruction, and audit log entries.

pub mod codec;
pub mod contract;
pub mod errors;
pub mod kv;
pub mod laws;
pub mod msg;
pub mod state;
pub mod types;

pub use errors::ContractError;
