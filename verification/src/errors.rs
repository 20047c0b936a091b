//! Error taxonomy for the contract.
//!
//! Every fallible operation in a command handler short-circuits the handler
//! and returns one of these values to the host; no command partially commits
//! state on error.

use vstd::prelude::*;

verus! {

/// The recoverable errors a contract invocation can report.
#[derive(Clone, Copy, PartialEq, Eq, Structural, Debug)]
pub enum ContractError {
    /// The caller does not hold the role the command requires.
    Unauthorized,
    /// The contract is locked; ecostate updates are rejected.
    ContractLocked,
    /// The current block height is past the configured payout end height.
    ContractExpired,
    /// The token supply is exhausted; the contract is in its terminal state.
    ContractDone,
    /// The configuration record could not be loaded or stored.
    SerializationError,
    /// A stored balance entry is not exactly 16 bytes.
    CorruptedData,
    /// A numeric string input is malformed or out of range.
    ParseError,
}

impl ContractError {
    /// A short human-readable label for the error.
    pub fn label(&self) -> (r: &'static str)
        ensures
            r@ == self.spec_label(),
    {
        match self {
            ContractError::Unauthorized => "unauthorized",
            ContractError::ContractLocked => "contract locked",
            ContractError::ContractExpired => "contract expired",
            ContractError::ContractDone => "contract is done",
            ContractError::SerializationError => "serialization error",
            ContractError::CorruptedData => "corrupted data found; 16 bytes expected",
            ContractError::ParseError => "error while parsing string to u128",
        }
    }

    /// The label each variant reports.
    pub open spec fn spec_label(self) -> Seq<char> {
        match self {
            ContractError::Unauthorized => "unauthorized"@,
            ContractError::ContractLocked => "contract locked"@,
            ContractError::ContractExpired => "contract expired"@,
            ContractError::ContractDone => "contract is done"@,
            ContractError::SerializationError => "serialization error"@,
            ContractError::CorruptedData => "corrupted data found; 16 bytes expected"@,
            ContractError::ParseError => "error while parsing string to u128"@,
        }
    }
}

} // verus!
