//! The wire shapes of the contract: what a command or query carries in,
//! and what a query hands back.  The binding layer decodes the host's
//! serialized messages into these values and encodes the answers; account
//! identities arrive already canonicalized.

use vstd::prelude::*;

use crate::types::{CanonicalAddr, HumanAddr};

verus! {

/// The input that creates a contract instance.
#[derive(Debug)]
pub struct InitMsg {
    pub region: String,
    pub beneficiary: CanonicalAddr,
    pub oracle: CanonicalAddr,
    pub ecostate: i64,
    pub total_tokens: i64,
    pub payout_start_height: Option<i64>,
    pub payout_end_height: Option<i64>,
    pub is_locked: Option<i64>,
}

/// A mutating command.
#[derive(Debug)]
pub enum HandleMsg {
    UpdateEcostate { ecostate: i64 },
    Lock {},
    UnLock {},
    ChangeBeneficiary { beneficiary: CanonicalAddr },
    TransferOwnership { owner: CanonicalAddr },
}

/// A read-only query.
#[derive(Debug)]
pub enum QueryMsg {
    State {},
    GetBalance { address: CanonicalAddr },
}

/// One account's balance, written in decimal.
#[derive(Debug)]
pub struct BalanceResponse {
    pub balance: String,
}

/// A read-only projection of the configuration record.
#[derive(Debug)]
pub struct StateResponse {
    pub region: String,
    pub ecostate: i64,
    pub total_tokens: i64,
    pub released_tokens: i64,
    pub payout_start_height: Option<i64>,
    pub payout_end_height: Option<i64>,
    pub is_locked: Option<i64>,
    pub status: String,
    pub beneficiary: HumanAddr,
}

/// What a query hands back; the binding layer serializes it for the host.
#[derive(Debug)]
pub enum QueryAnswer {
    State(StateResponse),
    Balance(BalanceResponse),
}

} // verus!
