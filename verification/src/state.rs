//! The contract's persisted state: the singleton configuration record and
//! the balance ledger, held in a store that the host commits atomically at
//! the end of each invocation.

use vstd::prelude::*;

use crate::codec::{be_val, u128_to_be_bytes};
use crate::contract::Constants;
use crate::errors::ContractError;
use crate::kv::KvStore;
use crate::types::{CanonicalAddr, Env};

verus! {

/// The configuration record, one per contract instance.
pub struct State {
    pub region: String,
    pub beneficiary: CanonicalAddr,
    pub owner: CanonicalAddr,
    pub oracle: CanonicalAddr,
    pub ecostate: i64,
    pub total_tokens: i64,
    pub released_tokens: i64,
    pub payout_start_height: Option<i64>,
    pub payout_end_height: Option<i64>,
    pub is_locked: Option<i64>,
    pub status: String,
}

/// The mathematical content of a configuration record.
pub struct StateV {
    pub region: Seq<char>,
    pub beneficiary: Seq<u8>,
    pub owner: Seq<u8>,
    pub oracle: Seq<u8>,
    pub ecostate: i64,
    pub total_tokens: i64,
    pub released_tokens: i64,
    pub payout_start_height: Option<i64>,
    pub payout_end_height: Option<i64>,
    pub is_locked: Option<i64>,
    pub status: Seq<char>,
}

impl View for State {
    type V = StateV;

    open spec fn view(&self) -> StateV {
        StateV {
            region: self.region@,
            beneficiary: self.beneficiary@,
            owner: self.owner@,
            oracle: self.oracle@,
            ecostate: self.ecostate,
            total_tokens: self.total_tokens,
            released_tokens: self.released_tokens,
            payout_start_height: self.payout_start_height,
            payout_end_height: self.payout_end_height,
            is_locked: self.is_locked,
            status: self.status@,
        }
    }
}

/// Whether a state view is past its payout window at the given block
/// height: expiry applies only when an end height was configured.
pub open spec fn spec_expired(s: StateV, height: i64) -> bool {
    match s.payout_end_height {
        Some(h) => height > h,
        None => false,
    }
}

impl State {
    /// A well-formed record: the remaining supply is never negative, and
    /// the status is one of the two lifecycle stages.
    pub open spec fn wf(&self) -> bool {
        self.total_tokens >= 0 && (self@.status == "ACTIVE"@ || self@.status == "DONE"@)
    }

    /// Whether the payout window has closed at the context's block height.
    pub fn is_expired(&self, env: &Env) -> (r: bool)
        ensures
            r == spec_expired(self@, env.block.height),
    {
        match self.payout_end_height {
            Some(payout_end_height) => env.block.height > payout_end_height,
            None => false,
        }
    }
}

/// Copies a configuration record.
pub fn clone_state(s: &State) -> (r: State)
    ensures
        r@ == s@,
{
    State {
        region: s.region.clone(),
        beneficiary: s.beneficiary.duplicate(),
        owner: s.owner.duplicate(),
        oracle: s.oracle.duplicate(),
        ecostate: s.ecostate,
        total_tokens: s.total_tokens,
        released_tokens: s.released_tokens,
        payout_start_height: s.payout_start_height,
        payout_end_height: s.payout_end_height,
        is_locked: s.is_locked,
        status: s.status.clone(),
    }
}

/// Everything one contract instance persists: the configuration record,
/// the introspection constants, and the balance ledger (account identifier
/// to a 128-bit balance stored as exactly 16 big-endian bytes).
pub struct Store {
    pub config: Option<State>,
    pub constants: Option<Constants>,
    pub balances: KvStore,
}

impl Store {
    /// A well-formed store: the configuration, when present, is
    /// well-formed, and every stored balance entry is exactly 16 bytes.
    pub open spec fn wf(&self) -> bool {
        (self.config matches Some(s) ==> s.wf()) && (forall|k: Seq<u8>|
            #[trigger] self.balances.contents(k) matches Some(v) ==> v.len() == 16)
    }

    /// The balance of an account: the value its ledger entry encodes, or
    /// zero when no entry exists.
    pub open spec fn spec_balance(&self, k: Seq<u8>) -> nat {
        match self.balances.contents(k) {
            Some(v) => be_val(v),
            None => 0,
        }
    }

    /// An empty store: no configuration, no constants, no balances.
    pub fn new() -> (r: Store)
        ensures
            r.config is None,
            r.constants is None,
            forall|k: Seq<u8>| r.balances.contents(k) is None,
            r.wf(),
    {
        Store { config: None, constants: None, balances: KvStore::new() }
    }
}

/// Reads the configuration record.  Fails when the contract was never
/// initialized.
pub fn load_config(store: &Store) -> (r: Result<State, ContractError>)
    ensures
        match store.config {
            Some(s) => r matches Ok(c) && c@ == s@,
            None => r == Err::<State, ContractError>(ContractError::SerializationError),
        },
{
    match &store.config {
        Some(s) => Ok(clone_state(s)),
        None => Err(ContractError::SerializationError),
    }
}

/// Writes the configuration record, leaving constants and balances as they
/// are.
pub fn save_config(store: &mut Store, state: State)
    ensures
        final(store).config matches Some(s) && s@ == state@,
        final(store).constants == old(store).constants,
        final(store).balances == old(store).balances,
{
    store.config = Some(state);
}

/// Writes an account's ledger balance as exactly 16 big-endian bytes,
/// leaving every other account and the rest of the store untouched.
pub fn set_balance(store: &mut Store, account: &CanonicalAddr, amount: u128)
    ensures
        final(store).balances.contents(account@) matches Some(v) && v.len() == 16 && be_val(v)
            == amount,
        forall|k: Seq<u8>|
            k != account@ ==> #[trigger] final(store).balances.contents(k) == old(
                store,
            ).balances.contents(k),
        final(store).config == old(store).config,
        final(store).constants == old(store).constants,
        old(store).wf() ==> final(store).wf(),
{
    let encoded = u128_to_be_bytes(amount);
    store.balances.set(&account.0, encoded);
}

} // verus!
