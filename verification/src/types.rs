//! Plain value types shared with the host: account identifiers, the
//! execution context the host passes in, and the response shapes the
//! contract hands back.
//!
//! The host's identity service maps human-readable identities to canonical
//! identifiers and back; that service stays outside this crate, so commands
//! carry canonical identifiers and outbound transfer instructions name their
//! endpoints canonically.  The binding layer converts at the boundary.

use vstd::prelude::*;

use crate::kv::{bytes_eq, clone_bytes};

verus! {

/// A fixed-length canonical account identifier.
#[derive(Debug)]
pub struct CanonicalAddr(pub Vec<u8>);

impl View for CanonicalAddr {
    type V = Seq<u8>;

    open spec fn view(&self) -> Seq<u8> {
        self.0@
    }
}

impl CanonicalAddr {
    /// Copies the identifier.
    pub fn duplicate(&self) -> (r: CanonicalAddr)
        ensures
            r@ == self@,
    {
        CanonicalAddr(clone_bytes(&self.0))
    }
}

/// Whether two canonical identifiers name the same account.
pub fn addr_eq(a: &CanonicalAddr, b: &CanonicalAddr) -> (r: bool)
    ensures
        r == (a@ == b@),
{
    bytes_eq(&a.0, &b.0)
}

/// A human-readable account identity, as the host's identity service
/// writes it.
#[derive(Debug)]
pub struct HumanAddr(pub String);

impl View for HumanAddr {
    type V = Seq<char>;

    open spec fn view(&self) -> Seq<char> {
        self.0@
    }
}

/// The block the current transaction executes in.
#[derive(Debug)]
pub struct BlockInfo {
    pub height: i64,
    pub time: i64,
}

/// The message part of the execution context: who signed the transaction.
#[derive(Debug)]
pub struct MessageInfo {
    pub signer: CanonicalAddr,
}

/// The execution context the host passes along with each command.
#[derive(Debug)]
pub struct Env {
    pub block: BlockInfo,
    pub message: MessageInfo,
}

/// An amount of one token denomination, the amount written in decimal.
#[derive(Debug)]
pub struct Coin {
    pub denom: String,
    pub amount: String,
}

/// Builds a coin from its decimal amount and denomination.
pub fn coin(amount: &str, denom: &str) -> (r: Coin)
    ensures
        r.amount@ == amount@,
        r.denom@ == denom@,
{
    Coin { amount: String::from_str(amount), denom: String::from_str(denom) }
}

/// An outbound instruction for the host to execute after the state commits.
/// Endpoints are canonical identifiers; the binding layer resolves them to
/// their human-readable form.
#[derive(Debug)]
pub enum CosmosMsg {
    Send { from_address: CanonicalAddr, to_address: CanonicalAddr, amount: Vec<Coin> },
}

/// One audit log entry.
#[derive(Debug)]
pub struct LogAttribute {
    pub key: String,
    pub value: String,
}

/// Builds an audit log entry.
pub fn log(key: &str, value: &str) -> (r: LogAttribute)
    ensures
        r.key@ == key@,
        r.value@ == value@,
{
    LogAttribute { key: String::from_str(key), value: String::from_str(value) }
}

/// What a command hands back to the host: outbound instructions, audit log
/// entries, and an opaque data payload.
#[derive(Debug)]
pub struct Response {
    pub messages: Vec<CosmosMsg>,
    pub log: Vec<LogAttribute>,
    pub data: Option<Vec<u8>>,
}

/// Whether a response carries no instruction, no log entry and no payload.
pub open spec fn response_is_empty(r: Response) -> bool {
    r.messages@.len() == 0 && r.log@.len() == 0 && r.data is None
}

impl Default for Response {
    /// The empty response.
    fn default() -> (r: Response)
        ensures
            response_is_empty(r),
    {
        Response { messages: Vec::new(), log: Vec::new(), data: None }
    }
}

} // verus!
