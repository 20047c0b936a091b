//! The contract's command handlers and queries: authorization, the payout
//! engine, the lifecycle guard, and the balance ledger accessors.

use vstd::prelude::*;

use crate::codec::{
    be_val, dec_chars, dec_chars_int, i64_to_dec_string, lemma_be_val_bound, lemma_pow256_16,
    parse_dec_u128, parses_as_u128, dec_val, u128_from_be_bytes, u128_to_be_bytes,
    u128_to_dec_string,
};
use crate::errors::ContractError;
use crate::kv::{clone_bytes, KvStore};
use crate::msg::{BalanceResponse, HandleMsg, InitMsg, QueryAnswer, QueryMsg, StateResponse};
use crate::state::{load_config, save_config, spec_expired, State, StateV, Store};
use crate::types::{
    addr_eq, coin, log, CanonicalAddr, Coin, CosmosMsg, Env, HumanAddr, LogAttribute, Response,
    response_is_empty,
};

verus! {

/// The token's introspection record, written once at initialization and
/// never read by the contract logic.
pub struct Constants {
    pub name: String,
    pub symbol: String,
    pub decimals: u8,
}

// ---------------------------------------------------------------------------
// Payout engine.
// ---------------------------------------------------------------------------

/// Truncating integer division (rounds toward zero), for a positive
/// divisor: the division the handlers compute on machine integers.
pub open spec fn div_t(a: int, b: int) -> int {
    if a >= 0 {
        a / b
    } else {
        -((-a) / b)
    }
}

/// The payout a new ecostate report earns, before clamping: nothing when
/// the metric did not improve; the full reported value when it exceeds the
/// one-percent band; half of it otherwise.
pub open spec fn spec_compute_payout(old_eco: int, new_eco: int) -> int {
    if new_eco <= old_eco {
        0
    } else if div_t(new_eco, 100) > 1 {
        new_eco
    } else {
        div_t(new_eco, 2)
    }
}

/// A payout clamped against the remaining supply.
pub open spec fn spec_actual(payout: int, total: int) -> int {
    if payout > total {
        total
    } else {
        payout
    }
}

/// Addition saturating at the largest 128-bit value.
pub open spec fn spec_sat_add(a: nat, b: int) -> nat {
    if a + b > u128::MAX {
        u128::MAX as nat
    } else {
        (a + b) as nat
    }
}

/// Computes the payout a new ecostate report earns, before clamping.
pub fn compute_payout(old_ecostate: i64, new_ecostate: i64) -> (payout: i64)
    ensures
        payout == spec_compute_payout(old_ecostate as int, new_ecostate as int),
{
    if new_ecostate <= old_ecostate {
        0
    } else if new_ecostate / 100 > 1 {
        new_ecostate
    } else {
        new_ecostate / 2
    }
}

/// Clamps a payout against the remaining supply and applies it to the
/// configuration record: the supply drops by what is actually paid, and the
/// contract moves to its terminal stage when the supply is exhausted by
/// clamping.
pub fn apply_payout(state: State, payout: i64) -> (r: (State, i64))
    requires
        state.wf(),
        payout >= 0,
    ensures
        r.1 == spec_actual(payout as int, state@.total_tokens as int),
        r.0@ == (StateV {
            total_tokens: if payout > state@.total_tokens {
                0i64
            } else {
                (state@.total_tokens - payout) as i64
            },
            status: if payout > state@.total_tokens {
                "DONE"@
            } else {
                state@.status
            },
            ..state@
        }),
        r.0.wf(),
{
    let mut s = state;
    if payout > s.total_tokens {
        let actual = s.total_tokens;
        s.total_tokens = 0;
        s.status = String::from_str("DONE");
        (s, actual)
    } else {
        s.total_tokens = s.total_tokens - payout;
        (s, payout)
    }
}

// ---------------------------------------------------------------------------
// Balance ledger accessors.
// ---------------------------------------------------------------------------

/// Reads a 16-byte value as a 128-bit balance.  Anything that is not
/// exactly 16 bytes is a corrupt-data condition.
pub fn bytes_to_u128(data: &[u8]) -> (r: Result<u128, ContractError>)
    ensures
        r == if data@.len() == 16 {
            Ok::<u128, ContractError>(be_val(data@) as u128)
        } else {
            Err::<u128, ContractError>(ContractError::CorruptedData)
        },
{
    if data.len() == 16 {
        proof {
            lemma_be_val_bound(data@);
            lemma_pow256_16();
        }
        Ok(u128_from_be_bytes(data))
    } else {
        Err(ContractError::CorruptedData)
    }
}

/// Reads a stored 16-byte value as a 128-bit balance.  A missing key means
/// zero; a value of any other length is a corrupt-data condition.
pub fn read_u128(store: &KvStore, key: &Vec<u8>) -> (r: Result<u128, ContractError>)
    ensures
        r == match store.contents(key@) {
            None => Ok::<u128, ContractError>(0),
            Some(v) => if v.len() == 16 {
                Ok::<u128, ContractError>(be_val(v) as u128)
            } else {
                Err::<u128, ContractError>(ContractError::CorruptedData)
            },
        },
{
    match store.get(key) {
        Some(data) => bytes_to_u128(data.as_slice()),
        None => Ok(0),
    }
}

/// Reads an account's ledger balance.
pub fn read_balance(store: &Store, owner: &CanonicalAddr) -> (r: Result<u128, ContractError>)
    ensures
        r == match store.balances.contents(owner@) {
            None => Ok::<u128, ContractError>(0),
            Some(v) => if v.len() == 16 {
                Ok::<u128, ContractError>(be_val(v) as u128)
            } else {
                Err::<u128, ContractError>(ContractError::CorruptedData)
            },
        },
        store.wf() ==> r == Ok::<u128, ContractError>(store.spec_balance(owner@) as u128),
{
    read_u128(&store.balances, &owner.0)
}

/// Parses a decimal string as a 128-bit value.  The source must be a
/// nonnegative decimal integer that fits.
pub fn parse_u128(source: &str) -> (r: Result<u128, ContractError>)
    ensures
        r == if parses_as_u128(source@) {
            Ok::<u128, ContractError>(dec_val(source@) as u128)
        } else {
            Err::<u128, ContractError>(ContractError::ParseError)
        },
{
    match parse_dec_u128(source) {
        Some(value) => Ok(value),
        None => Err(ContractError::ParseError),
    }
}

// ---------------------------------------------------------------------------
// Initialization.
// ---------------------------------------------------------------------------

/// What initialization leaves behind: the configuration record taken from
/// the message with the signer as owner, zero released tokens and an
/// active status; the introspection constants; untouched balances; and an
/// empty response.
pub open spec fn init_post(
    pre: Store,
    post: Store,
    env: Env,
    msg: InitMsg,
    r: Result<Response, ContractError>,
) -> bool {
    &&& r matches Ok(resp) && response_is_empty(resp)
    &&& post.config matches Some(s) && s@ == (StateV {
        region: msg.region@,
        beneficiary: msg.beneficiary@,
        owner: env.message.signer@,
        oracle: msg.oracle@,
        ecostate: msg.ecostate,
        total_tokens: msg.total_tokens,
        released_tokens: 0i64,
        payout_start_height: msg.payout_start_height,
        payout_end_height: msg.payout_end_height,
        is_locked: msg.is_locked,
        status: "ACTIVE"@,
    })
    &&& post.constants matches Some(c) && c.name@ == "eco"@ && c.symbol@ == "ECO"@ && c.decimals
        == 0
    &&& post.balances == pre.balances
}

/// Creates the contract instance: the configuration record and the
/// introspection constants.  The host calls this exactly once, before any
/// other command.
pub fn init(store: &mut Store, env: Env, msg: InitMsg) -> (r: Result<Response, ContractError>)
    requires
        old(store).wf(),
        old(store).config is None,
        msg.total_tokens >= 0,
    ensures
        final(store).wf(),
        init_post(*old(store), *final(store), env, msg, r),
{
    let state = State {
        region: msg.region,
        beneficiary: msg.beneficiary,
        oracle: msg.oracle,
        ecostate: msg.ecostate,
        total_tokens: msg.total_tokens,
        released_tokens: 0,
        payout_start_height: msg.payout_start_height,
        payout_end_height: msg.payout_end_height,
        is_locked: msg.is_locked,
        owner: env.message.signer,
        status: String::from_str("ACTIVE"),
    };
    save_config(store, state);
    store.constants = Some(
        Constants {
            name: String::from_str("eco"),
            symbol: String::from_str("ECO"),
            decimals: 0,
        },
    );
    Ok(Response::default())
}

// ---------------------------------------------------------------------------
// Ecostate updates.
// ---------------------------------------------------------------------------

/// The guard an ecostate update must pass, checked in this order: the
/// caller must be the oracle; the contract must not be locked, expired, or
/// done.
pub open spec fn update_guard(s: StateV, env: Env) -> Option<ContractError> {
    if env.message.signer@ != s.oracle {
        Some(ContractError::Unauthorized)
    } else if s.is_locked == Some(1i64) {
        Some(ContractError::ContractLocked)
    } else if spec_expired(s, env.block.height) {
        Some(ContractError::ContractExpired)
    } else if s.status == "DONE"@ {
        Some(ContractError::ContractDone)
    } else {
        None
    }
}

/// The configuration record after a successful ecostate update: the payout
/// is computed from the old and new metric, clamped against the remaining
/// supply; the supply drops by what is actually paid and reaches zero — with
/// the terminal status — when the payout had to be clamped; the metric is
/// recorded unconditionally.
pub open spec fn updated_state(s: StateV, new_eco: i64) -> StateV {
    let payout = spec_compute_payout(s.ecostate as int, new_eco as int);
    StateV {
        ecostate: new_eco,
        total_tokens: if payout > s.total_tokens {
            0i64
        } else {
            (s.total_tokens - payout) as i64
        },
        status: if payout > s.total_tokens {
            "DONE"@
        } else {
            s.status
        },
        ..s
    }
}

/// The payout an update of the metric to `new_eco` would book never
/// leaves the 128-bit unsigned domain of the ledger: on a call the guard
/// lets through, the computed payout is nonnegative.  (A negative payout is
/// possible only for a metric that improves while staying negative.)  A
/// call the guard rejects books nothing, so nothing is asked of it.
pub open spec fn update_fits(pre: Store, env: Env, new_eco: i64) -> bool {
    match pre.config {
        Some(st) => update_guard(st@, env) is None ==> spec_compute_payout(
            st@.ecostate as int,
            new_eco as int,
        ) >= 0,
        None => true,
    }
}

/// What an ecostate update does: each guard failure reports its error and
/// leaves the store untouched; otherwise the record becomes
/// `updated_state`, the beneficiary's balance grows by the clamped payout
/// (saturating in the 128-bit domain), and the response carries one
/// transfer instruction from the oracle to the beneficiary together with
/// the audit log.
pub open spec fn update_post(
    pre: Store,
    post: Store,
    env: Env,
    new_eco: i64,
    r: Result<Response, ContractError>,
) -> bool {
    match pre.config {
        None => r == Err::<Response, ContractError>(ContractError::SerializationError) && post
            == pre,
        Some(st) => match update_guard(st@, env) {
            Some(e) => r == Err::<Response, ContractError>(e) && post == pre,
            None => {
                let s = st@;
                let payout = spec_compute_payout(s.ecostate as int, new_eco as int);
                let actual = spec_actual(payout, s.total_tokens as int);
                let new_bal = spec_sat_add(pre.spec_balance(s.beneficiary), actual);
                &&& r matches Ok(resp)
                &&& post.config matches Some(ns) && ns@ == updated_state(s, new_eco)
                &&& post.constants == pre.constants
                &&& post.balances.contents(s.beneficiary) matches Some(v) && v.len() == 16
                    && be_val(v) == new_bal
                &&& forall|k: Seq<u8>|
                    k != s.beneficiary ==> #[trigger] post.balances.contents(k)
                        == pre.balances.contents(k)
                &&& resp.messages@.len() == 1
                &&& resp.messages@[0] matches CosmosMsg::Send { from_address, to_address, amount }
                    && from_address@ == s.oracle && to_address@ == s.beneficiary && amount@.len()
                    == 1 && amount@[0].denom@ == "ecopay"@ && amount@[0].amount@ == dec_chars_int(
                    actual,
                )
                &&& resp.log@.len() == 2
                &&& resp.log@[0].key@ == "height"@ && resp.log@[0].value@ == dec_chars_int(
                    env.block.height as int,
                )
                &&& resp.log@[1].key@ == "ecostate"@ && resp.log@[1].value@ == dec_chars_int(
                    new_eco as int,
                )
                &&& resp.data is None
            },
        },
    }
}

/// Books a new ecostate report: guards the caller and the lifecycle, runs
/// the payout engine, credits the beneficiary, and records the metric.
pub fn try_update_ecostate(store: &mut Store, env: Env, ecostate: i64) -> (r: Result<
    Response,
    ContractError,
>)
    requires
        old(store).wf(),
        update_fits(*old(store), env, ecostate),
    ensures
        final(store).wf(),
        update_post(*old(store), *final(store), env, ecostate, r),
{
    let state = match load_config(store) {
        Ok(s) => s,
        Err(e) => {
            return Err(e);
        },
    };
    if !addr_eq(&env.message.signer, &state.oracle) {
        return Err(ContractError::Unauthorized);
    }
    let locked = match state.is_locked {
        Some(l) => l == 1,
        None => false,
    };
    if locked {
        return Err(ContractError::ContractLocked);
    }
    if state.is_expired(&env) {
        return Err(ContractError::ContractExpired);
    }
    let done_label = String::from_str("DONE");
    if state.status == done_label {
        return Err(ContractError::ContractDone);
    }

    let payout = compute_payout(state.ecostate, ecostate);
    let beneficiary_key = clone_bytes(&state.beneficiary.0);
    let account_balance: u128 = match store.balances.get(&beneficiary_key) {
        Some(data) => {
            proof {
                lemma_be_val_bound(data@);
                lemma_pow256_16();
            }
            u128_from_be_bytes(data.as_slice())
        },
        None => 0,
    };

    let (mut new_state, actual) = apply_payout(state, payout);
    let new_balance = account_balance.saturating_add(actual as u128);
    store.balances.set(&beneficiary_key, u128_to_be_bytes(new_balance));
    new_state.ecostate = ecostate;
    let from_address = new_state.oracle.duplicate();
    let to_address = new_state.beneficiary.duplicate();
    save_config(store, new_state);

    let amount_digits = i64_to_dec_string(actual);
    let mut amount: Vec<Coin> = Vec::new();
    amount.push(coin(amount_digits.as_str(), "ecopay"));
    let mut messages: Vec<CosmosMsg> = Vec::new();
    messages.push(CosmosMsg::Send { from_address, to_address, amount });
    let height_digits = i64_to_dec_string(env.block.height);
    let eco_digits = i64_to_dec_string(ecostate);
    let mut entries: Vec<LogAttribute> = Vec::new();
    entries.push(log("height", height_digits.as_str()));
    entries.push(log("ecostate", eco_digits.as_str()));
    Ok(Response { messages, log: entries, data: None })
}

// ---------------------------------------------------------------------------
// Administrative commands.  These are gated only by the owner role; the
// lifecycle guard does not apply to them.
// ---------------------------------------------------------------------------

/// A mutating command on a store that holds no configuration record fails
/// its load and writes nothing.
pub open spec fn uninitialized_post(
    pre: Store,
    post: Store,
    r: Result<Response, ContractError>,
) -> bool {
    pre.config is None ==> r == Err::<Response, ContractError>(ContractError::SerializationError)
        && post == pre
}

/// What an owner-gated command does to the configuration record: nothing
/// when the contract is uninitialized or the caller is not the owner
/// (reporting the matching error); otherwise the record becomes `want` and
/// the response is empty.
pub open spec fn admin_post(
    pre: Store,
    post: Store,
    env: Env,
    want: StateV,
    r: Result<Response, ContractError>,
) -> bool {
    match pre.config {
        None => r == Err::<Response, ContractError>(ContractError::SerializationError) && post
            == pre,
        Some(st) => if env.message.signer@ != st@.owner {
            r == Err::<Response, ContractError>(ContractError::Unauthorized) && post == pre
        } else {
            &&& r matches Ok(resp) && response_is_empty(resp)
            &&& post.config matches Some(ns) && ns@ == want
            &&& post.constants == pre.constants
            &&& post.balances == pre.balances
        },
    }
}

/// Locks the contract: ecostate updates are rejected until it is unlocked.
pub fn try_lock(store: &mut Store, env: Env) -> (r: Result<Response, ContractError>)
    requires
        old(store).wf(),
    ensures
        final(store).wf(),
        ({
            let pre = *old(store);
            pre.config matches Some(st) ==> admin_post(
                pre,
                *final(store),
                env,
                StateV { is_locked: Some(1i64), ..st@ },
                r,
            )
        }),
        uninitialized_post(*old(store), *final(store), r),
{
    let mut state = match load_config(store) {
        Ok(s) => s,
        Err(e) => {
            return Err(e);
        },
    };
    if !addr_eq(&env.message.signer, &state.owner) {
        return Err(ContractError::Unauthorized);
    }
    state.is_locked = Some(1);
    save_config(store, state);
    Ok(Response::default())
}

/// Unlocks the contract, restoring normal operation.
pub fn try_unlock(store: &mut Store, env: Env) -> (r: Result<Response, ContractError>)
    requires
        old(store).wf(),
    ensures
        final(store).wf(),
        ({
            let pre = *old(store);
            pre.config matches Some(st) ==> admin_post(
                pre,
                *final(store),
                env,
                StateV { is_locked: Some(0i64), ..st@ },
                r,
            )
        }),
        uninitialized_post(*old(store), *final(store), r),
{
    let mut state = match load_config(store) {
        Ok(s) => s,
        Err(e) => {
            return Err(e);
        },
    };
    if !addr_eq(&env.message.signer, &state.owner) {
        return Err(ContractError::Unauthorized);
    }
    state.is_locked = Some(0);
    save_config(store, state);
    Ok(Response::default())
}

/// Replaces the payout recipient.
pub fn try_change_beneficiary(store: &mut Store, env: Env, beneficiary: CanonicalAddr) -> (r:
    Result<Response, ContractError>)
    requires
        old(store).wf(),
    ensures
        final(store).wf(),
        ({
            let pre = *old(store);
            pre.config matches Some(st) ==> admin_post(
                pre,
                *final(store),
                env,
                StateV { beneficiary: beneficiary@, ..st@ },
                r,
            )
        }),
        uninitialized_post(*old(store), *final(store), r),
{
    let mut state = match load_config(store) {
        Ok(s) => s,
        Err(e) => {
            return Err(e);
        },
    };
    if !addr_eq(&env.message.signer, &state.owner) {
        return Err(ContractError::Unauthorized);
    }
    state.beneficiary = beneficiary;
    save_config(store, state);
    Ok(Response::default())
}

/// Hands the administrative role to another account.
pub fn try_transfer_ownership(store: &mut Store, env: Env, owner: CanonicalAddr) -> (r: Result<
    Response,
    ContractError,
>)
    requires
        old(store).wf(),
    ensures
        final(store).wf(),
        ({
            let pre = *old(store);
            pre.config matches Some(st) ==> admin_post(
                pre,
                *final(store),
                env,
                StateV { owner: owner@, ..st@ },
                r,
            )
        }),
        uninitialized_post(*old(store), *final(store), r),
{
    let mut state = match load_config(store) {
        Ok(s) => s,
        Err(e) => {
            return Err(e);
        },
    };
    if !addr_eq(&env.message.signer, &state.owner) {
        return Err(ContractError::Unauthorized);
    }
    state.owner = owner;
    save_config(store, state);
    Ok(Response::default())
}

// ---------------------------------------------------------------------------
// Dispatch.
// ---------------------------------------------------------------------------

/// Routes a mutating command to its handler.
pub fn handle(store: &mut Store, env: Env, msg: HandleMsg) -> (r: Result<Response, ContractError>)
    requires
        old(store).wf(),
        (msg matches HandleMsg::UpdateEcostate { ecostate } ==> update_fits(
            *old(store),
            env,
            ecostate,
        )),
    ensures
        final(store).wf(),
        ({
            let pre = *old(store);
            let post = *final(store);
            match msg {
                HandleMsg::UpdateEcostate { ecostate } => update_post(pre, post, env, ecostate, r),
                HandleMsg::Lock {} => (pre.config matches Some(st) ==> admin_post(
                    pre,
                    post,
                    env,
                    StateV { is_locked: Some(1i64), ..st@ },
                    r,
                )) && uninitialized_post(pre, post, r),
                HandleMsg::UnLock {} => (pre.config matches Some(st) ==> admin_post(
                    pre,
                    post,
                    env,
                    StateV { is_locked: Some(0i64), ..st@ },
                    r,
                )) && uninitialized_post(pre, post, r),
                HandleMsg::ChangeBeneficiary { beneficiary } => (pre.config matches Some(st)
                    ==> admin_post(pre, post, env, StateV { beneficiary: beneficiary@, ..st@ }, r))
                    && uninitialized_post(pre, post, r),
                HandleMsg::TransferOwnership { owner } => (pre.config matches Some(st)
                    ==> admin_post(pre, post, env, StateV { owner: owner@, ..st@ }, r))
                    && uninitialized_post(pre, post, r),
            }
        }),
{
    match msg {
        HandleMsg::UpdateEcostate { ecostate } => try_update_ecostate(store, env, ecostate),
        HandleMsg::Lock {} => try_lock(store, env),
        HandleMsg::UnLock {} => try_unlock(store, env),
        HandleMsg::ChangeBeneficiary { beneficiary } => try_change_beneficiary(
            store,
            env,
            beneficiary,
        ),
        HandleMsg::TransferOwnership { owner } => try_transfer_ownership(store, env, owner),
    }
}

// ---------------------------------------------------------------------------
// Queries.  Read-only and unauthenticated.
// ---------------------------------------------------------------------------

/// What the state query reports: every field of the configuration record,
/// with the beneficiary written as a fixed placeholder label rather than
/// resolved through the host's identity service.
pub open spec fn state_query_post(pre: Store, r: Result<QueryAnswer, ContractError>) -> bool {
    match pre.config {
        None => r == Err::<QueryAnswer, ContractError>(ContractError::SerializationError),
        Some(st) => {
            let s = st@;
            &&& r matches Ok(QueryAnswer::State(sr))
            &&& sr.region@ == s.region
            &&& sr.ecostate == s.ecostate
            &&& sr.total_tokens == s.total_tokens
            &&& sr.released_tokens == s.released_tokens
            &&& sr.payout_start_height == s.payout_start_height
            &&& sr.payout_end_height == s.payout_end_height
            &&& sr.is_locked == s.is_locked
            &&& sr.status@ == s.status
            &&& sr.beneficiary@ == "beneficiary"@
        },
    }
}

/// What the balance query reports: the account's balance as a decimal
/// string, zero for an account without a ledger entry, and the corrupt-data
/// error for an entry that is not exactly 16 bytes.
pub open spec fn balance_query_post(
    pre: Store,
    address: Seq<u8>,
    r: Result<QueryAnswer, ContractError>,
) -> bool {
    match pre.balances.contents(address) {
        None => r matches Ok(QueryAnswer::Balance(br)) && br.balance@ == dec_chars(0),
        Some(v) => if v.len() == 16 {
            r matches Ok(QueryAnswer::Balance(br)) && br.balance@ == dec_chars(be_val(v))
        } else {
            r == Err::<QueryAnswer, ContractError>(ContractError::CorruptedData)
        },
    }
}

/// Answers a read-only query.
pub fn query(store: &Store, msg: QueryMsg) -> (r: Result<QueryAnswer, ContractError>)
    ensures
        match msg {
            QueryMsg::State {} => state_query_post(*store, r),
            QueryMsg::GetBalance { address } => balance_query_post(*store, address@, r),
        },
{
    match msg {
        QueryMsg::State {} => query_state(store),
        QueryMsg::GetBalance { address } => {
            let balance = match read_balance(store, &address) {
                Ok(b) => b,
                Err(e) => {
                    return Err(e);
                },
            };
            proof {
                match store.balances.contents(address@) {
                    Some(v) => {
                        lemma_be_val_bound(v);
                        lemma_pow256_16();
                    },
                    None => {},
                }
            }
            Ok(QueryAnswer::Balance(BalanceResponse { balance: u128_to_dec_string(balance) }))
        },
    }
}

/// Projects the configuration record into its read-only response shape.
fn query_state(store: &Store) -> (r: Result<QueryAnswer, ContractError>)
    ensures
        state_query_post(*store, r),
{
    let state = match load_config(store) {
        Ok(s) => s,
        Err(e) => {
            return Err(e);
        },
    };
    Ok(
        QueryAnswer::State(
            StateResponse {
                region: state.region,
                total_tokens: state.total_tokens,
                ecostate: state.ecostate,
                payout_start_height: state.payout_start_height,
                payout_end_height: state.payout_end_height,
                is_locked: state.is_locked,
                released_tokens: state.released_tokens,
                status: state.status,
                beneficiary: HumanAddr(String::from_str("beneficiary")),
            },
        ),
    )
}

} // verus!
