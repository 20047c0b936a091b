//! The laws the contract obeys, each proved from the handlers' contracts:
//! how the payout tiers combine with the supply clamp, what each guard
//! rejects and that a rejection leaves the store untouched, and the
//! balance ledger's round trip.

use vstd::prelude::*;

use crate::codec::be_val;
use crate::contract::{
    admin_post, div_t, init_post, spec_actual, spec_compute_payout, update_guard, update_post,
    updated_state,
};
use crate::errors::ContractError;
use crate::msg::InitMsg;
use crate::state::{spec_expired, StateV, Store};
use crate::types::{Env, Response};

verus! {

/// Initialization always produces an active status, zero released tokens,
/// and — on a store that held no entry for the beneficiary — a beneficiary
/// balance of zero.
pub proof fn law_init_fresh(pre: Store, post: Store, env: Env, msg: InitMsg, r: Result<
    Response,
    ContractError,
>)
    requires
        init_post(pre, post, env, msg, r),
        pre.balances.contents(msg.beneficiary@) is None,
    ensures
        post.config matches Some(s) && s@.status == "ACTIVE"@ && s@.released_tokens == 0,
        post.spec_balance(msg.beneficiary@) == 0,
{
}

/// An update that does not improve the metric pays nothing: the supply and
/// the beneficiary's balance are unchanged, and only the metric is
/// recorded.
pub proof fn law_no_regression_payout(pre: Store, post: Store, env: Env, new_eco: i64, r: Result<
    Response,
    ContractError,
>)
    requires
        pre.wf(),
        update_post(pre, post, env, new_eco, r),
        pre.config matches Some(st) && update_guard(st@, env) is None && new_eco <= st@.ecostate,
    ensures
        post.config matches Some(ns) && ns@.total_tokens == pre.config->0@.total_tokens
            && ns@.ecostate == new_eco,
        post.spec_balance(pre.config->0@.beneficiary) == pre.spec_balance(
            pre.config->0@.beneficiary,
        ),
{
    let s = pre.config->0@;
    assert(spec_compute_payout(s.ecostate as int, new_eco as int) == 0);
    match pre.balances.contents(s.beneficiary) {
        Some(v) => {
            crate::codec::lemma_be_val_bound(v);
            crate::codec::lemma_pow256_16();
        },
        None => {},
    }
}

/// Above the one-percent band the reported value itself is the payout
/// before clamping, and what the clamp applies is the smaller of that
/// value and the remaining supply.
pub proof fn law_full_tier_payout(old_eco: int, new_eco: int, total: int)
    requires
        new_eco > old_eco,
        div_t(new_eco, 100) > 1,
    ensures
        spec_compute_payout(old_eco, new_eco) == new_eco,
        spec_actual(spec_compute_payout(old_eco, new_eco), total) == if new_eco <= total {
            new_eco
        } else {
            total
        },
{
}

/// Inside the one-percent band the payout before clamping is half the
/// reported value, rounded toward zero.
pub proof fn law_half_tier_payout(old_eco: int, new_eco: int)
    requires
        new_eco > old_eco,
        div_t(new_eco, 100) <= 1,
    ensures
        spec_compute_payout(old_eco, new_eco) == div_t(new_eco, 2),
{
}

/// A payout that exceeds the remaining supply is clamped to it: the
/// supply reaches zero and the contract enters its terminal stage.
pub proof fn law_supply_exhaustion(s: StateV, new_eco: i64)
    requires
        spec_compute_payout(s.ecostate as int, new_eco as int) > s.total_tokens,
    ensures
        updated_state(s, new_eco).status == "DONE"@,
        updated_state(s, new_eco).total_tokens == 0,
        spec_actual(
            spec_compute_payout(s.ecostate as int, new_eco as int),
            s.total_tokens as int,
        ) == s.total_tokens,
{
}

/// Once the contract is done, a further update from the oracle — with the
/// contract neither locked nor expired, where the earlier guards would
/// fire instead — is rejected with the terminal-stage error and changes
/// nothing.
pub proof fn law_done_rejects_update(pre: Store, post: Store, env: Env, new_eco: i64, r: Result<
    Response,
    ContractError,
>)
    requires
        update_post(pre, post, env, new_eco, r),
        pre.config matches Some(st) && st@.status == "DONE"@,
        env.message.signer@ == pre.config->0@.oracle,
        pre.config->0@.is_locked != Some(1i64),
        !spec_expired(pre.config->0@, env.block.height),
    ensures
        r == Err::<Response, ContractError>(ContractError::ContractDone),
        post == pre,
{
}

/// An update whose caller is not the configured oracle fails as
/// unauthorized and leaves the state unchanged.
pub proof fn law_update_needs_oracle(pre: Store, post: Store, env: Env, new_eco: i64, r: Result<
    Response,
    ContractError,
>)
    requires
        update_post(pre, post, env, new_eco, r),
        pre.config matches Some(st) && env.message.signer@ != st@.oracle,
    ensures
        r == Err::<Response, ContractError>(ContractError::Unauthorized),
        post == pre,
{
}

/// An administrative command whose caller is not the configured owner
/// fails as unauthorized and leaves the state unchanged, whichever record
/// it would have written.
pub proof fn law_admin_needs_owner(
    pre: Store,
    post: Store,
    env: Env,
    want: StateV,
    r: Result<Response, ContractError>,
)
    requires
        admin_post(pre, post, env, want, r),
        pre.config matches Some(st) && env.message.signer@ != st@.owner,
    ensures
        r == Err::<Response, ContractError>(ContractError::Unauthorized),
        post == pre,
{
}

/// After the owner locks the contract, an update from the oracle is
/// rejected as locked and changes nothing.  (A caller other than the
/// oracle is turned away as unauthorized before the lock is even
/// consulted.)
pub proof fn law_lock_blocks_update(
    pre: Store,
    mid: Store,
    env1: Env,
    r1: Result<Response, ContractError>,
    post: Store,
    env2: Env,
    new_eco: i64,
    r2: Result<Response, ContractError>,
)
    requires
        pre.config matches Some(st),
        env1.message.signer@ == pre.config->0@.owner,
        admin_post(pre, mid, env1, StateV { is_locked: Some(1i64), ..pre.config->0@ }, r1),
        env2.message.signer@ == pre.config->0@.oracle,
        update_post(mid, post, env2, new_eco, r2),
    ensures
        r2 == Err::<Response, ContractError>(ContractError::ContractLocked),
        post == mid,
{
}

/// After the owner unlocks the contract, an update from the oracle — with
/// the contract neither expired nor done — goes through again.
pub proof fn law_unlock_restores_updates(
    pre: Store,
    mid: Store,
    env1: Env,
    r1: Result<Response, ContractError>,
    post: Store,
    env2: Env,
    new_eco: i64,
    r2: Result<Response, ContractError>,
)
    requires
        pre.config matches Some(st),
        env1.message.signer@ == pre.config->0@.owner,
        admin_post(pre, mid, env1, StateV { is_locked: Some(0i64), ..pre.config->0@ }, r1),
        env2.message.signer@ == pre.config->0@.oracle,
        !spec_expired(pre.config->0@, env2.block.height),
        pre.config->0@.status != "DONE"@,
        update_post(mid, post, env2, new_eco, r2),
    ensures
        r2 is Ok,
{
}

/// After the owner unlocks the contract, no update is ever rejected as
/// locked, whoever calls and whatever the block height or lifecycle stage:
/// any remaining rejection reports a different condition.
pub proof fn law_unlock_clears_the_lock(
    pre: Store,
    mid: Store,
    env1: Env,
    r1: Result<Response, ContractError>,
    post: Store,
    env2: Env,
    new_eco: i64,
    r2: Result<Response, ContractError>,
)
    requires
        pre.config matches Some(st),
        env1.message.signer@ == pre.config->0@.owner,
        admin_post(pre, mid, env1, StateV { is_locked: Some(0i64), ..pre.config->0@ }, r1),
        update_post(mid, post, env2, new_eco, r2),
    ensures
        r2 != Err::<Response, ContractError>(ContractError::ContractLocked),
{
}

/// When the current block height is past the configured payout end height,
/// an update from the oracle on an unlocked contract is rejected as
/// expired and changes nothing.
pub proof fn law_expiry_blocks_update(pre: Store, post: Store, env: Env, new_eco: i64, r: Result<
    Response,
    ContractError,
>)
    requires
        update_post(pre, post, env, new_eco, r),
        pre.config matches Some(st),
        env.message.signer@ == pre.config->0@.oracle,
        pre.config->0@.is_locked != Some(1i64),
        spec_expired(pre.config->0@, env.block.height),
    ensures
        r == Err::<Response, ContractError>(ContractError::ContractExpired),
        post == pre,
{
}

/// A ledger entry written for a balance reads back as exactly that
/// balance, and an account without an entry reads as zero.
pub proof fn law_balance_round_trip(store: Store, account: Seq<u8>, balance: u128)
    requires
        store.balances.contents(account) matches Some(v) && v.len() == 16 && be_val(v) == balance,
    ensures
        store.spec_balance(account) == balance,
{
}

/// The terminal stage never reverses under ecostate updates: whatever an
/// update reports or rejects, a done contract stays done.
pub proof fn law_done_is_terminal(pre: Store, post: Store, env: Env, new_eco: i64, r: Result<
    Response,
    ContractError,
>)
    requires
        update_post(pre, post, env, new_eco, r),
        pre.config matches Some(st) && st@.status == "DONE"@,
    ensures
        post.config matches Some(ns) && ns@.status == "DONE"@,
{
}

/// A balance or transfer amount written in decimal parses back to exactly
/// the value written.
pub proof fn law_decimal_round_trip(x: u128)
    ensures
        crate::codec::parses_as_u128(crate::codec::dec_chars(x as nat)),
        crate::codec::dec_val(crate::codec::dec_chars(x as nat)) == x,
{
    crate::codec::lemma_dec_chars_round_trip(x as nat);
}

/// An account the ledger never saw has balance zero.
pub proof fn law_absent_balance_is_zero(store: Store, account: Seq<u8>)
    requires
        store.balances.contents(account) is None,
    ensures
        store.spec_balance(account) == 0,
{
}

} // verus!
