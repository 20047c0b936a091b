use ecopay::contract::{handle, init, query, read_balance};
use ecopay::errors::ContractError;
use ecopay::msg::{HandleMsg, InitMsg, QueryAnswer, QueryMsg};
use ecopay::state::{set_balance, Store};
use ecopay::types::{BlockInfo, CanonicalAddr, CosmosMsg, Env, MessageInfo};

fn addr(name: &str) -> CanonicalAddr {
    CanonicalAddr(name.as_bytes().to_vec())
}

fn mock_env_height(signer: &str, height: i64, time: i64) -> Env {
    Env {
        block: BlockInfo { height, time },
        message: MessageInfo { signer: addr(signer) },
    }
}

fn mock_env(signer: &str) -> Env {
    mock_env_height(signer, 12_345, 0)
}

fn default_init_msg() -> InitMsg {
    InitMsg {
        region: "region-1".to_string(),
        beneficiary: addr("beneficiary"),
        oracle: addr("oracle"),
        ecostate: 2500,
        total_tokens: 100000,
        payout_start_height: Some(460000),
        payout_end_height: Some(1000000),
        is_locked: None,
    }
}

fn state_answer(store: &Store) -> ecopay::msg::StateResponse {
    match query(store, QueryMsg::State {}).unwrap() {
        QueryAnswer::State(sr) => sr,
        _ => panic!("expected a state answer"),
    }
}

fn balance_answer(store: &Store, name: &str) -> String {
    match query(store, QueryMsg::GetBalance { address: addr(name) }).unwrap() {
        QueryAnswer::Balance(br) => br.balance,
        _ => panic!("expected a balance answer"),
    }
}

#[test]
fn proper_initialization() {
    let mut store = Store::new();
    let msg = default_init_msg();
    let env = mock_env_height("creator", 460001, 0);

    let res = init(&mut store, env, msg).unwrap();
    assert_eq!(0, res.messages.len());

    let value = state_answer(&store);
    assert_eq!(100000, value.total_tokens);
    assert_eq!("beneficiary", value.beneficiary.0.as_str());

    let value = balance_answer(&store, "beneficiary");
    assert_eq!("0", value);
}

#[test]
fn update_ecostate() {
    let mut store = Store::new();
    let msg = default_init_msg();
    let env = mock_env_height("creator", 460000, 0);
    let _res = init(&mut store, env, msg).unwrap();

    let env = mock_env("oracle");
    let msg = HandleMsg::UpdateEcostate { ecostate: 5000 };
    let _res = handle(&mut store, env, msg).unwrap();

    let value = state_answer(&store);
    assert_eq!(5000, value.ecostate);

    let value = balance_answer(&store, "beneficiary");
    assert_eq!("5000", value);
}

#[test]
fn initialization_starts_active_with_nothing_released() {
    let mut store = Store::new();
    let env = mock_env_height("creator", 460000, 0);
    init(&mut store, env, default_init_msg()).unwrap();

    let value = state_answer(&store);
    assert_eq!("ACTIVE", value.status.as_str());
    assert_eq!(0, value.released_tokens);
    assert_eq!("0", balance_answer(&store, "beneficiary"));
}

#[test]
fn no_payout_when_metric_does_not_improve() {
    let mut store = Store::new();
    init(&mut store, mock_env("creator"), default_init_msg()).unwrap();

    // Strictly below the last report.
    handle(&mut store, mock_env("oracle"), HandleMsg::UpdateEcostate { ecostate: 2000 }).unwrap();
    let value = state_answer(&store);
    assert_eq!(2000, value.ecostate);
    assert_eq!(100000, value.total_tokens);
    assert_eq!("0", balance_answer(&store, "beneficiary"));

    // Equal to the last report.
    handle(&mut store, mock_env("oracle"), HandleMsg::UpdateEcostate { ecostate: 2000 }).unwrap();
    assert_eq!(100000, state_answer(&store).total_tokens);
    assert_eq!("0", balance_answer(&store, "beneficiary"));
}

#[test]
fn half_payout_inside_the_one_percent_band() {
    let mut store = Store::new();
    let mut msg = default_init_msg();
    msg.ecostate = 10;
    init(&mut store, mock_env("creator"), msg).unwrap();

    // 150 / 100 == 1, so the payout is 150 / 2 == 75.
    handle(&mut store, mock_env("oracle"), HandleMsg::UpdateEcostate { ecostate: 150 }).unwrap();
    let value = state_answer(&store);
    assert_eq!(150, value.ecostate);
    assert_eq!(99925, value.total_tokens);
    assert_eq!("75", balance_answer(&store, "beneficiary"));
}

#[test]
fn example_scenario_full_face_value() {
    let mut store = Store::new();
    init(&mut store, mock_env("creator"), default_init_msg()).unwrap();

    // 5000 > 2500 and 5000 / 100 == 50 > 1: the payout candidate is 5000
    // and the supply covers it.
    let res = handle(&mut store, mock_env("oracle"), HandleMsg::UpdateEcostate { ecostate: 5000 })
        .unwrap();

    let value = state_answer(&store);
    assert_eq!(5000, value.ecostate);
    assert_eq!(95000, value.total_tokens);
    assert_eq!("ACTIVE", value.status.as_str());
    assert_eq!("5000", balance_answer(&store, "beneficiary"));

    assert_eq!(1, res.messages.len());
    let CosmosMsg::Send { from_address, to_address, amount } = &res.messages[0];
    assert_eq!(b"oracle".to_vec(), from_address.0);
    assert_eq!(b"beneficiary".to_vec(), to_address.0);
    assert_eq!(1, amount.len());
    assert_eq!("ecopay", amount[0].denom.as_str());
    assert_eq!("5000", amount[0].amount.as_str());
    assert_eq!(2, res.log.len());
    assert_eq!("height", res.log[0].key.as_str());
    assert_eq!("12345", res.log[0].value.as_str());
    assert_eq!("ecostate", res.log[1].key.as_str());
    assert_eq!("5000", res.log[1].value.as_str());
}

#[test]
fn exhausting_the_supply_finishes_the_contract() {
    let mut store = Store::new();
    let mut msg = default_init_msg();
    msg.ecostate = 0;
    msg.total_tokens = 300;
    init(&mut store, mock_env("creator"), msg).unwrap();

    // The candidate payout 5000 exceeds the remaining 300 tokens.
    handle(&mut store, mock_env("oracle"), HandleMsg::UpdateEcostate { ecostate: 5000 }).unwrap();
    let value = state_answer(&store);
    assert_eq!(0, value.total_tokens);
    assert_eq!("DONE", value.status.as_str());
    assert_eq!("300", balance_answer(&store, "beneficiary"));

    // Once done, further reports are rejected.
    let err = handle(&mut store, mock_env("oracle"), HandleMsg::UpdateEcostate { ecostate: 6000 })
        .unwrap_err();
    assert_eq!(ContractError::ContractDone, err);
    assert_eq!(0, state_answer(&store).total_tokens);
}

#[test]
fn update_from_anyone_but_the_oracle_is_rejected() {
    let mut store = Store::new();
    init(&mut store, mock_env("creator"), default_init_msg()).unwrap();

    let err = handle(&mut store, mock_env("nobody"), HandleMsg::UpdateEcostate { ecostate: 5000 })
        .unwrap_err();
    assert_eq!(ContractError::Unauthorized, err);
    assert_eq!(100000, state_answer(&store).total_tokens);
    assert_eq!(2500, state_answer(&store).ecostate);
    assert_eq!("0", balance_answer(&store, "beneficiary"));

    // The owner is not the oracle either.
    let err = handle(&mut store, mock_env("creator"), HandleMsg::UpdateEcostate { ecostate: 5000 })
        .unwrap_err();
    assert_eq!(ContractError::Unauthorized, err);
}

#[test]
fn admin_commands_from_anyone_but_the_owner_are_rejected() {
    let mut store = Store::new();
    init(&mut store, mock_env("creator"), default_init_msg()).unwrap();

    let err = handle(&mut store, mock_env("oracle"), HandleMsg::Lock {}).unwrap_err();
    assert_eq!(ContractError::Unauthorized, err);
    let err = handle(&mut store, mock_env("nobody"), HandleMsg::UnLock {}).unwrap_err();
    assert_eq!(ContractError::Unauthorized, err);
    let err = handle(
        &mut store,
        mock_env("nobody"),
        HandleMsg::ChangeBeneficiary { beneficiary: addr("thief") },
    )
    .unwrap_err();
    assert_eq!(ContractError::Unauthorized, err);
    let err = handle(
        &mut store,
        mock_env("nobody"),
        HandleMsg::TransferOwnership { owner: addr("thief") },
    )
    .unwrap_err();
    assert_eq!(ContractError::Unauthorized, err);

    let value = state_answer(&store);
    assert_eq!(None, value.is_locked);
    assert_eq!(100000, value.total_tokens);
}

#[test]
fn locking_blocks_updates_and_unlocking_restores_them() {
    let mut store = Store::new();
    init(&mut store, mock_env("creator"), default_init_msg()).unwrap();

    handle(&mut store, mock_env("creator"), HandleMsg::Lock {}).unwrap();
    assert_eq!(Some(1), state_answer(&store).is_locked);

    let err = handle(&mut store, mock_env("oracle"), HandleMsg::UpdateEcostate { ecostate: 5000 })
        .unwrap_err();
    assert_eq!(ContractError::ContractLocked, err);
    assert_eq!(100000, state_answer(&store).total_tokens);

    handle(&mut store, mock_env("creator"), HandleMsg::UnLock {}).unwrap();
    assert_eq!(Some(0), state_answer(&store).is_locked);

    handle(&mut store, mock_env("oracle"), HandleMsg::UpdateEcostate { ecostate: 5000 }).unwrap();
    assert_eq!(95000, state_answer(&store).total_tokens);
}

#[test]
fn updates_past_the_end_height_are_rejected() {
    let mut store = Store::new();
    init(&mut store, mock_env("creator"), default_init_msg()).unwrap();

    // The end height is 1000000; one block past it expires the contract.
    let err = handle(
        &mut store,
        mock_env_height("oracle", 1000001, 0),
        HandleMsg::UpdateEcostate { ecostate: 5000 },
    )
    .unwrap_err();
    assert_eq!(ContractError::ContractExpired, err);
    assert_eq!(2500, state_answer(&store).ecostate);

    // Exactly at the end height the update still goes through.
    handle(
        &mut store,
        mock_env_height("oracle", 1000000, 0),
        HandleMsg::UpdateEcostate { ecostate: 5000 },
    )
    .unwrap();
    assert_eq!(5000, state_answer(&store).ecostate);
}

#[test]
fn changing_the_beneficiary_redirects_payouts() {
    let mut store = Store::new();
    init(&mut store, mock_env("creator"), default_init_msg()).unwrap();

    handle(
        &mut store,
        mock_env("creator"),
        HandleMsg::ChangeBeneficiary { beneficiary: addr("heir") },
    )
    .unwrap();

    handle(&mut store, mock_env("oracle"), HandleMsg::UpdateEcostate { ecostate: 5000 }).unwrap();
    assert_eq!("5000", balance_answer(&store, "heir"));
    assert_eq!("0", balance_answer(&store, "beneficiary"));
}

#[test]
fn transferring_ownership_moves_the_admin_role() {
    let mut store = Store::new();
    init(&mut store, mock_env("creator"), default_init_msg()).unwrap();

    handle(&mut store, mock_env("creator"), HandleMsg::TransferOwnership { owner: addr("heir") })
        .unwrap();

    let err = handle(&mut store, mock_env("creator"), HandleMsg::Lock {}).unwrap_err();
    assert_eq!(ContractError::Unauthorized, err);
    handle(&mut store, mock_env("heir"), HandleMsg::Lock {}).unwrap();
    assert_eq!(Some(1), state_answer(&store).is_locked);
}

#[test]
fn balance_round_trip_and_absent_accounts() {
    let mut store = Store::new();
    assert_eq!(0, read_balance(&store, &addr("anyone")).unwrap());

    set_balance(&mut store, &addr("anyone"), 123456789);
    assert_eq!(123456789, read_balance(&store, &addr("anyone")).unwrap());
    assert_eq!("123456789", balance_answer(&store, "anyone"));

    set_balance(&mut store, &addr("anyone"), u128::MAX);
    assert_eq!(u128::MAX, read_balance(&store, &addr("anyone")).unwrap());

    assert_eq!(0, read_balance(&store, &addr("someone-else")).unwrap());
}

#[test]
fn a_short_ledger_entry_is_corrupt() {
    let mut store = Store::new();
    store.balances.set(&b"broken".to_vec(), vec![1, 2, 3]);

    let err = read_balance(&store, &addr("broken")).unwrap_err();
    assert_eq!(ContractError::CorruptedData, err);
    let err = query(&store, QueryMsg::GetBalance { address: addr("broken") }).unwrap_err();
    assert_eq!(ContractError::CorruptedData, err);
}

#[test]
fn guard_rejections_cover_unbookable_reports() {
    // A report that would compute a negative payout (-4 > -10, so the
    // half tier gives -2) still gets the ordinary guard answers when the
    // guard rejects it, since a rejected report books nothing.
    let mut store = Store::new();
    let mut msg = default_init_msg();
    msg.ecostate = -10;
    init(&mut store, mock_env("creator"), msg).unwrap();

    let err = handle(&mut store, mock_env("nobody"), HandleMsg::UpdateEcostate { ecostate: -4 })
        .unwrap_err();
    assert_eq!(ContractError::Unauthorized, err);

    handle(&mut store, mock_env("creator"), HandleMsg::Lock {}).unwrap();
    let err = handle(&mut store, mock_env("oracle"), HandleMsg::UpdateEcostate { ecostate: -4 })
        .unwrap_err();
    assert_eq!(ContractError::ContractLocked, err);
    assert_eq!(-10, state_answer(&store).ecostate);
    assert_eq!("0", balance_answer(&store, "beneficiary"));
}

#[test]
fn admin_commands_before_initialization_fail() {
    let mut store = Store::new();
    let err = handle(&mut store, mock_env("creator"), HandleMsg::Lock {}).unwrap_err();
    assert_eq!(ContractError::SerializationError, err);
    let err = handle(
        &mut store,
        mock_env("creator"),
        HandleMsg::TransferOwnership { owner: addr("heir") },
    )
    .unwrap_err();
    assert_eq!(ContractError::SerializationError, err);
}

#[test]
fn queries_before_initialization_fail() {
    let store = Store::new();
    let err = query(&store, QueryMsg::State {}).unwrap_err();
    assert_eq!(ContractError::SerializationError, err);

    let mut store = Store::new();
    let err = handle(&mut store, mock_env("oracle"), HandleMsg::UpdateEcostate { ecostate: 1 })
        .unwrap_err();
    assert_eq!(ContractError::SerializationError, err);
}
