use cosmwasm_std::{attr, Fraction, StdError, Uint128};

use reward_pool::contract::{can_execute, can_query, execute, instantiate, query, QueryResponse};
use reward_pool::decimal::Decimal;
use reward_pool::error::{Channel, ContractError};
use reward_pool::response::Response;
use reward_pool::reward_pool::{
    AssetInfo, Coin, Cw20HookMsg, Cw20ReceiveMsg, ExecuteMsg, InstantiateMsg, MessageInfo,
    QueryMsg, State,
};
use reward_pool::state::Ledger;

fn mock_info(sender: &str, funds: &[Coin]) -> MessageInfo {
    MessageInfo { sender: sender.to_string(), funds: funds.to_vec() }
}

fn new_pool(reward_asset_info: AssetInfo) -> Ledger {
    instantiate(InstantiateMsg {
        governance: String::from("governance"),
        funder: String::from("funder"),
        staking_token: String::from("staking_token"),
        reward_asset_info,
    })
}

fn run(ledger: &mut Ledger, info: MessageInfo, msg: ExecuteMsg) -> Result<Response, ContractError> {
    assert!(can_execute(ledger, &info, &msg));
    execute(ledger, info, msg)
}

fn ask(ledger: &Ledger, msg: QueryMsg) -> QueryResponse {
    assert!(can_query(ledger, &msg));
    query(ledger, msg)
}

fn decimal(value: cosmwasm_std::Decimal) -> Decimal {
    Decimal { atomics: value.numerator() }
}

fn logs(res: &Response) -> Vec<cosmwasm_std::Attribute> {
    res.attributes.iter().map(|a| attr(a.key.clone(), a.value.clone())).collect()
}

#[test]
fn fund_denom_test_fails_if_caller_is_not_funder() {
    let mut deps = new_pool(AssetInfo::NativeToken { denom: "uusd".to_string() });

    let msg = ExecuteMsg::Fund {};

    let info = mock_info(
        "policy",
        &[Coin { denom: "uusd".to_string(), amount: Uint128::from(1u128).u128() }],
    );

    let res = run(&mut deps, info, msg).unwrap_err();
    assert_eq!(res, ContractError::Unauthorized);
    assert_eq!(StdError::generic_err(res.message()), StdError::generic_err("unauthorized"));
}

#[test]
fn fund_denom_test_fails_if_amount_is_zero() {
    let mut deps = new_pool(AssetInfo::NativeToken { denom: "uusd".to_string() });

    let msg = ExecuteMsg::Fund {};

    let info =
        mock_info("funder", &[Coin { denom: "uusd".to_string(), amount: Uint128::zero().u128() }]);

    let res = run(&mut deps, info, msg).unwrap_err();
    assert_eq!(res, ContractError::InvalidAmount);
    assert_eq!(StdError::generic_err(res.message()), StdError::generic_err("amount is zero"));
}

#[test]
fn fund_denom_test_fails_if_no_deposits() {
    let mut deps = new_pool(AssetInfo::NativeToken { denom: "uusd".to_string() });

    let msg = ExecuteMsg::Fund {};

    let info = mock_info(
        "funder",
        &[Coin { denom: "uusd".to_string(), amount: Uint128::from(1u128).u128() }],
    );

    let res = run(&mut deps, info, msg).unwrap_err();
    assert_eq!(res, ContractError::NoDeposits);
    assert_eq!(StdError::generic_err(res.message()), StdError::generic_err("no deposits"));
}

#[test]
fn fails_if_multiple_denom_received() {
    let mut deps = new_pool(AssetInfo::NativeToken { denom: "uusd".to_string() });

    let msg = ExecuteMsg::Fund {};

    let info = mock_info(
        "funder",
        &[
            Coin { denom: "ueur".to_string(), amount: Uint128::from(1u128).u128() },
            Coin { denom: "uusd".to_string(), amount: Uint128::from(1u128).u128() },
        ],
    );

    let res = run(&mut deps, info, msg).unwrap_err();
    assert_eq!(res, ContractError::InvalidFundsReceived);
    assert_eq!(
        StdError::generic_err(res.message()),
        StdError::generic_err("invalid denom received")
    );
}

#[test]
fn fails_if_cw20_received() {
    let mut deps = new_pool(AssetInfo::NativeToken { denom: "uusd".to_string() });

    let msg = ExecuteMsg::Receive(Cw20ReceiveMsg {
        sender: "funder".to_string(),
        msg: Cw20HookMsg::Fund {},
        amount: Uint128::from(1u128).u128(),
    });

    let info = mock_info("reward_token", &[]);

    let res = run(&mut deps, info, msg).unwrap_err();
    assert_eq!(res, ContractError::InvalidRewardAsset(Channel::Token));
    assert_eq!(
        StdError::generic_err(res.message()),
        StdError::generic_err("invalid reward token")
    );
}

#[test]
fn fund_denom_test_fund_rewards() {
    let mut deps = new_pool(AssetInfo::NativeToken { denom: "uusd".to_string() });

    let total_deposits = Uint128::from(100u128);
    let reward_amount = Uint128::from(1000000000u128);

    deps.state = State {
        acc_per_share: decimal(cosmwasm_std::Decimal::zero()),
        total_deposits: total_deposits.u128(),
    };
    let msg = ExecuteMsg::Fund {};

    let info =
        mock_info("funder", &[Coin { denom: "uusd".to_string(), amount: reward_amount.u128() }]);

    run(&mut deps, info, msg).unwrap();

    let res = ask(&deps, QueryMsg::State {});

    assert_eq!(
        QueryResponse::State(State {
            acc_per_share: decimal(cosmwasm_std::Decimal::from_ratio(
                reward_amount,
                total_deposits
            )),
            total_deposits: total_deposits.u128(),
        }),
        res
    );
}

#[test]
fn increase_acc_per_share() {
    let mut deps = new_pool(AssetInfo::NativeToken { denom: "uusd".to_string() });

    let total_deposits = Uint128::from(100u128);
    let reward_amount = Uint128::from(1000000000u128);
    let acc_per_share = cosmwasm_std::Decimal::percent(50);

    deps.state =
        State { acc_per_share: decimal(acc_per_share), total_deposits: total_deposits.u128() };
    let msg = ExecuteMsg::Fund {};

    let info =
        mock_info("funder", &[Coin { denom: "uusd".to_string(), amount: reward_amount.u128() }]);

    run(&mut deps, info, msg).unwrap();

    let res = ask(&deps, QueryMsg::State {});

    assert_eq!(
        QueryResponse::State(State {
            acc_per_share: decimal(
                acc_per_share + cosmwasm_std::Decimal::from_ratio(reward_amount, total_deposits)
            ),
            total_deposits: total_deposits.u128(),
        }),
        res
    );
}

#[test]
fn fund_denom_test_return_correct_logs() {
    let mut deps = new_pool(AssetInfo::NativeToken { denom: "uusd".to_string() });

    let total_deposits = Uint128::from(100u128);
    let reward_amount = Uint128::from(1000000000u128);

    deps.state = State {
        acc_per_share: decimal(cosmwasm_std::Decimal::zero()),
        total_deposits: total_deposits.u128(),
    };
    let msg = ExecuteMsg::Fund {};

    let info =
        mock_info("funder", &[Coin { denom: "uusd".to_string(), amount: reward_amount.u128() }]);

    let res = run(&mut deps, info, msg).unwrap();

    assert_eq!(logs(&res), vec![attr("action", "fund"), attr("amount", reward_amount),]);
}
