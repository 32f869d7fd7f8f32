use cosmwasm_std::{attr, Fraction, StdError, Uint128};

use reward_pool::contract::{can_execute, can_query, execute, instantiate, query, QueryResponse};
use reward_pool::decimal::Decimal;
use reward_pool::error::ContractError;
use reward_pool::response::{Asset, Response, Transfer};
use reward_pool::reward_pool::{
    AssetInfo, Coin, Cw20HookMsg, Cw20ReceiveMsg, ExecuteMsg, InstantiateMsg, MessageInfo,
    QueryMsg, State, UserInfoResponse,
};
use reward_pool::state::Ledger;

fn mock_info(sender: &str, funds: &[Coin]) -> MessageInfo {
    MessageInfo { sender: sender.to_string(), funds: funds.to_vec() }
}

fn new_pool(reward_asset_info: AssetInfo) -> Ledger {
    instantiate(InstantiateMsg {
        governance: String::from("governance"),
        funder: String::from("funder"),
        staking_token: String::from("staking_token"),
        reward_asset_info,
    })
}

fn run(ledger: &mut Ledger, info: MessageInfo, msg: ExecuteMsg) -> Result<Response, ContractError> {
    assert!(can_execute(ledger, &info, &msg));
    execute(ledger, info, msg)
}

fn ask(ledger: &Ledger, msg: QueryMsg) -> QueryResponse {
    assert!(can_query(ledger, &msg));
    query(ledger, msg)
}

fn stake(ledger: &mut Ledger, amount: Uint128) {
    let msg = ExecuteMsg::Receive(Cw20ReceiveMsg {
        sender: "addr".to_string(),
        msg: Cw20HookMsg::Deposit {},
        amount: amount.u128(),
    });
    run(ledger, mock_info("staking_token", &[]), msg).unwrap();
}

fn decimal(value: cosmwasm_std::Decimal) -> Decimal {
    Decimal { atomics: value.numerator() }
}

fn logs(res: &Response) -> Vec<cosmwasm_std::Attribute> {
    res.attributes.iter().map(|a| attr(a.key.clone(), a.value.clone())).collect()
}

#[test]
fn fails_if_nothing_to_claim() {
    let mut deps = new_pool(AssetInfo::NativeToken { denom: "uusd".to_string() });

    let msg = ExecuteMsg::Claim {};

    let info = mock_info("addr", &[]);

    let res = run(&mut deps, info, msg).unwrap_err();
    assert_eq!(res, ContractError::NothingToClaim);
    assert_eq!(StdError::generic_err(res.message()), StdError::generic_err("reward is zero"));
}

#[test]
fn claim_test_update_user_info() {
    let mut deps = new_pool(AssetInfo::NativeToken { denom: "uusd".to_string() });

    let stake_amount = Uint128::from(100u128);

    stake(&mut deps, stake_amount);

    let total_deposits = Uint128::from(100u128);
    let acc_per_share = cosmwasm_std::Decimal::percent(50);

    deps.state =
        State { acc_per_share: decimal(acc_per_share), total_deposits: total_deposits.u128() };

    let msg = ExecuteMsg::Claim {};

    let info = mock_info("addr", &[]);

    run(&mut deps, info, msg).unwrap();

    let res = ask(&deps, QueryMsg::UserInfo { user: "addr".to_string() });

    assert_eq!(
        QueryResponse::UserInfo(UserInfoResponse {
            stake_amount: stake_amount.u128(),
            pending_amount: Uint128::zero().u128(),
        }),
        res
    );
}

#[test]
fn transfer_reward_token() {
    let mut deps = new_pool(AssetInfo::NativeToken { denom: "uusd".to_string() });

    let stake_amount = Uint128::from(100u128);

    stake(&mut deps, stake_amount);

    let total_deposits = Uint128::from(100u128);
    let acc_per_share = cosmwasm_std::Decimal::percent(50);

    deps.state =
        State { acc_per_share: decimal(acc_per_share), total_deposits: total_deposits.u128() };

    let msg = ExecuteMsg::Claim {};

    let info = mock_info("addr", &[]);

    let res = run(&mut deps, info, msg).unwrap();

    assert_eq!(
        res.messages,
        vec![Transfer {
            asset: Asset {
                info: AssetInfo::NativeToken { denom: "uusd".to_string() },
                amount: (acc_per_share * stake_amount).u128(),
            },
            recipient: String::from("addr"),
        }]
    );
}

#[test]
fn claim_test_return_correct_logs() {
    let mut deps = new_pool(AssetInfo::NativeToken { denom: "uusd".to_string() });

    let tax_rate = cosmwasm_std::Decimal::from_ratio(1u128, 1000u128);

    let stake_amount = Uint128::from(100u128);

    stake(&mut deps, stake_amount);

    let total_deposits = Uint128::from(100u128);
    let acc_per_share = cosmwasm_std::Decimal::percent(50);

    deps.state =
        State { acc_per_share: decimal(acc_per_share), total_deposits: total_deposits.u128() };

    let msg = ExecuteMsg::Claim {};

    let info = mock_info("addr", &[]);

    let res = run(&mut deps, info, msg).unwrap();

    let reward_without_tax = acc_per_share * stake_amount;
    let reward_with_tax = reward_without_tax - reward_without_tax * tax_rate;

    assert_eq!(logs(&res), vec![attr("action", "claim"), attr("amount", reward_with_tax),]);
}
