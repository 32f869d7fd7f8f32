use reward_pool::contract::{instantiate, touched_account};
use reward_pool::decimal::Decimal;
use reward_pool::query::{query_config, query_state};
use reward_pool::reward_pool::{
    AssetInfo, ConfigResponse, Cw20HookMsg, Cw20ReceiveMsg, ExecuteMsg, InstantiateMsg,
    MessageInfo, State, UserInfoResponse,
};
use reward_pool::state::{Account, Config, Ledger, UserInfo};

fn config() -> Config {
    Config {
        governance: "governance".to_string(),
        funder: "funder".to_string(),
        staking_token: "staking_token".to_string(),
        reward_asset_info: AssetInfo::Token { contract_addr: "reward_token".to_string() },
    }
}

fn record(stake_amount: u128) -> UserInfo {
    UserInfo { stake_amount, pending_amount: 0, reward_debt: 0 }
}

#[test]
fn new_ledger_has_no_accounts() {
    let state = State { acc_per_share: Decimal::percent(7), total_deposits: 9 };
    let ledger = Ledger::new(config(), state);
    assert_eq!(ledger.config, config());
    assert_eq!(ledger.state, state);
    assert!(ledger.accounts.is_empty());
    assert_eq!(ledger.user_info(&"anyone".to_string()), UserInfo::default());
}

#[test]
fn created_pool_starts_from_zero() {
    let ledger = instantiate(InstantiateMsg {
        governance: "governance".to_string(),
        funder: "funder".to_string(),
        staking_token: "staking_token".to_string(),
        reward_asset_info: AssetInfo::Token { contract_addr: "reward_token".to_string() },
    });
    assert_eq!(ledger, Ledger::new(config(), State::default()));
    assert_eq!(ledger.state, State { acc_per_share: Decimal::zero(), total_deposits: 0 });
    assert_eq!(query_state(&ledger), State::default());
    assert_eq!(
        query_config(&ledger),
        ConfigResponse {
            governance: "governance".to_string(),
            funder: "funder".to_string(),
            staking_token: "staking_token".to_string(),
            reward_asset_info: AssetInfo::Token { contract_addr: "reward_token".to_string() },
        }
    );
}

#[test]
fn saved_record_is_loaded_again() {
    let mut ledger = Ledger::new(config(), State::default());
    ledger.save_user_info("alice".to_string(), record(1));
    ledger.save_user_info("bob".to_string(), record(2));
    ledger.save_user_info("carol".to_string(), record(3));
    assert_eq!(ledger.user_info(&"alice".to_string()), record(1));
    assert_eq!(ledger.user_info(&"bob".to_string()), record(2));
    assert_eq!(ledger.user_info(&"carol".to_string()), record(3));
    assert_eq!(ledger.user_info(&"dave".to_string()), UserInfo::default());
    assert_eq!(ledger.user_info(&"".to_string()), UserInfo::default());
}

#[test]
fn saving_again_replaces_the_record_in_its_place() {
    let mut ledger = Ledger::new(config(), State::default());
    ledger.save_user_info("alice".to_string(), record(1));
    ledger.save_user_info("bob".to_string(), record(2));
    ledger.save_user_info("alice".to_string(), record(10));
    assert_eq!(
        ledger.accounts,
        vec![
            Account { user: "alice".to_string(), info: record(10) },
            Account { user: "bob".to_string(), info: record(2) },
        ]
    );
    ledger.save_user_info("bob".to_string(), UserInfo::default());
    assert_eq!(ledger.accounts.len(), 2);
    assert_eq!(ledger.user_info(&"bob".to_string()), UserInfo::default());
}

#[test]
fn defaults_are_all_zero() {
    assert_eq!(UserInfo::default(), record(0));
    assert_eq!(
        reward_pool::reward_pool::UserInfo::default(),
        reward_pool::reward_pool::UserInfo { stake_amount: 0, pending_amount: 0, reward_debt: 0 }
    );
    assert_eq!(
        UserInfoResponse::default(),
        UserInfoResponse { stake_amount: 0, pending_amount: 0 }
    );
    assert_eq!(State::default().acc_per_share, Decimal::zero());
    assert_eq!(State::default().total_deposits, 0);
}

#[test]
fn a_call_touches_one_account_at_most() {
    let info = MessageInfo { sender: "caller".to_string(), funds: vec![] };
    let received = |msg: Cw20HookMsg| {
        ExecuteMsg::Receive(Cw20ReceiveMsg { sender: "owner".to_string(), amount: 1, msg })
    };
    assert_eq!(
        touched_account(&info, &received(Cw20HookMsg::Deposit {})),
        Some("owner".to_string())
    );
    assert_eq!(touched_account(&info, &received(Cw20HookMsg::Fund {})), None);
    assert_eq!(
        touched_account(&info, &ExecuteMsg::Withdraw { amount: 1 }),
        Some("caller".to_string())
    );
    assert_eq!(touched_account(&info, &ExecuteMsg::Claim {}), Some("caller".to_string()));
    assert_eq!(touched_account(&info, &ExecuteMsg::Fund {}), None);
    assert_eq!(
        touched_account(&info, &ExecuteMsg::UpdateConfig { governance: None, funder: None }),
        None
    );
}

#[test]
fn copy_of_an_asset_is_the_asset() {
    let token = AssetInfo::Token { contract_addr: "reward_token".to_string() };
    let native = AssetInfo::NativeToken { denom: "uusd".to_string() };
    assert_eq!(token.clone(), token);
    assert_eq!(native.clone(), native);
    assert_ne!(token, native);
}
