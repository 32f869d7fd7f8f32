//! The messages that callers send to the pool and the answers it gives.

use vstd::prelude::*;
use crate::decimal::Decimal;

verus! {

/// An asset: a token contract, named by its address, or a native
/// denomination.
#[derive(Debug, PartialEq, Eq)]
pub enum AssetInfo {
    Token { contract_addr: String },
    NativeToken { denom: String },
}

/// What an `AssetInfo` stands for in contracts.
pub enum AssetInfoView {
    Token { contract_addr: Seq<char> },
    NativeToken { denom: Seq<char> },
}

impl View for AssetInfo {
    type V = AssetInfoView;

    open spec fn view(&self) -> AssetInfoView {
        match self {
            AssetInfo::Token { contract_addr } => AssetInfoView::Token {
                contract_addr: contract_addr@,
            },
            AssetInfo::NativeToken { denom } => AssetInfoView::NativeToken { denom: denom@ },
        }
    }
}

impl Clone for AssetInfo {
    fn clone(&self) -> (copy: AssetInfo)
        ensures
            copy@ == self@,
    {
        match self {
            AssetInfo::Token { contract_addr } => AssetInfo::Token {
                contract_addr: contract_addr.clone(),
            },
            AssetInfo::NativeToken { denom } => AssetInfo::NativeToken { denom: denom.clone() },
        }
    }
}

/// An amount of one native denomination.
#[derive(Clone, Debug, PartialEq, Eq)]
pub struct Coin {
    pub denom: String,
    pub amount: u128,
}

/// Who makes a call, and the native funds attached to it.
#[derive(Clone, Debug, PartialEq, Eq)]
pub struct MessageInfo {
    pub sender: String,
    pub funds: Vec<Coin>,
}

/// The identities and the reward asset that a pool is created with.
#[derive(Clone, Debug, PartialEq, Eq)]
pub struct InstantiateMsg {
    pub governance: String,
    pub funder: String,
    pub staking_token: String,
    pub reward_asset_info: AssetInfo,
}

/// What a token contract passes on when tokens were sent to the pool:
/// who sent them, how many, and what the sender wants done with them.
#[derive(Clone, Debug, PartialEq, Eq)]
pub struct Cw20ReceiveMsg {
    pub sender: String,
    pub amount: u128,
    pub msg: Cw20HookMsg,
}

/// The operations that change the pool.
#[derive(Clone, Debug, PartialEq, Eq)]
pub enum ExecuteMsg {
    Receive(Cw20ReceiveMsg),
    Withdraw { amount: u128 },
    Claim {},
    Fund {},
    UpdateConfig { governance: Option<String>, funder: Option<String> },
}

/// What the sender of tokens wants done with them.
#[derive(Clone, Copy, Debug, PartialEq, Eq, Structural)]
pub enum Cw20HookMsg {
    Deposit {},
    Fund {},
}

#[derive(Clone, Copy, Debug, PartialEq, Eq, Structural)]
pub struct MigrateMsg {}

/// The read-only questions that the pool answers.
#[derive(Clone, Debug, PartialEq, Eq)]
pub enum QueryMsg {
    Config {},
    State {},
    UserInfo { user: String },
}

/// The pool's configuration as callers see it.
#[derive(Clone, Debug, PartialEq, Eq)]
pub struct ConfigResponse {
    pub governance: String,
    pub funder: String,
    pub staking_token: String,
    pub reward_asset_info: AssetInfo,
}

/// The pool's shared accumulator.
#[derive(Clone, Copy, Debug, PartialEq, Eq, Structural)]
pub struct State {
    /// Reward paid so far per unit of stake, over the pool's whole history.
    pub acc_per_share: Decimal,
    /// The sum of all accounts' stakes.
    pub total_deposits: u128,
}

impl Default for State {
    fn default() -> (state: State)
        ensures
            state.acc_per_share.atomics == 0,
            state.total_deposits == 0,
    {
        State { acc_per_share: Decimal::zero(), total_deposits: 0 }
    }
}

/// One account's balances as callers may hold them.
#[derive(Clone, Copy, Debug, PartialEq, Eq, Structural)]
pub struct UserInfo {
    pub stake_amount: u128,
    pub pending_amount: u128,
    pub reward_debt: u128,
}

impl Default for UserInfo {
    fn default() -> (info: UserInfo)
        ensures
            info.stake_amount == 0,
            info.pending_amount == 0,
            info.reward_debt == 0,
    {
        UserInfo { stake_amount: 0, pending_amount: 0, reward_debt: 0 }
    }
}

/// An account's stake and the reward it could claim now.
#[derive(Clone, Copy, Debug, PartialEq, Eq, Structural)]
pub struct UserInfoResponse {
    pub stake_amount: u128,
    pub pending_amount: u128,
}

impl Default for UserInfoResponse {
    fn default() -> (info: UserInfoResponse)
        ensures
            info.stake_amount == 0,
            info.pending_amount == 0,
    {
        UserInfoResponse { stake_amount: 0, pending_amount: 0 }
    }
}

} // verus!
