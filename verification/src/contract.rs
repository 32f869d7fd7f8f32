//! The pool's entry points: creation, the dispatch of the operations that
//! change it, and the dispatch of the questions it answers.

use vstd::prelude::*;
use crate::decimal::Decimal;
use crate::error::{Channel, ContractError};
use crate::execute::{
    can_claim, can_deposit, can_fund, can_withdraw, claim, deposit, fund, text_of,
    update_config, withdraw, Outcome,
};
use crate::query::{query_config, query_state, query_user_info};
use crate::response::{result_view, Response, ResponseView};
use crate::reward_pool::{
    AssetInfo, AssetInfoView, ConfigResponse, Cw20HookMsg, Cw20ReceiveMsg, ExecuteMsg,
    InstantiateMsg, MessageInfo, MigrateMsg, QueryMsg, State, UserInfoResponse,
};
use crate::state::{Config, ConfigView, Ledger, LedgerView};
use crate::utils::get_received_native_fund;

verus! {

/// The answer to a `QueryMsg`.
#[derive(Clone, Debug, PartialEq, Eq)]
pub enum QueryResponse {
    Config(ConfigResponse),
    State(State),
    UserInfo(UserInfoResponse),
}

impl LedgerView {
    /// The pool as `msg` creates it: the identities and the reward asset of
    /// `msg`, an accumulator of zero, nothing staked, no accounts.
    pub open spec fn created(msg: InstantiateMsg) -> LedgerView {
        LedgerView {
            config: ConfigView {
                governance: msg.governance@,
                funder: msg.funder@,
                staking_token: msg.staking_token@,
                reward_asset_info: msg.reward_asset_info@,
            },
            state: State { acc_per_share: Decimal { atomics: 0 }, total_deposits: 0 },
            accounts: Seq::empty(),
        }
    }

    /// The arithmetic of what `notifier` passes on stays within 128 bits.
    pub open spec fn admits_receive_cw20(self, notifier: Seq<char>, cw20_msg: Cw20ReceiveMsg)
        -> bool {
        match cw20_msg.msg {
            Cw20HookMsg::Deposit {  } => self.config.staking_token == notifier
                ==> self.admits_deposit(cw20_msg.sender@, cw20_msg.amount),
            Cw20HookMsg::Fund {  } => self.config.reward_asset_info == (AssetInfoView::Token {
                contract_addr: notifier,
            }) ==> self.admits_fund(cw20_msg.sender@, cw20_msg.amount),
        }
    }

    /// What the token contract `notifier` passes on. A deposit counts only
    /// where the notifier is the staking token, a funding only where it is
    /// the reward token; the operation is then that of the tokens' sender.
    pub open spec fn receive_cw20(self, notifier: Seq<char>, cw20_msg: Cw20ReceiveMsg)
        -> Outcome {
        match cw20_msg.msg {
            Cw20HookMsg::Deposit {  } => if self.config.staking_token == notifier {
                self.deposit(cw20_msg.sender@, cw20_msg.amount)
            } else {
                self.rejected(ContractError::InvalidStakingAsset)
            },
            Cw20HookMsg::Fund {  } => if self.config.reward_asset_info == (AssetInfoView::Token {
                contract_addr: notifier,
            }) {
                self.fund(cw20_msg.sender@, cw20_msg.amount)
            } else {
                self.rejected(ContractError::InvalidRewardAsset(Channel::Token))
            },
        }
    }

    /// The one account whose record `msg`, sent by `info.sender`, reads and
    /// may change: that of the tokens' sender for a deposit, that of the
    /// caller for a withdrawal or a claim, none for anything else.
    pub open spec fn touched(info: MessageInfo, msg: ExecuteMsg) -> Option<Seq<char>> {
        match msg {
            ExecuteMsg::Receive(cw20_msg) => match cw20_msg.msg {
                Cw20HookMsg::Deposit {  } => Some(cw20_msg.sender@),
                Cw20HookMsg::Fund {  } => None,
            },
            ExecuteMsg::Withdraw { .. } => Some(info.sender@),
            ExecuteMsg::Claim {  } => Some(info.sender@),
            ExecuteMsg::Fund {  } => None,
            ExecuteMsg::UpdateConfig { .. } => None,
        }
    }

    /// The arithmetic of `msg`, sent by `info.sender`, stays within 128 bits.
    pub open spec fn admits(self, info: MessageInfo, msg: ExecuteMsg) -> bool {
        match msg {
            ExecuteMsg::Receive(cw20_msg) => self.admits_receive_cw20(info.sender@, cw20_msg),
            ExecuteMsg::Withdraw { amount } => self.admits_withdraw(info.sender@, amount),
            ExecuteMsg::Claim {  } => self.admits_claim(info.sender@),
            ExecuteMsg::Fund {  } => match self.config.received_native_fund(info.funds@) {
                Ok(amount) => self.admits_fund(info.sender@, amount),
                Err(_) => true,
            },
            ExecuteMsg::UpdateConfig { .. } => true,
        }
    }

    /// What `msg`, sent by `info.sender`, makes of the pool. A native funding
    /// is first resolved to the reward amount that came attached.
    pub open spec fn execute(self, info: MessageInfo, msg: ExecuteMsg) -> Outcome {
        match msg {
            ExecuteMsg::Receive(cw20_msg) => self.receive_cw20(info.sender@, cw20_msg),
            ExecuteMsg::Withdraw { amount } => self.withdraw(info.sender@, amount),
            ExecuteMsg::Claim {  } => self.claim(info.sender@),
            ExecuteMsg::Fund {  } => match self.config.received_native_fund(info.funds@) {
                Ok(amount) => self.fund(info.sender@, amount),
                Err(error) => self.rejected(error),
            },
            ExecuteMsg::UpdateConfig { governance, funder } => self.update_config(
                info.sender@,
                text_of(governance),
                text_of(funder),
            ),
        }
    }

    /// The arithmetic of the answer to `msg` stays within 128 bits.
    pub open spec fn admits_query(self, msg: QueryMsg) -> bool {
        match msg {
            QueryMsg::UserInfo { user } => self.admits_claim(user@),
            _ => true,
        }
    }
}

/// Creates the pool.
pub fn instantiate(msg: InstantiateMsg) -> (ledger: Ledger)
    ensures
        ledger@ == LedgerView::created(msg),
        ledger@.balanced(),
{
    let config = Config {
        governance: msg.governance,
        funder: msg.funder,
        staking_token: msg.staking_token,
        reward_asset_info: msg.reward_asset_info,
    };
    Ledger::new(config, State::default())
}

/// The one account whose record `msg`, sent by `info.sender`, reads and may
/// change, if there is one.
pub fn touched_account(info: &MessageInfo, msg: &ExecuteMsg) -> (user: Option<String>)
    ensures
        text_of(user) == LedgerView::touched(*info, *msg),
{
    match msg {
        ExecuteMsg::Receive(cw20_msg) => match cw20_msg.msg {
            Cw20HookMsg::Deposit {  } => Some(cw20_msg.sender.clone()),
            Cw20HookMsg::Fund {  } => None,
        },
        ExecuteMsg::Withdraw { .. } => Some(info.sender.clone()),
        ExecuteMsg::Claim {  } => Some(info.sender.clone()),
        ExecuteMsg::Fund {  } => None,
        ExecuteMsg::UpdateConfig { .. } => None,
    }
}

/// Tests `admits`.
pub fn can_execute(ledger: &Ledger, info: &MessageInfo, msg: &ExecuteMsg) -> (ok: bool)
    ensures
        ok == ledger@.admits(*info, *msg),
{
    match msg {
        ExecuteMsg::Receive(cw20_msg) => can_receive_cw20(ledger, info, cw20_msg),
        ExecuteMsg::Withdraw { amount } => can_withdraw(ledger, &info.sender, *amount),
        ExecuteMsg::Claim {  } => can_claim(ledger, &info.sender),
        ExecuteMsg::Fund {  } => match get_received_native_fund(ledger, info) {
            Ok(amount) => can_fund(ledger, &info.sender, amount),
            Err(_) => true,
        },
        ExecuteMsg::UpdateConfig { .. } => true,
    }
}

/// Carries out `msg` for `info.sender`.
pub fn execute(ledger: &mut Ledger, info: MessageInfo, msg: ExecuteMsg) -> (res: Result<
    Response,
    ContractError,
>)
    requires
        old(ledger)@.admits(info, msg),
    ensures
        final(ledger)@ == old(ledger)@.execute(info, msg).ledger,
        result_view(res) == old(ledger)@.execute(info, msg).result,
        res is Err ==> final(ledger)@ == old(ledger)@,
        forall|other: Seq<char>|
            Some(other) != LedgerView::touched(info, msg)
                ==> #[trigger] final(ledger)@.user_info(other) == old(ledger)@.user_info(other),
{
    let sender = info.sender.clone();
    match msg {
        ExecuteMsg::Receive(cw20_msg) => receive_cw20(ledger, info, cw20_msg),
        ExecuteMsg::Withdraw { amount } => withdraw(ledger, sender, amount),
        ExecuteMsg::Claim {  } => claim(ledger, sender),
        ExecuteMsg::Fund {  } => {
            match get_received_native_fund(ledger, &info) {
                Ok(amount) => fund(ledger, sender, amount),
                Err(error) => Err(error),
            }
        },
        ExecuteMsg::UpdateConfig { governance, funder } => update_config(
            ledger,
            sender,
            governance,
            funder,
        ),
    }
}

/// Tests `admits_query`.
pub fn can_query(ledger: &Ledger, msg: &QueryMsg) -> (ok: bool)
    ensures
        ok == ledger@.admits_query(*msg),
{
    match msg {
        QueryMsg::UserInfo { user } => can_claim(ledger, user),
        _ => true,
    }
}

/// Answers `msg`. Nothing is changed.
pub fn query(ledger: &Ledger, msg: QueryMsg) -> (res: QueryResponse)
    requires
        ledger@.admits_query(msg),
    ensures
        match msg {
            QueryMsg::Config {  } => res matches QueryResponse::Config(config) && config@
                == ledger@.config,
            QueryMsg::State {  } => res == QueryResponse::State(ledger@.state),
            QueryMsg::UserInfo { user } => res == QueryResponse::UserInfo(
                UserInfoResponse {
                    stake_amount: ledger@.user_info(user@).stake_amount,
                    pending_amount: ledger@.reward_due(user@) as u128,
                },
            ),
        },
{
    match msg {
        QueryMsg::Config {  } => QueryResponse::Config(query_config(ledger)),
        QueryMsg::State {  } => QueryResponse::State(query_state(ledger)),
        QueryMsg::UserInfo { user } => QueryResponse::UserInfo(query_user_info(ledger, user)),
    }
}

/// Moves the pool to a new version of its code. The records are kept as
/// they are.
pub fn migrate(msg: MigrateMsg) -> (res: Result<Response, ContractError>)
    ensures
        result_view(res) == Ok::<ResponseView, ContractError>(ResponseView::empty()),
{
    Ok(Response::default())
}

/// Tests `admits_receive_cw20`.
pub fn can_receive_cw20(ledger: &Ledger, info: &MessageInfo, cw20_msg: &Cw20ReceiveMsg) -> (ok:
    bool)
    ensures
        ok == ledger@.admits_receive_cw20(info.sender@, *cw20_msg),
{
    match cw20_msg.msg {
        Cw20HookMsg::Deposit {  } => {
            if ledger.config.staking_token == info.sender {
                can_deposit(ledger, &cw20_msg.sender, cw20_msg.amount)
            } else {
                true
            }
        },
        Cw20HookMsg::Fund {  } => {
            if let AssetInfo::Token { contract_addr } = &ledger.config.reward_asset_info {
                if *contract_addr == info.sender {
                    return can_fund(ledger, &cw20_msg.sender, cw20_msg.amount);
                }
            }
            true
        },
    }
}

/// Handles what a token contract passes on when tokens were sent to the
/// pool. `info.sender` is the token contract; the tokens' sender and their
/// amount are in `cw20_msg`.
pub fn receive_cw20(ledger: &mut Ledger, info: MessageInfo, cw20_msg: Cw20ReceiveMsg) -> (res:
    Result<Response, ContractError>)
    requires
        old(ledger)@.admits_receive_cw20(info.sender@, cw20_msg),
    ensures
        final(ledger)@ == old(ledger)@.receive_cw20(info.sender@, cw20_msg).ledger,
        result_view(res) == old(ledger)@.receive_cw20(info.sender@, cw20_msg).result,
        res is Err ==> final(ledger)@ == old(ledger)@,
        forall|other: Seq<char>|
            !(cw20_msg.msg is Deposit && other == cw20_msg.sender@)
                ==> #[trigger] final(ledger)@.user_info(other) == old(ledger)@.user_info(other),
{
    match cw20_msg.msg {
        Cw20HookMsg::Deposit {  } => {
            if ledger.config.staking_token == info.sender {
                return deposit(ledger, cw20_msg.sender, cw20_msg.amount);
            }
            Err(ContractError::InvalidStakingAsset)
        },
        Cw20HookMsg::Fund {  } => {
            if let AssetInfo::Token { contract_addr } = &ledger.config.reward_asset_info {
                if *contract_addr == info.sender {
                    return fund(ledger, cw20_msg.sender, cw20_msg.amount);
                }
            }
            Err(ContractError::InvalidRewardAsset(Channel::Token))
        },
    }
}

} // verus!
