//! The read-only projections of the pool.

use vstd::prelude::*;
use crate::decimal::times;
use crate::reward_pool::{ConfigResponse, State, UserInfoResponse};
use crate::state::{knows, ConfigView, Ledger};

verus! {

impl View for ConfigResponse {
    type V = ConfigView;

    open spec fn view(&self) -> ConfigView {
        ConfigView {
            governance: self.governance@,
            funder: self.funder@,
            staking_token: self.staking_token@,
            reward_asset_info: self.reward_asset_info@,
        }
    }
}

/// The pool's configuration.
pub fn query_config(ledger: &Ledger) -> (config: ConfigResponse)
    ensures
        config@ == ledger@.config,
{
    ConfigResponse {
        governance: ledger.config.governance.clone(),
        funder: ledger.config.funder.clone(),
        staking_token: ledger.config.staking_token.clone(),
        reward_asset_info: ledger.config.reward_asset_info.clone(),
    }
}

/// The pool's accumulator and total, as they are.
pub fn query_state(ledger: &Ledger) -> (state: State)
    ensures
        state == ledger@.state,
{
    ledger.state
}

/// The stake of `user` and the reward it could claim now: what is pending
/// plus what has accrued since the account was last settled. Nothing is
/// changed. An unknown user has neither stake nor reward.
pub fn query_user_info(ledger: &Ledger, user: String) -> (info: UserInfoResponse)
    requires
        ledger@.admits_claim(user@),
    ensures
        info.stake_amount == ledger@.user_info(user@).stake_amount,
        info.pending_amount == ledger@.reward_due(user@),
        !knows(ledger@.accounts, user@) ==> info.stake_amount == 0 && info.pending_amount == 0,
{
    let user_info = ledger.user_info(&user);
    UserInfoResponse {
        stake_amount: user_info.stake_amount,
        pending_amount: (times(user_info.stake_amount, ledger.state.acc_per_share)
            - user_info.reward_debt) + user_info.pending_amount,
    }
}

} // verus!
