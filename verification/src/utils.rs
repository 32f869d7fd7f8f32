//! The resolution of the native funds that come attached to a call.

use vstd::prelude::*;
use crate::error::{Channel, ContractError};
use crate::reward_pool::{AssetInfo, AssetInfoView, Coin, MessageInfo};
use crate::state::{ConfigView, Ledger};

verus! {

impl ConfigView {
    /// The reward amount that `funds` carry: rejected unless exactly one
    /// denomination is attached, and where the reward asset is a token; else
    /// the attached amount where its denomination is the reward's, and zero
    /// where it is another.
    pub open spec fn received_native_fund(self, funds: Seq<Coin>) -> Result<
        u128,
        ContractError,
    > {
        if funds.len() != 1 {
            Err(ContractError::InvalidFundsReceived)
        } else {
            match self.reward_asset_info {
                AssetInfoView::NativeToken { denom } => Ok(
                    if funds[0].denom@ == denom {
                        funds[0].amount
                    } else {
                        0
                    },
                ),
                AssetInfoView::Token { .. } => Err(
                    ContractError::InvalidRewardAsset(Channel::Native),
                ),
            }
        }
    }
}

/// The reward amount that came attached to a call as native funds.
pub fn get_received_native_fund(ledger: &Ledger, info: &MessageInfo) -> (res: Result<
    u128,
    ContractError,
>)
    ensures
        res == ledger@.config.received_native_fund(info.funds@),
{
    if info.funds.len() != 1 {
        return Err(ContractError::InvalidFundsReceived);
    }
    match &ledger.config.reward_asset_info {
        AssetInfo::NativeToken { denom } => {
            let coin = &info.funds[0];
            if coin.denom == *denom {
                Ok(coin.amount)
            } else {
                Ok(0)
            }
        },
        AssetInfo::Token { .. } => Err(ContractError::InvalidRewardAsset(Channel::Native)),
    }
}

} // verus!
