//! The rejections that the pool's operations can answer with.

use vstd::prelude::*;

verus! {

/// How a payment reaches the pool.
#[derive(Clone, Copy, Debug, PartialEq, Eq, Structural)]
pub enum Channel {
    /// As native funds attached to the call.
    Native,
    /// As tokens, of which their contract notifies the pool.
    Token,
}

/// Why an operation was rejected. A rejected operation changes nothing.
#[derive(Clone, Copy, Debug, PartialEq, Eq, Structural)]
pub enum ContractError {
    /// A zero amount where a positive one is required.
    InvalidAmount,
    /// A withdrawal of more than the account has staked.
    InsufficientStake,
    /// A claim while no reward is due.
    NothingToClaim,
    /// A funding while nothing is staked.
    NoDeposits,
    /// The caller lacks the privilege that the operation needs.
    Unauthorized,
    /// Not exactly one denomination was attached to the call.
    InvalidFundsReceived,
    /// A deposit was notified by a contract other than the staking token.
    InvalidStakingAsset,
    /// A funding came through a channel that does not carry the reward
    /// asset: as native funds while the reward is a token, or from a token
    /// contract that is not the reward token.
    InvalidRewardAsset(Channel),
}

impl ContractError {
    /// The text of `message`.
    pub open spec fn text(self) -> Seq<char> {
        match self {
            ContractError::InvalidAmount => "amount is zero"@,
            ContractError::InsufficientStake => "insufficient stake"@,
            ContractError::NothingToClaim => "reward is zero"@,
            ContractError::NoDeposits => "no deposits"@,
            ContractError::Unauthorized => "unauthorized"@,
            ContractError::InvalidFundsReceived => "invalid denom received"@,
            ContractError::InvalidStakingAsset => "invalid staking token"@,
            ContractError::InvalidRewardAsset(Channel::Native) => "not support denom reward"@,
            ContractError::InvalidRewardAsset(Channel::Token) => "invalid reward token"@,
        }
    }

    /// A short description for the caller.
    pub fn message(&self) -> (s: String)
        ensures
            s@ == self.text(),
    {
        match self {
            ContractError::InvalidAmount => "amount is zero".to_owned(),
            ContractError::InsufficientStake => "insufficient stake".to_owned(),
            ContractError::NothingToClaim => "reward is zero".to_owned(),
            ContractError::NoDeposits => "no deposits".to_owned(),
            ContractError::Unauthorized => "unauthorized".to_owned(),
            ContractError::InvalidFundsReceived => "invalid denom received".to_owned(),
            ContractError::InvalidStakingAsset => "invalid staking token".to_owned(),
            ContractError::InvalidRewardAsset(Channel::Native) => {
                "not support denom reward".to_owned()
            },
            ContractError::InvalidRewardAsset(Channel::Token) => "invalid reward token".to_owned(),
        }
    }
}

} // verus!
