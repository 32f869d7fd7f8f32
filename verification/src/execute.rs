//! The operations that change the pool: deposit, withdraw, claim, fund and
//! the update of the configuration.
//!
//! Each operation is stated twice. A spec function on `LedgerView` says what
//! the operation makes of a pool and what it answers; the executable function
//! of the same name does it. The arithmetic is that of 128-bit unsigned
//! integers: an operation is only called where its sums and products fit,
//! which the `admits_*` predicates state and the `can_*` functions test.

use vstd::prelude::*;
use crate::decimal::{
    checked_mul_floor, lemma_mul_floor_monotone_amount, mul_floor, times, Decimal,
};
use crate::error::ContractError;
use crate::response::{result_view, Asset, Response, ResponseView, Transfer};
use crate::reward_pool::{AssetInfo, AssetInfoView, State};
use crate::state::{lemma_upsert_lookup, ConfigView, Ledger, LedgerView, UserInfo};

verus! {

/// What an operation makes of a pool, and what it answers.
pub struct Outcome {
    pub ledger: LedgerView,
    pub result: Result<ResponseView, ContractError>,
}

/// The text of an identity that may be absent.
pub open spec fn text_of(identity: Option<String>) -> Option<Seq<char>> {
    match identity {
        Some(text) => Some(text@),
        None => None,
    }
}

impl UserInfo {
    /// Settling this record stays within 128 bits: what the stake has earned
    /// fits and is no less than what was credited, and the pending reward
    /// with what has accrued fits.
    pub open spec fn settles(self, acc_per_share: Decimal) -> bool {
        &&& self.reward_debt <= self.earned(acc_per_share) <= u128::MAX
        &&& self.claimable(acc_per_share) <= u128::MAX
    }

    /// The record after it was settled and `amount` was added to the stake.
    pub open spec fn after_deposit(self, acc_per_share: Decimal, amount: u128) -> UserInfo {
        let stake_amount = (self.stake_amount + amount) as u128;
        UserInfo {
            stake_amount,
            pending_amount: self.claimable(acc_per_share) as u128,
            reward_debt: mul_floor(stake_amount, acc_per_share) as u128,
        }
    }

    /// The record after it was settled and `amount` was taken from the stake.
    pub open spec fn after_withdraw(self, acc_per_share: Decimal, amount: u128) -> UserInfo {
        let stake_amount = (self.stake_amount - amount) as u128;
        UserInfo {
            stake_amount,
            pending_amount: self.claimable(acc_per_share) as u128,
            reward_debt: mul_floor(stake_amount, acc_per_share) as u128,
        }
    }

    /// The record after it was settled and all that was pending was paid out.
    pub open spec fn after_claim(self, acc_per_share: Decimal) -> UserInfo {
        UserInfo {
            stake_amount: self.stake_amount,
            pending_amount: 0,
            reward_debt: self.earned(acc_per_share) as u128,
        }
    }

    /// The reward that the account could claim now, where settling stays
    /// within 128 bits; `None` where it does not.
    pub fn checked_claimable(&self, acc_per_share: Decimal) -> (reward: Option<u128>)
        ensures
            reward == if self.settles(acc_per_share) {
                Some(self.claimable(acc_per_share) as u128)
            } else {
                None
            },
    {
        match checked_mul_floor(self.stake_amount, acc_per_share) {
            Some(earned) => match earned.checked_sub(self.reward_debt) {
                Some(accrued) => self.pending_amount.checked_add(accrued),
                None => None,
            },
            None => None,
        }
    }
}

impl LedgerView {
    /// The outcome of an operation that is rejected: nothing changes.
    pub open spec fn rejected(self, error: ContractError) -> Outcome {
        Outcome { ledger: self, result: Err(error) }
    }

    /// The arithmetic of a deposit of `amount` by `user` stays within 128 bits.
    pub open spec fn admits_deposit(self, user: Seq<char>, amount: u128) -> bool {
        let info = self.user_info(user);
        amount > 0 ==> {
            &&& info.settles(self.state.acc_per_share)
            &&& info.stake_amount + amount <= u128::MAX
            &&& mul_floor((info.stake_amount + amount) as u128, self.state.acc_per_share)
                <= u128::MAX
            &&& self.state.total_deposits + amount <= u128::MAX
        }
    }

    /// A deposit of `amount` by `user`: rejected where the amount is zero;
    /// else the account is settled, its stake and the pool's total grow by
    /// `amount`, and nothing is transferred.
    pub open spec fn deposit(self, user: Seq<char>, amount: u128) -> Outcome {
        if amount == 0 {
            self.rejected(ContractError::InvalidAmount)
        } else {
            let info = self.user_info(user).after_deposit(self.state.acc_per_share, amount);
            let state = State {
                total_deposits: (self.state.total_deposits + amount) as u128,
                ..self.state
            };
            Outcome {
                ledger: LedgerView { state, ..self.with_user_info(user, info) },
                result: Ok(ResponseView::event("deposit"@, amount)),
            }
        }
    }

    /// The arithmetic of a withdrawal of `amount` by `user` stays within 128
    /// bits, and the pool's total covers it.
    pub open spec fn admits_withdraw(self, user: Seq<char>, amount: u128) -> bool {
        let info = self.user_info(user);
        0 < amount <= info.stake_amount ==> {
            &&& info.settles(self.state.acc_per_share)
            &&& amount <= self.state.total_deposits
        }
    }

    /// A withdrawal of `amount` by `user`: rejected where the amount is zero
    /// or more than the account's stake; else the account is settled, its
    /// stake and the pool's total shrink by `amount`, and `amount` of the
    /// staking token is to be transferred to `user`.
    pub open spec fn withdraw(self, user: Seq<char>, amount: u128) -> Outcome {
        if amount == 0 {
            self.rejected(ContractError::InvalidAmount)
        } else if amount > self.user_info(user).stake_amount {
            self.rejected(ContractError::InsufficientStake)
        } else {
            let info = self.user_info(user).after_withdraw(self.state.acc_per_share, amount);
            let state = State {
                total_deposits: (self.state.total_deposits - amount) as u128,
                ..self.state
            };
            Outcome {
                ledger: LedgerView { state, ..self.with_user_info(user, info) },
                result: Ok(
                    ResponseView::event("withdraw"@, amount).transfer(
                        AssetInfoView::Token { contract_addr: self.config.staking_token },
                        amount,
                        user,
                    ),
                ),
            }
        }
    }

    /// The arithmetic of a claim by `user` stays within 128 bits.
    pub open spec fn admits_claim(self, user: Seq<char>) -> bool {
        self.user_info(user).settles(self.state.acc_per_share)
    }

    /// The reward that a claim by `user` would pay now.
    pub open spec fn reward_due(self, user: Seq<char>) -> int {
        self.user_info(user).claimable(self.state.acc_per_share)
    }

    /// A claim by `user`: rejected where no reward is due; else the account
    /// is settled, nothing is left pending, and all that was due is to be
    /// transferred to `user` in the reward asset.
    pub open spec fn claim(self, user: Seq<char>) -> Outcome {
        let reward = self.reward_due(user);
        if reward == 0 {
            self.rejected(ContractError::NothingToClaim)
        } else {
            let info = self.user_info(user).after_claim(self.state.acc_per_share);
            Outcome {
                ledger: self.with_user_info(user, info),
                result: Ok(
                    ResponseView::event("claim"@, reward as u128).transfer(
                        self.config.reward_asset_info,
                        reward as u128,
                        user,
                    ),
                ),
            }
        }
    }

    /// The funding would pass the checks on caller, amount and total.
    pub open spec fn fund_is_due(self, funder: Seq<char>, amount: u128) -> bool {
        funder == self.config.funder && amount > 0 && self.state.total_deposits > 0
    }

    /// The arithmetic of a funding of `amount` by `funder` stays within 128
    /// bits.
    pub open spec fn admits_fund(self, funder: Seq<char>, amount: u128) -> bool {
        self.fund_is_due(funder, amount) ==> self.state.acc_per_share.atomics + Decimal::ratio(
            amount,
            self.state.total_deposits,
        ) <= u128::MAX
    }

    /// A funding of `amount` by `funder`: rejected where the caller is not
    /// the funder, else where the amount is zero, else where nothing is
    /// staked; else the accumulator grows by `amount / total_deposits`,
    /// truncated to 18 fractional digits, and no account is touched.
    pub open spec fn fund(self, funder: Seq<char>, amount: u128) -> Outcome {
        if funder != self.config.funder {
            self.rejected(ContractError::Unauthorized)
        } else if amount == 0 {
            self.rejected(ContractError::InvalidAmount)
        } else if self.state.total_deposits == 0 {
            self.rejected(ContractError::NoDeposits)
        } else {
            let acc_per_share = Decimal {
                atomics: (self.state.acc_per_share.atomics + Decimal::ratio(
                    amount,
                    self.state.total_deposits,
                )) as u128,
            };
            Outcome {
                ledger: LedgerView { state: State { acc_per_share, ..self.state }, ..self },
                result: Ok(ResponseView::event("fund"@, amount)),
            }
        }
    }

    /// An update of the configuration by `sender`: rejected where the caller
    /// is not the governance; else each identity that is given replaces the
    /// one that is there.
    pub open spec fn update_config(
        self,
        sender: Seq<char>,
        governance: Option<Seq<char>>,
        funder: Option<Seq<char>>,
    ) -> Outcome {
        if sender != self.config.governance {
            self.rejected(ContractError::Unauthorized)
        } else {
            let config = ConfigView {
                governance: match governance {
                    Some(identity) => identity,
                    None => self.config.governance,
                },
                funder: match funder {
                    Some(identity) => identity,
                    None => self.config.funder,
                },
                ..self.config
            };
            Outcome {
                ledger: LedgerView { config, ..self },
                result: Ok(ResponseView::empty().attribute("action"@, "update_config"@)),
            }
        }
    }
}

/// Tests `admits_deposit`.
pub fn can_deposit(ledger: &Ledger, user: &String, amount: u128) -> (ok: bool)
    ensures
        ok == ledger@.admits_deposit(user@, amount),
{
    if amount == 0 {
        return true;
    }
    let acc_per_share = ledger.state.acc_per_share;
    let info = ledger.user_info(user);
    if info.checked_claimable(acc_per_share).is_none() {
        return false;
    }
    match info.stake_amount.checked_add(amount) {
        Some(stake_amount) => {
            checked_mul_floor(stake_amount, acc_per_share).is_some()
                && ledger.state.total_deposits.checked_add(amount).is_some()
        },
        None => false,
    }
}

/// Settles the account of `user` and adds `amount` to its stake and to the
/// pool's total. Records a balance that the pool has already received:
/// nothing is transferred.
pub fn deposit(ledger: &mut Ledger, user: String, amount: u128) -> (res: Result<
    Response,
    ContractError,
>)
    requires
        old(ledger)@.admits_deposit(user@, amount),
    ensures
        final(ledger)@ == old(ledger)@.deposit(user@, amount).ledger,
        result_view(res) == old(ledger)@.deposit(user@, amount).result,
        res is Err ==> final(ledger)@ == old(ledger)@,
        res is Ok ==> final(ledger)@.user_info(user@) == old(ledger)@.user_info(
            user@,
        ).after_deposit(old(ledger)@.state.acc_per_share, amount),
        res is Ok ==> final(ledger)@.user_info(user@).settled(final(ledger)@.state.acc_per_share),
        forall|other: Seq<char>|
            other != user@ ==> #[trigger] final(ledger)@.user_info(other) == old(
                ledger,
            )@.user_info(other),
        final(ledger)@.state.acc_per_share == old(ledger)@.state.acc_per_share,
{
    if amount == 0 {
        return Err(ContractError::InvalidAmount);
    }
    let acc_per_share = ledger.state.acc_per_share;
    let mut user_info = ledger.user_info(&user);
    let new_reward: u128 = times(user_info.stake_amount, acc_per_share) - user_info.reward_debt;
    user_info.pending_amount = user_info.pending_amount + new_reward;
    user_info.stake_amount = user_info.stake_amount + amount;
    user_info.reward_debt = times(user_info.stake_amount, acc_per_share);
    let ghost owner = user@;
    ledger.save_user_info(user, user_info);
    ledger.state.total_deposits = ledger.state.total_deposits + amount;
    proof {
        assert forall|other: Seq<char>| other != owner implies #[trigger] ledger@.user_info(other)
            == old(ledger)@.user_info(other) by {
            lemma_upsert_lookup(old(ledger)@.accounts, owner, user_info, other);
        }
    }
    Ok(Response::event("deposit", amount))
}

/// Tests `admits_withdraw`.
pub fn can_withdraw(ledger: &Ledger, user: &String, amount: u128) -> (ok: bool)
    ensures
        ok == ledger@.admits_withdraw(user@, amount),
{
    let info = ledger.user_info(user);
    if amount == 0 || amount > info.stake_amount {
        return true;
    }
    info.checked_claimable(ledger.state.acc_per_share).is_some() && amount
        <= ledger.state.total_deposits
}

/// Settles the account of `user`, takes `amount` from its stake and from the
/// pool's total, and asks for the transfer of `amount` of the staking token
/// to `user`.
pub fn withdraw(ledger: &mut Ledger, user: String, amount: u128) -> (res: Result<
    Response,
    ContractError,
>)
    requires
        old(ledger)@.admits_withdraw(user@, amount),
    ensures
        final(ledger)@ == old(ledger)@.withdraw(user@, amount).ledger,
        result_view(res) == old(ledger)@.withdraw(user@, amount).result,
        res is Err ==> final(ledger)@ == old(ledger)@,
        res is Ok ==> final(ledger)@.user_info(user@) == old(ledger)@.user_info(
            user@,
        ).after_withdraw(old(ledger)@.state.acc_per_share, amount),
        res is Ok ==> final(ledger)@.user_info(user@).settled(final(ledger)@.state.acc_per_share),
        forall|other: Seq<char>|
            other != user@ ==> #[trigger] final(ledger)@.user_info(other) == old(
                ledger,
            )@.user_info(other),
        final(ledger)@.state.acc_per_share == old(ledger)@.state.acc_per_share,
{
    if amount == 0 {
        return Err(ContractError::InvalidAmount);
    }
    let acc_per_share = ledger.state.acc_per_share;
    let mut user_info = ledger.user_info(&user);
    if amount > user_info.stake_amount {
        return Err(ContractError::InsufficientStake);
    }
    let new_reward: u128 = times(user_info.stake_amount, acc_per_share) - user_info.reward_debt;
    user_info.pending_amount = user_info.pending_amount + new_reward;
    proof {
        lemma_mul_floor_monotone_amount(
            (user_info.stake_amount - amount) as u128,
            user_info.stake_amount,
            acc_per_share,
        );
    }
    user_info.stake_amount = user_info.stake_amount - amount;
    user_info.reward_debt = times(user_info.stake_amount, acc_per_share);
    let asset = Asset {
        info: AssetInfo::Token { contract_addr: ledger.config.staking_token.clone() },
        amount,
    };
    let mut response = Response::event("withdraw", amount);
    response.add_message(Transfer { asset, recipient: user.clone() });
    let ghost owner = user@;
    ledger.save_user_info(user, user_info);
    ledger.state.total_deposits = ledger.state.total_deposits - amount;
    proof {
        assert forall|other: Seq<char>| other != owner implies #[trigger] ledger@.user_info(other)
            == old(ledger)@.user_info(other) by {
            lemma_upsert_lookup(old(ledger)@.accounts, owner, user_info, other);
        }
    }
    Ok(response)
}

/// Tests `admits_claim`.
pub fn can_claim(ledger: &Ledger, user: &String) -> (ok: bool)
    ensures
        ok == ledger@.admits_claim(user@),
{
    ledger.user_info(user).checked_claimable(ledger.state.acc_per_share).is_some()
}

/// Settles the account of `user` and asks for the transfer of all that is
/// due to it, in the reward asset. Where nothing is due the claim is
/// rejected and the pool stays as it was.
pub fn claim(ledger: &mut Ledger, user: String) -> (res: Result<Response, ContractError>)
    requires
        old(ledger)@.admits_claim(user@),
    ensures
        final(ledger)@ == old(ledger)@.claim(user@).ledger,
        result_view(res) == old(ledger)@.claim(user@).result,
        res is Err ==> final(ledger)@ == old(ledger)@,
        res is Ok ==> final(ledger)@.user_info(user@) == old(ledger)@.user_info(
            user@,
        ).after_claim(old(ledger)@.state.acc_per_share),
        res is Ok ==> final(ledger)@.user_info(user@).settled(final(ledger)@.state.acc_per_share),
        forall|other: Seq<char>|
            other != user@ ==> #[trigger] final(ledger)@.user_info(other) == old(
                ledger,
            )@.user_info(other),
        final(ledger)@.state == old(ledger)@.state,
{
    let acc_per_share = ledger.state.acc_per_share;
    let mut user_info = ledger.user_info(&user);
    let new_reward: u128 = times(user_info.stake_amount, acc_per_share) - user_info.reward_debt;
    let pending_reward: u128 = user_info.pending_amount + new_reward;
    user_info.pending_amount = 0;
    user_info.reward_debt = times(user_info.stake_amount, acc_per_share);
    if pending_reward == 0 {
        return Err(ContractError::NothingToClaim);
    }
    let asset = Asset { info: ledger.config.reward_asset_info.clone(), amount: pending_reward };
    let mut response = Response::event("claim", pending_reward);
    response.add_message(Transfer { asset, recipient: user.clone() });
    ledger.save_user_info(user, user_info);
    Ok(response)
}

/// Tests `admits_fund`.
pub fn can_fund(ledger: &Ledger, funder: &String, amount: u128) -> (ok: bool)
    ensures
        ok == ledger@.admits_fund(funder@, amount),
{
    if ledger.config.funder != *funder || amount == 0 || ledger.state.total_deposits == 0 {
        return true;
    }
    match Decimal::checked_from_ratio(amount, ledger.state.total_deposits) {
        Some(share) => ledger.state.acc_per_share.checked_add(share).is_some(),
        None => false,
    }
}

/// Distributes `amount` over all that is staked: the accumulator grows by
/// `amount / total_deposits`. Only the funder may do so, the amount must not
/// be zero, and something must be staked.
pub fn fund(ledger: &mut Ledger, funder: String, amount: u128) -> (res: Result<
    Response,
    ContractError,
>)
    requires
        old(ledger)@.admits_fund(funder@, amount),
    ensures
        final(ledger)@ == old(ledger)@.fund(funder@, amount).ledger,
        result_view(res) == old(ledger)@.fund(funder@, amount).result,
        res is Err ==> final(ledger)@ == old(ledger)@,
        final(ledger)@.state.acc_per_share.atomics >= old(ledger)@.state.acc_per_share.atomics,
        final(ledger)@.accounts == old(ledger)@.accounts,
{
    if ledger.config.funder != funder {
        return Err(ContractError::Unauthorized);
    }
    if amount == 0 {
        return Err(ContractError::InvalidAmount);
    }
    if ledger.state.total_deposits == 0 {
        return Err(ContractError::NoDeposits);
    }
    let share = Decimal::from_ratio(amount, ledger.state.total_deposits);
    ledger.state.acc_per_share = Decimal {
        atomics: ledger.state.acc_per_share.atomics + share.atomics,
    };
    Ok(Response::event("fund", amount))
}

/// Replaces the governance, the funder, or both. Only the governance may do
/// so.
pub fn update_config(
    ledger: &mut Ledger,
    sender: String,
    governance: Option<String>,
    funder: Option<String>,
) -> (res: Result<Response, ContractError>)
    ensures
        final(ledger)@ == old(ledger)@.update_config(
            sender@,
            text_of(governance),
            text_of(funder),
        ).ledger,
        result_view(res) == old(ledger)@.update_config(
            sender@,
            text_of(governance),
            text_of(funder),
        ).result,
        res is Err ==> final(ledger)@ == old(ledger)@,
        final(ledger)@.state == old(ledger)@.state,
        final(ledger)@.accounts == old(ledger)@.accounts,
{
    if ledger.config.governance != sender {
        return Err(ContractError::Unauthorized);
    }
    if let Some(governance) = governance {
        ledger.config.governance = governance;
    }
    if let Some(funder) = funder {
        ledger.config.funder = funder;
    }
    let mut response = Response::new();
    response.add_attribute("action", "update_config".to_owned());
    Ok(response)
}

} // verus!
