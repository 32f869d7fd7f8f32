//! What holds of the pool beyond a single operation: over every history the
//! total is the sum of the stakes, the accumulator never falls and no account
//! is credited with more than it earned; a call reads and changes one account
//! at most; a claim leaves nothing to claim; and a sole staker is paid the
//! whole reward up to rounding.

use vstd::prelude::*;
use vstd::arithmetic::div_mod::{lemma_div_multiples_vanish_fancy, lemma_fundamental_div_mod};
use crate::decimal::{
    lemma_mul_floor_monotone, lemma_mul_floor_monotone_amount, lemma_ratio_floor_monotone,
    DECIMAL_FRACTIONAL,
};
use crate::error::ContractError;
use crate::response::ResponseView;
use crate::reward_pool::{Cw20HookMsg, ExecuteMsg, InstantiateMsg, MessageInfo};
use crate::state::{
    knows, lemma_known_has_first, lemma_upsert_distinct, lemma_upsert_entries,
    lemma_upsert_lookup, lemma_upsert_sum_stakes, LedgerView, UserInfo,
};

verus! {

/// One call to the pool: who makes it, with what funds, and what it asks for.
pub struct Call {
    pub info: MessageInfo,
    pub msg: ExecuteMsg,
}

impl LedgerView {
    /// The pool after `calls`, each carried out on what the calls before it
    /// left behind. A call whose arithmetic the pool does not admit is not
    /// carried out and leaves the pool as it was.
    pub open spec fn after(self, calls: Seq<Call>) -> LedgerView
        decreases calls.len(),
    {
        if calls.len() == 0 {
            self
        } else {
            let before = self.after(calls.drop_last());
            if before.admits(calls.last().info, calls.last().msg) {
                before.execute(calls.last().info, calls.last().msg).ledger
            } else {
                before
            }
        }
    }

    /// No account is credited with more than its stake has earned: settling
    /// any account finds a reward that is not negative.
    pub open spec fn covered(self) -> bool {
        forall|i: int|
            0 <= i < self.accounts.len() ==> (#[trigger] self.accounts[i]).info.reward_debt
                <= self.accounts[i].info.earned(self.state.acc_per_share)
    }
}

/// A pool as it is created has a total that is the sum of its accounts'
/// stakes, and no account that is credited with more than it earned: it has
/// no accounts.
pub proof fn lemma_created_pool_is_sound(msg: InstantiateMsg)
    ensures
        LedgerView::created(msg).balanced(),
        LedgerView::created(msg).covered(),
{
}

/// In a pool where no account is credited with more than it earned, that
/// holds of the record of every user, of those without an account too.
pub proof fn lemma_covered_user(ledger: LedgerView, user: Seq<char>)
    requires
        ledger.covered(),
    ensures
        ledger.user_info(user).reward_debt <= ledger.user_info(user).earned(
            ledger.state.acc_per_share,
        ),
{
    if knows(ledger.accounts, user) {
        lemma_known_has_first(ledger.accounts, user);
    } else {
        lemma_mul_floor_monotone_amount(0, 0, ledger.state.acc_per_share);
    }
}

/// Writing a settled record keeps every account within its earnings.
proof fn lemma_settled_record_keeps_cover(ledger: LedgerView, user: Seq<char>, info: UserInfo)
    requires
        ledger.covered(),
        info.reward_debt <= info.earned(ledger.state.acc_per_share),
    ensures
        ledger.with_user_info(user, info).covered(),
{
    let after = ledger.with_user_info(user, info);
    assert forall|i: int| 0 <= i < after.accounts.len() implies (
    #[trigger] after.accounts[i]).info.reward_debt <= after.accounts[i].info.earned(
        after.state.acc_per_share,
    ) by {
        lemma_upsert_entries(ledger.accounts, user, info, i);
    }
}

/// Whatever the call, a pool in which no account is credited with more than
/// it earned is one afterwards: the account that a call touches is settled,
/// and a funding only raises what the others have earned.
pub proof fn lemma_call_keeps_cover(ledger: LedgerView, info: MessageInfo, msg: ExecuteMsg)
    requires
        ledger.covered(),
        ledger.admits(info, msg),
    ensures
        ledger.execute(info, msg).ledger.covered(),
{
    let acc_per_share = ledger.state.acc_per_share;
    let after = ledger.execute(info, msg).ledger;
    if after.accounts != ledger.accounts {
        let user = match LedgerView::touched(info, msg) {
            Some(user) => user,
            None => info.sender@,
        };
        let amount = match msg {
            ExecuteMsg::Receive(cw20_msg) => cw20_msg.amount,
            ExecuteMsg::Withdraw { amount } => amount,
            _ => 0,
        };
        let before = ledger.user_info(user);
        let written = after.user_info(user);
        let deposited = before.after_deposit(acc_per_share, amount);
        let withdrawn = before.after_withdraw(acc_per_share, amount);
        let claimed = before.after_claim(acc_per_share);
        lemma_upsert_lookup(ledger.accounts, user, deposited, user);
        lemma_upsert_lookup(ledger.accounts, user, withdrawn, user);
        lemma_upsert_lookup(ledger.accounts, user, claimed, user);
        if 0 < amount <= before.stake_amount {
            lemma_mul_floor_monotone_amount(
                (before.stake_amount - amount) as u128,
                before.stake_amount,
                acc_per_share,
            );
        }
        lemma_settled_record_keeps_cover(ledger, user, written);
    } else {
        lemma_call_keeps_acc_per_share(ledger, info, msg);
        assert forall|i: int| 0 <= i < after.accounts.len() implies (
        #[trigger] after.accounts[i]).info.reward_debt <= after.accounts[i].info.earned(
            after.state.acc_per_share,
        ) by {
            lemma_mul_floor_monotone(
                ledger.accounts[i].info.stake_amount,
                acc_per_share,
                after.state.acc_per_share,
            );
        }
    }
}

/// Over any sequence of calls, no account comes to be credited with more
/// than its stake has earned.
pub proof fn lemma_no_account_is_credited_beyond_its_earnings(
    ledger: LedgerView,
    calls: Seq<Call>,
)
    requires
        ledger.covered(),
    ensures
        ledger.after(calls).covered(),
    decreases calls.len(),
{
    if calls.len() > 0 {
        lemma_no_account_is_credited_beyond_its_earnings(ledger, calls.drop_last());
        let before = ledger.after(calls.drop_last());
        if before.admits(calls.last().info, calls.last().msg) {
            lemma_call_keeps_cover(before, calls.last().info, calls.last().msg);
        }
    }
}

/// A call that is rejected leaves the pool as it was.
pub proof fn lemma_rejected_call_changes_nothing(
    ledger: LedgerView,
    info: MessageInfo,
    msg: ExecuteMsg,
)
    requires
        ledger.execute(info, msg).result is Err,
    ensures
        ledger.execute(info, msg).ledger == ledger,
{
}

/// A call changes the record of no account but the one it touches.
pub proof fn lemma_call_changes_one_account(
    ledger: LedgerView,
    info: MessageInfo,
    msg: ExecuteMsg,
    other: Seq<char>,
)
    requires
        Some(other) != LedgerView::touched(info, msg),
    ensures
        ledger.execute(info, msg).ledger.user_info(other) == ledger.user_info(other),
{
    match LedgerView::touched(info, msg) {
        Some(user) => {
            let acc_per_share = ledger.state.acc_per_share;
            let before = ledger.user_info(user);
            let amount = match msg {
                ExecuteMsg::Receive(cw20_msg) => cw20_msg.amount,
                ExecuteMsg::Withdraw { amount } => amount,
                _ => 0,
            };
            let deposited = before.after_deposit(acc_per_share, amount);
            let withdrawn = before.after_withdraw(acc_per_share, amount);
            let claimed = before.after_claim(acc_per_share);
            lemma_upsert_lookup(ledger.accounts, user, deposited, other);
            lemma_upsert_lookup(ledger.accounts, user, withdrawn, other);
            lemma_upsert_lookup(ledger.accounts, user, claimed, other);
        },
        None => {},
    }
}

/// What a call answers, what it makes of the configuration and of the
/// accumulator, and what it makes of the account it touches depend on the
/// configuration, the accumulator and that one account alone: two pools that
/// agree on these answer alike and agree on them afterwards.
pub proof fn lemma_call_reads_one_account(
    one: LedgerView,
    two: LedgerView,
    info: MessageInfo,
    msg: ExecuteMsg,
)
    requires
        one.config == two.config,
        one.state == two.state,
        LedgerView::touched(info, msg) matches Some(user) ==> one.user_info(user)
            == two.user_info(user),
    ensures
        one.admits(info, msg) == two.admits(info, msg),
        one.execute(info, msg).result == two.execute(info, msg).result,
        one.execute(info, msg).ledger.config == two.execute(info, msg).ledger.config,
        one.execute(info, msg).ledger.state == two.execute(info, msg).ledger.state,
        LedgerView::touched(info, msg) matches Some(user) ==> one.execute(
            info,
            msg,
        ).ledger.user_info(user) == two.execute(info, msg).ledger.user_info(user),
{
    match LedgerView::touched(info, msg) {
        Some(user) => {
            let acc_per_share = one.state.acc_per_share;
            let before = one.user_info(user);
            let amount = match msg {
                ExecuteMsg::Receive(cw20_msg) => cw20_msg.amount,
                ExecuteMsg::Withdraw { amount } => amount,
                _ => 0,
            };
            let deposited = before.after_deposit(acc_per_share, amount);
            let withdrawn = before.after_withdraw(acc_per_share, amount);
            let claimed = before.after_claim(acc_per_share);
            lemma_upsert_lookup(one.accounts, user, deposited, user);
            lemma_upsert_lookup(two.accounts, user, deposited, user);
            lemma_upsert_lookup(one.accounts, user, withdrawn, user);
            lemma_upsert_lookup(two.accounts, user, withdrawn, user);
            lemma_upsert_lookup(one.accounts, user, claimed, user);
            lemma_upsert_lookup(two.accounts, user, claimed, user);
        },
        None => {},
    }
}

/// A deposit keeps the total equal to the sum of the stakes.
pub proof fn lemma_deposit_keeps_balance(ledger: LedgerView, user: Seq<char>, amount: u128)
    requires
        ledger.balanced(),
        ledger.admits_deposit(user, amount),
    ensures
        ledger.deposit(user, amount).ledger.balanced(),
{
    if amount > 0 {
        let info = ledger.user_info(user).after_deposit(ledger.state.acc_per_share, amount);
        lemma_upsert_distinct(ledger.accounts, user, info);
        lemma_upsert_sum_stakes(ledger.accounts, user, info);
    }
}

/// A withdrawal keeps the total equal to the sum of the stakes.
pub proof fn lemma_withdraw_keeps_balance(ledger: LedgerView, user: Seq<char>, amount: u128)
    requires
        ledger.balanced(),
        ledger.admits_withdraw(user, amount),
    ensures
        ledger.withdraw(user, amount).ledger.balanced(),
{
    if 0 < amount <= ledger.user_info(user).stake_amount {
        let info = ledger.user_info(user).after_withdraw(ledger.state.acc_per_share, amount);
        lemma_upsert_distinct(ledger.accounts, user, info);
        lemma_upsert_sum_stakes(ledger.accounts, user, info);
    }
}

/// A claim keeps the total equal to the sum of the stakes.
pub proof fn lemma_claim_keeps_balance(ledger: LedgerView, user: Seq<char>)
    requires
        ledger.balanced(),
    ensures
        ledger.claim(user).ledger.balanced(),
{
    let info = ledger.user_info(user).after_claim(ledger.state.acc_per_share);
    lemma_upsert_distinct(ledger.accounts, user, info);
    lemma_upsert_sum_stakes(ledger.accounts, user, info);
}

/// Whatever the call, a pool whose total is the sum of its accounts' stakes
/// is one afterwards.
pub proof fn lemma_call_keeps_balance(ledger: LedgerView, info: MessageInfo, msg: ExecuteMsg)
    requires
        ledger.balanced(),
        ledger.admits(info, msg),
    ensures
        ledger.execute(info, msg).ledger.balanced(),
{
    match msg {
        ExecuteMsg::Receive(cw20_msg) => {
            match cw20_msg.msg {
                Cw20HookMsg::Deposit {  } => {
                    if ledger.config.staking_token == info.sender@ {
                        lemma_deposit_keeps_balance(ledger, cw20_msg.sender@, cw20_msg.amount);
                    }
                },
                Cw20HookMsg::Fund {  } => {},
            }
        },
        ExecuteMsg::Withdraw { amount } => {
            lemma_withdraw_keeps_balance(ledger, info.sender@, amount);
        },
        ExecuteMsg::Claim {  } => {
            lemma_claim_keeps_balance(ledger, info.sender@);
        },
        ExecuteMsg::Fund {  } => {},
        ExecuteMsg::UpdateConfig { .. } => {},
    }
}

/// Over any sequence of calls, deposits and withdrawals among them, the
/// pool's total stays the sum of the stakes of all its accounts.
pub proof fn lemma_total_deposits_is_sum_of_stakes(ledger: LedgerView, calls: Seq<Call>)
    requires
        ledger.balanced(),
    ensures
        ledger.after(calls).balanced(),
    decreases calls.len(),
{
    if calls.len() > 0 {
        lemma_total_deposits_is_sum_of_stakes(ledger, calls.drop_last());
        let before = ledger.after(calls.drop_last());
        if before.admits(calls.last().info, calls.last().msg) {
            lemma_call_keeps_balance(before, calls.last().info, calls.last().msg);
        }
    }
}

/// No call makes the accumulator fall.
pub proof fn lemma_call_keeps_acc_per_share(ledger: LedgerView, info: MessageInfo, msg: ExecuteMsg)
    requires
        ledger.admits(info, msg),
    ensures
        ledger.execute(info, msg).ledger.state.acc_per_share.atomics
            >= ledger.state.acc_per_share.atomics,
{
    let total = ledger.state.total_deposits;
    match msg {
        ExecuteMsg::Receive(cw20_msg) => {
            if total > 0 {
                lemma_ratio_floor_monotone(
                    cw20_msg.amount as int,
                    0,
                    DECIMAL_FRACTIONAL as int,
                    total as int,
                );
            }
        },
        ExecuteMsg::Fund {  } => {
            match ledger.config.received_native_fund(info.funds@) {
                Ok(amount) => {
                    if total > 0 {
                        lemma_ratio_floor_monotone(
                            amount as int,
                            0,
                            DECIMAL_FRACTIONAL as int,
                            total as int,
                        );
                    }
                },
                Err(_) => {},
            }
        },
        _ => {},
    }
}

/// Over any sequence of calls, the accumulator never falls.
pub proof fn lemma_acc_per_share_never_decreases(ledger: LedgerView, calls: Seq<Call>)
    ensures
        ledger.after(calls).state.acc_per_share.atomics >= ledger.state.acc_per_share.atomics,
    decreases calls.len(),
{
    if calls.len() > 0 {
        lemma_acc_per_share_never_decreases(ledger, calls.drop_last());
        let before = ledger.after(calls.drop_last());
        if before.admits(calls.last().info, calls.last().msg) {
            lemma_call_keeps_acc_per_share(before, calls.last().info, calls.last().msg);
        }
    }
}

/// Right after a deposit, a withdrawal or a claim that was carried out, the
/// account it touched is settled: its `reward_debt` is its stake times the
/// accumulator.
pub proof fn lemma_touched_account_is_settled(ledger: LedgerView, user: Seq<char>, amount: u128)
    ensures
        ledger.admits_deposit(user, amount) && ledger.deposit(user, amount).result is Ok
            ==> ledger.deposit(user, amount).ledger.user_info(user).settled(
            ledger.state.acc_per_share,
        ),
        ledger.admits_withdraw(user, amount) && ledger.withdraw(user, amount).result is Ok
            ==> ledger.withdraw(user, amount).ledger.user_info(user).settled(
            ledger.state.acc_per_share,
        ),
        ledger.admits_claim(user) && ledger.claim(user).result is Ok ==> ledger.claim(
            user,
        ).ledger.user_info(user).settled(ledger.state.acc_per_share),
{
    let acc_per_share = ledger.state.acc_per_share;
    let before = ledger.user_info(user);
    let deposited = before.after_deposit(acc_per_share, amount);
    let withdrawn = before.after_withdraw(acc_per_share, amount);
    let claimed = before.after_claim(acc_per_share);
    lemma_upsert_lookup(ledger.accounts, user, deposited, user);
    lemma_upsert_lookup(ledger.accounts, user, withdrawn, user);
    lemma_upsert_lookup(ledger.accounts, user, claimed, user);
    if 0 < amount <= before.stake_amount {
        lemma_mul_floor_monotone_amount(
            (before.stake_amount - amount) as u128,
            before.stake_amount,
            acc_per_share,
        );
    }
}

/// A claim that follows a claim by the same account, with nothing between
/// them, finds nothing to pay: it is rejected and changes nothing.
pub proof fn lemma_second_claim_is_rejected(ledger: LedgerView, user: Seq<char>)
    requires
        ledger.admits_claim(user),
    ensures
        ledger.claim(user).ledger.admits_claim(user),
        ledger.claim(user).ledger.claim(user).result == Err::<ResponseView, ContractError>(
            ContractError::NothingToClaim,
        ),
        ledger.claim(user).ledger.claim(user).ledger == ledger.claim(user).ledger,
{
    let info = ledger.user_info(user).after_claim(ledger.state.acc_per_share);
    lemma_upsert_lookup(ledger.accounts, user, info, user);
}

/// Crediting `stake` with a share of `reward / stake` on top of the share
/// `before` pays out `reward` less what the two truncations lose, and all of
/// `reward` exactly where the rest of `stake × before` covers the rest of
/// `reward × 10^18 / stake`.
pub proof fn lemma_whole_reward_arithmetic(stake: int, before: int, reward: int)
    requires
        0 < stake,
        0 <= before,
        0 <= reward,
    ensures
        ({
            let unit = DECIMAL_FRACTIONAL as int;
            let share = reward * unit / stake;
            let paid = stake * (before + share) / unit - stake * before / unit;
            &&& paid <= reward
            &&& paid == reward <==> (stake * before) % unit >= (reward * unit) % stake
        }),
{
    let unit = DECIMAL_FRACTIONAL as int;
    let share = reward * unit / stake;
    let lost = (reward * unit) % stake;
    let whole = stake * before / unit;
    let rest = (stake * before) % unit;
    assert(0 <= reward * unit) by (nonlinear_arith)
        requires
            0 <= reward,
            0 <= unit,
    ;
    assert(0 <= stake * before) by (nonlinear_arith)
        requires
            0 <= stake,
            0 <= before,
    ;
    lemma_fundamental_div_mod(reward * unit, stake);
    lemma_fundamental_div_mod(stake * before, unit);
    assert(stake * (before + share) == unit * (whole + reward) + (rest - lost))
        by (nonlinear_arith)
        requires
            reward * unit == stake * share + lost,
            stake * before == unit * whole + rest,
    ;
    if rest >= lost {
        lemma_div_multiples_vanish_fancy(whole + reward, rest - lost, unit);
    } else {
        lemma_fundamental_div_mod(stake * (before + share), unit);
        let quotient = stake * (before + share) / unit;
        let remainder = (stake * (before + share)) % unit;
        assert(quotient < whole + reward) by (nonlinear_arith)
            requires
                unit * quotient + remainder == unit * (whole + reward) + (rest - lost),
                0 <= remainder,
                rest - lost < 0,
                0 < unit,
        ;
    }
}

/// A sole staker is paid the whole reward, up to rounding. An account that
/// was empty deposits `deposit`, which is then all that the pool holds; the
/// funder injects `reward`; the account claims. What it is due is never more
/// than `reward`, and it is `reward` exactly where no rounding is lost: where
/// the rest of `deposit × acc_per_share` at the time of the deposit covers
/// the rest of `reward × 10^18 / deposit`; so always where `deposit` divides
/// `reward × 10^18`. The claim then asks for the transfer of `reward`.
pub proof fn lemma_sole_staker_is_paid_the_whole_reward(
    ledger: LedgerView,
    user: Seq<char>,
    deposit: u128,
    reward: u128,
)
    requires
        ledger.user_info(user) == UserInfo::zero(),
        deposit > 0,
        reward > 0,
        ledger.admits_deposit(user, deposit),
        ledger.deposit(user, deposit).ledger.state.total_deposits == deposit,
        ledger.deposit(user, deposit).ledger.admits_fund(ledger.config.funder, reward),
        ledger.deposit(user, deposit).ledger.fund(ledger.config.funder, reward).ledger.admits_claim(
            user,
        ),
    ensures
        ({
            let funded = ledger.deposit(user, deposit).ledger.fund(
                ledger.config.funder,
                reward,
            ).ledger;
            let unit = DECIMAL_FRACTIONAL as int;
            let exact = (deposit * ledger.state.acc_per_share.atomics) % unit >= (reward * unit)
                % (deposit as int);
            &&& funded.reward_due(user) <= reward
            &&& funded.reward_due(user) == reward <==> exact
            &&& (reward * unit) % (deposit as int) == 0 ==> exact
            &&& exact ==> funded.claim(user).result == Ok::<ResponseView, ContractError>(
                ResponseView::event("claim"@, reward).transfer(
                    ledger.config.reward_asset_info,
                    reward,
                    user,
                ),
            )
        }),
{
    let acc_per_share = ledger.state.acc_per_share;
    let deposited = ledger.deposit(user, deposit).ledger;
    let info = ledger.user_info(user).after_deposit(acc_per_share, deposit);
    lemma_upsert_lookup(ledger.accounts, user, info, user);
    let funded = deposited.fund(ledger.config.funder, reward).ledger;
    lemma_whole_reward_arithmetic(deposit as int, acc_per_share.atomics as int, reward as int);
}

} // verus!
