//! The records that the pool keeps: its configuration, the shared
//! accumulator, and one record per account.

use vstd::prelude::*;
use crate::decimal::{mul_floor, Decimal};
use crate::reward_pool::{AssetInfo, AssetInfoView, State};

verus! {

/// Who may do what, and which assets the pool deals in.
#[derive(Clone, Debug, PartialEq, Eq)]
pub struct Config {
    /// May replace `governance` and `funder`.
    pub governance: String,
    /// May inject rewards.
    pub funder: String,
    /// The token contract whose tokens are staked.
    pub staking_token: String,
    /// The asset that rewards are paid in.
    pub reward_asset_info: AssetInfo,
}

/// What a `Config` stands for in contracts.
pub struct ConfigView {
    pub governance: Seq<char>,
    pub funder: Seq<char>,
    pub staking_token: Seq<char>,
    pub reward_asset_info: AssetInfoView,
}

impl View for Config {
    type V = ConfigView;

    open spec fn view(&self) -> ConfigView {
        ConfigView {
            governance: self.governance@,
            funder: self.funder@,
            staking_token: self.staking_token@,
            reward_asset_info: self.reward_asset_info@,
        }
    }
}

/// One account's record. An account without a record is an account whose
/// record is all zero.
#[derive(Clone, Copy, Debug, PartialEq, Eq, Structural)]
pub struct UserInfo {
    /// The stake that the account holds now.
    pub stake_amount: u128,
    /// Reward credited to the account and not yet claimed.
    pub pending_amount: u128,
    /// `stake_amount × acc_per_share` as it was when the account was last
    /// settled: the part of the accumulator already credited.
    pub reward_debt: u128,
}

impl Default for UserInfo {
    fn default() -> (info: UserInfo)
        ensures
            info == UserInfo::zero(),
    {
        UserInfo { stake_amount: 0, pending_amount: 0, reward_debt: 0 }
    }
}

impl UserInfo {
    /// The record of an account that has never been touched.
    pub open spec fn zero() -> UserInfo {
        UserInfo { stake_amount: 0, pending_amount: 0, reward_debt: 0 }
    }

    /// Everything the current stake has earned since the pool began.
    pub open spec fn earned(self, acc_per_share: Decimal) -> int {
        mul_floor(self.stake_amount, acc_per_share)
    }

    /// The reward earned since the last settlement.
    pub open spec fn accrued(self, acc_per_share: Decimal) -> int {
        self.earned(acc_per_share) - self.reward_debt
    }

    /// The reward that the account could claim now: what is pending plus
    /// what has accrued since.
    pub open spec fn claimable(self, acc_per_share: Decimal) -> int {
        self.pending_amount + self.accrued(acc_per_share)
    }

    /// The record is settled: all that the stake has earned is credited.
    pub open spec fn settled(self, acc_per_share: Decimal) -> bool {
        self.reward_debt == self.earned(acc_per_share)
    }
}

/// An account: the identity of its owner and its record.
#[derive(Clone, Debug, PartialEq, Eq)]
pub struct Account {
    pub user: String,
    pub info: UserInfo,
}

/// What an `Account` stands for in contracts.
pub struct AccountView {
    pub user: Seq<char>,
    pub info: UserInfo,
}

impl View for Account {
    type V = AccountView;

    open spec fn view(&self) -> AccountView {
        AccountView { user: self.user@, info: self.info }
    }
}

/// `user` owns one of `accounts`.
pub open spec fn knows(accounts: Seq<AccountView>, user: Seq<char>) -> bool {
    exists|i: int| 0 <= i < accounts.len() && (#[trigger] accounts[i]).user == user
}

/// `i` is the place of the first of `accounts` that `user` owns.
pub open spec fn is_first(accounts: Seq<AccountView>, user: Seq<char>, i: int) -> bool {
    &&& 0 <= i < accounts.len()
    &&& accounts[i].user == user
    &&& forall|j: int| 0 <= j < i ==> (#[trigger] accounts[j]).user != user
}

/// The place of the first of `accounts` that `user` owns, where there is one.
pub open spec fn position(accounts: Seq<AccountView>, user: Seq<char>) -> int {
    choose|i: int| is_first(accounts, user, i)
}

/// The record of `user`: all zero where `user` owns none of `accounts`.
pub open spec fn lookup(accounts: Seq<AccountView>, user: Seq<char>) -> UserInfo {
    if knows(accounts, user) {
        accounts[position(accounts, user)].info
    } else {
        UserInfo::zero()
    }
}

/// `accounts` with the record of `user` replaced by `info`, or with a new
/// account at the end where `user` had none.
pub open spec fn upsert(accounts: Seq<AccountView>, user: Seq<char>, info: UserInfo) -> Seq<
    AccountView,
> {
    if knows(accounts, user) {
        accounts.update(position(accounts, user), AccountView { user, info })
    } else {
        accounts.push(AccountView { user, info })
    }
}

/// The sum of the stakes of `accounts`.
pub open spec fn sum_stakes(accounts: Seq<AccountView>) -> int
    decreases accounts.len(),
{
    if accounts.len() == 0 {
        0
    } else {
        sum_stakes(accounts.drop_last()) + accounts.last().info.stake_amount
    }
}

/// No two of `accounts` have the same owner.
pub open spec fn distinct_users(accounts: Seq<AccountView>) -> bool {
    forall|i: int, j: int|
        0 <= i < j < accounts.len() ==> (#[trigger] accounts[i]).user != (
        #[trigger] accounts[j]).user
}

/// Only one place can be the first that `user` owns, and `position` is it.
pub proof fn lemma_position(accounts: Seq<AccountView>, user: Seq<char>, i: int)
    requires
        is_first(accounts, user, i),
    ensures
        knows(accounts, user),
        position(accounts, user) == i,
{
    let p = position(accounts, user);
    assert(is_first(accounts, user, p));
    if p < i {
        assert(accounts[p].user != user);
    }
    if i < p {
        assert(accounts[i].user != user);
    }
}

/// Where `user` owns an account, `position` is the place of the first.
pub proof fn lemma_known_has_first(accounts: Seq<AccountView>, user: Seq<char>)
    requires
        knows(accounts, user),
    ensures
        is_first(accounts, user, position(accounts, user)),
{
    let k = choose|i: int| 0 <= i < accounts.len() && (#[trigger] accounts[i]).user == user;
    lemma_first_at_or_before(accounts, user, k);
}

proof fn lemma_first_at_or_before(accounts: Seq<AccountView>, user: Seq<char>, k: int)
    requires
        0 <= k < accounts.len(),
        accounts[k].user == user,
    ensures
        exists|i: int| is_first(accounts, user, i),
    decreases k,
{
    if forall|j: int| 0 <= j < k ==> (#[trigger] accounts[j]).user != user {
        assert(is_first(accounts, user, k));
    } else {
        let j = choose|j: int| 0 <= j < k && (#[trigger] accounts[j]).user == user;
        lemma_first_at_or_before(accounts, user, j);
    }
}

/// After `upsert`, `user` has the record that was written and every other
/// owner has the record it had.
pub proof fn lemma_upsert_lookup(
    accounts: Seq<AccountView>,
    user: Seq<char>,
    info: UserInfo,
    other: Seq<char>,
)
    ensures
        lookup(upsert(accounts, user, info), user) == info,
        other != user ==> lookup(upsert(accounts, user, info), other) == lookup(accounts, other),
        other != user ==> (knows(upsert(accounts, user, info), other) <==> knows(accounts, other)),
        knows(upsert(accounts, user, info), user),
{
    let after = upsert(accounts, user, info);
    if knows(accounts, user) {
        lemma_known_has_first(accounts, user);
        let p = position(accounts, user);
        assert(after[p].user == user);
        assert forall|j: int| 0 <= j < p implies (#[trigger] after[j]).user != user by {
            assert(accounts[j].user != user);
        }
        assert(is_first(after, user, p));
        lemma_position(after, user, p);
        if other != user {
            if knows(accounts, other) {
                lemma_known_has_first(accounts, other);
                let q = position(accounts, other);
                assert(after[q] == accounts[q]);
                assert forall|j: int| 0 <= j < q implies (#[trigger] after[j]).user != other by {
                    assert(accounts[j].user != other);
                }
                assert(is_first(after, other, q));
                lemma_position(after, other, q);
            } else {
                if knows(after, other) {
                    let q = choose|i: int|
                        0 <= i < after.len() && (#[trigger] after[i]).user == other;
                    assert(accounts[q].user == other);
                    assert(false);
                }
            }
        }
    } else {
        let p = accounts.len() as int;
        assert(after[p].user == user);
        assert forall|j: int| 0 <= j < p implies (#[trigger] after[j]).user != user by {
            assert(accounts[j].user == after[j].user);
        }
        assert(is_first(after, user, p));
        lemma_position(after, user, p);
        if other != user {
            if knows(accounts, other) {
                lemma_known_has_first(accounts, other);
                let q = position(accounts, other);
                assert(after[q] == accounts[q]);
                assert forall|j: int| 0 <= j < q implies (#[trigger] after[j]).user != other by {
                    assert(accounts[j].user != other);
                }
                assert(is_first(after, other, q));
                lemma_position(after, other, q);
            } else {
                if knows(after, other) {
                    let q = choose|i: int|
                        0 <= i < after.len() && (#[trigger] after[i]).user == other;
                    assert(q < p);
                    assert(accounts[q].user == other);
                    assert(false);
                }
            }
        }
    }
}

/// Each account after `upsert` is the one that was written or one that was
/// there before, at its old place.
pub proof fn lemma_upsert_entries(
    accounts: Seq<AccountView>,
    user: Seq<char>,
    info: UserInfo,
    i: int,
)
    requires
        0 <= i < upsert(accounts, user, info).len(),
    ensures
        upsert(accounts, user, info)[i] == (AccountView { user, info }) || (i < accounts.len()
            && upsert(accounts, user, info)[i] == accounts[i]),
{
    if knows(accounts, user) {
        lemma_known_has_first(accounts, user);
    }
}

/// Replacing one account's record changes the sum of the stakes by the
/// change of that account's stake.
proof fn lemma_sum_stakes_update(accounts: Seq<AccountView>, i: int, account: AccountView)
    requires
        0 <= i < accounts.len(),
    ensures
        sum_stakes(accounts.update(i, account)) == sum_stakes(accounts)
            - accounts[i].info.stake_amount + account.info.stake_amount,
    decreases accounts.len(),
{
    let after = accounts.update(i, account);
    if i == accounts.len() - 1 {
        assert(after.drop_last() =~= accounts.drop_last());
    } else {
        assert(after.drop_last() =~= accounts.drop_last().update(i, account));
        lemma_sum_stakes_update(accounts.drop_last(), i, account);
    }
}

/// `upsert` changes the sum of the stakes by the change of the stake of the
/// account that it writes.
pub proof fn lemma_upsert_sum_stakes(accounts: Seq<AccountView>, user: Seq<char>, info: UserInfo)
    ensures
        sum_stakes(upsert(accounts, user, info)) == sum_stakes(accounts) - lookup(
            accounts,
            user,
        ).stake_amount + info.stake_amount,
{
    if knows(accounts, user) {
        lemma_known_has_first(accounts, user);
        lemma_sum_stakes_update(
            accounts,
            position(accounts, user),
            AccountView { user, info },
        );
    } else {
        let after = accounts.push(AccountView { user, info });
        assert(after.drop_last() =~= accounts);
    }
}

/// `upsert` keeps the owners distinct.
pub proof fn lemma_upsert_distinct(accounts: Seq<AccountView>, user: Seq<char>, info: UserInfo)
    requires
        distinct_users(accounts),
    ensures
        distinct_users(upsert(accounts, user, info)),
{
    let after = upsert(accounts, user, info);
    if knows(accounts, user) {
        lemma_known_has_first(accounts, user);
        assert forall|i: int, j: int| 0 <= i < j < after.len() implies (#[trigger] after[i]).user
            != (#[trigger] after[j]).user by {
            assert(after[i].user == accounts[i].user);
            assert(after[j].user == accounts[j].user);
        }
    } else {
        assert forall|i: int, j: int| 0 <= i < j < after.len() implies (#[trigger] after[i]).user
            != (#[trigger] after[j]).user by {
            if j < accounts.len() {
                assert(after[i].user == accounts[i].user);
                assert(after[j].user == accounts[j].user);
            } else {
                assert(after[i] == accounts[i]);
            }
        }
    }
}

/// The whole pool: its configuration, the shared accumulator, and the
/// accounts in the order in which they were first written.
#[derive(Clone, Debug, PartialEq, Eq)]
pub struct Ledger {
    pub config: Config,
    pub state: State,
    pub accounts: Vec<Account>,
}

/// What a `Ledger` stands for in contracts.
pub struct LedgerView {
    pub config: ConfigView,
    pub state: State,
    pub accounts: Seq<AccountView>,
}

impl View for Ledger {
    type V = LedgerView;

    open spec fn view(&self) -> LedgerView {
        LedgerView {
            config: self.config@,
            state: self.state,
            accounts: self.accounts@.map_values(|account: Account| account@),
        }
    }
}

impl LedgerView {
    /// The record of `user`, all zero where `user` has no account.
    pub open spec fn user_info(self, user: Seq<char>) -> UserInfo {
        lookup(self.accounts, user)
    }

    /// This ledger with the record of `user` replaced by `info`.
    pub open spec fn with_user_info(self, user: Seq<char>, info: UserInfo) -> LedgerView {
        LedgerView { accounts: upsert(self.accounts, user, info), ..self }
    }

    /// The accounts have distinct owners, and `total_deposits` is the sum of
    /// their stakes.
    pub open spec fn balanced(self) -> bool {
        &&& distinct_users(self.accounts)
        &&& self.state.total_deposits == sum_stakes(self.accounts)
    }
}

impl Ledger {
    /// A pool without accounts.
    pub fn new(config: Config, state: State) -> (ledger: Ledger)
        ensures
            ledger@ == (LedgerView { config: config@, state, accounts: Seq::empty() }),
    {
        let ledger = Ledger { config, state, accounts: Vec::new() };
        assert(ledger@.accounts =~= Seq::empty());
        ledger
    }

    /// The place of the account of `user`, if it has one.
    fn find(&self, user: &String) -> (found: Option<usize>)
        ensures
            match found {
                Some(i) => is_first(self@.accounts, user@, i as int),
                None => !knows(self@.accounts, user@),
            },
    {
        let mut i: usize = 0;
        while i < self.accounts.len()
            invariant
                i <= self.accounts.len(),
                self@.accounts.len() == self.accounts.len(),
                forall|j: int| 0 <= j < i ==> (#[trigger] self@.accounts[j]).user != user@,
            decreases self.accounts.len() - i,
        {
            if self.accounts[i].user == *user {
                assert(self@.accounts[i as int].user == user@);
                return Some(i);
            }
            assert(self@.accounts[i as int].user != user@);
            i += 1;
        }
        None
    }

    /// Loads the record of `user`: all zero where `user` has no account.
    pub fn user_info(&self, user: &String) -> (info: UserInfo)
        ensures
            info == self@.user_info(user@),
    {
        match self.find(user) {
            Some(i) => {
                proof {
                    lemma_position(self@.accounts, user@, i as int);
                }
                self.accounts[i].info
            },
            None => UserInfo::default(),
        }
    }

    /// Saves `info` as the record of `user`.
    pub fn save_user_info(&mut self, user: String, info: UserInfo)
        ensures
            final(self)@ == old(self)@.with_user_info(user@, info),
            final(self)@.user_info(user@) == info,
            forall|other: Seq<char>|
                other != user@ ==> #[trigger] final(self)@.user_info(other) == old(
                    self,
                )@.user_info(other),
    {
        let ghost before = self@.accounts;
        proof {
            assert forall|other: Seq<char>|
                lookup(upsert(before, user@, info), user@) == info && (other != user@
                    ==> #[trigger] lookup(upsert(before, user@, info), other) == lookup(
                    before,
                    other,
                )) by {
                lemma_upsert_lookup(before, user@, info, other);
            }
        }
        match self.find(&user) {
            Some(i) => {
                proof {
                    lemma_position(before, user@, i as int);
                }
                self.accounts.set(i, Account { user, info });
            },
            None => {
                self.accounts.push(Account { user, info });
            },
        }
        assert(self@.accounts =~= upsert(before, user@, info));
    }
}

} // verus!
