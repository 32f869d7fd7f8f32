//! A proportional reward-distribution ledger.
//!
//! Participants stake a balance into a shared pool, a funder injects rewards,
//! and every participant accrues a share of each injection in proportion to
//! the stake held at that moment. The pool keeps one accumulator (the reward
//! paid so far per unit of stake) and, per account, the part of it that has
//! already been credited, so that no operation ever walks over all accounts.
//!
//! The pool is a value, `state::Ledger`, that every operation takes and
//! changes; nothing here reads or writes storage, and a transfer is a request
//! in the operation's answer, not an act. `contract` holds the entry points,
//! `execute` the operations, `query` the projections, `utils` the resolution
//! of attached funds, `decimal` the arithmetic, and `laws` what holds of the
//! pool over whole histories.
//!
//! All amounts are 128-bit unsigned integers. An operation whose sums or
//! products would not fit is not to be called: each says in its `requires`
//! what it admits, and beside it stands a function that tests just that.

pub mod contract;
pub mod decimal;
pub mod error;
pub mod execute;
pub mod laws;
pub mod query;
pub mod response;
pub mod reward_pool;
pub mod state;
pub mod utils;
