//! Rule-based budgeting accounts: deposits are split into budget buckets,
//! spending is held to a daily limit, and a self-imposed lock freezes the
//! rules (and the savings bucket) until it expires.
//!
//! The library works on the record that is stored for one user: `None`
//! when no account was initialised, `Some(account)` otherwise.  Every
//! operation either commits a new record or is refused with a
//! [`BankError`], in which case the record is left exactly as it was.
//!
//! - `types`: the account and its parts, the bucket names, the errors;
//! - `model`: what each operation does, as spec functions over the record;
//! - `contract`: the operations, each proved to do what `model` says;
//! - `behaviour`: what each operation grants, refuses and stores, stated
//!   directly over its inputs and results;
//! - `laws`: properties that span operations or hold of every state;
//! - `arith`: arithmetic facts about the split of a deposit.

pub mod arith;
pub mod behaviour;
pub mod contract;
pub mod laws;
pub mod model;
pub mod types;

pub use contract::IBankContract;
pub use types::{BankError, BucketType, Buckets, DailySpending, LockConfig, Rules, UserAccount};
