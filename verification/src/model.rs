//! The mathematical model of the contract: what each operation does to the
//! record that is stored for one user, and when it is refused.

use vstd::prelude::*;

use crate::types::{BankError, BucketType, Buckets, DailySpending, LockConfig, Rules, UserAccount};

verus! {

/// Length of a day in seconds; daily spending is tracked per UTC day.
pub const SECONDS_PER_DAY: u64 = 86400;

/// Shortest self-lock that may be activated, in seconds (one day).
pub const MIN_LOCK_SECONDS: u64 = 86400;

/// Highest strictness level (0 = soft, 1 = strict, 2 = extreme).
pub const MAX_STRICTNESS: u32 = 2;

/// The lowest strictness at which an active lock freezes the savings bucket
/// (strict and extreme locks do; a soft lock freezes only the rules).
pub const STRICT_STRICTNESS: u32 = 1;

/// The strictness at which an active lock freezes every bucket.
pub const EXTREME_STRICTNESS: u32 = 2;

/// The sum that the four percentages of valid rules must reach.
pub const FULL_PERCENT: u32 = 100;

/// Sum of the four allocation percentages.
pub open spec fn pct_total(r: Rules) -> int {
    r.savings_pct + r.food_pct + r.transport_pct + r.flexible_pct
}

/// Rules that a freshly initialised account starts with.
pub open spec fn zero_rules() -> Rules {
    Rules { savings_pct: 0, food_pct: 0, transport_pct: 0, flexible_pct: 0, daily_limit: 0 }
}

/// The account that `init_account` creates: zero rules, no lock, empty
/// buckets, nothing spent.
pub open spec fn fresh_account() -> UserAccount {
    UserAccount {
        rules: zero_rules(),
        lock: LockConfig { is_active: false, end_timestamp: 0, strictness: 0 },
        buckets: Buckets { savings: 0, food: 0, transport: 0, flexible: 0 },
        daily: DailySpending { day_timestamp: 0, amount_spent: 0 },
        initialized: true,
    }
}

/// The lock is in force at time `now`: it was activated and has not expired.
pub open spec fn lock_holds(lock: LockConfig, now: u64) -> bool {
    lock.is_active && now < lock.end_timestamp
}

/// The savings bucket is frozen at `now`: a strict or extreme lock holds.
pub open spec fn savings_frozen(lock: LockConfig, now: u64) -> bool {
    lock_holds(lock, now) && lock.strictness >= STRICT_STRICTNESS
}

/// Every bucket is frozen at `now`: an extreme lock holds.
pub open spec fn all_frozen(lock: LockConfig, now: u64) -> bool {
    lock_holds(lock, now) && lock.strictness == EXTREME_STRICTNESS
}

/// The lock as it is recorded after an operation at `now` that was not
/// refused: an expired lock is marked inactive, anything else is kept.
pub open spec fn settle_lock(lock: LockConfig, now: u64) -> LockConfig {
    if lock_holds(lock, now) {
        lock
    } else {
        LockConfig { is_active: false, end_timestamp: lock.end_timestamp, strictness: lock.strictness }
    }
}

/// Start of the day that contains `now`.
pub open spec fn day_start(now: u64) -> int {
    now - now % SECONDS_PER_DAY
}

/// What was spent on the day that contains `now` (0 if the record is of an
/// earlier day).
pub open spec fn spent_today(daily: DailySpending, now: u64) -> int {
    if daily.day_timestamp == day_start(now) {
        daily.amount_spent as int
    } else {
        0
    }
}

/// The share of a deposit that one bucket with percentage `pct` receives
/// (rounded down).
pub open spec fn share(amount: int, pct: u32) -> int {
    (amount * pct) / 100
}

/// What the flexible bucket receives: the remainder of the deposit, so
/// that no dust is lost.
pub open spec fn flexible_share(amount: int, r: Rules) -> int {
    amount - share(amount, r.savings_pct) - share(amount, r.food_pct) - share(amount, r.transport_pct)
}

/// Sum of the four bucket balances.
pub open spec fn total(b: Buckets) -> int {
    b.savings + b.food + b.transport + b.flexible
}

/// Balance of one bucket.
pub open spec fn balance(b: Buckets, bucket: BucketType) -> int {
    match bucket {
        BucketType::Savings => b.savings as int,
        BucketType::Food => b.food as int,
        BucketType::Transport => b.transport as int,
        BucketType::Flexible => b.flexible as int,
    }
}

/// The buckets after a deposit of `amount` split by rules `r`.
pub open spec fn split_into(b: Buckets, amount: int, r: Rules) -> Buckets {
    Buckets {
        savings: (b.savings + share(amount, r.savings_pct)) as i128,
        food: (b.food + share(amount, r.food_pct)) as i128,
        transport: (b.transport + share(amount, r.transport_pct)) as i128,
        flexible: (b.flexible + flexible_share(amount, r)) as i128,
    }
}

/// The buckets after `amount` was taken from `bucket`.
pub open spec fn withdraw(b: Buckets, bucket: BucketType, amount: int) -> Buckets {
    match bucket {
        BucketType::Savings => Buckets { savings: (b.savings - amount) as i128, ..b },
        BucketType::Food => Buckets { food: (b.food - amount) as i128, ..b },
        BucketType::Transport => Buckets { transport: (b.transport - amount) as i128, ..b },
        BucketType::Flexible => Buckets { flexible: (b.flexible - amount) as i128, ..b },
    }
}

/// How much may still be spent on the day that contains `now`.
pub open spec fn daily_remaining(a: UserAccount, now: u64) -> int {
    if a.daily.day_timestamp != day_start(now) {
        a.rules.daily_limit as int
    } else if a.rules.daily_limit - a.daily.amount_spent < 0 {
        0
    } else {
        a.rules.daily_limit - a.daily.amount_spent
    }
}

/// The expiry that `get_lock_expiry` reports at ledger time `now`: the end
/// of the lock while it is in force, 0 when the account is not locked.
pub open spec fn lock_expiry(a: UserAccount, now: u64) -> u64 {
    if lock_holds(a.lock, now) {
        a.lock.end_timestamp
    } else {
        0
    }
}

/// The stored record after an operation with the given outcome: the new
/// account when it succeeded, the untouched record when it was refused.
pub open spec fn commit(stored: Option<UserAccount>, outcome: Result<UserAccount, BankError>) -> Option<UserAccount> {
    match outcome {
        Ok(a) => Some(a),
        Err(_) => stored,
    }
}

/// What an operation with the given outcome answers: `value` when it
/// succeeded, its error when it was refused.
pub open spec fn answer<T>(outcome: Result<UserAccount, BankError>, value: T) -> Result<T, BankError> {
    match outcome {
        Ok(_) => Ok(value),
        Err(e) => Err(e),
    }
}

/// The stored account, or the error for a user without one.
pub open spec fn fetched(stored: Option<UserAccount>) -> Result<UserAccount, BankError> {
    match stored {
        Some(a) => Ok(a),
        None => Err(BankError::AccountNotInitialized),
    }
}

// ---------------------------------------------------------------------------
// Outcomes of the operations
// ---------------------------------------------------------------------------

/// `init_account`: creates the fresh account, refused if one exists.
pub open spec fn init_outcome(stored: Option<UserAccount>) -> Result<UserAccount, BankError> {
    match stored {
        Some(_) => Err(BankError::AccountAlreadyInitialized),
        None => Ok(fresh_account()),
    }
}

/// `set_rules`: replaces the rules, refused while the lock holds, when the
/// percentages do not add up to 100, or when the daily limit is not positive
/// (checked in that order).
pub open spec fn set_rules_outcome(
    stored: Option<UserAccount>,
    now: u64,
    savings_pct: u32,
    food_pct: u32,
    transport_pct: u32,
    flexible_pct: u32,
    daily_limit: i128,
) -> Result<UserAccount, BankError> {
    match stored {
        None => Err(BankError::AccountNotInitialized),
        Some(a) => {
            let rules = Rules { savings_pct, food_pct, transport_pct, flexible_pct, daily_limit };
            if lock_holds(a.lock, now) {
                Err(BankError::RulesLocked)
            } else if pct_total(rules) != FULL_PERCENT {
                Err(BankError::PercentagesNot100)
            } else if daily_limit <= 0 {
                Err(BankError::DailyLimitNotPositive)
            } else {
                Ok(UserAccount { rules, lock: settle_lock(a.lock, now), ..a })
            }
        },
    }
}

/// `activate_lock`: starts a lock of `duration` seconds at `now`, refused
/// while a lock holds, for a strictness above 2, or for less than a day.
pub open spec fn activate_outcome(
    stored: Option<UserAccount>,
    now: u64,
    duration: u64,
    strictness: u32,
) -> Result<UserAccount, BankError> {
    match stored {
        None => Err(BankError::AccountNotInitialized),
        Some(a) => if lock_holds(a.lock, now) {
            Err(BankError::LockAlreadyActive)
        } else if strictness > MAX_STRICTNESS {
            Err(BankError::InvalidStrictness)
        } else if duration < MIN_LOCK_SECONDS {
            Err(BankError::LockTooShort)
        } else {
            Ok(
                UserAccount {
                    lock: LockConfig {
                        is_active: true,
                        end_timestamp: (now + duration) as u64,
                        strictness,
                    },
                    ..a
                },
            )
        },
    }
}

/// `check_lock_status`: marks an expired lock inactive.
pub open spec fn lock_status_outcome(stored: Option<UserAccount>, now: u64) -> Result<UserAccount, BankError> {
    match stored {
        None => Err(BankError::AccountNotInitialized),
        Some(a) => Ok(UserAccount { lock: settle_lock(a.lock, now), ..a }),
    }
}

/// `deposit`: splits a positive amount into the buckets, refused when the
/// rules are not set (their percentages do not add up to 100).
pub open spec fn deposit_outcome(stored: Option<UserAccount>, amount: i128) -> Result<UserAccount, BankError> {
    if amount <= 0 {
        Err(BankError::DepositNotPositive)
    } else {
        match stored {
            None => Err(BankError::AccountNotInitialized),
            Some(a) => if pct_total(a.rules) != FULL_PERCENT {
                Err(BankError::RulesNotSet)
            } else {
                Ok(UserAccount { buckets: split_into(a.buckets, amount as int, a.rules), ..a })
            },
        }
    }
}

/// `spend`: takes a positive amount from one bucket.  Refused from savings
/// while a strict or extreme lock holds, from any bucket while an extreme
/// lock holds, when
/// the day's spending would exceed the daily limit, and when the bucket
/// holds less than the amount (checked in that order).
pub open spec fn spend_outcome(
    stored: Option<UserAccount>,
    now: u64,
    bucket: BucketType,
    amount: i128,
) -> Result<UserAccount, BankError> {
    if amount <= 0 {
        Err(BankError::SpendNotPositive)
    } else {
        match stored {
            None => Err(BankError::AccountNotInitialized),
            Some(a) => if savings_frozen(a.lock, now) && bucket == BucketType::Savings {
                Err(BankError::SavingsLocked)
            } else if all_frozen(a.lock, now) {
                Err(BankError::SpendingFrozen)
            } else if spent_today(a.daily, now) + amount > a.rules.daily_limit {
                Err(BankError::DailyLimitExceeded)
            } else if balance(a.buckets, bucket) < amount {
                Err(BankError::InsufficientBalance)
            } else {
                Ok(
                    UserAccount {
                        lock: settle_lock(a.lock, now),
                        buckets: withdraw(a.buckets, bucket, amount as int),
                        daily: DailySpending {
                            day_timestamp: day_start(now) as u64,
                            amount_spent: (spent_today(a.daily, now) + amount) as i128,
                        },
                        ..a
                    },
                )
            },
        }
    }
}

// ---------------------------------------------------------------------------
// Inputs on which an operation stays within its integer types
// ---------------------------------------------------------------------------

/// `set_rules` adds the four percentages as `u32` once the lock check passed.
pub open spec fn set_rules_fits(
    stored: Option<UserAccount>,
    now: u64,
    savings_pct: u32,
    food_pct: u32,
    transport_pct: u32,
    flexible_pct: u32,
) -> bool {
    stored matches Some(a) && !lock_holds(a.lock, now) ==> savings_pct + food_pct + transport_pct
        + flexible_pct <= u32::MAX
}

/// `activate_lock` computes the expiry `now + duration` as `u64` once all
/// checks passed.
pub open spec fn activate_fits(stored: Option<UserAccount>, now: u64, duration: u64, strictness: u32) -> bool {
    activate_outcome(stored, now, duration, strictness) is Ok ==> now + duration <= u64::MAX
}

/// `deposit` adds the stored percentages as `u32`, multiplies the amount
/// by each of the first three as `i128`, and adds each share to its bucket.
pub open spec fn deposit_fits(stored: Option<UserAccount>, amount: i128) -> bool {
    amount > 0 && stored is Some ==> {
        let a = stored->0;
        &&& pct_total(a.rules) <= u32::MAX
        &&& pct_total(a.rules) == FULL_PERCENT ==> {
            &&& amount * a.rules.savings_pct <= i128::MAX
            &&& amount * a.rules.food_pct <= i128::MAX
            &&& amount * a.rules.transport_pct <= i128::MAX
            &&& a.buckets.savings + share(amount as int, a.rules.savings_pct) <= i128::MAX
            &&& a.buckets.food + share(amount as int, a.rules.food_pct) <= i128::MAX
            &&& a.buckets.transport + share(amount as int, a.rules.transport_pct) <= i128::MAX
            &&& a.buckets.flexible + flexible_share(amount as int, a.rules) <= i128::MAX
        }
    }
}

/// `spend` adds the amount to what was spent today as `i128` once the lock
/// checks passed.
pub open spec fn spend_fits(stored: Option<UserAccount>, now: u64, bucket: BucketType, amount: i128) -> bool {
    amount > 0 && stored is Some && !(savings_frozen(stored->0.lock, now) && bucket == BucketType::Savings)
        && !all_frozen(stored->0.lock, now) ==> spent_today(stored->0.daily, now) + amount <= i128::MAX
}

/// `get_daily_remaining` subtracts today's spending from the limit as `i128`.
pub open spec fn remaining_fits(stored: Option<UserAccount>, now: u64) -> bool {
    stored is Some && stored->0.daily.day_timestamp == day_start(now) ==> i128::MIN
        <= stored->0.rules.daily_limit - stored->0.daily.amount_spent <= i128::MAX
}

// ---------------------------------------------------------------------------
// The invariant of every stored account
// ---------------------------------------------------------------------------

/// What holds of every account that the operations produce: rules are
/// either the initial zero rules or valid ones, the strictness is in range,
/// no bucket is negative and nothing negative was spent.
pub open spec fn valid_account(a: UserAccount) -> bool {
    &&& a.initialized
    &&& (a.rules == zero_rules() || (pct_total(a.rules) == FULL_PERCENT && a.rules.daily_limit > 0))
    &&& a.lock.strictness <= MAX_STRICTNESS
    &&& a.buckets.savings >= 0
    &&& a.buckets.food >= 0
    &&& a.buckets.transport >= 0
    &&& a.buckets.flexible >= 0
    &&& a.daily.amount_spent >= 0
}

/// A stored record is valid when it is absent or holds a valid account.
pub open spec fn valid_record(stored: Option<UserAccount>) -> bool {
    stored matches Some(a) ==> valid_account(a)
}

} // verus!
