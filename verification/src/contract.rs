//! The contract's operations on the record stored for one user.
//!
//! Each operation receives the record as it is stored (`None` for a user
//! without an account) and, where the contract reads the ledger clock, the
//! current ledger timestamp.  An operation that succeeds writes its new
//! account into the record; one that is refused returns the error and leaves
//! the record untouched, as a reverted contract call does.

use vstd::prelude::*;

use crate::arith::lemma_shares_bounded;
use crate::model::{
    activate_fits, activate_outcome, answer, commit, daily_remaining, deposit_fits, deposit_outcome,
    fetched, init_outcome, lock_expiry, lock_holds, lock_status_outcome, remaining_fits, set_rules_fits,
    set_rules_outcome, settle_lock, spend_fits, spend_outcome, spent_today, EXTREME_STRICTNESS, STRICT_STRICTNESS,
    FULL_PERCENT, MAX_STRICTNESS, MIN_LOCK_SECONDS, SECONDS_PER_DAY,
};
use crate::types::{BankError, BucketType, Buckets, DailySpending, LockConfig, Rules, UserAccount};

verus! {

/// The rule-based bank: splits deposits into budget buckets, enforces the
/// daily limit and the self-lock.
pub struct IBankContract;

impl IBankContract {
    /// Creates the account of a user: zero rules, no lock, empty buckets,
    /// nothing spent.  Refused if the user already has an account.
    pub fn init_account(stored: &mut Option<UserAccount>) -> (r: Result<(), BankError>)
        ensures
            *final(stored) == commit(*old(stored), init_outcome(*old(stored))),
            r == answer(init_outcome(*old(stored)), ()),
    {
        if stored.is_some() {
            return Err(BankError::AccountAlreadyInitialized);
        }
        let account = UserAccount {
            rules: Rules {
                savings_pct: 0,
                food_pct: 0,
                transport_pct: 0,
                flexible_pct: 0,
                daily_limit: 0,
            },
            lock: LockConfig { is_active: false, end_timestamp: 0, strictness: 0 },
            buckets: Buckets { savings: 0, food: 0, transport: 0, flexible: 0 },
            daily: DailySpending { day_timestamp: 0, amount_spent: 0 },
            initialized: true,
        };
        *stored = Some(account);
        Ok(())
    }

    /// Sets the spending rules at ledger time `now`.  Refused while the
    /// self-lock holds (an expired lock is marked inactive), when the
    /// percentages do not add up to 100, and when the daily limit is not
    /// positive.
    pub fn set_rules(
        stored: &mut Option<UserAccount>,
        now: u64,
        savings_pct: u32,
        food_pct: u32,
        transport_pct: u32,
        flexible_pct: u32,
        daily_limit: i128,
    ) -> (r: Result<(), BankError>)
        requires
            set_rules_fits(*old(stored), now, savings_pct, food_pct, transport_pct, flexible_pct),
        ensures
            *final(stored) == commit(
                *old(stored),
                set_rules_outcome(
                    *old(stored),
                    now,
                    savings_pct,
                    food_pct,
                    transport_pct,
                    flexible_pct,
                    daily_limit,
                ),
            ),
            r == answer(
                set_rules_outcome(
                    *old(stored),
                    now,
                    savings_pct,
                    food_pct,
                    transport_pct,
                    flexible_pct,
                    daily_limit,
                ),
                (),
            ),
    {
        let mut account = match *stored {
            Some(a) => a,
            None => return Err(BankError::AccountNotInitialized),
        };
        let ghost original = account;

        if account.lock.is_active {
            if now < account.lock.end_timestamp {
                return Err(BankError::RulesLocked);
            }
            account.lock.is_active = false;
        }
        assert(account.lock == settle_lock(original.lock, now));

        let total = savings_pct + food_pct + transport_pct + flexible_pct;
        if total != FULL_PERCENT {
            return Err(BankError::PercentagesNot100);
        }
        if daily_limit <= 0 {
            return Err(BankError::DailyLimitNotPositive);
        }

        account.rules = Rules { savings_pct, food_pct, transport_pct, flexible_pct, daily_limit };
        *stored = Some(account);
        Ok(())
    }

    /// Activates the self-lock at ledger time `now` for `duration_seconds`
    /// (at least one day) with the given strictness (0 soft, 1 strict,
    /// 2 extreme).  Refused while a lock holds.
    pub fn activate_lock(stored: &mut Option<UserAccount>, now: u64, duration_seconds: u64, strictness: u32) -> (r:
        Result<(), BankError>)
        requires
            activate_fits(*old(stored), now, duration_seconds, strictness),
        ensures
            *final(stored) == commit(*old(stored), activate_outcome(*old(stored), now, duration_seconds, strictness)),
            r == answer(activate_outcome(*old(stored), now, duration_seconds, strictness), ()),
    {
        let mut account = match *stored {
            Some(a) => a,
            None => return Err(BankError::AccountNotInitialized),
        };

        if account.lock.is_active {
            if now < account.lock.end_timestamp {
                return Err(BankError::LockAlreadyActive);
            }
        }
        if strictness > MAX_STRICTNESS {
            return Err(BankError::InvalidStrictness);
        }
        if duration_seconds < MIN_LOCK_SECONDS {
            return Err(BankError::LockTooShort);
        }

        account.lock = LockConfig { is_active: true, end_timestamp: now + duration_seconds, strictness };
        *stored = Some(account);
        Ok(())
    }

    /// Reports whether the self-lock holds at ledger time `now`; a lock
    /// that has expired is marked inactive (and reported as not holding).
    pub fn check_lock_status(stored: &mut Option<UserAccount>, now: u64) -> (r: Result<bool, BankError>)
        ensures
            *final(stored) == commit(*old(stored), lock_status_outcome(*old(stored), now)),
            r == answer(lock_status_outcome(*old(stored), now), lock_holds(old(stored)->0.lock, now)),
    {
        let mut account = match *stored {
            Some(a) => a,
            None => return Err(BankError::AccountNotInitialized),
        };

        if account.lock.is_active {
            if now >= account.lock.end_timestamp {
                account.lock.is_active = false;
                *stored = Some(account);
                return Ok(false);
            }
            return Ok(true);
        }
        Ok(false)
    }

    /// The whole account of a user.
    pub fn get_account(stored: &Option<UserAccount>) -> (r: Result<UserAccount, BankError>)
        ensures
            r == fetched(*stored),
    {
        match *stored {
            Some(a) => Ok(a),
            None => Err(BankError::AccountNotInitialized),
        }
    }

    /// The bucket balances of a user.
    pub fn get_balances(stored: &Option<UserAccount>) -> (r: Result<Buckets, BankError>)
        ensures
            r == answer(fetched(*stored), stored->0.buckets),
    {
        match *stored {
            Some(a) => Ok(a.buckets),
            None => Err(BankError::AccountNotInitialized),
        }
    }

    /// The spending rules of a user.
    pub fn get_rules(stored: &Option<UserAccount>) -> (r: Result<Rules, BankError>)
        ensures
            r == answer(fetched(*stored), stored->0.rules),
    {
        match *stored {
            Some(a) => Ok(a.rules),
            None => Err(BankError::AccountNotInitialized),
        }
    }

    /// What the user may still spend on the day of ledger time `now`: the
    /// whole daily limit on a day without spending, otherwise the limit less
    /// what was spent, but never below zero.
    pub fn get_daily_remaining(stored: &Option<UserAccount>, now: u64) -> (r: Result<i128, BankError>)
        requires
            remaining_fits(*stored, now),
        ensures
            r == answer(fetched(*stored), daily_remaining(stored->0, now) as i128),
    {
        let account = match *stored {
            Some(a) => a,
            None => return Err(BankError::AccountNotInitialized),
        };

        let today = now - now % SECONDS_PER_DAY;
        if account.daily.day_timestamp != today {
            return Ok(account.rules.daily_limit);
        }

        let remaining = account.rules.daily_limit - account.daily.amount_spent;
        if remaining < 0 {
            Ok(0)
        } else {
            Ok(remaining)
        }
    }

    /// The expiry of the user's self-lock at ledger time `now`: its end
    /// timestamp while the lock is in force, 0 when the account is not
    /// locked (no lock was activated, or it has expired).
    pub fn get_lock_expiry(stored: &Option<UserAccount>, now: u64) -> (r: Result<u64, BankError>)
        ensures
            r == answer(fetched(*stored), lock_expiry(stored->0, now)),
    {
        let account = match *stored {
            Some(a) => a,
            None => return Err(BankError::AccountNotInitialized),
        };

        if account.lock.is_active && now < account.lock.end_timestamp {
            Ok(account.lock.end_timestamp)
        } else {
            Ok(0)
        }
    }

    /// Requests to spend `amount` from `bucket` at ledger time `now`.
    /// Savings cannot be spent while a strict or extreme self-lock holds,
    /// nothing can be spent while an extreme lock holds, the day's spending may not exceed
    /// the daily limit, and the bucket must hold the amount.  An expired
    /// lock is marked inactive; a new day starts its spending from zero.
    pub fn spend(stored: &mut Option<UserAccount>, now: u64, bucket: BucketType, amount: i128) -> (r: Result<
        bool,
        BankError,
    >)
        requires
            spend_fits(*old(stored), now, bucket, amount),
        ensures
            *final(stored) == commit(*old(stored), spend_outcome(*old(stored), now, bucket, amount)),
            r == answer(spend_outcome(*old(stored), now, bucket, amount), true),
    {
        if amount <= 0 {
            return Err(BankError::SpendNotPositive);
        }
        let mut account = match *stored {
            Some(a) => a,
            None => return Err(BankError::AccountNotInitialized),
        };
        let ghost original = account;

        if account.lock.is_active && now < account.lock.end_timestamp {
            let from_savings = match bucket {
                BucketType::Savings => true,
                _ => false,
            };
            if from_savings && account.lock.strictness >= STRICT_STRICTNESS {
                return Err(BankError::SavingsLocked);
            }
            if account.lock.strictness == EXTREME_STRICTNESS {
                return Err(BankError::SpendingFrozen);
            }
        } else if account.lock.is_active {
            account.lock.is_active = false;
        }
        assert(account.lock == settle_lock(original.lock, now));

        let today = now - now % SECONDS_PER_DAY;
        if account.daily.day_timestamp != today {
            account.daily.day_timestamp = today;
            account.daily.amount_spent = 0;
        }
        assert(account.daily.amount_spent == spent_today(original.daily, now));

        if account.daily.amount_spent + amount > account.rules.daily_limit {
            return Err(BankError::DailyLimitExceeded);
        }

        let bucket_balance = match bucket {
            BucketType::Savings => account.buckets.savings,
            BucketType::Food => account.buckets.food,
            BucketType::Transport => account.buckets.transport,
            BucketType::Flexible => account.buckets.flexible,
        };
        if bucket_balance < amount {
            return Err(BankError::InsufficientBalance);
        }

        match bucket {
            BucketType::Savings => account.buckets.savings = account.buckets.savings - amount,
            BucketType::Food => account.buckets.food = account.buckets.food - amount,
            BucketType::Transport => account.buckets.transport = account.buckets.transport - amount,
            BucketType::Flexible => account.buckets.flexible = account.buckets.flexible - amount,
        }
        account.daily.amount_spent = account.daily.amount_spent + amount;

        *stored = Some(account);
        Ok(true)
    }

    /// Deposits a positive `amount` and splits it by the rules: savings,
    /// food and transport each receive their percentage (rounded down), the
    /// flexible bucket receives the rest, so the buckets grow by exactly the
    /// amount.  Refused until rules adding up to 100 are set.
    pub fn deposit(stored: &mut Option<UserAccount>, amount: i128) -> (r: Result<(), BankError>)
        requires
            deposit_fits(*old(stored), amount),
        ensures
            *final(stored) == commit(*old(stored), deposit_outcome(*old(stored), amount)),
            r == answer(deposit_outcome(*old(stored), amount), ()),
    {
        if amount <= 0 {
            return Err(BankError::DepositNotPositive);
        }
        let mut account = match *stored {
            Some(a) => a,
            None => return Err(BankError::AccountNotInitialized),
        };

        let total_pct = account.rules.savings_pct + account.rules.food_pct + account.rules.transport_pct
            + account.rules.flexible_pct;
        if total_pct != FULL_PERCENT {
            return Err(BankError::RulesNotSet);
        }
        proof {
            lemma_shares_bounded(amount as int, account.rules);
        }

        let savings_amount = (amount * account.rules.savings_pct as i128) / 100;
        let food_amount = (amount * account.rules.food_pct as i128) / 100;
        let transport_amount = (amount * account.rules.transport_pct as i128) / 100;
        let flexible_amount = amount - savings_amount - food_amount - transport_amount;

        account.buckets.savings = account.buckets.savings + savings_amount;
        account.buckets.food = account.buckets.food + food_amount;
        account.buckets.transport = account.buckets.transport + transport_amount;
        account.buckets.flexible = account.buckets.flexible + flexible_amount;

        *stored = Some(account);
        Ok(())
    }
}

/// Which inputs each operation can take without leaving its integer types.
/// A caller tests these before the operation; where one is false the
/// operation would overflow, and the contract aborts the call instead.
impl IBankContract {
    /// Whether `set_rules` can add the four percentages as `u32`.
    pub fn set_rules_in_range(
        stored: &Option<UserAccount>,
        now: u64,
        savings_pct: u32,
        food_pct: u32,
        transport_pct: u32,
        flexible_pct: u32,
    ) -> (b: bool)
        ensures
            b == set_rules_fits(*stored, now, savings_pct, food_pct, transport_pct, flexible_pct),
    {
        match *stored {
            None => true,
            Some(a) => {
                if a.lock.is_active && now < a.lock.end_timestamp {
                    return true;
                }
                let total: u64 = savings_pct as u64 + food_pct as u64 + transport_pct as u64 + flexible_pct as u64;
                total <= u32::MAX as u64
            },
        }
    }

    /// Whether `activate_lock` can compute the expiry as `u64`.
    pub fn activate_lock_in_range(stored: &Option<UserAccount>, now: u64, duration_seconds: u64, strictness: u32) -> (b:
        bool)
        ensures
            b == activate_fits(*stored, now, duration_seconds, strictness),
    {
        match *stored {
            None => true,
            Some(a) => {
                if (a.lock.is_active && now < a.lock.end_timestamp) || strictness > MAX_STRICTNESS
                    || duration_seconds < MIN_LOCK_SECONDS {
                    return true;
                }
                now.checked_add(duration_seconds).is_some()
            },
        }
    }

    /// Whether `deposit` can compute the split and the new balances as
    /// `i128`.
    pub fn deposit_in_range(stored: &Option<UserAccount>, amount: i128) -> (b: bool)
        ensures
            b == deposit_fits(*stored, amount),
    {
        if amount <= 0 {
            return true;
        }
        let a = match *stored {
            Some(a) => a,
            None => return true,
        };
        let total: u64 = a.rules.savings_pct as u64 + a.rules.food_pct as u64 + a.rules.transport_pct as u64
            + a.rules.flexible_pct as u64;
        if total > u32::MAX as u64 {
            return false;
        }
        if total != FULL_PERCENT as u64 {
            return true;
        }
        proof {
            lemma_shares_bounded(amount as int, a.rules);
        }
        let savings_product = match amount.checked_mul(a.rules.savings_pct as i128) {
            Some(x) => x,
            None => return false,
        };
        let food_product = match amount.checked_mul(a.rules.food_pct as i128) {
            Some(x) => x,
            None => return false,
        };
        let transport_product = match amount.checked_mul(a.rules.transport_pct as i128) {
            Some(x) => x,
            None => return false,
        };
        let savings_amount = savings_product / 100;
        let food_amount = food_product / 100;
        let transport_amount = transport_product / 100;
        let flexible_amount = amount - savings_amount - food_amount - transport_amount;
        a.buckets.savings.checked_add(savings_amount).is_some() && a.buckets.food.checked_add(food_amount).is_some()
            && a.buckets.transport.checked_add(transport_amount).is_some() && a.buckets.flexible.checked_add(
            flexible_amount,
        ).is_some()
    }

    /// Whether `spend` can add the amount to the day's spending as `i128`.
    pub fn spend_in_range(stored: &Option<UserAccount>, now: u64, bucket: BucketType, amount: i128) -> (b: bool)
        ensures
            b == spend_fits(*stored, now, bucket, amount),
    {
        if amount <= 0 {
            return true;
        }
        let a = match *stored {
            Some(a) => a,
            None => return true,
        };
        let from_savings = match bucket {
            BucketType::Savings => true,
            _ => false,
        };
        if a.lock.is_active && now < a.lock.end_timestamp && ((from_savings && a.lock.strictness
            >= STRICT_STRICTNESS) || a.lock.strictness == EXTREME_STRICTNESS) {
            return true;
        }
        let today = now - now % SECONDS_PER_DAY;
        let spent = if a.daily.day_timestamp == today {
            a.daily.amount_spent
        } else {
            0
        };
        spent.checked_add(amount).is_some()
    }

    /// Whether `get_daily_remaining` can subtract the day's spending from
    /// the limit as `i128`.
    pub fn daily_remaining_in_range(stored: &Option<UserAccount>, now: u64) -> (b: bool)
        ensures
            b == remaining_fits(*stored, now),
    {
        match *stored {
            None => true,
            Some(a) => {
                let today = now - now % SECONDS_PER_DAY;
                if a.daily.day_timestamp != today {
                    return true;
                }
                a.rules.daily_limit.checked_sub(a.daily.amount_spent).is_some()
            },
        }
    }
}

} // verus!
