//! What each operation does, stated directly over its inputs and its
//! result: which requests are granted, which are refused with which error,
//! and what a granted request stores.  The day is the UTC day of 86400
//! seconds, percentages are whole percents of 100, and a lock holds while
//! it is active and its end lies after the ledger time.

use vstd::prelude::*;

use crate::arith::lemma_shares_bounded;
use crate::model::{
    activate_fits, activate_outcome, answer, commit, daily_remaining, deposit_fits, deposit_outcome,
    fetched, init_outcome, lock_expiry, lock_holds, lock_status_outcome, remaining_fits, set_rules_fits,
    set_rules_outcome, spend_fits, spend_outcome,
};
use crate::types::{BankError, BucketType, Buckets, DailySpending, LockConfig, Rules, UserAccount};

verus! {

/// The meaning of the helpers through which the contracts speak: a granted
/// outcome is stored and answered with the operation's value, a refused one
/// leaves the record and is answered with its error; a lookup of a user
/// without an account is refused; a lock holds while it is active and not
/// yet at its end.
pub proof fn law_outcomes_and_lookups(
    stored: Option<UserAccount>,
    a: UserAccount,
    e: BankError,
    value: u64,
    lock: LockConfig,
    now: u64,
)
    ensures
        commit(stored, Ok::<UserAccount, BankError>(a)) == Some(a),
        commit(stored, Err::<UserAccount, BankError>(e)) == stored,
        answer(Ok::<UserAccount, BankError>(a), value) == Ok::<u64, BankError>(value),
        answer(Err::<UserAccount, BankError>(e), value) == Err::<u64, BankError>(e),
        fetched(Some(a)) == Ok::<UserAccount, BankError>(a),
        fetched(None) == Err::<UserAccount, BankError>(BankError::AccountNotInitialized),
        lock_holds(lock, now) == (lock.is_active && now < lock.end_timestamp),
{
}

/// `init_account` creates the account with zero rules, an inactive lock of
/// strictness 0 ending at 0, empty buckets and nothing spent on day 0, and
/// refuses a user that has an account.
pub proof fn law_init_behaviour(a: UserAccount)
    ensures
        init_outcome(None) == Ok::<UserAccount, BankError>(
            UserAccount {
                rules: Rules { savings_pct: 0, food_pct: 0, transport_pct: 0, flexible_pct: 0, daily_limit: 0 },
                lock: LockConfig { is_active: false, end_timestamp: 0, strictness: 0 },
                buckets: Buckets { savings: 0, food: 0, transport: 0, flexible: 0 },
                daily: DailySpending { day_timestamp: 0, amount_spent: 0 },
                initialized: true,
            },
        ),
        init_outcome(Some(a)) == Err::<UserAccount, BankError>(BankError::AccountAlreadyInitialized),
{
}

/// `set_rules` at ledger time `now`: refused while the lock holds; else
/// refused unless the four percentages add up to exactly 100 (any of them
/// may be 0); else refused unless the daily limit is positive; otherwise it
/// stores exactly the given rules, marks the lock inactive (keeping its end
/// and strictness) and changes nothing else.  It needs only that the sum of
/// the percentages fits in a `u32`.
pub proof fn law_set_rules_behaviour(
    a: UserAccount,
    now: u64,
    s: u32,
    f: u32,
    t: u32,
    x: u32,
    limit: i128,
)
    ensures
        set_rules_outcome(None, now, s, f, t, x, limit) == Err::<UserAccount, BankError>(
            BankError::AccountNotInitialized,
        ),
        a.lock.is_active && now < a.lock.end_timestamp ==> set_rules_outcome(Some(a), now, s, f, t, x, limit)
            == Err::<UserAccount, BankError>(BankError::RulesLocked),
        !(a.lock.is_active && now < a.lock.end_timestamp) && s + f + t + x != 100 ==> set_rules_outcome(
            Some(a),
            now,
            s,
            f,
            t,
            x,
            limit,
        ) == Err::<UserAccount, BankError>(BankError::PercentagesNot100),
        !(a.lock.is_active && now < a.lock.end_timestamp) && s + f + t + x == 100 && limit <= 0
            ==> set_rules_outcome(Some(a), now, s, f, t, x, limit) == Err::<UserAccount, BankError>(
            BankError::DailyLimitNotPositive,
        ),
        !(a.lock.is_active && now < a.lock.end_timestamp) && s + f + t + x == 100 && limit > 0
            ==> set_rules_outcome(Some(a), now, s, f, t, x, limit) == Ok::<UserAccount, BankError>(
            UserAccount {
                rules: Rules {
                    savings_pct: s,
                    food_pct: f,
                    transport_pct: t,
                    flexible_pct: x,
                    daily_limit: limit,
                },
                lock: LockConfig {
                    is_active: false,
                    end_timestamp: a.lock.end_timestamp,
                    strictness: a.lock.strictness,
                },
                buckets: a.buckets,
                daily: a.daily,
                initialized: a.initialized,
            },
        ),
        s + f + t + x <= u32::MAX ==> set_rules_fits(Some(a), now, s, f, t, x),
        set_rules_fits(None, now, s, f, t, x),
{
}

/// `activate_lock` at ledger time `now`: refused while a lock holds; else
/// refused for a strictness above 2; else refused for less than 86400
/// seconds; otherwise (for any longer duration) it records an active lock
/// ending at `now + duration` with the given strictness and changes nothing
/// else, and the expiry then reads `now + duration`.  It needs only that
/// `now + duration` fits in a `u64`.
pub proof fn law_activate_behaviour(a: UserAccount, now: u64, duration: u64, strictness: u32)
    ensures
        activate_outcome(None, now, duration, strictness) == Err::<UserAccount, BankError>(
            BankError::AccountNotInitialized,
        ),
        a.lock.is_active && now < a.lock.end_timestamp ==> activate_outcome(Some(a), now, duration, strictness)
            == Err::<UserAccount, BankError>(BankError::LockAlreadyActive),
        !(a.lock.is_active && now < a.lock.end_timestamp) && strictness > 2 ==> activate_outcome(
            Some(a),
            now,
            duration,
            strictness,
        ) == Err::<UserAccount, BankError>(BankError::InvalidStrictness),
        !(a.lock.is_active && now < a.lock.end_timestamp) && strictness <= 2 && duration < 86400
            ==> activate_outcome(Some(a), now, duration, strictness) == Err::<UserAccount, BankError>(
            BankError::LockTooShort,
        ),
        !(a.lock.is_active && now < a.lock.end_timestamp) && strictness <= 2 && duration >= 86400 && now
            + duration <= u64::MAX ==> {
            &&& activate_outcome(Some(a), now, duration, strictness) == Ok::<UserAccount, BankError>(
                UserAccount {
                    rules: a.rules,
                    lock: LockConfig { is_active: true, end_timestamp: (now + duration) as u64, strictness },
                    buckets: a.buckets,
                    daily: a.daily,
                    initialized: a.initialized,
                },
            )
            &&& lock_expiry(activate_outcome(Some(a), now, duration, strictness)->Ok_0, now) == now + duration
        },
        now + duration <= u64::MAX ==> activate_fits(Some(a), now, duration, strictness),
{
}

/// `check_lock_status` at ledger time `now` answers whether the lock is
/// active with its end after `now`, records the lock as active exactly
/// then, and changes nothing else.
pub proof fn law_lock_status_behaviour(a: UserAccount, now: u64)
    ensures
        lock_status_outcome(None, now) == Err::<UserAccount, BankError>(BankError::AccountNotInitialized),
        lock_status_outcome(Some(a), now) == Ok::<UserAccount, BankError>(
            UserAccount {
                lock: LockConfig {
                    is_active: a.lock.is_active && now < a.lock.end_timestamp,
                    end_timestamp: a.lock.end_timestamp,
                    strictness: a.lock.strictness,
                },
                ..a
            },
        ),
{
}

/// `get_lock_expiry` at ledger time `now` reads the lock's end while the
/// lock is active and its end lies after `now`, and 0 otherwise: a
/// non-zero expiry always lies in the future.
pub proof fn law_lock_expiry_behaviour(a: UserAccount, now: u64)
    ensures
        a.lock.is_active && now < a.lock.end_timestamp ==> lock_expiry(a, now) == a.lock.end_timestamp,
        !(a.lock.is_active && now < a.lock.end_timestamp) ==> lock_expiry(a, now) == 0,
        lock_expiry(a, now) == 0 || lock_expiry(a, now) > now,
{
}

/// `deposit`: refused for an amount that is not positive (before the
/// account is looked up), for a user without an account, and for rules
/// whose percentages do not add up to 100; otherwise granted whatever the
/// lock's state and strictness, adding `amount * pct / 100` (rounded down)
/// to savings, food and transport, the rest of the amount to flexible, and
/// changing nothing else.  It needs only that the products and the new
/// balances fit in an `i128`.
pub proof fn law_deposit_behaviour(a: UserAccount, amount: i128)
    ensures
        amount <= 0 ==> deposit_outcome(Some(a), amount) == Err::<UserAccount, BankError>(
            BankError::DepositNotPositive,
        ),
        amount <= 0 ==> deposit_outcome(None, amount) == Err::<UserAccount, BankError>(
            BankError::DepositNotPositive,
        ),
        amount > 0 ==> deposit_outcome(None, amount) == Err::<UserAccount, BankError>(
            BankError::AccountNotInitialized,
        ),
        amount > 0 && a.rules.savings_pct + a.rules.food_pct + a.rules.transport_pct + a.rules.flexible_pct != 100
            ==> deposit_outcome(Some(a), amount) == Err::<UserAccount, BankError>(BankError::RulesNotSet),
        ({
            let s = amount * a.rules.savings_pct / 100;
            let f = amount * a.rules.food_pct / 100;
            let t = amount * a.rules.transport_pct / 100;
            amount > 0 && a.rules.savings_pct + a.rules.food_pct + a.rules.transport_pct + a.rules.flexible_pct
                == 100 && amount * a.rules.savings_pct <= i128::MAX && amount * a.rules.food_pct <= i128::MAX
                && amount * a.rules.transport_pct <= i128::MAX && a.buckets.savings + s <= i128::MAX
                && a.buckets.food + f <= i128::MAX && a.buckets.transport + t <= i128::MAX && a.buckets.flexible
                + (amount - s - f - t) <= i128::MAX ==> {
                &&& deposit_fits(Some(a), amount)
                &&& deposit_outcome(Some(a), amount) is Ok
                &&& deposit_outcome(Some(a), amount)->Ok_0 == UserAccount {
                    buckets: Buckets {
                        savings: (a.buckets.savings + s) as i128,
                        food: (a.buckets.food + f) as i128,
                        transport: (a.buckets.transport + t) as i128,
                        flexible: (a.buckets.flexible + (amount - s - f - t)) as i128,
                    },
                    ..a
                }
                &&& deposit_outcome(Some(a), amount)->Ok_0.buckets.savings == a.buckets.savings + s
                &&& deposit_outcome(Some(a), amount)->Ok_0.buckets.food == a.buckets.food + f
                &&& deposit_outcome(Some(a), amount)->Ok_0.buckets.transport == a.buckets.transport + t
                &&& deposit_outcome(Some(a), amount)->Ok_0.buckets.flexible == a.buckets.flexible + (amount - s
                    - f - t)
                &&& 0 <= s && 0 <= f && 0 <= t && 0 <= amount - s - f - t
            }
        }),
{
    if amount > 0 && a.rules.savings_pct + a.rules.food_pct + a.rules.transport_pct + a.rules.flexible_pct == 100 {
        lemma_shares_bounded(amount as int, a.rules);
    }
}

/// What `spend` at ledger time `t` counts as already spent today: the
/// recorded amount if it was recorded on the UTC day of `t`, else 0.
pub open spec fn recorded_today(a: UserAccount, t: u64) -> int {
    if a.daily.day_timestamp == t - t % 86400 {
        a.daily.amount_spent as int
    } else {
        0
    }
}

/// The balance that `spend` from `bucket` draws on.
pub open spec fn drawn_balance(b: Buckets, bucket: BucketType) -> int {
    match bucket {
        BucketType::Savings => b.savings as int,
        BucketType::Food => b.food as int,
        BucketType::Transport => b.transport as int,
        BucketType::Flexible => b.flexible as int,
    }
}

/// A spend is refused by the lock at `t`: from savings while a strict or
/// extreme lock holds, from any bucket while an extreme lock holds.
pub open spec fn lock_refuses(a: UserAccount, t: u64, bucket: BucketType) -> bool {
    a.lock.is_active && t < a.lock.end_timestamp && ((bucket == BucketType::Savings && a.lock.strictness >= 1)
        || a.lock.strictness == 2)
}

/// A granted spend of `amount` at ledger time `t`: the amount is positive,
/// the lock did not refuse it, it is taken from the chosen bucket alone
/// (which held at least that much), the spending record is dated to the
/// start of the UTC day of `t` and holds what was spent earlier that day
/// plus the amount, which stays within the daily limit; an expired lock is
/// marked inactive and nothing else changes.
pub proof fn law_spend_granted(a: UserAccount, t: u64, bucket: BucketType, amount: i128)
    requires
        spend_outcome(Some(a), t, bucket, amount) is Ok,
    ensures
        ({
            let b = spend_outcome(Some(a), t, bucket, amount)->Ok_0;
            &&& amount > 0
            &&& !lock_refuses(a, t, bucket)
            &&& drawn_balance(a.buckets, bucket) >= amount
            &&& b.buckets.savings == a.buckets.savings - (if bucket == BucketType::Savings { amount as int } else { 0 })
            &&& b.buckets.food == a.buckets.food - (if bucket == BucketType::Food { amount as int } else { 0 })
            &&& b.buckets.transport == a.buckets.transport - (if bucket == BucketType::Transport {
                amount as int
            } else {
                0
            })
            &&& b.buckets.flexible == a.buckets.flexible - (if bucket == BucketType::Flexible {
                amount as int
            } else {
                0
            })
            &&& b.daily.day_timestamp == t - t % 86400
            &&& b.daily.amount_spent == recorded_today(a, t) + amount
            &&& b.daily.amount_spent <= a.rules.daily_limit
            &&& b.rules == a.rules
            &&& b.initialized == a.initialized
            &&& b.lock == LockConfig {
                is_active: a.lock.is_active && t < a.lock.end_timestamp,
                end_timestamp: a.lock.end_timestamp,
                strictness: a.lock.strictness,
            }
        }),
{
}

/// Which spends are granted: a positive amount that the lock does not
/// refuse is granted exactly when what was spent earlier that UTC day plus
/// the amount stays within the daily limit and the bucket holds the amount;
/// equivalently, when the amount is at most the day's remaining allowance
/// and the bucket holds it.  It needs only that the day's spending plus the
/// amount fits in an `i128`.
pub proof fn law_spend_grant_condition(a: UserAccount, t: u64, bucket: BucketType, amount: i128)
    ensures
        amount <= 0 ==> spend_outcome(Some(a), t, bucket, amount) == Err::<UserAccount, BankError>(
            BankError::SpendNotPositive,
        ),
        amount <= 0 ==> spend_outcome(None, t, bucket, amount) == Err::<UserAccount, BankError>(
            BankError::SpendNotPositive,
        ),
        amount > 0 ==> spend_outcome(None, t, bucket, amount) == Err::<UserAccount, BankError>(
            BankError::AccountNotInitialized,
        ),
        amount > 0 && a.lock.is_active && t < a.lock.end_timestamp && bucket == BucketType::Savings
            && a.lock.strictness >= 1 ==> spend_outcome(Some(a), t, bucket, amount) == Err::<
            UserAccount,
            BankError,
        >(BankError::SavingsLocked),
        amount > 0 && a.lock.is_active && t < a.lock.end_timestamp && bucket != BucketType::Savings
            && a.lock.strictness == 2 ==> spend_outcome(Some(a), t, bucket, amount) == Err::<
            UserAccount,
            BankError,
        >(BankError::SpendingFrozen),
        amount > 0 && !lock_refuses(a, t, bucket) ==> {
            &&& spend_outcome(Some(a), t, bucket, amount) is Ok <==> (recorded_today(a, t) + amount
                <= a.rules.daily_limit && drawn_balance(a.buckets, bucket) >= amount)
            &&& spend_outcome(Some(a), t, bucket, amount) is Ok <==> (amount <= daily_remaining(a, t)
                && drawn_balance(a.buckets, bucket) >= amount)
            &&& recorded_today(a, t) + amount > a.rules.daily_limit ==> spend_outcome(Some(a), t, bucket, amount)
                == Err::<UserAccount, BankError>(BankError::DailyLimitExceeded)
            &&& recorded_today(a, t) + amount <= a.rules.daily_limit && drawn_balance(a.buckets, bucket) < amount
                ==> spend_outcome(Some(a), t, bucket, amount) == Err::<UserAccount, BankError>(
                BankError::InsufficientBalance,
            )
            &&& recorded_today(a, t) + amount <= i128::MAX ==> spend_fits(Some(a), t, bucket, amount)
        },
{
}

/// Spending is tracked per UTC day: after a granted spend of `x1` at `t1`,
/// a spend of `x2` at a later `t2` on the same UTC day sees the amount
/// spent at `t1`.  It is granted only if `x1 + x2` (plus whatever was spent
/// that day before `t1`) stays within the daily limit, and when granted it
/// records both amounts.
pub proof fn law_spends_share_the_day(
    a: UserAccount,
    t1: u64,
    bucket1: BucketType,
    x1: i128,
    t2: u64,
    bucket2: BucketType,
    x2: i128,
)
    requires
        spend_outcome(Some(a), t1, bucket1, x1) is Ok,
        t1 <= t2,
        t1 / 86400 == t2 / 86400,
    ensures
        ({
            let b = spend_outcome(Some(a), t1, bucket1, x1)->Ok_0;
            &&& recorded_today(b, t2) == recorded_today(a, t1) + x1
            &&& spend_outcome(Some(b), t2, bucket2, x2) is Ok ==> {
                &&& recorded_today(a, t1) + x1 + x2 <= a.rules.daily_limit
                &&& spend_outcome(Some(b), t2, bucket2, x2)->Ok_0.daily.amount_spent == recorded_today(a, t1)
                    + x1 + x2
            }
            &&& recorded_today(a, t1) + x1 + x2 > a.rules.daily_limit ==> spend_outcome(
                Some(b),
                t2,
                bucket2,
                x2,
            ) is Err
            &&& daily_remaining(b, t2) == a.rules.daily_limit - (recorded_today(a, t1) + x1)
        }),
{
    assert(t1 - t1 % 86400 == t2 - t2 % 86400) by (nonlinear_arith)
        requires
            t1 / 86400 == t2 / 86400,
            t1 >= 0,
            t2 >= 0,
    ;
}

/// A spend on a later UTC day does not see what was spent on an earlier
/// one: the whole daily limit is available again.
pub proof fn law_new_day_resets_spending(a: UserAccount, t: u64)
    requires
        a.daily.day_timestamp != t - t % 86400,
    ensures
        recorded_today(a, t) == 0,
        daily_remaining(a, t) == a.rules.daily_limit,
{
}

/// `get_daily_remaining` at ledger time `t` does not depend on the lock: on
/// a UTC day without recorded spending it is the whole daily limit, and on
/// the day of the record it is the limit less what was spent, but never
/// below 0.  It needs only that this difference fits in an `i128`.
pub proof fn law_daily_remaining_behaviour(a: UserAccount, t: u64, lock: LockConfig)
    ensures
        daily_remaining(UserAccount { lock, ..a }, t) == daily_remaining(a, t),
        fetched(Some(a)) is Ok,
        a.daily.day_timestamp != t - t % 86400 ==> daily_remaining(a, t) == a.rules.daily_limit,
        a.daily.day_timestamp == t - t % 86400 ==> {
            &&& daily_remaining(a, t) >= 0
            &&& daily_remaining(a, t) >= a.rules.daily_limit - a.daily.amount_spent
            &&& (daily_remaining(a, t) == 0 || daily_remaining(a, t) == a.rules.daily_limit
                - a.daily.amount_spent)
        },
        i128::MIN <= a.rules.daily_limit - a.daily.amount_spent <= i128::MAX ==> remaining_fits(Some(a), t),
        a.daily.day_timestamp != t - t % 86400 ==> remaining_fits(Some(a), t),
{
}

} // verus!
