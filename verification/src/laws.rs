//! Properties of the bank that span operations or hold of every state.

use vstd::prelude::*;

use crate::arith::lemma_shares_bounded;
use crate::model::{
    activate_fits, activate_outcome, balance, commit, daily_remaining, day_start, deposit_fits,
    deposit_outcome, flexible_share, fresh_account, init_outcome, lock_expiry, lock_holds,
    lock_status_outcome, set_rules_outcome, share, spend_outcome, total, valid_account, valid_record,
    EXTREME_STRICTNESS, STRICT_STRICTNESS,
};
use crate::types::{BankError, BucketType, Rules, UserAccount};

verus! {

/// A deposit is split without loss: the four buckets together grow by
/// exactly the deposited amount, each of savings, food and transport by its
/// rounded-down percentage and flexible by the non-negative remainder; the
/// rules, the lock and the daily spending stay as they were.
pub proof fn law_deposit_conserves_amount(stored: Option<UserAccount>, amount: i128)
    requires
        deposit_fits(stored, amount),
        deposit_outcome(stored, amount) is Ok,
    ensures
        ({
            let a = stored->0;
            let b = deposit_outcome(stored, amount)->Ok_0;
            &&& total(b.buckets) == total(a.buckets) + amount
            &&& b.buckets.savings == a.buckets.savings + share(amount as int, a.rules.savings_pct)
            &&& b.buckets.food == a.buckets.food + share(amount as int, a.rules.food_pct)
            &&& b.buckets.transport == a.buckets.transport + share(amount as int, a.rules.transport_pct)
            &&& b.buckets.flexible == a.buckets.flexible + flexible_share(amount as int, a.rules)
            &&& 0 <= flexible_share(amount as int, a.rules) <= amount
            &&& b.rules == a.rules && b.lock == a.lock && b.daily == a.daily
        }),
{
    lemma_shares_bounded(amount as int, stored->0.rules);
}

/// A refused request changes nothing: whatever the operation, when its
/// outcome is an error the stored record stays as it was, as a reverted
/// contract call leaves storage.
pub proof fn law_refusals_change_nothing(stored: Option<UserAccount>, outcome: Result<UserAccount, BankError>)
    requires
        outcome is Err,
    ensures
        commit(stored, outcome) == stored,
{
}

/// While the self-lock holds, the rules cannot be changed: every
/// `set_rules` request is refused with `RulesLocked`.
pub proof fn law_lock_freezes_rules(
    a: UserAccount,
    now: u64,
    savings_pct: u32,
    food_pct: u32,
    transport_pct: u32,
    flexible_pct: u32,
    daily_limit: i128,
)
    requires
        lock_holds(a.lock, now),
    ensures
        set_rules_outcome(Some(a), now, savings_pct, food_pct, transport_pct, flexible_pct, daily_limit)
            == Err::<UserAccount, BankError>(BankError::RulesLocked),
{
}

/// Once a lock of `duration` seconds was activated at `start`, every
/// request to change the rules before `start + duration` is refused.
pub proof fn law_rules_locked_until_expiry(
    stored: Option<UserAccount>,
    start: u64,
    duration: u64,
    strictness: u32,
    now: u64,
    savings_pct: u32,
    food_pct: u32,
    transport_pct: u32,
    flexible_pct: u32,
    daily_limit: i128,
)
    requires
        activate_fits(stored, start, duration, strictness),
        activate_outcome(stored, start, duration, strictness) is Ok,
        now < start + duration,
    ensures
        set_rules_outcome(
            commit(stored, activate_outcome(stored, start, duration, strictness)),
            now,
            savings_pct,
            food_pct,
            transport_pct,
            flexible_pct,
            daily_limit,
        ) == Err::<UserAccount, BankError>(BankError::RulesLocked),
{
}

/// Once a lock of `duration` seconds was activated at `start`, the savings
/// bucket cannot be spent from before `start + duration` if the lock is
/// strict or extreme, and with the extreme strictness no bucket can.  A
/// soft lock freezes only the rules: it refuses no spending.
pub proof fn law_spending_locked_until_expiry(
    stored: Option<UserAccount>,
    start: u64,
    duration: u64,
    strictness: u32,
    now: u64,
    bucket: BucketType,
    amount: i128,
)
    requires
        activate_fits(stored, start, duration, strictness),
        activate_outcome(stored, start, duration, strictness) is Ok,
        now < start + duration,
        amount > 0,
    ensures
        bucket == BucketType::Savings && strictness >= STRICT_STRICTNESS ==> spend_outcome(
            commit(stored, activate_outcome(stored, start, duration, strictness)),
            now,
            bucket,
            amount,
        ) == Err::<UserAccount, BankError>(BankError::SavingsLocked),
        bucket != BucketType::Savings && strictness == EXTREME_STRICTNESS ==> spend_outcome(
            commit(stored, activate_outcome(stored, start, duration, strictness)),
            now,
            bucket,
            amount,
        ) == Err::<UserAccount, BankError>(BankError::SpendingFrozen),
        strictness < STRICT_STRICTNESS ==> spend_outcome(
            commit(stored, activate_outcome(stored, start, duration, strictness)),
            now,
            bucket,
            amount,
        ) != Err::<UserAccount, BankError>(BankError::SavingsLocked) && spend_outcome(
            commit(stored, activate_outcome(stored, start, duration, strictness)),
            now,
            bucket,
            amount,
        ) != Err::<UserAccount, BankError>(BankError::SpendingFrozen),
{
}

/// After activation the lock holds exactly until its end: at any time from
/// the activation on, `check_lock_status` reports it holding precisely
/// before `start + duration`, and `get_lock_expiry` reports that end
/// until then and 0 from then on, whether or not the lock was released.
pub proof fn law_lock_holds_until_expiry(
    stored: Option<UserAccount>,
    start: u64,
    duration: u64,
    strictness: u32,
    now: u64,
)
    requires
        activate_fits(stored, start, duration, strictness),
        activate_outcome(stored, start, duration, strictness) is Ok,
    ensures
        ({
            let b = activate_outcome(stored, start, duration, strictness)->Ok_0;
            &&& lock_holds(b.lock, now) <==> now < start + duration
            &&& (now < start + duration ==> lock_expiry(b, now) == start + duration)
            &&& (now >= start + duration ==> lock_expiry(b, now) == 0)
            &&& lock_status_outcome(Some(b), now) is Ok
            &&& (now >= start + duration ==> lock_expiry(lock_status_outcome(Some(b), now)->Ok_0, now) == 0)
        }),
{
}

/// A spend that is granted takes exactly the amount from the chosen bucket
/// and leaves the others alone, and keeps the day's spending within the
/// daily limit.
pub proof fn law_spend_within_limits(stored: Option<UserAccount>, now: u64, bucket: BucketType, amount: i128)
    requires
        spend_outcome(stored, now, bucket, amount) is Ok,
    ensures
        ({
            let a = stored->0;
            let b = spend_outcome(stored, now, bucket, amount)->Ok_0;
            &&& balance(b.buckets, bucket) == balance(a.buckets, bucket) - amount
            &&& total(b.buckets) == total(a.buckets) - amount
            &&& forall|other: BucketType| other != bucket ==> #[trigger] balance(b.buckets, other) == balance(
                a.buckets,
                other,
            )
            &&& b.daily.day_timestamp == day_start(now)
            &&& b.daily.amount_spent <= b.rules.daily_limit
            &&& (a.daily.amount_spent >= 0 ==> b.daily.amount_spent >= amount > 0)
            &&& b.rules == a.rules
        }),
{
    let a = stored->0;
    let b = spend_outcome(stored, now, bucket, amount)->Ok_0;
    assert forall|other: BucketType| other != bucket implies #[trigger] balance(b.buckets, other) == balance(
        a.buckets,
        other,
    ) by {
        match other {
            BucketType::Savings => {},
            BucketType::Food => {},
            BucketType::Transport => {},
            BucketType::Flexible => {},
        }
    }
}

/// A granted spend is never more than what could still be spent that day,
/// and it lowers that allowance by exactly the amount.
pub proof fn law_spend_reduces_remaining(stored: Option<UserAccount>, now: u64, bucket: BucketType, amount: i128)
    requires
        spend_outcome(stored, now, bucket, amount) is Ok,
    ensures
        amount <= daily_remaining(stored->0, now),
        daily_remaining(spend_outcome(stored, now, bucket, amount)->Ok_0, now) == daily_remaining(stored->0, now)
            - amount,
{
}

/// Once valid rules are set, every positive deposit is accepted.
pub proof fn law_rules_enable_deposits(
    stored: Option<UserAccount>,
    now: u64,
    savings_pct: u32,
    food_pct: u32,
    transport_pct: u32,
    flexible_pct: u32,
    daily_limit: i128,
    amount: i128,
)
    requires
        set_rules_outcome(stored, now, savings_pct, food_pct, transport_pct, flexible_pct, daily_limit) is Ok,
        amount > 0,
    ensures
        deposit_outcome(
            commit(
                stored,
                set_rules_outcome(stored, now, savings_pct, food_pct, transport_pct, flexible_pct, daily_limit),
            ),
            amount,
        ) is Ok,
{
}

/// The rules stay as they were last set: deposits, spends, lock
/// activations and lock-status checks (granted or refused) and refused rule
/// changes all leave the stored rules unchanged; only a granted `set_rules`
/// replaces them.
pub proof fn law_rules_persist(
    stored: Option<UserAccount>,
    now: u64,
    savings_pct: u32,
    food_pct: u32,
    transport_pct: u32,
    flexible_pct: u32,
    daily_limit: i128,
    duration: u64,
    strictness: u32,
    bucket: BucketType,
    amount: i128,
)
    requires
        stored is Some,
    ensures
        commit(stored, deposit_outcome(stored, amount))->0.rules == stored->0.rules,
        commit(stored, spend_outcome(stored, now, bucket, amount))->0.rules == stored->0.rules,
        commit(stored, activate_outcome(stored, now, duration, strictness))->0.rules == stored->0.rules,
        commit(stored, lock_status_outcome(stored, now))->0.rules == stored->0.rules,
        set_rules_outcome(stored, now, savings_pct, food_pct, transport_pct, flexible_pct, daily_limit) is Err
            ==> commit(
            stored,
            set_rules_outcome(stored, now, savings_pct, food_pct, transport_pct, flexible_pct, daily_limit),
        ) == stored,
        set_rules_outcome(stored, now, savings_pct, food_pct, transport_pct, flexible_pct, daily_limit) is Ok
            ==> commit(
            stored,
            set_rules_outcome(stored, now, savings_pct, food_pct, transport_pct, flexible_pct, daily_limit),
        )->0.rules == (Rules { savings_pct, food_pct, transport_pct, flexible_pct, daily_limit }),
{
}

/// A lock stays in force until its end, whatever is requested meanwhile:
/// if the lock holds at time `later`, then every operation made at a time
/// `now` no later than that (granted or refused) leaves the lock exactly
/// as it was, so it still holds at `later`.
pub proof fn law_lock_stays_in_force(
    stored: Option<UserAccount>,
    now: u64,
    later: u64,
    savings_pct: u32,
    food_pct: u32,
    transport_pct: u32,
    flexible_pct: u32,
    daily_limit: i128,
    duration: u64,
    strictness: u32,
    bucket: BucketType,
    amount: i128,
)
    requires
        stored is Some,
        now <= later,
        lock_holds(stored->0.lock, later),
    ensures
        commit(stored, deposit_outcome(stored, amount))->0.lock == stored->0.lock,
        commit(stored, spend_outcome(stored, now, bucket, amount))->0.lock == stored->0.lock,
        commit(stored, activate_outcome(stored, now, duration, strictness))->0.lock == stored->0.lock,
        commit(stored, lock_status_outcome(stored, now))->0.lock == stored->0.lock,
        commit(
            stored,
            set_rules_outcome(stored, now, savings_pct, food_pct, transport_pct, flexible_pct, daily_limit),
        )->0.lock == stored->0.lock,
        lock_holds(commit(stored, spend_outcome(stored, now, bucket, amount))->0.lock, later),
        lock_expiry(commit(stored, lock_status_outcome(stored, now))->0, later) == stored->0.lock.end_timestamp,
{
}

/// A freshly initialised account is valid, and it accepts no deposit
/// until rules are set.
pub proof fn law_fresh_account(amount: i128)
    ensures
        init_outcome(None) == Ok::<UserAccount, BankError>(fresh_account()),
        valid_account(fresh_account()),
        amount > 0 ==> deposit_outcome(Some(fresh_account()), amount) == Err::<UserAccount, BankError>(
            BankError::RulesNotSet,
        ),
{
}

/// Every operation keeps the stored record valid: rules are the initial
/// ones or add up to 100 with a positive limit, no bucket and no day's
/// spending is ever negative, and the strictness stays in range.  This
/// holds of `init_account`, `set_rules`, `activate_lock` and
/// `check_lock_status`.
pub proof fn law_account_setup_keeps_records_valid(
    stored: Option<UserAccount>,
    now: u64,
    savings_pct: u32,
    food_pct: u32,
    transport_pct: u32,
    flexible_pct: u32,
    daily_limit: i128,
    duration: u64,
    strictness: u32,
)
    requires
        valid_record(stored),
    ensures
        valid_record(commit(stored, init_outcome(stored))),
        valid_record(
            commit(
                stored,
                set_rules_outcome(stored, now, savings_pct, food_pct, transport_pct, flexible_pct, daily_limit),
            ),
        ),
        valid_record(commit(stored, activate_outcome(stored, now, duration, strictness))),
        valid_record(commit(stored, lock_status_outcome(stored, now))),
{
}

/// A deposit keeps the stored record valid.
pub proof fn law_deposit_keeps_record_valid(stored: Option<UserAccount>, amount: i128)
    requires
        valid_record(stored),
        deposit_fits(stored, amount),
    ensures
        valid_record(commit(stored, deposit_outcome(stored, amount))),
{
    if deposit_outcome(stored, amount) is Ok {
        lemma_shares_bounded(amount as int, stored->0.rules);
    }
}

/// A spend keeps the stored record valid: no bucket is overdrawn.
pub proof fn law_spend_keeps_record_valid(stored: Option<UserAccount>, now: u64, bucket: BucketType, amount: i128)
    requires
        valid_record(stored),
    ensures
        valid_record(commit(stored, spend_outcome(stored, now, bucket, amount))),
{
}

} // verus!
