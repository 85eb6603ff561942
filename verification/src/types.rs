use vstd::prelude::*;

verus! {

/// Spending rules: percentage allocations of each deposit and the daily limit.
#[derive(Clone, Copy, Debug, PartialEq, Eq, Structural)]
pub struct Rules {
    /// Percentage of each deposit that goes to savings.
    pub savings_pct: u32,
    /// Percentage of each deposit that goes to food.
    pub food_pct: u32,
    /// Percentage of each deposit that goes to transport.
    pub transport_pct: u32,
    /// Percentage for flexible spending (the flexible bucket also takes the remainder).
    pub flexible_pct: u32,
    /// Maximum amount that may be spent per day, in token units.
    pub daily_limit: i128,
}

/// Self-lock configuration.
#[derive(Clone, Copy, Debug, PartialEq, Eq, Structural)]
pub struct LockConfig {
    /// Whether the lock was activated and not yet released.
    pub is_active: bool,
    /// Unix timestamp at which the lock expires.
    pub end_timestamp: u64,
    /// 0 = soft, 1 = strict, 2 = extreme.
    pub strictness: u32,
}

/// Balances of the four budget buckets.
#[derive(Clone, Copy, Debug, PartialEq, Eq, Structural)]
pub struct Buckets {
    pub savings: i128,
    pub food: i128,
    pub transport: i128,
    pub flexible: i128,
}

/// Spending tracked for the current day.
#[derive(Clone, Copy, Debug, PartialEq, Eq, Structural)]
pub struct DailySpending {
    /// Start (midnight, UTC) of the day that `amount_spent` belongs to.
    pub day_timestamp: u64,
    /// Total spent during that day.
    pub amount_spent: i128,
}

/// The complete state of one user's account.
#[derive(Clone, Copy, Debug, PartialEq, Eq, Structural)]
pub struct UserAccount {
    pub rules: Rules,
    pub lock: LockConfig,
    pub buckets: Buckets,
    pub daily: DailySpending,
    pub initialized: bool,
}

/// Identifies the bucket that a spending request draws from.
#[derive(Clone, Copy, Debug, PartialEq, Eq, Structural)]
pub enum BucketType {
    Savings,
    Food,
    Transport,
    Flexible,
}

/// Why a request was refused.  A refused request changes nothing.
#[derive(Clone, Copy, Debug, PartialEq, Eq, Structural)]
pub enum BankError {
    /// `init_account` on a user that already has an account.
    AccountAlreadyInitialized,
    /// Any other operation on a user without an account.
    AccountNotInitialized,
    /// `set_rules` while the self-lock holds.
    RulesLocked,
    /// `set_rules` with percentages that do not add up to 100.
    PercentagesNot100,
    /// `set_rules` with a daily limit that is zero or negative.
    DailyLimitNotPositive,
    /// `activate_lock` while the self-lock holds.
    LockAlreadyActive,
    /// `activate_lock` with a strictness above 2.
    InvalidStrictness,
    /// `activate_lock` for less than one day.
    LockTooShort,
    /// `deposit` of zero or a negative amount.
    DepositNotPositive,
    /// `deposit` before rules adding up to 100 were set.
    RulesNotSet,
    /// `spend` of zero or a negative amount.
    SpendNotPositive,
    /// `spend` from savings while the self-lock holds.
    SavingsLocked,
    /// `spend` from any bucket while an extreme self-lock holds.
    SpendingFrozen,
    /// `spend` that would take the day's spending over the daily limit.
    DailyLimitExceeded,
    /// `spend` of more than the bucket holds.
    InsufficientBalance,
}

} // verus!
