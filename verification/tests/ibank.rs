use i_bank::IBankContract;
use i_bank::{BankError, BucketType, UserAccount};

/// An initialised account with rules set, as the scenarios below start.
fn account_with_rules(s: u32, f: u32, t: u32, x: u32, limit: i128) -> Option<UserAccount> {
    let mut stored: Option<UserAccount> = None;
    IBankContract::init_account(&mut stored).unwrap();
    IBankContract::set_rules(&mut stored, 0, s, f, t, x, limit).unwrap();
    stored
}

// ============================================================================
// Scenarios of the contract's own test suite
// ============================================================================

#[test]
fn test_deposit_and_split_success() {
    let mut stored: Option<UserAccount> = None;

    IBankContract::init_account(&mut stored).unwrap();
    IBankContract::set_rules(&mut stored, 0, 40, 30, 15, 15, 1000).unwrap();
    IBankContract::deposit(&mut stored, 1000).unwrap();

    let balances = IBankContract::get_balances(&stored).unwrap();
    assert_eq!(balances.savings, 400, "Savings should be 40% of 1000");
    assert_eq!(balances.food, 300, "Food should be 30% of 1000");
    assert_eq!(balances.transport, 150, "Transport should be 15% of 1000");
    assert_eq!(balances.flexible, 150, "Flexible should be 15% of 1000");

    let total = balances.savings + balances.food + balances.transport + balances.flexible;
    assert_eq!(total, 1000, "Total should equal deposit amount");
}

#[test]
fn test_rule_update_blocked_during_lock() {
    let mut stored: Option<UserAccount> = None;
    IBankContract::init_account(&mut stored).unwrap();
    IBankContract::set_rules(&mut stored, 0, 40, 30, 15, 15, 1000).unwrap();

    let thirty_days: u64 = 30 * 24 * 60 * 60;
    IBankContract::activate_lock(&mut stored, 0, thirty_days, 1).unwrap();

    let before = stored;
    let result = IBankContract::set_rules(&mut stored, 0, 50, 25, 15, 10, 500);
    assert_eq!(result, Err(BankError::RulesLocked));
    assert_eq!(stored, before);
}

#[test]
fn test_state_after_deposit() {
    let mut stored = account_with_rules(25, 25, 25, 25, 500);

    IBankContract::deposit(&mut stored, 400).unwrap();
    let balances1 = IBankContract::get_balances(&stored).unwrap();
    assert_eq!(balances1.savings, 100);
    assert_eq!(balances1.food, 100);
    assert_eq!(balances1.transport, 100);
    assert_eq!(balances1.flexible, 100);

    IBankContract::deposit(&mut stored, 200).unwrap();
    let balances2 = IBankContract::get_balances(&stored).unwrap();
    assert_eq!(balances2.savings, 150, "Savings should accumulate");
    assert_eq!(balances2.food, 150, "Food should accumulate");
    assert_eq!(balances2.transport, 150, "Transport should accumulate");
    assert_eq!(balances2.flexible, 150, "Flexible should accumulate");

    let rules = IBankContract::get_rules(&stored).unwrap();
    assert_eq!(rules.savings_pct, 25);
    assert_eq!(rules.daily_limit, 500);
}

#[test]
fn test_spending_approval_within_limits() {
    let mut stored = account_with_rules(40, 30, 15, 15, 100);
    IBankContract::deposit(&mut stored, 1000).unwrap();

    let result = IBankContract::spend(&mut stored, 0, BucketType::Food, 50).unwrap();
    assert!(result, "Spending should be approved");

    let balances = IBankContract::get_balances(&stored).unwrap();
    assert_eq!(balances.food, 250, "Food should be reduced by 50");

    let remaining = IBankContract::get_daily_remaining(&stored, 0).unwrap();
    assert_eq!(remaining, 50, "Daily remaining should be 50");

    IBankContract::spend(&mut stored, 0, BucketType::Flexible, 30).unwrap();

    let remaining2 = IBankContract::get_daily_remaining(&stored, 0).unwrap();
    assert_eq!(remaining2, 20, "Daily remaining should be 20");
}

#[test]
fn test_spending_rejection_savings_locked() {
    let mut stored = account_with_rules(40, 30, 15, 15, 500);
    IBankContract::deposit(&mut stored, 1000).unwrap();

    let seven_days: u64 = 7 * 24 * 60 * 60;
    IBankContract::activate_lock(&mut stored, 0, seven_days, 1).unwrap();

    let balances = IBankContract::get_balances(&stored).unwrap();
    assert_eq!(balances.savings, 400);

    let result = IBankContract::spend(&mut stored, 0, BucketType::Savings, 100);
    assert_eq!(result, Err(BankError::SavingsLocked));
}

// ============================================================================
// Initialisation and lookups
// ============================================================================

#[test]
fn init_creates_empty_account() {
    let mut stored: Option<UserAccount> = None;
    assert_eq!(IBankContract::init_account(&mut stored), Ok(()));
    let account = IBankContract::get_account(&stored).unwrap();
    assert!(account.initialized);
    assert_eq!(account.rules.daily_limit, 0);
    assert_eq!(account.buckets.savings + account.buckets.food + account.buckets.transport + account.buckets.flexible, 0);
    assert_eq!(IBankContract::get_lock_expiry(&stored, 0), Ok(0));
    assert_eq!(IBankContract::get_daily_remaining(&stored, 0), Ok(0));
}

#[test]
fn init_twice_is_refused() {
    let mut stored: Option<UserAccount> = None;
    IBankContract::init_account(&mut stored).unwrap();
    let before = stored;
    assert_eq!(IBankContract::init_account(&mut stored), Err(BankError::AccountAlreadyInitialized));
    assert_eq!(stored, before);
}

#[test]
fn operations_without_account_are_refused() {
    let mut stored: Option<UserAccount> = None;
    let missing = Err(BankError::AccountNotInitialized);
    assert_eq!(IBankContract::set_rules(&mut stored, 0, 25, 25, 25, 25, 10), missing);
    assert_eq!(IBankContract::activate_lock(&mut stored, 0, 86400, 0), missing);
    assert_eq!(IBankContract::check_lock_status(&mut stored, 0), Err(BankError::AccountNotInitialized));
    assert_eq!(IBankContract::deposit(&mut stored, 10), missing);
    assert_eq!(IBankContract::spend(&mut stored, 0, BucketType::Food, 10), Err(BankError::AccountNotInitialized));
    assert_eq!(IBankContract::get_account(&stored), Err(BankError::AccountNotInitialized));
    assert_eq!(IBankContract::get_balances(&stored), Err(BankError::AccountNotInitialized));
    assert_eq!(IBankContract::get_rules(&stored), Err(BankError::AccountNotInitialized));
    assert_eq!(IBankContract::get_daily_remaining(&stored, 0), Err(BankError::AccountNotInitialized));
    assert_eq!(IBankContract::get_lock_expiry(&stored, 0), Err(BankError::AccountNotInitialized));
    assert_eq!(stored, None);
}

// ============================================================================
// Rules
// ============================================================================

#[test]
fn rules_must_add_up_to_100() {
    let mut stored: Option<UserAccount> = None;
    IBankContract::init_account(&mut stored).unwrap();
    assert_eq!(IBankContract::set_rules(&mut stored, 0, 40, 30, 15, 14, 100), Err(BankError::PercentagesNot100));
    assert_eq!(IBankContract::set_rules(&mut stored, 0, 40, 30, 15, 16, 100), Err(BankError::PercentagesNot100));
    assert_eq!(IBankContract::get_rules(&stored).unwrap().savings_pct, 0);
}

#[test]
fn daily_limit_must_be_positive() {
    let mut stored: Option<UserAccount> = None;
    IBankContract::init_account(&mut stored).unwrap();
    assert_eq!(IBankContract::set_rules(&mut stored, 0, 25, 25, 25, 25, 0), Err(BankError::DailyLimitNotPositive));
    assert_eq!(IBankContract::set_rules(&mut stored, 0, 25, 25, 25, 25, -5), Err(BankError::DailyLimitNotPositive));
}

#[test]
fn lock_check_comes_before_percentage_check() {
    let mut stored = account_with_rules(25, 25, 25, 25, 100);
    IBankContract::activate_lock(&mut stored, 10, 86400, 0).unwrap();
    assert_eq!(IBankContract::set_rules(&mut stored, 11, 1, 1, 1, 1, 0), Err(BankError::RulesLocked));
}

#[test]
fn rules_can_change_once_lock_expired() {
    let mut stored = account_with_rules(25, 25, 25, 25, 100);
    IBankContract::activate_lock(&mut stored, 100, 86400, 2).unwrap();
    assert_eq!(IBankContract::set_rules(&mut stored, 86499, 50, 20, 20, 10, 300), Err(BankError::RulesLocked));
    assert_eq!(IBankContract::set_rules(&mut stored, 86500, 50, 20, 20, 10, 300), Ok(()));
    let account = IBankContract::get_account(&stored).unwrap();
    assert!(!account.lock.is_active);
    assert_eq!(account.rules.savings_pct, 50);
    assert_eq!(account.rules.daily_limit, 300);
    assert_eq!(IBankContract::get_lock_expiry(&stored, 86500), Ok(0));
}

// ============================================================================
// Self-lock
// ============================================================================

#[test]
fn lock_parameters_are_checked() {
    let mut stored = account_with_rules(25, 25, 25, 25, 100);
    assert_eq!(IBankContract::activate_lock(&mut stored, 0, 86400, 3), Err(BankError::InvalidStrictness));
    assert_eq!(IBankContract::activate_lock(&mut stored, 0, 86399, 1), Err(BankError::LockTooShort));
    assert_eq!(IBankContract::get_lock_expiry(&stored, 0), Ok(0));
    assert_eq!(IBankContract::activate_lock(&mut stored, 0, 86400, 2), Ok(()));
    assert_eq!(IBankContract::get_lock_expiry(&stored, 0), Ok(86400));
}

#[test]
fn lock_cannot_be_activated_twice() {
    let mut stored = account_with_rules(25, 25, 25, 25, 100);
    IBankContract::activate_lock(&mut stored, 1000, 86400, 0).unwrap();
    assert_eq!(IBankContract::activate_lock(&mut stored, 2000, 172800, 1), Err(BankError::LockAlreadyActive));
    assert_eq!(IBankContract::get_lock_expiry(&stored, 2000), Ok(87400));
    // After expiry a new lock can be activated.
    assert_eq!(IBankContract::activate_lock(&mut stored, 87400, 172800, 1), Ok(()));
    assert_eq!(IBankContract::get_lock_expiry(&stored, 87400), Ok(260200));
}

#[test]
fn lock_status_reports_and_releases() {
    let mut stored = account_with_rules(25, 25, 25, 25, 100);
    assert_eq!(IBankContract::check_lock_status(&mut stored, 0), Ok(false));
    IBankContract::activate_lock(&mut stored, 100, 86400, 1).unwrap();
    let locked = stored;
    assert_eq!(IBankContract::check_lock_status(&mut stored, 86499), Ok(true));
    assert_eq!(stored, locked);
    assert_eq!(IBankContract::get_lock_expiry(&stored, 86499), Ok(86500));
    assert_eq!(IBankContract::check_lock_status(&mut stored, 86500), Ok(false));
    assert!(!IBankContract::get_account(&stored).unwrap().lock.is_active);
    assert_eq!(IBankContract::get_lock_expiry(&stored, 86500), Ok(0));
}

#[test]
fn expiry_reads_zero_once_the_lock_has_ended() {
    let mut stored: Option<UserAccount> = None;
    IBankContract::init_account(&mut stored).unwrap();
    IBankContract::activate_lock(&mut stored, 0, 86400, 1).unwrap();
    // No call releases the lock; the expiry is read after its end.
    assert!(IBankContract::get_account(&stored).unwrap().lock.is_active);
    assert_eq!(IBankContract::get_lock_expiry(&stored, 86399), Ok(86400));
    assert_eq!(IBankContract::get_lock_expiry(&stored, 86400), Ok(0));
    assert_eq!(IBankContract::get_lock_expiry(&stored, 100000), Ok(0));
}

// ============================================================================
// Deposits
// ============================================================================

#[test]
fn deposit_requires_rules_and_positive_amount() {
    let mut stored: Option<UserAccount> = None;
    IBankContract::init_account(&mut stored).unwrap();
    assert_eq!(IBankContract::deposit(&mut stored, 100), Err(BankError::RulesNotSet));
    IBankContract::set_rules(&mut stored, 0, 25, 25, 25, 25, 100).unwrap();
    assert_eq!(IBankContract::deposit(&mut stored, 0), Err(BankError::DepositNotPositive));
    assert_eq!(IBankContract::deposit(&mut stored, -3), Err(BankError::DepositNotPositive));
}

#[test]
fn deposit_remainder_goes_to_flexible() {
    let mut stored = account_with_rules(33, 33, 33, 1, 100);
    IBankContract::deposit(&mut stored, 7).unwrap();
    let b = IBankContract::get_balances(&stored).unwrap();
    assert_eq!((b.savings, b.food, b.transport, b.flexible), (2, 2, 2, 1));
    IBankContract::deposit(&mut stored, 10).unwrap();
    let b = IBankContract::get_balances(&stored).unwrap();
    assert_eq!((b.savings, b.food, b.transport, b.flexible), (5, 5, 5, 2));
    assert_eq!(b.savings + b.food + b.transport + b.flexible, 17);
}

#[test]
fn deposit_leaves_rules_lock_and_daily_alone() {
    let mut stored = account_with_rules(10, 20, 30, 40, 100);
    IBankContract::activate_lock(&mut stored, 0, 86400, 2).unwrap();
    let before = IBankContract::get_account(&stored).unwrap();
    IBankContract::deposit(&mut stored, 999).unwrap();
    let after = IBankContract::get_account(&stored).unwrap();
    assert_eq!(after.rules, before.rules);
    assert_eq!(after.lock, before.lock);
    assert_eq!(after.daily, before.daily);
    assert_eq!(
        (after.buckets.savings, after.buckets.food, after.buckets.transport, after.buckets.flexible),
        (99, 199, 299, 402)
    );
}

// ============================================================================
// Spending
// ============================================================================

#[test]
fn spend_checks_amount_limit_and_balance() {
    let mut stored = account_with_rules(40, 30, 15, 15, 100);
    IBankContract::deposit(&mut stored, 200).unwrap();
    assert_eq!(IBankContract::spend(&mut stored, 0, BucketType::Food, 0), Err(BankError::SpendNotPositive));
    assert_eq!(IBankContract::spend(&mut stored, 0, BucketType::Food, 101), Err(BankError::DailyLimitExceeded));
    assert_eq!(IBankContract::spend(&mut stored, 0, BucketType::Transport, 31), Err(BankError::InsufficientBalance));
    let before = stored;
    assert_eq!(IBankContract::spend(&mut stored, 0, BucketType::Transport, 31), Err(BankError::InsufficientBalance));
    assert_eq!(stored, before);
    assert_eq!(IBankContract::spend(&mut stored, 0, BucketType::Transport, 30), Ok(true));
    assert_eq!(IBankContract::get_balances(&stored).unwrap().transport, 0);
}

#[test]
fn daily_limit_resets_on_a_new_day() {
    let mut stored = account_with_rules(25, 25, 25, 25, 100);
    IBankContract::deposit(&mut stored, 1000).unwrap();
    let noon: u64 = 86400 * 3 + 43200;
    IBankContract::spend(&mut stored, noon, BucketType::Food, 100).unwrap();
    assert_eq!(IBankContract::get_daily_remaining(&stored, noon), Ok(0));
    assert_eq!(IBankContract::spend(&mut stored, noon + 1, BucketType::Food, 1), Err(BankError::DailyLimitExceeded));
    let next_day = 86400 * 4;
    assert_eq!(IBankContract::get_daily_remaining(&stored, next_day), Ok(100));
    assert_eq!(IBankContract::spend(&mut stored, next_day, BucketType::Food, 60), Ok(true));
    let account = IBankContract::get_account(&stored).unwrap();
    assert_eq!(account.daily.day_timestamp, next_day);
    assert_eq!(account.daily.amount_spent, 60);
    assert_eq!(IBankContract::get_daily_remaining(&stored, next_day + 5), Ok(40));
}

#[test]
fn remaining_never_below_zero_after_lowering_the_limit() {
    let mut stored = account_with_rules(25, 25, 25, 25, 100);
    IBankContract::deposit(&mut stored, 1000).unwrap();
    IBankContract::spend(&mut stored, 0, BucketType::Food, 80).unwrap();
    IBankContract::set_rules(&mut stored, 10, 25, 25, 25, 25, 50).unwrap();
    assert_eq!(IBankContract::get_daily_remaining(&stored, 10), Ok(0));
    assert_eq!(IBankContract::spend(&mut stored, 10, BucketType::Food, 1), Err(BankError::DailyLimitExceeded));
}

#[test]
fn strict_lock_freezes_only_savings() {
    let mut stored = account_with_rules(25, 25, 25, 25, 100);
    IBankContract::deposit(&mut stored, 400).unwrap();
    IBankContract::activate_lock(&mut stored, 0, 86400, 1).unwrap();
    assert_eq!(IBankContract::spend(&mut stored, 5, BucketType::Savings, 10), Err(BankError::SavingsLocked));
    assert_eq!(IBankContract::spend(&mut stored, 5, BucketType::Food, 10), Ok(true));
    assert_eq!(IBankContract::spend(&mut stored, 5, BucketType::Transport, 10), Ok(true));
    assert_eq!(IBankContract::spend(&mut stored, 5, BucketType::Flexible, 10), Ok(true));
    // The lock is still recorded as active.
    assert_eq!(IBankContract::get_lock_expiry(&stored, 5), Ok(86400));
}

#[test]
fn soft_lock_freezes_only_rules() {
    let mut stored = account_with_rules(25, 25, 25, 25, 100);
    IBankContract::deposit(&mut stored, 400).unwrap();
    IBankContract::activate_lock(&mut stored, 0, 86400, 0).unwrap();
    assert_eq!(IBankContract::spend(&mut stored, 5, BucketType::Savings, 10), Ok(true));
    assert_eq!(IBankContract::spend(&mut stored, 5, BucketType::Food, 10), Ok(true));
    assert_eq!(IBankContract::set_rules(&mut stored, 5, 10, 20, 30, 40, 100), Err(BankError::RulesLocked));
    assert_eq!(IBankContract::get_balances(&stored).unwrap().savings, 90);
    assert_eq!(IBankContract::get_lock_expiry(&stored, 5), Ok(86400));
}

#[test]
fn extreme_lock_freezes_all_spending() {
    let mut stored = account_with_rules(25, 25, 25, 25, 100);
    IBankContract::deposit(&mut stored, 400).unwrap();
    IBankContract::activate_lock(&mut stored, 0, 86400, 2).unwrap();
    assert_eq!(IBankContract::spend(&mut stored, 5, BucketType::Savings, 10), Err(BankError::SavingsLocked));
    assert_eq!(IBankContract::spend(&mut stored, 5, BucketType::Food, 10), Err(BankError::SpendingFrozen));
    assert_eq!(IBankContract::spend(&mut stored, 86399, BucketType::Flexible, 10), Err(BankError::SpendingFrozen));
    // Once expired, savings can be spent and the lock is released.
    assert_eq!(IBankContract::spend(&mut stored, 86400, BucketType::Savings, 10), Ok(true));
    assert!(!IBankContract::get_account(&stored).unwrap().lock.is_active);
    assert_eq!(IBankContract::get_balances(&stored).unwrap().savings, 90);
}

#[test]
fn spend_reduces_remaining_by_amount() {
    let mut stored = account_with_rules(25, 25, 25, 25, 500);
    IBankContract::deposit(&mut stored, 1000).unwrap();
    let now: u64 = 1_700_000_000;
    let before = IBankContract::get_daily_remaining(&stored, now).unwrap();
    IBankContract::spend(&mut stored, now, BucketType::Transport, 123).unwrap();
    let after = IBankContract::get_daily_remaining(&stored, now).unwrap();
    assert_eq!(before - after, 123);
    let b = IBankContract::get_balances(&stored).unwrap();
    assert_eq!(b.savings + b.food + b.transport + b.flexible, 877);
}

// ============================================================================
// Inputs that would overflow
// ============================================================================

#[test]
fn range_checks_flag_overflowing_inputs() {
    let mut stored: Option<UserAccount> = None;
    IBankContract::init_account(&mut stored).unwrap();
    assert!(IBankContract::set_rules_in_range(&stored, 0, 25, 25, 25, 25));
    assert!(!IBankContract::set_rules_in_range(&stored, 0, u32::MAX, 1, 0, 0));
    assert!(IBankContract::set_rules_in_range(&None, 0, u32::MAX, 1, 0, 0));

    IBankContract::set_rules(&mut stored, 0, 25, 25, 25, 25, 100).unwrap();
    assert!(IBankContract::deposit_in_range(&stored, 1000));
    assert!(!IBankContract::deposit_in_range(&stored, i128::MAX));
    assert!(IBankContract::deposit_in_range(&stored, -1));

    assert!(IBankContract::activate_lock_in_range(&stored, 0, 86400, 0));
    assert!(!IBankContract::activate_lock_in_range(&stored, u64::MAX - 10, 86400, 0));
    assert!(IBankContract::activate_lock_in_range(&stored, u64::MAX - 10, 86400, 3));

    assert!(IBankContract::spend_in_range(&stored, 0, BucketType::Food, i128::MAX));
    IBankContract::deposit(&mut stored, 1000).unwrap();
    IBankContract::spend(&mut stored, 0, BucketType::Food, 10).unwrap();
    assert!(!IBankContract::spend_in_range(&stored, 0, BucketType::Food, i128::MAX));
    assert!(IBankContract::spend_in_range(&stored, 86400, BucketType::Food, i128::MAX));
    assert!(IBankContract::daily_remaining_in_range(&stored, 0));
}
