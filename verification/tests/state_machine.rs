use chrono::NaiveDate;
use orm_lib::decimal::Decimal;
use orm_lib::error::LedgerError;
use orm_lib::models::enums::AccountStatus;
use orm_lib::models::enums::AccountType;
use orm_lib::models::records::Account;

fn account(status: AccountStatus, count: i64, balance: Decimal) -> Account {
    Account {
        id: 11,
        account_status: status,
        account_type: AccountType::Personal,
        opened_on_date: NaiveDate::from_ymd_opt(2023, 12, 31).unwrap(),
        transaction_count: count,
        balance,
    }
}

#[test]
fn deposits_are_admitted_unless_closed() {
    assert!(AccountStatus::Open.accepts_deposit());
    assert!(AccountStatus::Frozen.accepts_deposit());
    assert!(!AccountStatus::Closed.accepts_deposit());
}

#[test]
fn withdrawals_are_admitted_when_open_only() {
    assert!(AccountStatus::Open.accepts_withdrawal());
    assert!(!AccountStatus::Frozen.accepts_withdrawal());
    assert!(!AccountStatus::Closed.accepts_withdrawal());
}

#[test]
fn deposit_opens_at_zero_or_above() {
    assert_eq!(AccountStatus::Frozen.settle_deposit(&Decimal::new(0, 2)), AccountStatus::Open);
    assert_eq!(AccountStatus::Frozen.settle_deposit(&Decimal::new(1, 2)), AccountStatus::Open);
    assert_eq!(AccountStatus::Frozen.settle_deposit(&Decimal::new(-1, 2)), AccountStatus::Frozen);
    assert_eq!(AccountStatus::Open.settle_deposit(&Decimal::new(5, 0)), AccountStatus::Open);
}

#[test]
fn withdrawal_freezes_below_zero() {
    assert_eq!(AccountStatus::Open.settle_withdrawal(&Decimal::new(-1, 2)), AccountStatus::Frozen);
    assert_eq!(AccountStatus::Open.settle_withdrawal(&Decimal::new(0, 2)), AccountStatus::Open);
    assert_eq!(AccountStatus::Open.settle_withdrawal(&Decimal::new(1, 2)), AccountStatus::Open);
}

#[test]
fn deposit_adds_to_balance_and_count() {
    let before = account(AccountStatus::Open, 3, Decimal::new(1000, 2));
    let after = before.deposit(&Decimal::new(255, 1)).unwrap();
    assert_eq!(after, account(AccountStatus::Open, 4, Decimal::new(3550, 2)));
}

#[test]
fn deposit_that_clears_the_deficit_opens_the_account() {
    let before = account(AccountStatus::Frozen, 3, Decimal::new(-1000, 2));
    assert_eq!(
        before.deposit(&Decimal::new(1000, 2)),
        Ok(account(AccountStatus::Open, 4, Decimal::new(0, 2)))
    );
    assert_eq!(
        before.deposit(&Decimal::new(999, 2)),
        Ok(account(AccountStatus::Frozen, 4, Decimal::new(-1, 2)))
    );
}

#[test]
fn deposit_into_closed_account_is_illegal() {
    let before = account(AccountStatus::Closed, 3, Decimal::new(1000, 2));
    assert_eq!(before.deposit(&Decimal::new(1, 0)), Err(LedgerError::IllegalTransition));
}

#[test]
fn withdrawal_takes_from_balance_and_adds_to_count() {
    let before = account(AccountStatus::Open, 0, Decimal::new(1000, 2));
    assert_eq!(
        before.withdraw(&Decimal::new(4, 0)),
        Ok(account(AccountStatus::Open, 1, Decimal::new(600, 2)))
    );
    assert_eq!(
        before.withdraw(&Decimal::new(1000, 2)),
        Ok(account(AccountStatus::Open, 1, Decimal::new(0, 2)))
    );
}

#[test]
fn withdrawal_into_deficit_freezes_the_account() {
    let before = account(AccountStatus::Open, 0, Decimal::new(1000, 2));
    assert_eq!(
        before.withdraw(&Decimal::new(1001, 2)),
        Ok(account(AccountStatus::Frozen, 1, Decimal::new(-1, 2)))
    );
}

#[test]
fn withdrawal_from_account_that_is_not_open_is_illegal() {
    let frozen = account(AccountStatus::Frozen, 3, Decimal::new(-1000, 2));
    let closed = account(AccountStatus::Closed, 3, Decimal::new(1000, 2));
    assert_eq!(frozen.withdraw(&Decimal::new(1, 0)), Err(LedgerError::IllegalTransition));
    assert_eq!(closed.withdraw(&Decimal::new(1, 0)), Err(LedgerError::IllegalTransition));
}

#[test]
fn movement_whose_numbers_leave_their_range_is_refused() {
    let full = account(AccountStatus::Open, 0, Decimal::new(i128::MAX, 0));
    assert_eq!(full.deposit(&Decimal::new(1, 0)), Err(LedgerError::StorageFailure));
    let low = account(AccountStatus::Open, 0, Decimal::new(i128::MIN, 0));
    assert_eq!(low.withdraw(&Decimal::new(1, 0)), Err(LedgerError::StorageFailure));
    let busy = account(AccountStatus::Open, i64::MAX, Decimal::new(0, 0));
    assert_eq!(busy.deposit(&Decimal::new(1, 0)), Err(LedgerError::StorageFailure));
    assert_eq!(busy.withdraw(&Decimal::new(1, 0)), Err(LedgerError::StorageFailure));
}

#[test]
fn illegal_movement_is_reported_before_a_number_out_of_range() {
    let closed = account(AccountStatus::Closed, i64::MAX, Decimal::new(i128::MAX, 0));
    assert_eq!(closed.deposit(&Decimal::new(1, 0)), Err(LedgerError::IllegalTransition));
    assert_eq!(closed.withdraw(&Decimal::new(1, 0)), Err(LedgerError::IllegalTransition));
}
