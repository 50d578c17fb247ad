use chrono::NaiveDate;
use chrono::NaiveDateTime;
use orm_lib::decimal::Decimal;
use orm_lib::error::LedgerError;
use orm_lib::ledger::Ledger;
use orm_lib::models::enums::AccountStatus;
use orm_lib::models::enums::AccountType;
use orm_lib::models::enums::TransactionType;
use orm_lib::models::new_records::NewAccount;
use orm_lib::models::new_records::NewTransaction;
use orm_lib::models::new_records::UpdateAccount;
use orm_lib::models::records::Account;
use orm_lib::models::records::Transaction;

fn day(year: i32, month: u32, day: u32) -> NaiveDate {
    NaiveDate::from_ymd_opt(year, month, day).unwrap()
}

fn noon(year: i32, month: u32, day: u32) -> NaiveDateTime {
    NaiveDate::from_ymd_opt(year, month, day).unwrap().and_hms_opt(12, 0, 0).unwrap()
}

fn row(id: i64, status: AccountStatus, count: i64, unscaled: i128) -> Account {
    Account {
        id,
        account_status: status,
        account_type: AccountType::Business,
        opened_on_date: day(2020, 2, 29),
        transaction_count: count,
        balance: Decimal::new(unscaled, 2),
    }
}

#[test]
fn new_ledger_is_empty() {
    let ledger = Ledger::new();
    assert_eq!(ledger.fetch(&1), None);
    assert_eq!(ledger.fetch(&0), None);
    assert_eq!(ledger.log_len(), 0);
    assert_eq!(ledger.logged(0), None);
    assert_eq!(ledger.depth(), 0);
}

#[test]
fn inserted_accounts_start_open_and_empty_under_consecutive_identifiers() {
    let mut ledger = Ledger::new();
    let kind = AccountType::DataEngineer;
    let date = day(2024, 1, 15);
    let first = ledger.insert(&NewAccount { account_type: &kind, opened_on_date: &date }).unwrap();
    assert_eq!(
        first,
        Account {
            id: 1,
            account_status: AccountStatus::Open,
            account_type: AccountType::DataEngineer,
            opened_on_date: day(2024, 1, 15),
            transaction_count: 0,
            balance: Decimal::new(0, 0),
        }
    );
    let other_kind = AccountType::Personal;
    let second =
        ledger.insert(&NewAccount { account_type: &other_kind, opened_on_date: &date }).unwrap();
    assert_eq!(second.id, 2);
    assert_eq!(second.account_type, AccountType::Personal);
    assert_eq!(ledger.fetch(&1), Some(first));
    assert_eq!(ledger.fetch(&2), Some(second));
    assert_eq!(ledger.fetch(&3), None);
}

#[test]
fn loaded_account_is_read_back_as_written() {
    let mut ledger = Ledger::new();
    let account = row(42, AccountStatus::Frozen, 9, -1050);
    assert_eq!(ledger.load_account(&account), Ok(()));
    assert_eq!(ledger.fetch(&42), Some(account));
    assert_eq!(ledger.fetch(&41), None);
}

#[test]
fn loading_a_taken_identifier_is_refused() {
    let mut ledger = Ledger::new();
    let account = row(42, AccountStatus::Open, 0, 0);
    assert_eq!(ledger.load_account(&account), Ok(()));
    let rival = row(42, AccountStatus::Closed, 5, 700);
    assert_eq!(ledger.load_account(&rival), Err(LedgerError::StorageFailure));
    assert_eq!(ledger.fetch(&42), Some(account));
}

#[test]
fn insert_issues_the_identifier_after_the_highest_loaded() {
    let mut ledger = Ledger::new();
    ledger.load_account(&row(42, AccountStatus::Open, 0, 0)).unwrap();
    ledger.load_account(&row(7, AccountStatus::Open, 0, 0)).unwrap();
    let kind = AccountType::Personal;
    let date = day(2024, 1, 15);
    let account =
        ledger.insert(&NewAccount { account_type: &kind, opened_on_date: &date }).unwrap();
    assert_eq!(account.id, 43);
}

#[test]
fn insert_is_refused_once_identifiers_are_used_up() {
    let mut ledger = Ledger::new();
    ledger.load_account(&row(i64::MAX, AccountStatus::Open, 0, 0)).unwrap();
    let kind = AccountType::Personal;
    let date = day(2024, 1, 15);
    assert_eq!(
        ledger.insert(&NewAccount { account_type: &kind, opened_on_date: &date }),
        Err(LedgerError::StorageFailure)
    );
    assert_eq!(ledger.fetch(&i64::MAX), Some(row(i64::MAX, AccountStatus::Open, 0, 0)));
}

#[test]
fn update_balance_and_count_rewrites_those_two_columns() {
    let mut ledger = Ledger::new();
    ledger.load_account(&row(1, AccountStatus::Frozen, 3, -500)).unwrap();
    ledger.load_account(&row(2, AccountStatus::Open, 8, 100)).unwrap();
    let count = 4;
    let balance = Decimal::new(2500, 3);
    let changes = UpdateAccount { transaction_count: &count, balance: &balance };
    let rows = ledger.update_balance_and_count(&1, &changes);
    assert_eq!(rows, 1);
    let changed = ledger.fetch(&1).unwrap();
    assert_eq!(changed.transaction_count, 4);
    assert_eq!(changed.balance, Decimal::new(2500, 3));
    assert_eq!(changed.account_status, AccountStatus::Frozen);
    assert_eq!(changed.account_type, AccountType::Business);
    assert_eq!(changed.opened_on_date, day(2020, 2, 29));
    assert_eq!(ledger.fetch(&2), Some(row(2, AccountStatus::Open, 8, 100)));
}

#[test]
fn update_status_rewrites_that_column() {
    let mut ledger = Ledger::new();
    ledger.load_account(&row(1, AccountStatus::Open, 3, 500)).unwrap();
    assert_eq!(ledger.update_status(&1, &AccountStatus::Closed), 1);
    assert_eq!(ledger.fetch(&1), Some(row(1, AccountStatus::Closed, 3, 500)));
}

#[test]
fn updates_of_an_unknown_identifier_change_no_row() {
    let mut ledger = Ledger::new();
    ledger.load_account(&row(1, AccountStatus::Open, 3, 500)).unwrap();
    let count = 4;
    let balance = Decimal::new(0, 0);
    assert_eq!(
        ledger.update_balance_and_count(
            &2,
            &UpdateAccount { transaction_count: &count, balance: &balance }
        ),
        0
    );
    assert_eq!(ledger.update_status(&2, &AccountStatus::Closed), 0);
    assert_eq!(ledger.fetch(&1), Some(row(1, AccountStatus::Open, 3, 500)));
    assert_eq!(ledger.fetch(&2), None);
}

fn entry<'a>(
    category: &'a TransactionType,
    sender: &'a i64,
    receiver: &'a i64,
    at: &'a NaiveDateTime,
    amount: &'a Decimal,
    success: &'a bool,
) -> NewTransaction<'a> {
    NewTransaction {
        category,
        account_id: sender,
        receiver_id: receiver,
        date_time: at,
        amount,
        success,
    }
}

#[test]
fn appended_entries_are_read_back_in_order() {
    let mut ledger = Ledger::new();
    let at = noon(2024, 3, 1);
    let amount = Decimal::new(-995, 2);
    let first = ledger
        .append(&entry(&TransactionType::Withdrawal, &5, &5, &at, &amount, &false))
        .unwrap();
    let second = ledger
        .append(&entry(&TransactionType::Transfer, &5, &6, &at, &amount, &true))
        .unwrap();
    assert_eq!(first, 1);
    assert_eq!(second, 2);
    assert_eq!(ledger.log_len(), 2);
    assert_eq!(
        ledger.logged(0),
        Some(Transaction {
            id: 1,
            category: TransactionType::Withdrawal,
            account_id: 5,
            receiver_id: 5,
            date_time: noon(2024, 3, 1),
            amount: Decimal::new(-995, 2),
            success: false,
        })
    );
    assert_eq!(
        ledger.logged(1),
        Some(Transaction {
            id: 2,
            category: TransactionType::Transfer,
            account_id: 5,
            receiver_id: 6,
            date_time: noon(2024, 3, 1),
            amount: Decimal::new(-995, 2),
            success: true,
        })
    );
    assert_eq!(ledger.logged(2), None);
}

#[test]
fn committed_scope_keeps_its_writes() {
    let mut ledger = Ledger::new();
    ledger.load_account(&row(1, AccountStatus::Open, 0, 0)).unwrap();
    ledger.begin_scope();
    assert_eq!(ledger.depth(), 1);
    ledger.update_status(&1, &AccountStatus::Frozen);
    assert!(ledger.commit_scope());
    assert_eq!(ledger.depth(), 0);
    assert_eq!(ledger.fetch(&1), Some(row(1, AccountStatus::Frozen, 0, 0)));
}

#[test]
fn discarded_scope_undoes_its_writes() {
    let mut ledger = Ledger::new();
    ledger.load_account(&row(1, AccountStatus::Open, 0, 0)).unwrap();
    let at = noon(2024, 3, 1);
    let amount = Decimal::new(1, 0);
    ledger.append(&entry(&TransactionType::Deposit, &1, &1, &at, &amount, &true)).unwrap();
    ledger.begin_scope();
    ledger.update_status(&1, &AccountStatus::Frozen);
    ledger.load_account(&row(2, AccountStatus::Open, 0, 0)).unwrap();
    ledger.append(&entry(&TransactionType::Deposit, &1, &1, &at, &amount, &false)).unwrap();
    assert_eq!(ledger.log_len(), 2);
    assert!(ledger.discard_scope());
    assert_eq!(ledger.depth(), 0);
    assert_eq!(ledger.fetch(&1), Some(row(1, AccountStatus::Open, 0, 0)));
    assert_eq!(ledger.fetch(&2), None);
    assert_eq!(ledger.log_len(), 1);
    assert_eq!(ledger.logged(0).unwrap().success, true);
}

#[test]
fn identifiers_of_discarded_rows_are_not_issued_again() {
    let mut ledger = Ledger::new();
    let kind = AccountType::Personal;
    let date = day(2024, 1, 15);
    let at = noon(2024, 3, 1);
    let amount = Decimal::new(1, 0);
    ledger.begin_scope();
    let lost = ledger.insert(&NewAccount { account_type: &kind, opened_on_date: &date }).unwrap();
    let lost_entry =
        ledger.append(&entry(&TransactionType::Deposit, &1, &1, &at, &amount, &true)).unwrap();
    assert_eq!(lost.id, 1);
    assert_eq!(lost_entry, 1);
    assert!(ledger.discard_scope());
    let kept = ledger.insert(&NewAccount { account_type: &kind, opened_on_date: &date }).unwrap();
    let kept_entry =
        ledger.append(&entry(&TransactionType::Deposit, &2, &2, &at, &amount, &true)).unwrap();
    assert_eq!(kept.id, 2);
    assert_eq!(kept_entry, 2);
    assert_eq!(ledger.fetch(&1), None);
    assert_eq!(ledger.log_len(), 1);
}

#[test]
fn discarding_an_inner_scope_leaves_the_outer_scope_alone() {
    let mut ledger = Ledger::new();
    ledger.load_account(&row(1, AccountStatus::Open, 0, 0)).unwrap();
    ledger.load_account(&row(2, AccountStatus::Open, 0, 0)).unwrap();
    ledger.begin_scope();
    ledger.update_status(&1, &AccountStatus::Frozen);
    ledger.begin_scope();
    assert_eq!(ledger.depth(), 2);
    ledger.update_status(&2, &AccountStatus::Closed);
    ledger.update_status(&1, &AccountStatus::Closed);
    assert!(ledger.discard_scope());
    assert_eq!(ledger.depth(), 1);
    assert_eq!(ledger.fetch(&1), Some(row(1, AccountStatus::Frozen, 0, 0)));
    assert_eq!(ledger.fetch(&2), Some(row(2, AccountStatus::Open, 0, 0)));
    assert!(ledger.commit_scope());
    assert_eq!(ledger.fetch(&1), Some(row(1, AccountStatus::Frozen, 0, 0)));
}

#[test]
fn discarding_an_outer_scope_undoes_a_committed_inner_scope() {
    let mut ledger = Ledger::new();
    ledger.load_account(&row(1, AccountStatus::Open, 0, 0)).unwrap();
    ledger.begin_scope();
    ledger.begin_scope();
    ledger.update_status(&1, &AccountStatus::Closed);
    assert!(ledger.commit_scope());
    assert_eq!(ledger.fetch(&1), Some(row(1, AccountStatus::Closed, 0, 0)));
    assert!(ledger.discard_scope());
    assert_eq!(ledger.fetch(&1), Some(row(1, AccountStatus::Open, 0, 0)));
    assert_eq!(ledger.depth(), 0);
}

#[test]
fn closing_a_scope_that_is_not_open_changes_nothing() {
    let mut ledger = Ledger::new();
    ledger.load_account(&row(1, AccountStatus::Open, 0, 0)).unwrap();
    assert!(!ledger.commit_scope());
    assert!(!ledger.discard_scope());
    assert_eq!(ledger.depth(), 0);
    assert_eq!(ledger.fetch(&1), Some(row(1, AccountStatus::Open, 0, 0)));
}

#[test]
fn errors_say_what_went_wrong() {
    assert_eq!(
        LedgerError::IllegalTransition.message(),
        "Movement not admitted by the account's status"
    );
    assert_eq!(LedgerError::MissingAccount.message(), "Sender account not found");
    assert_eq!(LedgerError::StorageFailure.message(), "The store refused the write");
}
