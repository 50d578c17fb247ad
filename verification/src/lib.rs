//! A ledger of financial accounts: deposits, withdrawals and transfers are
//! applied under the rules of an account's status, and every attempt is
//! written to an append-only log, whether the movement was applied or not.

pub mod decimal;
pub mod models;
pub mod schema;
pub mod error;
pub mod ledger;
pub mod state_machine;
pub mod movement;
pub mod laws;

use vstd::prelude::*;
use chrono::NaiveDate;
use chrono::NaiveDateTime;
use decimal::Decimal;
use error::LedgerError;
use ledger::Ledger;
use models::enums::AccountType;
use models::enums::TransactionType;
use models::new_records::NewAccount;
use models::new_records::NewTransaction;
use models::new_records::UpdateAccount;
use models::records::Account;

verus! {

/// Opens an account of the given kind on the given date. It starts open,
/// with no movements and a balance of zero.
pub fn insert_account(
    ledger: &mut Ledger,
    type_of_account: &AccountType,
    current_date: &NaiveDate,
) -> (r: Result<Account, LedgerError>)
    requires
        old(ledger).wf(),
    ensures
        final(ledger).wf(),
        match r {
            Ok(account) => {
                &&& old(ledger)@.last_account_id < i64::MAX
                &&& account == old(ledger)@.next_account(*type_of_account, *current_date)
                &&& !old(ledger)@.accounts.contains_key(account.id)
                &&& final(ledger)@ == old(ledger)@.enrolled(account)
            },
            Err(e) => {
                &&& e == LedgerError::StorageFailure
                &&& old(ledger)@.last_account_id == i64::MAX
                &&& final(ledger)@ == old(ledger)@
            },
        },
{
    let new_account = NewAccount { account_type: type_of_account, opened_on_date: current_date };
    ledger.insert(&new_account)
}

/// Writes to the store what a legal movement changed: balance and count in
/// one step, then the status where it is no longer the one stored.
fn apply(ledger: &mut Ledger, account: &Account, next: &Account)
    requires
        old(ledger).wf(),
        old(ledger)@.holds(*account),
        next.id == account.id,
        next.account_type == account.account_type,
        next.opened_on_date == account.opened_on_date,
    ensures
        final(ledger).wf(),
        final(ledger)@ == old(ledger)@.put(*next),
{
    let changes = UpdateAccount {
        transaction_count: &next.transaction_count,
        balance: &next.balance,
    };
    ledger.update_balance_and_count(&account.id, &changes);
    if next.account_status != account.account_status {
        ledger.update_status(&account.id, &next.account_status);
    }
}

/// Deposits `amount` into `account`, in a scope of its own. `account` is the
/// row as the ledger holds it.
///
/// A closed account admits no deposit: the scope is discarded and the ledger
/// is as before. Otherwise balance and count are rewritten, and the account
/// opens where the new balance is zero or above.
pub fn deposit_transaction(
    ledger: &mut Ledger,
    account: &Account,
    amount: &Decimal,
) -> (r: Result<(), LedgerError>)
    requires
        old(ledger).wf(),
        old(ledger)@.holds(*account),
    ensures
        final(ledger).wf(),
        final(ledger)@ == old(ledger)@.deposit(*account, *amount).ledger,
        r == old(ledger)@.deposit(*account, *amount).result,
{
    ledger.begin_scope();
    match account.deposit(amount) {
        Ok(next) => {
            apply(ledger, account, &next);
            ledger.commit_scope();
            Ok(())
        },
        Err(e) => {
            ledger.discard_scope();
            Err(e)
        },
    }
}

/// Withdraws `amount` from `account`, in a scope of its own. `account` is
/// the row as the ledger holds it.
///
/// Only an open account admits a withdrawal: otherwise the scope is
/// discarded and the ledger is as before. Where it is admitted, balance and
/// count are rewritten, and the account is frozen where the new balance is
/// below zero.
pub fn withdrawal_transaction(
    ledger: &mut Ledger,
    account: &Account,
    amount: &Decimal,
) -> (r: Result<(), LedgerError>)
    requires
        old(ledger).wf(),
        old(ledger)@.holds(*account),
    ensures
        final(ledger).wf(),
        final(ledger)@ == old(ledger)@.withdrawal(*account, *amount).ledger,
        r == old(ledger)@.withdrawal(*account, *amount).result,
{
    ledger.begin_scope();
    match account.withdraw(amount) {
        Ok(next) => {
            apply(ledger, account, &next);
            ledger.commit_scope();
            Ok(())
        },
        Err(e) => {
            ledger.discard_scope();
            Err(e)
        },
    }
}

/// Moves `amount` on one account in the direction that its sign gives: a
/// deposit of `amount` where it is above zero, else a withdrawal of its
/// magnitude. Returns the outcome and the category of the movement.
/// `account` is the row as the ledger holds it.
pub fn deposit_or_withdrawal_transaction(
    ledger: &mut Ledger,
    account: &Account,
    amount: &Decimal,
) -> (r: (Result<(), LedgerError>, TransactionType))
    requires
        old(ledger).wf(),
        old(ledger)@.holds(*account),
    ensures
        final(ledger).wf(),
        final(ledger)@ == old(ledger)@.deposit_or_withdrawal(*account, *amount).ledger,
        r.0 == old(ledger)@.deposit_or_withdrawal(*account, *amount).result,
        r.1 == old(ledger)@.deposit_or_withdrawal(*account, *amount).category,
{
    if amount.is_positive() {
        (deposit_transaction(ledger, account, amount), TransactionType::Deposit)
    } else {
        match amount.checked_abs() {
            Some(magnitude) => (
                withdrawal_transaction(ledger, account, &magnitude),
                TransactionType::Withdrawal,
            ),
            None => (Err(LedgerError::StorageFailure), TransactionType::Withdrawal),
        }
    }
}

/// Transfers `amount` from the sender to the receiver as one unit, in a
/// scope of its own: the receiver's deposit, then the sender's withdrawal.
/// Where either is refused the scope is discarded, and with it the other.
///
/// Where sender and receiver are one account, this is a movement on that
/// account in the direction that the sign of `amount` gives, and the category
/// returned is that of the movement. Both accounts are rows as the ledger
/// holds them.
pub fn transfer_transaction(
    ledger: &mut Ledger,
    sender_account: &Account,
    receiver_account: &Account,
    amount: &Decimal,
) -> (r: (Result<(), LedgerError>, TransactionType))
    requires
        old(ledger).wf(),
        old(ledger)@.holds(*sender_account),
        old(ledger)@.holds(*receiver_account),
    ensures
        final(ledger).wf(),
        final(ledger)@ == old(ledger)@.transfer(*sender_account, *receiver_account, *amount).ledger,
        r.0 == old(ledger)@.transfer(*sender_account, *receiver_account, *amount).result,
        r.1 == old(ledger)@.transfer(*sender_account, *receiver_account, *amount).category,
{
    if sender_account.id == receiver_account.id {
        return deposit_or_withdrawal_transaction(ledger, sender_account, amount);
    }
    ledger.begin_scope();
    match deposit_transaction(ledger, receiver_account, amount) {
        Ok(()) => {},
        Err(e) => {
            ledger.discard_scope();
            return (Err(e), TransactionType::Transfer);
        },
    }
    match withdrawal_transaction(ledger, sender_account, amount) {
        Ok(()) => {
            ledger.commit_scope();
            (Ok(()), TransactionType::Transfer)
        },
        Err(e) => {
            ledger.discard_scope();
            (Err(e), TransactionType::Transfer)
        },
    }
}

/// Logs one attempt at a movement, under the next identifier.
pub fn insert_transaction(
    ledger: &mut Ledger,
    send_id: &i64,
    rece_id: &i64,
    tran_date_time: &NaiveDateTime,
    tran_amount: &Decimal,
    tran_type: &TransactionType,
    tran_success: &bool,
) -> (r: Result<(), LedgerError>)
    requires
        old(ledger).wf(),
    ensures
        final(ledger).wf(),
        match r {
            Ok(()) => {
                &&& old(ledger)@.last_transaction_id < i64::MAX
                &&& final(ledger)@ == old(ledger)@.logged(
                    old(ledger)@.next_entry(
                        *tran_type,
                        *send_id,
                        *rece_id,
                        *tran_date_time,
                        *tran_amount,
                        *tran_success,
                    ),
                )
            },
            Err(e) => {
                &&& e == LedgerError::StorageFailure
                &&& old(ledger)@.last_transaction_id == i64::MAX
                &&& final(ledger)@ == old(ledger)@
            },
        },
{
    let record = NewTransaction {
        category: tran_type,
        account_id: send_id,
        receiver_id: rece_id,
        date_time: tran_date_time,
        amount: tran_amount,
        success: tran_success,
    };
    match ledger.append(&record) {
        Ok(_) => Ok(()),
        Err(e) => Err(e),
    }
}

/// The sender stored under `sender_id` and the account to credit: the one
/// stored under `receiver_id`, or the sender again where no identifier is
/// given or none is stored under it. `None` where there is no sender.
fn resolve(
    ledger: &Ledger,
    sender_id: &i64,
    receiver_id: &Option<i64>,
) -> (parties: Option<(Account, Account)>)
    requires
        ledger.wf(),
    ensures
        match parties {
            Some((sender, receiver)) => {
                &&& ledger@.accounts.contains_key(*sender_id)
                &&& sender == ledger@.accounts[*sender_id]
                &&& receiver == ledger@.resolved_receiver(sender, *receiver_id)
                &&& ledger@.holds(sender)
                &&& ledger@.holds(receiver)
            },
            None => !ledger@.accounts.contains_key(*sender_id),
        },
{
    let sender_account = match ledger.fetch(sender_id) {
        Some(account) => account,
        None => {
            return None;
        },
    };
    let receiver_account = match receiver_id {
        Some(id) => match ledger.fetch(id) {
            Some(account) => account,
            None => sender_account,
        },
        None => sender_account,
    };
    Some((sender_account, receiver_account))
}

/// Attempts the movement of a transaction: a transfer of the amount's
/// magnitude between two accounts, or a movement on the one account in the
/// direction of the amount's sign.
fn dispatch(
    ledger: &mut Ledger,
    sender: &Account,
    receiver: &Account,
    amount: &Decimal,
) -> (r: (Result<(), LedgerError>, TransactionType))
    requires
        old(ledger).wf(),
        old(ledger)@.holds(*sender),
        old(ledger)@.holds(*receiver),
    ensures
        final(ledger).wf(),
        final(ledger)@ == old(ledger)@.dispatched(*sender, *receiver, *amount).ledger,
        r.0 == old(ledger)@.dispatched(*sender, *receiver, *amount).result,
        r.1 == old(ledger)@.dispatched(*sender, *receiver, *amount).category,
{
    if receiver.id == sender.id {
        deposit_or_withdrawal_transaction(ledger, sender, amount)
    } else {
        match amount.checked_abs() {
            Some(magnitude) => transfer_transaction(ledger, sender, receiver, &magnitude),
            None => (Err(LedgerError::StorageFailure), TransactionType::Transfer),
        }
    }
}

/// Performs one transaction: moves `transaction_amount` from the sender to
/// the receiver, or on the sender alone where no other receiver is found, and
/// logs the attempt.
///
/// The movement runs in a scope inside the one that holds the log entry, so
/// that discarding an illegal movement leaves its log entry standing. The
/// transaction fails, and nothing of it remains, where no account is stored
/// under `sender_id` or where the store refuses a write.
pub fn perform_transaction(
    ledger: &mut Ledger,
    sender_id: &i64,
    receiver_id: &Option<i64>,
    transaction_amount: &Decimal,
    transaction_date_time: &NaiveDateTime,
) -> (r: Result<(), LedgerError>)
    requires
        old(ledger).wf(),
    ensures
        final(ledger).wf(),
        final(ledger)@ == old(ledger)@.perform(
            *sender_id,
            *receiver_id,
            *transaction_amount,
            *transaction_date_time,
        ).0,
        r == old(ledger)@.perform(
            *sender_id,
            *receiver_id,
            *transaction_amount,
            *transaction_date_time,
        ).1,
{
    let (sender_account, receiver_account) = match resolve(ledger, sender_id, receiver_id) {
        Some(parties) => parties,
        None => {
            return Err(LedgerError::MissingAccount);
        },
    };
    ledger.begin_scope();
    let (transaction, type_of_transaction) = dispatch(
        ledger,
        &sender_account,
        &receiver_account,
        transaction_amount,
    );
    let success = match transaction {
        Ok(()) => true,
        Err(LedgerError::IllegalTransition) => false,
        Err(e) => {
            ledger.discard_scope();
            return Err(e);
        },
    };
    match insert_transaction(
        ledger,
        &sender_account.id,
        &receiver_account.id,
        transaction_date_time,
        transaction_amount,
        &type_of_transaction,
        &success,
    ) {
        Ok(()) => {
            ledger.commit_scope();
            Ok(())
        },
        Err(e) => {
            ledger.discard_scope();
            Err(e)
        },
    }
}

} // verus!
