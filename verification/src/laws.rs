//! What holds of every ledger, every account and every amount.

use vstd::prelude::*;
use chrono::NaiveDateTime;
use crate::decimal::Decimal;
use crate::error::LedgerError;
use crate::ledger::LedgerView;
use crate::models::enums::AccountStatus;
use crate::models::enums::TransactionType;
use crate::models::records::Account;
use crate::models::records::Transaction;
use crate::state_machine::lemma_movement_keeps_sound;

verus! {

/// After a deposit or a withdrawal of an amount that is not below zero, no
/// account in deficit is anything but frozen, if none was before.
pub proof fn lemma_movement_keeps_ledger_sound(
    ledger: LedgerView,
    account: Account,
    amount: Decimal,
)
    requires
        ledger.sound(),
        account.sound(),
        amount@.unscaled >= 0,
    ensures
        ledger.deposit(account, amount).ledger.sound(),
        ledger.withdrawal(account, amount).ledger.sound(),
{
    lemma_movement_keeps_sound(account, amount);
}

/// After a movement in the direction of the amount's sign, no account in
/// deficit is anything but frozen, if none was before.
pub proof fn lemma_signed_movement_keeps_ledger_sound(
    ledger: LedgerView,
    account: Account,
    amount: Decimal,
)
    requires
        ledger.sound(),
        account.sound(),
    ensures
        ledger.deposit_or_withdrawal(account, amount).ledger.sound(),
{
    if amount@.unscaled > 0 {
        lemma_movement_keeps_ledger_sound(ledger, account, amount);
    } else {
        match amount.absolute() {
            Some(magnitude) => {
                lemma_movement_keeps_ledger_sound(ledger, account, magnitude);
            },
            None => {},
        }
    }
}

/// After a transfer of an amount that is not below zero, no account in
/// deficit is anything but frozen, if none was before.
pub proof fn lemma_transfer_keeps_ledger_sound(
    ledger: LedgerView,
    sender: Account,
    receiver: Account,
    amount: Decimal,
)
    requires
        ledger.sound(),
        sender.sound(),
        receiver.sound(),
        amount@.unscaled >= 0,
    ensures
        ledger.transfer(sender, receiver, amount).ledger.sound(),
{
    if sender.id == receiver.id {
        lemma_signed_movement_keeps_ledger_sound(ledger, sender, amount);
    } else {
        lemma_movement_keeps_sound(sender, amount);
        lemma_movement_keeps_sound(receiver, amount);
    }
}

/// After a transaction was performed, whatever its amount and its outcome, no
/// account in deficit is anything but frozen, if none was before.
pub proof fn lemma_perform_keeps_ledger_sound(
    ledger: LedgerView,
    sender_id: i64,
    receiver_id: Option<i64>,
    amount: Decimal,
    date_time: NaiveDateTime,
)
    requires
        ledger.sound(),
    ensures
        ledger.perform(sender_id, receiver_id, amount, date_time).0.sound(),
{
    if ledger.accounts.contains_key(sender_id) {
        let sender = ledger.accounts[sender_id];
        let receiver = ledger.resolved_receiver(sender, receiver_id);
        if receiver.id == sender.id {
            lemma_signed_movement_keeps_ledger_sound(ledger, sender, amount);
        } else {
            match amount.absolute() {
                Some(magnitude) => {
                    lemma_transfer_keeps_ledger_sound(ledger, sender, receiver, magnitude);
                },
                None => {},
            }
        }
    }
}

/// A closed account is as it was after any deposit, withdrawal or transfer,
/// on it or on another account.
pub proof fn lemma_movement_leaves_closed_accounts(
    ledger: LedgerView,
    sender: Account,
    receiver: Account,
    amount: Decimal,
    id: i64,
)
    requires
        ledger.holds(sender),
        ledger.holds(receiver),
        ledger.accounts.contains_key(id),
        ledger.accounts[id].account_status == AccountStatus::Closed,
    ensures
        ledger.deposit(sender, amount).ledger.accounts.contains_key(id),
        ledger.deposit(sender, amount).ledger.accounts[id] == ledger.accounts[id],
        ledger.withdrawal(sender, amount).ledger.accounts.contains_key(id),
        ledger.withdrawal(sender, amount).ledger.accounts[id] == ledger.accounts[id],
        ledger.deposit_or_withdrawal(sender, amount).ledger.accounts.contains_key(id),
        ledger.deposit_or_withdrawal(sender, amount).ledger.accounts[id] == ledger.accounts[id],
        ledger.transfer(sender, receiver, amount).ledger.accounts.contains_key(id),
        ledger.transfer(sender, receiver, amount).ledger.accounts[id] == ledger.accounts[id],
{
}

/// A closed account is as it was after any transaction was performed:
/// balance, count and status are those from before the attempt.
pub proof fn lemma_perform_leaves_closed_accounts(
    ledger: LedgerView,
    sender_id: i64,
    receiver_id: Option<i64>,
    amount: Decimal,
    date_time: NaiveDateTime,
    id: i64,
)
    requires
        ledger.keyed(),
        ledger.accounts.contains_key(id),
        ledger.accounts[id].account_status == AccountStatus::Closed,
    ensures
        ledger.perform(sender_id, receiver_id, amount, date_time).0.accounts.contains_key(id),
        ledger.perform(sender_id, receiver_id, amount, date_time).0.accounts[id]
            == ledger.accounts[id],
{
    if ledger.accounts.contains_key(sender_id) {
        let sender = ledger.accounts[sender_id];
        let receiver = ledger.resolved_receiver(sender, receiver_id);
        match amount.absolute() {
            Some(magnitude) => {
                lemma_movement_leaves_closed_accounts(ledger, sender, receiver, magnitude, id);
            },
            None => {},
        }
        lemma_movement_leaves_closed_accounts(ledger, sender, receiver, amount, id);
    }
}

/// A transaction leaves open scopes as they were, and adds at most one entry
/// to the log: exactly one where it succeeds, none where it fails.
pub proof fn lemma_perform_logs_once(
    ledger: LedgerView,
    sender_id: i64,
    receiver_id: Option<i64>,
    amount: Decimal,
    date_time: NaiveDateTime,
)
    ensures
        ({
            let (after, result) = ledger.perform(sender_id, receiver_id, amount, date_time);
            &&& after.scopes == ledger.scopes
            &&& result is Ok ==> after.transactions.len() == ledger.transactions.len() + 1
                && after.transactions.drop_last() == ledger.transactions
            &&& result is Err ==> after == ledger
        }),
{
}

/// A deposit into a closed account, performed as a transaction: no account
/// changes, and the attempt is logged once, as a failed deposit.
pub proof fn lemma_deposit_into_closed_account(
    ledger: LedgerView,
    sender_id: i64,
    receiver_id: Option<i64>,
    amount: Decimal,
    date_time: NaiveDateTime,
)
    requires
        ledger.keyed(),
        ledger.accounts.contains_key(sender_id),
        ledger.accounts[sender_id].account_status == AccountStatus::Closed,
        ledger.resolved_receiver(ledger.accounts[sender_id], receiver_id).id == sender_id,
        amount@.unscaled > 0,
        ledger.last_transaction_id < i64::MAX,
    ensures
        ledger.perform(sender_id, receiver_id, amount, date_time) == (
            ledger.logged(
                ledger.next_entry(
                    TransactionType::Deposit,
                    sender_id,
                    sender_id,
                    date_time,
                    amount,
                    false,
                ),
            ),
            Ok::<(), LedgerError>(()),
        ),
{
}

/// A withdrawal from a frozen or a closed account, performed as a
/// transaction: no account changes, and the attempt is logged once, as a
/// failed withdrawal.
pub proof fn lemma_withdrawal_from_account_not_open(
    ledger: LedgerView,
    sender_id: i64,
    receiver_id: Option<i64>,
    amount: Decimal,
    date_time: NaiveDateTime,
)
    requires
        ledger.keyed(),
        ledger.accounts.contains_key(sender_id),
        ledger.accounts[sender_id].account_status != AccountStatus::Open,
        ledger.resolved_receiver(ledger.accounts[sender_id], receiver_id).id == sender_id,
        amount@.unscaled <= 0,
        amount.absolute() is Some,
        ledger.last_transaction_id < i64::MAX,
    ensures
        ledger.perform(sender_id, receiver_id, amount, date_time) == (
            ledger.logged(
                ledger.next_entry(
                    TransactionType::Withdrawal,
                    sender_id,
                    sender_id,
                    date_time,
                    amount,
                    false,
                ),
            ),
            Ok::<(), LedgerError>(()),
        ),
{
}

/// A withdrawal from an open account, performed as a transaction: the
/// balance goes down by the magnitude of the amount, the count goes up by
/// one, the account is frozen where the new balance is below zero and stays
/// open where it is not, and the attempt is logged once, as a withdrawal
/// that succeeded.
pub proof fn lemma_withdrawal_from_open_account(
    ledger: LedgerView,
    sender_id: i64,
    receiver_id: Option<i64>,
    amount: Decimal,
    date_time: NaiveDateTime,
    magnitude: Decimal,
    balance: Decimal,
)
    requires
        ledger.keyed(),
        ledger.accounts.contains_key(sender_id),
        ledger.accounts[sender_id].account_status == AccountStatus::Open,
        ledger.resolved_receiver(ledger.accounts[sender_id], receiver_id).id == sender_id,
        amount@.unscaled <= 0,
        amount.absolute() == Some(magnitude),
        ledger.accounts[sender_id].balance.difference(magnitude) == Some(balance),
        ledger.accounts[sender_id].transaction_count < i64::MAX,
        ledger.last_transaction_id < i64::MAX,
    ensures
        ledger.perform(sender_id, receiver_id, amount, date_time) == (
            ledger.put(
                Account {
                    account_status: if balance@.unscaled < 0 {
                        AccountStatus::Frozen
                    } else {
                        AccountStatus::Open
                    },
                    transaction_count: (ledger.accounts[sender_id].transaction_count + 1) as i64,
                    balance,
                    ..ledger.accounts[sender_id]
                },
            ).logged(
                ledger.next_entry(
                    TransactionType::Withdrawal,
                    sender_id,
                    sender_id,
                    date_time,
                    amount,
                    true,
                ),
            ),
            Ok::<(), LedgerError>(()),
        ),
{
}

/// A deposit into an open or a frozen account, performed as a transaction:
/// the balance goes up by the amount, the count goes up by one, the account
/// is open where the new balance is zero or above and keeps its status where
/// it is not, and the attempt is logged once, as a deposit that succeeded.
pub proof fn lemma_deposit_into_account_not_closed(
    ledger: LedgerView,
    sender_id: i64,
    receiver_id: Option<i64>,
    amount: Decimal,
    date_time: NaiveDateTime,
    balance: Decimal,
)
    requires
        ledger.keyed(),
        ledger.accounts.contains_key(sender_id),
        ledger.accounts[sender_id].account_status != AccountStatus::Closed,
        ledger.resolved_receiver(ledger.accounts[sender_id], receiver_id).id == sender_id,
        amount@.unscaled > 0,
        ledger.accounts[sender_id].balance.sum(amount) == Some(balance),
        ledger.accounts[sender_id].transaction_count < i64::MAX,
        ledger.last_transaction_id < i64::MAX,
    ensures
        ledger.perform(sender_id, receiver_id, amount, date_time) == (
            ledger.put(
                Account {
                    account_status: if balance@.unscaled >= 0 {
                        AccountStatus::Open
                    } else {
                        ledger.accounts[sender_id].account_status
                    },
                    transaction_count: (ledger.accounts[sender_id].transaction_count + 1) as i64,
                    balance,
                    ..ledger.accounts[sender_id]
                },
            ).logged(
                ledger.next_entry(
                    TransactionType::Deposit,
                    sender_id,
                    sender_id,
                    date_time,
                    amount,
                    true,
                ),
            ),
            Ok::<(), LedgerError>(()),
        ),
{
}

/// A transfer between two open accounts that leaves the sender at zero or
/// above, performed as a transaction: the receiver's balance goes up and the
/// sender's goes down by the magnitude of the amount, both counts go up by
/// one, both accounts stay open, and the attempt is logged once, as a
/// transfer that succeeded.
pub proof fn lemma_transfer_between_open_accounts(
    ledger: LedgerView,
    sender_id: i64,
    receiver_id: i64,
    amount: Decimal,
    date_time: NaiveDateTime,
    magnitude: Decimal,
    sender_balance: Decimal,
    receiver_balance: Decimal,
)
    requires
        ledger.keyed(),
        sender_id != receiver_id,
        ledger.accounts.contains_key(sender_id),
        ledger.accounts.contains_key(receiver_id),
        ledger.accounts[sender_id].account_status == AccountStatus::Open,
        ledger.accounts[receiver_id].account_status == AccountStatus::Open,
        amount.absolute() == Some(magnitude),
        ledger.accounts[sender_id].balance.difference(magnitude) == Some(sender_balance),
        sender_balance@.unscaled >= 0,
        ledger.accounts[receiver_id].balance.sum(magnitude) == Some(receiver_balance),
        ledger.accounts[sender_id].transaction_count < i64::MAX,
        ledger.accounts[receiver_id].transaction_count < i64::MAX,
        ledger.last_transaction_id < i64::MAX,
    ensures
        ledger.perform(sender_id, Some(receiver_id), amount, date_time) == (
            ledger.put(
                Account {
                    transaction_count: (ledger.accounts[receiver_id].transaction_count + 1) as i64,
                    balance: receiver_balance,
                    ..ledger.accounts[receiver_id]
                },
            ).put(
                Account {
                    transaction_count: (ledger.accounts[sender_id].transaction_count + 1) as i64,
                    balance: sender_balance,
                    ..ledger.accounts[sender_id]
                },
            ).logged(
                ledger.next_entry(
                    TransactionType::Transfer,
                    sender_id,
                    receiver_id,
                    date_time,
                    amount,
                    true,
                ),
            ),
            Ok::<(), LedgerError>(()),
        ),
{
}

/// A transfer whose withdrawal is illegal, performed as a transaction:
/// neither account changes, the receiver's deposit is discarded with the
/// rest, and the attempt is logged once, as a transfer that failed.
pub proof fn lemma_transfer_from_account_not_open(
    ledger: LedgerView,
    sender_id: i64,
    receiver_id: i64,
    amount: Decimal,
    date_time: NaiveDateTime,
    magnitude: Decimal,
)
    requires
        ledger.keyed(),
        sender_id != receiver_id,
        ledger.accounts.contains_key(sender_id),
        ledger.accounts.contains_key(receiver_id),
        ledger.accounts[sender_id].account_status != AccountStatus::Open,
        amount.absolute() == Some(magnitude),
        ledger.accounts[receiver_id].after_deposit(magnitude) != Err::<Account, LedgerError>(
            LedgerError::StorageFailure,
        ),
        ledger.last_transaction_id < i64::MAX,
    ensures
        ledger.perform(sender_id, Some(receiver_id), amount, date_time) == (
            ledger.logged(
                ledger.next_entry(
                    TransactionType::Transfer,
                    sender_id,
                    receiver_id,
                    date_time,
                    amount,
                    false,
                ),
            ),
            Ok::<(), LedgerError>(()),
        ),
{
}

/// A transfer from an account to itself is a movement on that account: a
/// deposit of the amount where it is above zero, and a withdrawal of its
/// magnitude where it is below.
pub proof fn lemma_self_transfer(
    ledger: LedgerView,
    sender: Account,
    receiver: Account,
    amount: Decimal,
)
    requires
        sender.id == receiver.id,
    ensures
        ledger.transfer(sender, receiver, amount) == ledger.deposit_or_withdrawal(sender, amount),
        amount@.unscaled > 0 ==> ledger.transfer(sender, receiver, amount) == ledger.deposit(
            sender,
            amount,
        ),
        amount@.unscaled < 0 ==> (amount.absolute() matches Some(magnitude) ==> ledger.transfer(
            sender,
            receiver,
            amount,
        ) == ledger.withdrawal(sender, magnitude)),
{
}

/// A transaction whose receiver is the sender is the transaction without a
/// receiver.
pub proof fn lemma_perform_on_self(
    ledger: LedgerView,
    sender_id: i64,
    amount: Decimal,
    date_time: NaiveDateTime,
)
    requires
        ledger.keyed(),
    ensures
        ledger.perform(sender_id, Some(sender_id), amount, date_time) == ledger.perform(
            sender_id,
            None,
            amount,
            date_time,
        ),
{
}

/// What was written is what is read: an account under its identifier, a log
/// entry at the end of the log.
pub proof fn lemma_read_back(ledger: LedgerView, account: Account, entry: Transaction)
    ensures
        ledger.put(account).accounts.contains_key(account.id),
        ledger.put(account).accounts[account.id] == account,
        ledger.logged(entry).transactions.last() == entry,
        forall|id: i64|
            id != account.id && ledger.accounts.contains_key(id) ==> #[trigger] ledger.put(
                account,
            ).accounts[id] == ledger.accounts[id],
{
}

/// Discarding a scope undoes what was written since it was opened, and
/// nothing else; the identifier of a discarded log entry is not given out
/// again.
pub proof fn lemma_discard_undoes(ledger: LedgerView, account: Account, entry: Transaction)
    ensures
        ledger.opened().discarded() == ledger,
        ledger.opened().put(account).discarded() == ledger,
        ledger.opened().put(account).logged(entry).discarded() == (LedgerView {
            last_transaction_id: entry.id as int,
            ..ledger
        }),
{
}

/// Committing a scope keeps what was written in it. Discarding an inner
/// scope leaves what the outer scope wrote before it, and discarding the
/// outer scope undoes what a committed inner scope wrote.
pub proof fn lemma_scopes_nest(ledger: LedgerView, outer: Account, inner: Account)
    ensures
        ledger.opened().put(outer).committed() == ledger.put(outer),
        ledger.opened().put(outer).opened().put(inner).discarded().committed() == ledger.put(
            outer,
        ),
        ledger.opened().put(outer).opened().put(inner).committed().discarded() == ledger,
{
}

} // verus!
