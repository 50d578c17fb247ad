//! What each operation of the engine does to the ledger, as mathematics.
//!
//! A movement either is applied in full or leaves the ledger as it was. A
//! transfer between two accounts is a deposit into the receiver followed by a
//! withdrawal from the sender, both or neither. Performing a transaction
//! moves the money where that is legal, and logs the attempt either way.

use vstd::prelude::*;
use chrono::NaiveDateTime;
use crate::decimal::Decimal;
use crate::error::LedgerError;
use crate::ledger::LedgerView;
use crate::models::enums::TransactionType;
use crate::models::records::Account;

verus! {

/// The ledger after an attempted movement, what the caller is told, and the
/// category under which the attempt is logged.
#[verifier::ext_equal]
pub struct Movement {
    pub ledger: LedgerView,
    pub result: Result<(), LedgerError>,
    pub category: TransactionType,
}

impl LedgerView {
    /// A deposit of `amount` into `account`.
    pub open spec fn deposit(self, account: Account, amount: Decimal) -> Movement {
        match account.after_deposit(amount) {
            Ok(next) => Movement {
                ledger: self.put(next),
                result: Ok(()),
                category: TransactionType::Deposit,
            },
            Err(e) => Movement {
                ledger: self,
                result: Err(e),
                category: TransactionType::Deposit,
            },
        }
    }

    /// A withdrawal of `amount` from `account`.
    pub open spec fn withdrawal(self, account: Account, amount: Decimal) -> Movement {
        match account.after_withdrawal(amount) {
            Ok(next) => Movement {
                ledger: self.put(next),
                result: Ok(()),
                category: TransactionType::Withdrawal,
            },
            Err(e) => Movement {
                ledger: self,
                result: Err(e),
                category: TransactionType::Withdrawal,
            },
        }
    }

    /// A movement on one account whose direction is the sign of `amount`: a
    /// deposit of `amount` where it is above zero, else a withdrawal of its
    /// magnitude. The store refuses an amount whose magnitude it cannot hold.
    pub open spec fn deposit_or_withdrawal(self, account: Account, amount: Decimal) -> Movement {
        if amount@.unscaled > 0 {
            self.deposit(account, amount)
        } else {
            match amount.absolute() {
                Some(magnitude) => self.withdrawal(account, magnitude),
                None => Movement {
                    ledger: self,
                    result: Err(LedgerError::StorageFailure),
                    category: TransactionType::Withdrawal,
                },
            }
        }
    }

    /// A transfer of `amount` from `sender` to `receiver`: the receiver's
    /// deposit, then the sender's withdrawal, both or neither. Where the two
    /// are one account, a movement on that account in the direction that the
    /// sign of `amount` gives.
    pub open spec fn transfer(
        self,
        sender: Account,
        receiver: Account,
        amount: Decimal,
    ) -> Movement {
        if sender.id == receiver.id {
            self.deposit_or_withdrawal(sender, amount)
        } else {
            match (receiver.after_deposit(amount), sender.after_withdrawal(amount)) {
                (Ok(credited), Ok(debited)) => Movement {
                    ledger: self.put(credited).put(debited),
                    result: Ok(()),
                    category: TransactionType::Transfer,
                },
                (Err(e), _) => Movement {
                    ledger: self,
                    result: Err(e),
                    category: TransactionType::Transfer,
                },
                (_, Err(e)) => Movement {
                    ledger: self,
                    result: Err(e),
                    category: TransactionType::Transfer,
                },
            }
        }
    }

    /// The account that a transaction credits: the one stored under
    /// `receiver_id`, or the sender where no identifier is given or none is
    /// stored under it.
    pub open spec fn resolved_receiver(self, sender: Account, receiver_id: Option<i64>) -> Account {
        match receiver_id {
            Some(id) if self.accounts.contains_key(id) => self.accounts[id],
            _ => sender,
        }
    }

    /// The movement that a transaction attempts, once sender and receiver are
    /// known: a transfer of the amount's magnitude between two accounts, or a
    /// movement on the one account in the direction of the amount's sign.
    pub open spec fn dispatched(
        self,
        sender: Account,
        receiver: Account,
        amount: Decimal,
    ) -> Movement {
        if receiver.id == sender.id {
            self.deposit_or_withdrawal(sender, amount)
        } else {
            match amount.absolute() {
                Some(magnitude) => self.transfer(sender, receiver, magnitude),
                None => Movement {
                    ledger: self,
                    result: Err(LedgerError::StorageFailure),
                    category: TransactionType::Transfer,
                },
            }
        }
    }

    /// The ledger after a transaction was performed, and what the caller is
    /// told.
    ///
    /// Without a sender the transaction fails and leaves no trace. Otherwise
    /// the movement is attempted and the attempt is logged with its outcome:
    /// an illegal movement changes no account and is logged as failed. Where
    /// the store refuses the movement or the log entry, the transaction fails
    /// and leaves no trace.
    pub open spec fn perform(
        self,
        sender_id: i64,
        receiver_id: Option<i64>,
        amount: Decimal,
        date_time: NaiveDateTime,
    ) -> (LedgerView, Result<(), LedgerError>) {
        if !self.accounts.contains_key(sender_id) {
            (self, Err(LedgerError::MissingAccount))
        } else {
            let sender = self.accounts[sender_id];
            let receiver = self.resolved_receiver(sender, receiver_id);
            let attempt = self.dispatched(sender, receiver, amount);
            let success = attempt.result is Ok;
            if !success && attempt.result != Err::<(), LedgerError>(
                LedgerError::IllegalTransition,
            ) {
                (self, attempt.result)
            } else if self.last_transaction_id >= i64::MAX {
                (self, Err(LedgerError::StorageFailure))
            } else {
                (
                    attempt.ledger.logged(
                        self.next_entry(
                            attempt.category,
                            sender.id,
                            receiver.id,
                            date_time,
                            amount,
                            success,
                        ),
                    ),
                    Ok(()),
                )
            }
        }
    }
}

} // verus!
