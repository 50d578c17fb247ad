//! The rules of an account's status: which movements it admits, and what it
//! becomes once a movement has changed the balance.
//!
//! An open account takes deposits and withdrawals. A frozen account takes
//! deposits only, and opens again with the deposit that lifts its balance to
//! zero or above. A withdrawal that leaves an open account in deficit
//! freezes it. A closed account takes nothing and stays closed.

use vstd::prelude::*;
use vstd::arithmetic::power::pow;
use vstd::arithmetic::power::lemma_pow_positive;
use crate::decimal::Decimal;
use crate::error::LedgerError;
use crate::models::enums::AccountStatus;
use crate::models::records::Account;

verus! {

impl AccountStatus {
    /// A deposit is admitted unless the account is closed.
    pub open spec fn admits_deposit(self) -> bool {
        self != AccountStatus::Closed
    }

    /// A withdrawal is admitted by an open account only.
    pub open spec fn admits_withdrawal(self) -> bool {
        self == AccountStatus::Open
    }

    /// The status once a deposit has brought the balance to `balance`: open
    /// where that is zero or above, unchanged where it is not.
    pub open spec fn after_deposit(self, balance: Decimal) -> AccountStatus {
        if balance@.unscaled >= 0 {
            AccountStatus::Open
        } else {
            self
        }
    }

    /// The status once a withdrawal has brought the balance to `balance`:
    /// frozen where that is below zero, unchanged where it is not.
    pub open spec fn after_withdrawal(self, balance: Decimal) -> AccountStatus {
        if balance@.unscaled < 0 {
            AccountStatus::Frozen
        } else {
            self
        }
    }

    /// Whether an account of this status takes a deposit.
    pub fn accepts_deposit(&self) -> (admitted: bool)
        ensures
            admitted == self.admits_deposit(),
    {
        match self {
            AccountStatus::Closed => false,
            _ => true,
        }
    }

    /// Whether an account of this status takes a withdrawal.
    pub fn accepts_withdrawal(&self) -> (admitted: bool)
        ensures
            admitted == self.admits_withdrawal(),
    {
        match self {
            AccountStatus::Open => true,
            _ => false,
        }
    }

    /// The status that follows a deposit which left `balance`.
    pub fn settle_deposit(&self, balance: &Decimal) -> (next: AccountStatus)
        ensures
            next == self.after_deposit(*balance),
    {
        if balance.is_negative() {
            *self
        } else {
            AccountStatus::Open
        }
    }

    /// The status that follows a withdrawal which left `balance`.
    pub fn settle_withdrawal(&self, balance: &Decimal) -> (next: AccountStatus)
        ensures
            next == self.after_withdrawal(*balance),
    {
        if balance.is_negative() {
            AccountStatus::Frozen
        } else {
            *self
        }
    }
}

impl Account {
    /// The account as a deposit of `amount` leaves it. The deposit is illegal
    /// on a closed account; the store refuses it where the new balance or the
    /// new movement count leaves its range.
    pub open spec fn after_deposit(self, amount: Decimal) -> Result<Account, LedgerError> {
        if !self.account_status.admits_deposit() {
            Err(LedgerError::IllegalTransition)
        } else {
            match self.balance.sum(amount) {
                Some(balance) if self.transaction_count < i64::MAX => Ok(
                    Account {
                        account_status: self.account_status.after_deposit(balance),
                        transaction_count: (self.transaction_count + 1) as i64,
                        balance,
                        ..self
                    },
                ),
                _ => Err(LedgerError::StorageFailure),
            }
        }
    }

    /// The account as a withdrawal of `amount` leaves it. The withdrawal is
    /// illegal unless the account is open; the store refuses it where the new
    /// balance or the new movement count leaves its range.
    pub open spec fn after_withdrawal(self, amount: Decimal) -> Result<Account, LedgerError> {
        if !self.account_status.admits_withdrawal() {
            Err(LedgerError::IllegalTransition)
        } else {
            match self.balance.difference(amount) {
                Some(balance) if self.transaction_count < i64::MAX => Ok(
                    Account {
                        account_status: self.account_status.after_withdrawal(balance),
                        transaction_count: (self.transaction_count + 1) as i64,
                        balance,
                        ..self
                    },
                ),
                _ => Err(LedgerError::StorageFailure),
            }
        }
    }

    /// Decides a deposit of `amount` and computes the account that it leaves.
    pub fn deposit(&self, amount: &Decimal) -> (r: Result<Account, LedgerError>)
        ensures
            r == self.after_deposit(*amount),
    {
        if !self.account_status.accepts_deposit() {
            return Err(LedgerError::IllegalTransition);
        }
        match self.balance.checked_add(amount) {
            Some(balance) => {
                if self.transaction_count == i64::MAX {
                    return Err(LedgerError::StorageFailure);
                }
                Ok(
                    Account {
                        id: self.id,
                        account_status: self.account_status.settle_deposit(&balance),
                        account_type: self.account_type,
                        opened_on_date: self.opened_on_date,
                        transaction_count: self.transaction_count + 1,
                        balance,
                    },
                )
            },
            None => Err(LedgerError::StorageFailure),
        }
    }

    /// Decides a withdrawal of `amount` and computes the account that it
    /// leaves.
    pub fn withdraw(&self, amount: &Decimal) -> (r: Result<Account, LedgerError>)
        ensures
            r == self.after_withdrawal(*amount),
    {
        if !self.account_status.accepts_withdrawal() {
            return Err(LedgerError::IllegalTransition);
        }
        match self.balance.checked_sub(amount) {
            Some(balance) => {
                if self.transaction_count == i64::MAX {
                    return Err(LedgerError::StorageFailure);
                }
                Ok(
                    Account {
                        id: self.id,
                        account_status: self.account_status.settle_withdrawal(&balance),
                        account_type: self.account_type,
                        opened_on_date: self.opened_on_date,
                        transaction_count: self.transaction_count + 1,
                        balance,
                    },
                )
            },
            None => Err(LedgerError::StorageFailure),
        }
    }
}

/// The sum of two numbers that are not below zero is not below zero.
pub proof fn lemma_sum_not_negative(a: Decimal, b: Decimal)
    requires
        a@.unscaled >= 0,
        b@.unscaled >= 0,
    ensures
        a@.plus(b@).unscaled >= 0,
{
    let s = a@.common_scale(b@);
    lemma_pow_positive(10, (s - a@.scale) as nat);
    lemma_pow_positive(10, (s - b@.scale) as nat);
    assert(a@.unscaled * pow(10, (s - a@.scale) as nat) >= 0) by (nonlinear_arith)
        requires
            a@.unscaled >= 0,
            pow(10, (s - a@.scale) as nat) > 0,
    ;
    assert(b@.unscaled * pow(10, (s - b@.scale) as nat) >= 0) by (nonlinear_arith)
        requires
            b@.unscaled >= 0,
            pow(10, (s - b@.scale) as nat) > 0,
    ;
}

/// A movement keeps an account sound: where no account in deficit was
/// anything but frozen before a deposit or a withdrawal of an amount that is
/// not below zero, none is after it.
pub proof fn lemma_movement_keeps_sound(account: Account, amount: Decimal)
    requires
        account.sound(),
        amount@.unscaled >= 0,
    ensures
        account.after_deposit(amount) matches Ok(next) ==> next.sound(),
        account.after_withdrawal(amount) matches Ok(next) ==> next.sound(),
{
    if account.balance@.unscaled >= 0 {
        lemma_sum_not_negative(account.balance, amount);
    }
}

/// A closed account takes no movement: a deposit and a withdrawal are both
/// illegal, whatever the amount.
pub proof fn lemma_closed_is_terminal(account: Account, amount: Decimal)
    requires
        account.account_status == AccountStatus::Closed,
    ensures
        account.after_deposit(amount) == Err::<Account, LedgerError>(
            LedgerError::IllegalTransition,
        ),
        account.after_withdrawal(amount) == Err::<Account, LedgerError>(
            LedgerError::IllegalTransition,
        ),
{
}

/// A movement changes balance, count and status only, and adds exactly one
/// to the count.
pub proof fn lemma_movement_frame(account: Account, amount: Decimal)
    ensures
        account.after_deposit(amount) matches Ok(next) ==> {
            &&& next.id == account.id
            &&& next.account_type == account.account_type
            &&& next.opened_on_date == account.opened_on_date
            &&& next.transaction_count == account.transaction_count + 1
            &&& Some(next.balance) == account.balance.sum(amount)
        },
        account.after_withdrawal(amount) matches Ok(next) ==> {
            &&& next.id == account.id
            &&& next.account_type == account.account_type
            &&& next.opened_on_date == account.opened_on_date
            &&& next.transaction_count == account.transaction_count + 1
            &&& Some(next.balance) == account.balance.difference(amount)
        },
{
}

} // verus!
