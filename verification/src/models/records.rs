//! Rows as they are stored: accounts and logged transactions.

use vstd::prelude::*;
use chrono::NaiveDate;
use chrono::NaiveDateTime;
use crate::decimal::Decimal;
use crate::models::enums::AccountStatus;
use crate::models::enums::AccountType;
use crate::models::enums::TransactionType;

verus! {

/// `chrono::NaiveDate`, a calendar date without a time zone. The ledger
/// stores and returns such a date and never looks inside it.
#[verifier::external_type_specification]
#[verifier::external_body]
pub struct ExNaiveDate(chrono::NaiveDate);

/// `chrono::NaiveDateTime`, a date and time of day without a time zone. The
/// ledger stores and returns such a value and never looks inside it.
#[verifier::external_type_specification]
#[verifier::external_body]
pub struct ExNaiveDateTime(chrono::NaiveDateTime);

/// One account of the ledger.
#[derive(Clone, Copy, Debug, PartialEq)]
pub struct Account {
    /// Unique, and never changed.
    pub id: i64,
    pub account_status: AccountStatus,
    /// Set when the account is opened, and never changed.
    pub account_type: AccountType,
    /// Set when the account is opened, and never changed.
    pub opened_on_date: NaiveDate,
    /// The number of movements applied so far.
    pub transaction_count: i64,
    pub balance: Decimal,
}

impl Account {
    /// An account in deficit is frozen.
    pub open spec fn sound(self) -> bool {
        self.balance@.unscaled < 0 ==> self.account_status == AccountStatus::Frozen
    }
}

/// One logged attempt at a movement. Written once, never changed.
#[derive(Clone, Copy, Debug, PartialEq)]
pub struct Transaction {
    pub id: i64,
    pub category: TransactionType,
    /// The sender.
    pub account_id: i64,
    /// The receiver; the sender again where the movement had no other party.
    pub receiver_id: i64,
    pub date_time: NaiveDateTime,
    /// The amount as the caller gave it, sign included.
    pub amount: Decimal,
    /// Whether the movement was applied.
    pub success: bool,
}

} // verus!
