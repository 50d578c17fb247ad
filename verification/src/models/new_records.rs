//! What a caller supplies to create or change a row; the store fills in the rest.

use vstd::prelude::*;
use chrono::NaiveDate;
use chrono::NaiveDateTime;
use crate::decimal::Decimal;
use crate::models::enums::AccountType;
use crate::models::enums::TransactionType;

verus! {

/// A new account: it starts open, with no movements and a balance of zero.
pub struct NewAccount<'a> {
    pub account_type: &'a AccountType,
    pub opened_on_date: &'a NaiveDate,
}

/// The two columns that a movement rewrites together.
pub struct UpdateAccount<'a> {
    pub transaction_count: &'a i64,
    pub balance: &'a Decimal,
}

/// A new entry of the transaction log.
pub struct NewTransaction<'a> {
    pub category: &'a TransactionType,
    pub account_id: &'a i64,
    pub receiver_id: &'a i64,
    pub date_time: &'a NaiveDateTime,
    pub amount: &'a Decimal,
    pub success: &'a bool,
}

} // verus!
