//! Status, kind and category tags, and the text under which each is stored.
//!
//! Every tag is stored as lower-case ASCII text. Writing is total; reading
//! accepts exactly the texts that writing produces and rejects all others.

use vstd::prelude::*;

verus! {

/// Whether an account takes movements.
#[derive(Clone, Copy, Debug, PartialEq, Eq, Structural)]
pub enum AccountStatus {
    /// Deposits and withdrawals are accepted.
    Open,
    /// No movement is accepted, ever again.
    Closed,
    /// The balance is in deficit: only deposits are accepted.
    Frozen,
}

/// The kind of holder an account was opened for.
#[derive(Clone, Copy, Debug, PartialEq, Eq, Structural)]
pub enum AccountType {
    Personal,
    Business,
    DataEngineer,
}

/// The category under which a movement is logged.
#[derive(Clone, Copy, Debug, PartialEq, Eq, Structural)]
pub enum TransactionType {
    Deposit,
    Withdrawal,
    Transfer,
}

/// Why stored text could not be read as a tag.
#[derive(Clone, Copy, Debug, PartialEq, Eq, Structural)]
pub enum DecodeError {
    /// The text is not the stored form of any variant.
    UnrecognizedVariant,
}

impl DecodeError {
    /// A sentence for the person reading a log.
    pub fn message(&self) -> (text: String)
        ensures
            text@ == "Unrecognized enum variant"@,
    {
        "Unrecognized enum variant".to_string()
    }
}

/// Whether `bytes` holds exactly the bytes of `text`.
fn holds_text(bytes: &[u8], text: &Vec<u8>) -> (same: bool)
    ensures
        same == (bytes@ == text@),
{
    if bytes.len() != text.len() {
        return false;
    }
    let mut i: usize = 0;
    while i < bytes.len()
        invariant
            i <= bytes.len(),
            bytes.len() == text.len(),
            forall|j: int| 0 <= j < i ==> bytes@[j] == text@[j],
        decreases bytes.len() - i,
    {
        if bytes[i] != text[i] {
            return false;
        }
        i = i + 1;
    }
    assert(bytes@ =~= text@);
    true
}

impl AccountStatus {
    /// The stored text: `open`, `closed` or `frozen`, in ASCII.
    pub open spec fn stored_text(self) -> Seq<u8> {
        match self {
            AccountStatus::Open => seq![
                0x6f, 0x70, 0x65, 0x6e,
            ],
            AccountStatus::Closed => seq![
                0x63, 0x6c, 0x6f, 0x73, 0x65, 0x64,
            ],
            AccountStatus::Frozen => seq![
                0x66, 0x72, 0x6f, 0x7a, 0x65, 0x6e,
            ],
        }
    }

    /// What reading `bytes` as a status must give: the variant stored under
    /// that text, or the error where no variant is.
    pub open spec fn reads_as(bytes: Seq<u8>, r: Result<AccountStatus, DecodeError>) -> bool {
        match r {
            Ok(status) => bytes == status.stored_text(),
            Err(e) => e == DecodeError::UnrecognizedVariant && forall|status: AccountStatus|
                bytes != #[trigger] status.stored_text(),
        }
    }

    /// Writes the status as its stored text.
    pub fn to_sql(&self) -> (bytes: Vec<u8>)
        ensures
            bytes@ == self.stored_text(),
    {
        let bytes = match self {
            AccountStatus::Open => vec![
                0x6fu8, 0x70u8, 0x65u8, 0x6eu8,
            ],
            AccountStatus::Closed => vec![
                0x63u8, 0x6cu8, 0x6fu8, 0x73u8, 0x65u8, 0x64u8,
            ],
            AccountStatus::Frozen => vec![
                0x66u8, 0x72u8, 0x6fu8, 0x7au8, 0x65u8, 0x6eu8,
            ],
        };
        bytes
    }

    /// Reads a status from its stored text, and rejects any other text.
    pub fn from_sql(bytes: &[u8]) -> (r: Result<AccountStatus, DecodeError>)
        ensures
            AccountStatus::reads_as(bytes@, r),
    {
        if holds_text(bytes, &AccountStatus::Open.to_sql()) {
            Ok(AccountStatus::Open)
        } else if holds_text(bytes, &AccountStatus::Closed.to_sql()) {
            Ok(AccountStatus::Closed)
        } else if holds_text(bytes, &AccountStatus::Frozen.to_sql()) {
            Ok(AccountStatus::Frozen)
        } else {
            Err(DecodeError::UnrecognizedVariant)
        }
    }

    /// No two variants share a stored text.
    pub proof fn lemma_stored_text_distinct(a: AccountStatus, b: AccountStatus)
        ensures
            a.stored_text() == b.stored_text() ==> a == b,
    {
    }

    /// Reading back what was written gives the status that was written.
    pub proof fn lemma_round_trip(status: AccountStatus, r: Result<AccountStatus, DecodeError>)
        requires
            AccountStatus::reads_as(status.stored_text(), r),
        ensures
            r == Ok::<AccountStatus, DecodeError>(status),
    {
        if let Ok(read) = r {
            AccountStatus::lemma_stored_text_distinct(read, status);
        }
    }
}

impl AccountType {
    /// The stored text: `personal`, `business` or `data_engineer`, in ASCII.
    pub open spec fn stored_text(self) -> Seq<u8> {
        match self {
            AccountType::Personal => seq![
                0x70, 0x65, 0x72, 0x73, 0x6f, 0x6e, 0x61, 0x6c,
            ],
            AccountType::Business => seq![
                0x62, 0x75, 0x73, 0x69, 0x6e, 0x65, 0x73, 0x73,
            ],
            AccountType::DataEngineer => seq![
                0x64, 0x61, 0x74, 0x61, 0x5f, 0x65, 0x6e, 0x67, 0x69, 0x6e, 0x65, 0x65, 0x72,
            ],
        }
    }

    /// What reading `bytes` as an account kind must give: the variant stored under
    /// that text, or the error where no variant is.
    pub open spec fn reads_as(bytes: Seq<u8>, r: Result<AccountType, DecodeError>) -> bool {
        match r {
            Ok(kind) => bytes == kind.stored_text(),
            Err(e) => e == DecodeError::UnrecognizedVariant && forall|kind: AccountType|
                bytes != #[trigger] kind.stored_text(),
        }
    }

    /// Writes the kind as its stored text.
    pub fn to_sql(&self) -> (bytes: Vec<u8>)
        ensures
            bytes@ == self.stored_text(),
    {
        let bytes = match self {
            AccountType::Personal => vec![
                0x70u8, 0x65u8, 0x72u8, 0x73u8, 0x6fu8, 0x6eu8, 0x61u8, 0x6cu8,
            ],
            AccountType::Business => vec![
                0x62u8, 0x75u8, 0x73u8, 0x69u8, 0x6eu8, 0x65u8, 0x73u8, 0x73u8,
            ],
            AccountType::DataEngineer => vec![
                0x64u8, 0x61u8, 0x74u8, 0x61u8, 0x5fu8, 0x65u8, 0x6eu8, 0x67u8, 0x69u8, 0x6eu8,
                0x65u8, 0x65u8, 0x72u8,
            ],
        };
        bytes
    }

    /// Reads an account kind from its stored text, and rejects any other text.
    pub fn from_sql(bytes: &[u8]) -> (r: Result<AccountType, DecodeError>)
        ensures
            AccountType::reads_as(bytes@, r),
    {
        if holds_text(bytes, &AccountType::Personal.to_sql()) {
            Ok(AccountType::Personal)
        } else if holds_text(bytes, &AccountType::Business.to_sql()) {
            Ok(AccountType::Business)
        } else if holds_text(bytes, &AccountType::DataEngineer.to_sql()) {
            Ok(AccountType::DataEngineer)
        } else {
            Err(DecodeError::UnrecognizedVariant)
        }
    }

    /// No two variants share a stored text.
    pub proof fn lemma_stored_text_distinct(a: AccountType, b: AccountType)
        ensures
            a.stored_text() == b.stored_text() ==> a == b,
    {
    }

    /// Reading back what was written gives the kind that was written.
    pub proof fn lemma_round_trip(kind: AccountType, r: Result<AccountType, DecodeError>)
        requires
            AccountType::reads_as(kind.stored_text(), r),
        ensures
            r == Ok::<AccountType, DecodeError>(kind),
    {
        if let Ok(read) = r {
            AccountType::lemma_stored_text_distinct(read, kind);
        }
    }
}

impl TransactionType {
    /// The stored text: `deposit`, `withdrawal` or `transfer`, in ASCII.
    pub open spec fn stored_text(self) -> Seq<u8> {
        match self {
            TransactionType::Deposit => seq![
                0x64, 0x65, 0x70, 0x6f, 0x73, 0x69, 0x74,
            ],
            TransactionType::Withdrawal => seq![
                0x77, 0x69, 0x74, 0x68, 0x64, 0x72, 0x61, 0x77, 0x61, 0x6c,
            ],
            TransactionType::Transfer => seq![
                0x74, 0x72, 0x61, 0x6e, 0x73, 0x66, 0x65, 0x72,
            ],
        }
    }

    /// What reading `bytes` as a category must give: the variant stored under
    /// that text, or the error where no variant is.
    pub open spec fn reads_as(bytes: Seq<u8>, r: Result<TransactionType, DecodeError>) -> bool {
        match r {
            Ok(category) => bytes == category.stored_text(),
            Err(e) => e == DecodeError::UnrecognizedVariant && forall|category: TransactionType|
                bytes != #[trigger] category.stored_text(),
        }
    }

    /// Writes the category as its stored text.
    pub fn to_sql(&self) -> (bytes: Vec<u8>)
        ensures
            bytes@ == self.stored_text(),
    {
        let bytes = match self {
            TransactionType::Deposit => vec![
                0x64u8, 0x65u8, 0x70u8, 0x6fu8, 0x73u8, 0x69u8, 0x74u8,
            ],
            TransactionType::Withdrawal => vec![
                0x77u8, 0x69u8, 0x74u8, 0x68u8, 0x64u8, 0x72u8, 0x61u8, 0x77u8, 0x61u8, 0x6cu8,
            ],
            TransactionType::Transfer => vec![
                0x74u8, 0x72u8, 0x61u8, 0x6eu8, 0x73u8, 0x66u8, 0x65u8, 0x72u8,
            ],
        };
        bytes
    }

    /// Reads a category from its stored text, and rejects any other text.
    pub fn from_sql(bytes: &[u8]) -> (r: Result<TransactionType, DecodeError>)
        ensures
            TransactionType::reads_as(bytes@, r),
    {
        if holds_text(bytes, &TransactionType::Deposit.to_sql()) {
            Ok(TransactionType::Deposit)
        } else if holds_text(bytes, &TransactionType::Withdrawal.to_sql()) {
            Ok(TransactionType::Withdrawal)
        } else if holds_text(bytes, &TransactionType::Transfer.to_sql()) {
            Ok(TransactionType::Transfer)
        } else {
            Err(DecodeError::UnrecognizedVariant)
        }
    }

    /// No two variants share a stored text.
    pub proof fn lemma_stored_text_distinct(a: TransactionType, b: TransactionType)
        ensures
            a.stored_text() == b.stored_text() ==> a == b,
    {
    }

    /// Reading back what was written gives the category that was written.
    pub proof fn lemma_round_trip(
        category: TransactionType,
        r: Result<TransactionType, DecodeError>,
    )
        requires
            TransactionType::reads_as(category.stored_text(), r),
        ensures
            r == Ok::<TransactionType, DecodeError>(category),
    {
        if let Ok(read) = r {
            TransactionType::lemma_stored_text_distinct(read, category);
        }
    }
}

} // verus!
