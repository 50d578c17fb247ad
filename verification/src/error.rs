//! The ways in which an operation on the ledger fails.

use vstd::prelude::*;

verus! {

/// Why an operation on the ledger did not go through.
#[derive(Clone, Copy, Debug, PartialEq, Eq, Structural)]
pub enum LedgerError {
    /// The account's status does not admit the movement. Only the movement's
    /// own changes are discarded; the surrounding operation goes on.
    IllegalTransition,
    /// No account is stored under the sender's identifier.
    MissingAccount,
    /// The store refused a write: a number left its range, or an
    /// identifier could no longer be issued or was taken already.
    StorageFailure,
}

impl LedgerError {
    /// A sentence for the person reading a log.
    pub fn message(&self) -> (text: String)
        ensures
            text@ == match *self {
                LedgerError::IllegalTransition => "Movement not admitted by the account's status"@,
                LedgerError::MissingAccount => "Sender account not found"@,
                LedgerError::StorageFailure => "The store refused the write"@,
            },
    {
        match self {
            LedgerError::IllegalTransition => {
                "Movement not admitted by the account's status".to_string()
            },
            LedgerError::MissingAccount => "Sender account not found".to_string(),
            LedgerError::StorageFailure => "The store refused the write".to_string(),
        }
    }
}

} // verus!
