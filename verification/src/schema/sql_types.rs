//! The enumerated column types of the store, each under the name by which the
//! store knows it.

use vstd::prelude::*;

verus! {

/// The column type that holds an account's status: stored values are the texts of
/// [`AccountStatus`](crate::models::enums::AccountStatus).
#[derive(Clone, Copy, Debug, PartialEq, Eq, Structural)]
pub struct Accountstatus;

impl Accountstatus {
    /// The name of the type in the store: `accountstatus`, in ASCII.
    pub open spec fn stored_name() -> Seq<u8> {
        seq![0x61, 0x63, 0x63, 0x6f, 0x75, 0x6e, 0x74, 0x73, 0x74, 0x61, 0x74, 0x75, 0x73]
    }

    /// The name of the type in the store.
    pub fn name_in_store() -> (name: Vec<u8>)
        ensures
            name@ == Accountstatus::stored_name(),
    {
        let name = vec![
            0x61u8, 0x63u8, 0x63u8, 0x6fu8, 0x75u8, 0x6eu8, 0x74u8, 0x73u8, 0x74u8, 0x61u8,
            0x74u8, 0x75u8, 0x73u8,
        ];
        name
    }
}

/// The column type that holds an account's kind: stored values are the texts of
/// [`AccountType`](crate::models::enums::AccountType).
#[derive(Clone, Copy, Debug, PartialEq, Eq, Structural)]
pub struct Accounttype;

impl Accounttype {
    /// The name of the type in the store: `accounttype`, in ASCII.
    pub open spec fn stored_name() -> Seq<u8> {
        seq![0x61, 0x63, 0x63, 0x6f, 0x75, 0x6e, 0x74, 0x74, 0x79, 0x70, 0x65]
    }

    /// The name of the type in the store.
    pub fn name_in_store() -> (name: Vec<u8>)
        ensures
            name@ == Accounttype::stored_name(),
    {
        let name = vec![
            0x61u8, 0x63u8, 0x63u8, 0x6fu8, 0x75u8, 0x6eu8, 0x74u8, 0x74u8, 0x79u8, 0x70u8,
            0x65u8,
        ];
        name
    }
}

/// The column type that holds a transaction's category: stored values are the texts of
/// [`TransactionType`](crate::models::enums::TransactionType).
#[derive(Clone, Copy, Debug, PartialEq, Eq, Structural)]
pub struct Transactiontype;

impl Transactiontype {
    /// The name of the type in the store: `transactiontype`, in ASCII.
    pub open spec fn stored_name() -> Seq<u8> {
        seq![
            0x74, 0x72, 0x61, 0x6e, 0x73, 0x61, 0x63, 0x74, 0x69, 0x6f, 0x6e, 0x74, 0x79, 0x70,
            0x65,
        ]
    }

    /// The name of the type in the store.
    pub fn name_in_store() -> (name: Vec<u8>)
        ensures
            name@ == Transactiontype::stored_name(),
    {
        let name = vec![
            0x74u8, 0x72u8, 0x61u8, 0x6eu8, 0x73u8, 0x61u8, 0x63u8, 0x74u8, 0x69u8, 0x6fu8,
            0x6eu8, 0x74u8, 0x79u8, 0x70u8, 0x65u8,
        ];
        name
    }
}

} // verus!
