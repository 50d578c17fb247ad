//! How the store names what the ledger keeps in it.

pub mod sql_types;
