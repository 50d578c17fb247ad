//! The rows of the ledger and the enumerations that classify them.

pub mod enums;
pub mod new_records;
pub mod records;
