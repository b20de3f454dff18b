//! Accounts, instructions and transaction context in the layout where the
//! transaction context holds the return data and the CPI parameters, and an
//! account carries its flags as two bytes.
pub mod account;
pub mod context;
pub mod instruction;
