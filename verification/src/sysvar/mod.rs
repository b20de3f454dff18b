//! Sysvars: runtime data that programs read from fixed mappings.
//!
//! The sysvar with index `k` is mapped as the data of transaction account
//! `MAX_TRANSACTION_ACCOUNTS - k`, and shares that account's borrow-state
//! byte.
use crate::account::borrow_state_address;
use crate::memory::{mapping_ptr, HEAP_ADDRESS, MAX_TRANSACTION_ACCOUNTS, TRANSACTION_ACCOUNTS_PAYLOAD_ADDRESS};
use vstd::prelude::*;

pub mod rent;

verus! {

/// Address of the borrow-state byte of the sysvar with index `index`.
pub open spec fn sysvar_borrow_state(index: u64) -> u64 {
    (HEAP_ADDRESS + (MAX_TRANSACTION_ACCOUNTS - index)) as u64
}

/// A sysvar shares the borrow-state byte of the transaction account whose
/// data it is mapped as.
pub proof fn lemma_sysvar_shares_account_state(index: u64)
    requires
        1 <= index <= MAX_TRANSACTION_ACCOUNTS,
    ensures
        sysvar_borrow_state(index) == borrow_state_address((MAX_TRANSACTION_ACCOUNTS - index) as u16),
{
}

/// Address at which the runtime maps the sysvar with index `index`.
pub fn address(index: u64) -> (r: u64)
    requires
        1 <= index <= MAX_TRANSACTION_ACCOUNTS,
    ensures
        r == TRANSACTION_ACCOUNTS_PAYLOAD_ADDRESS + (MAX_TRANSACTION_ACCOUNTS - index)
            * crate::memory::MAPPING_PAGE_LENGTH,
{
    mapping_ptr(TRANSACTION_ACCOUNTS_PAYLOAD_ADDRESS, MAX_TRANSACTION_ACCOUNTS as u64 - index)
}

} // verus!
