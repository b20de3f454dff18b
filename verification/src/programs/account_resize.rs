//! A program that resizes an empty account to the length given as
//! instruction data (a little-endian `u64`).
use crate::account::{borrow_state_address, resized_at, Account, TransactionAccount};
use crate::context::InstructionContext;
use crate::error::{ProgramError, ProgramResult};
use crate::syscall::Syscall;
use crate::{BorrowFlags, NOT_BORROWED};
use vstd::bytes::{spec_u64_from_le_bytes, u64_from_le_bytes};
use vstd::prelude::*;

verus! {

/// Processes an instruction: the first account must have no data; it is
/// resized to the length in the instruction data and must then hold data.
///
/// `transaction_accounts` is the array of transaction account metadata; the
/// resize leaves it as the runtime does after the request.
pub fn process_instruction(
    context: &InstructionContext,
    accounts: &[Account],
    instruction_data: &[u8],
    transaction_accounts: &mut [TransactionAccount],
    flags: &BorrowFlags,
    syscalls: &mut Vec<Syscall>,
) -> (r: ProgramResult)
    requires
        accounts@.len() > 0 ==> {
            &&& accounts@[0].index() < old(transaction_accounts)@.len()
            &&& flags.has_state(borrow_state_address(accounts@[0].index()) as int)
        },
    ensures
        ({
            let unchanged = final(syscalls)@ == old(syscalls)@ && final(transaction_accounts)@
                == old(transaction_accounts)@;
            if accounts@.len() == 0 {
                r == Err::<(), ProgramError>(ProgramError::NotEnoughAccountKeys) && unchanged
            } else if instruction_data@.len() != 8 {
                r == Err::<(), ProgramError>(ProgramError::InvalidInstructionData) && unchanged
            } else if old(transaction_accounts)@[accounts@[0].index() as int]@.data.len() != 0 {
                r == Err::<(), ProgramError>(ProgramError::InvalidAccountData) && unchanged
            } else if flags.state(borrow_state_address(accounts@[0].index()) as int)
                != NOT_BORROWED {
                r == Err::<(), ProgramError>(ProgramError::AccountBorrowFailed) && unchanged
            } else {
                let new_len = spec_u64_from_le_bytes(instruction_data@) as usize;
                &&& final(syscalls)@ == old(syscalls)@.push(
                    Syscall::SetBufferLength {
                        address: old(transaction_accounts)@[accounts@[0].index() as int]@.data_address,
                        length: new_len as u64,
                    },
                )
                &&& resized_at(
                    old(transaction_accounts)@,
                    final(transaction_accounts)@,
                    accounts@[0].index(),
                    new_len,
                )
                &&& r == if new_len == 0 {
                    Err::<(), ProgramError>(ProgramError::AccountDataTooSmall)
                } else {
                    Ok::<(), ProgramError>(())
                }
            }
        }),
{
    if accounts.len() == 0 {
        return Err(ProgramError::NotEnoughAccountKeys);
    }
    let mut account = accounts[0];
    let new_len = if instruction_data.len() == 8 {
        u64_from_le_bytes(instruction_data)
    } else {
        return Err(ProgramError::InvalidInstructionData);
    };
    if account.data_len(transaction_accounts) != 0 {
        return Err(ProgramError::InvalidAccountData);
    }
    match account.resize(transaction_accounts, flags, new_len as usize) {
        Ok(request) => syscalls.push(request),
        Err(e) => return Err(e),
    }
    if account.data_len(transaction_accounts) == 0 {
        return Err(ProgramError::AccountDataTooSmall);
    }
    Ok(())
}

} // verus!
