//! A program that changes the owner of an account to the address given as
//! instruction data.
use crate::account::Account;
use crate::context::InstructionContext;
use crate::error::{ProgramError, ProgramResult};
use crate::programs::address_from_slice;
use crate::syscall::Syscall;
use vstd::prelude::*;

verus! {

/// Processes an instruction: the instruction data must be a 32-byte
/// address, and the first account is assigned to it.
pub fn process_instruction(
    context: &InstructionContext,
    accounts: &[Account],
    instruction_data: &[u8],
    syscalls: &mut Vec<Syscall>,
) -> (r: ProgramResult)
    ensures
        instruction_data@.len() != 32 ==> r == Err::<(), ProgramError>(
            ProgramError::InvalidInstructionData,
        ) && final(syscalls)@ == old(syscalls)@,
        instruction_data@.len() == 32 && accounts@.len() == 0 ==> r == Err::<(), ProgramError>(
            ProgramError::NotEnoughAccountKeys,
        ) && final(syscalls)@ == old(syscalls)@,
        instruction_data@.len() == 32 && accounts@.len() > 0 ==> {
            &&& r == Ok::<(), ProgramError>(())
            &&& final(syscalls)@.len() == old(syscalls)@.len() + 1
            &&& final(syscalls)@.subrange(0, old(syscalls)@.len() as int) == old(syscalls)@
            &&& final(syscalls)@[old(syscalls)@.len() as int] matches Syscall::AssignOwner {
                account_index,
                owner,
            } && account_index == accounts@[0].index() as u64 && owner@ == instruction_data@
        },
{
    let address = match address_from_slice(instruction_data) {
        Some(address) => address,
        None => return Err(ProgramError::InvalidInstructionData),
    };
    if accounts.len() == 0 {
        return Err(ProgramError::NotEnoughAccountKeys);
    }
    let ghost before = syscalls@;
    syscalls.push(accounts[0].assign(&address));
    assert(syscalls@.subrange(0, before.len() as int) =~= before);
    Ok(())
}

} // verus!
