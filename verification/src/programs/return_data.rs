//! A program that reads the return data and then writes its instruction
//! data as return data.
use crate::account::Account;
use crate::context::InstructionContext;
use crate::cpi::{return_data_borrow_state, ReturnData, ReturnDataView};
use crate::error::{ProgramError, ProgramResult};
use crate::programs::copy_into;
use crate::syscall::Syscall;
use crate::{BorrowFlags, NOT_BORROWED};
use vstd::prelude::*;

verus! {

/// Processes an instruction: borrows the return data immutably (to report
/// who wrote it and how long it is), gives it back, then borrows it mutably
/// sized to the instruction data and copies the instruction data into it.
///
/// `return_data` is the scratchpad as it stands when the program starts;
/// the mutable borrow sizes it for the instruction data.
pub fn process_instruction(
    context: &InstructionContext,
    accounts: &[Account],
    instruction_data: &[u8],
    return_data: &mut ReturnData,
    flags: &mut BorrowFlags,
    syscalls: &mut Vec<Syscall>,
) -> (r: ProgramResult)
    requires
        old(flags).has_state(return_data_borrow_state() as int),
    ensures
        final(flags)@ == old(flags)@,
        ({
            let state = old(flags).state(return_data_borrow_state() as int);
            if state != NOT_BORROWED {
                &&& r == Err::<(), ProgramError>(ProgramError::InvalidArgument)
                &&& final(syscalls)@ == old(syscalls)@
                &&& *final(return_data) == *old(return_data)
            } else {
                &&& r == Ok::<(), ProgramError>(())
                &&& final(syscalls)@ == old(syscalls)@.push(
                    Syscall::SetBufferLength {
                        address: old(return_data)@.data_address,
                        length: instruction_data@.len() as u64,
                    },
                )
                &&& final(return_data)@ == (ReturnDataView {
                    data: instruction_data@,
                    ..old(return_data)@
                })
            }
        }),
{
    let ghost flags0 = *flags;
    let reader = match ReturnData::borrow(return_data, flags) {
        Ok(guard) => guard,
        Err(e) => return Err(e),
    };
    reader.release(flags);
    assert(flags@ =~= flags0@);
    let (mut writer, request) = match ReturnData::borrow_mut(return_data, flags, instruction_data.len()) {
        Ok(granted) => granted,
        Err(e) => return Err(e),
    };
    syscalls.push(request);
    {
        let data = writer.get_mut().as_mut_slice();
        copy_into(data, 0, instruction_data);
    }
    writer.release(flags);
    assert(flags@ =~= flags0@);
    assert(return_data@.data =~= instruction_data@);
    Ok(())
}

} // verus!
