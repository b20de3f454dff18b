//! The program entrypoint and the default heap allocator.
use crate::context::InstructionContext;
use crate::account::Account;
use crate::error::{error_code, ProgramError, ProgramResult};
use solana_program_error::ProgramError as SolanaProgramError;
use vstd::prelude::*;

pub mod allocator;
pub mod static_alloc;

pub use allocator::{BumpAllocator, DenyAllocator};

verus! {

/// Value returned to the runtime when the program succeeds.
pub const SUCCESS: u64 = 0;

/// The value returned to the runtime for the result of a program.
pub open spec fn result_code(result: ProgramResult) -> u64 {
    match result {
        Ok(()) => SUCCESS,
        Err(e) => error_code(e),
    }
}

/// No error is reported to the runtime as success, and different errors are
/// reported as different codes.
pub proof fn lemma_error_codes_are_distinct(first: ProgramError, second: ProgramError)
    ensures
        result_code(Err(first)) != SUCCESS,
        result_code(Err(first)) == result_code(Err(second)) ==> first == second,
{
}

/// Runs `process_instruction` on the entrypoint's inputs and returns what
/// the runtime receives: [`SUCCESS`], or the code of the error.
pub fn process_entrypoint<F: FnOnce(&InstructionContext, &[Account], &[u8]) -> ProgramResult>(
    context: &InstructionContext,
    accounts: &[Account],
    instruction_data: &[u8],
    process_instruction: F,
) -> (r: u64)
    requires
        process_instruction.requires((context, accounts, instruction_data)),
    ensures
        exists|result: ProgramResult|
            process_instruction.ensures((context, accounts, instruction_data), result) && r
                == result_code(result),
{
    let result = process_instruction(context, accounts, instruction_data);
    let code = match result {
        Ok(()) => SUCCESS,
        Err(e) => program_error_to_u64(e),
    };
    assert(process_instruction.ensures((context, accounts, instruction_data), result) && code
        == result_code(result));
    code
}

/// Converts `error` into the code the runtime receives, through
/// `u64::from(solana_program_error::ProgramError)`.
///
/// Trusted: the contract states the value of that crate's `From` impl for
/// each variant, as its source defines the error-code constants.
#[verifier::external_body]
fn program_error_to_u64(error: ProgramError) -> (r: u64)
    ensures
        r == error_code(error),
{
    let outside = match error {
        ProgramError::Custom(n) => SolanaProgramError::Custom(n),
        ProgramError::InvalidArgument => SolanaProgramError::InvalidArgument,
        ProgramError::InvalidInstructionData => SolanaProgramError::InvalidInstructionData,
        ProgramError::InvalidAccountData => SolanaProgramError::InvalidAccountData,
        ProgramError::AccountDataTooSmall => SolanaProgramError::AccountDataTooSmall,
        ProgramError::NotEnoughAccountKeys => SolanaProgramError::NotEnoughAccountKeys,
        ProgramError::AccountBorrowFailed => SolanaProgramError::AccountBorrowFailed,
        ProgramError::Immutable => SolanaProgramError::Immutable,
    };
    u64::from(outside)
}

} // verus!
