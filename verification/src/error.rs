//! Errors that programs return to the runtime.
use vstd::prelude::*;

verus! {

/// Reasons a program may fail.
///
/// The variants are those of `solana_program_error::ProgramError` that this
/// library and its programs produce, plus `Custom` for program-specific
/// codes.
#[derive(Clone, Copy, Debug, PartialEq, Eq, Structural)]
pub enum ProgramError {
    /// A program-specific error code.
    Custom(u32),
    InvalidArgument,
    InvalidInstructionData,
    InvalidAccountData,
    AccountDataTooSmall,
    NotEnoughAccountKeys,
    AccountBorrowFailed,
    Immutable,
}

/// The result of a program or of a step of one.
pub type ProgramResult = Result<(), ProgramError>;

/// Builtin error codes occupy the upper 32 bits of the returned `u64`.
pub open spec fn builtin(number: u64) -> u64 {
    (number * 0x1_0000_0000) as u64
}

/// The `u64` the runtime receives for `error`: a builtin code for the
/// builtin errors, the number itself for a non-zero custom code, and the
/// first builtin code for custom code zero.
pub open spec fn error_code(error: ProgramError) -> u64 {
    match error {
        ProgramError::Custom(n) => if n == 0 {
            builtin(1)
        } else {
            n as u64
        },
        ProgramError::InvalidArgument => builtin(2),
        ProgramError::InvalidInstructionData => builtin(3),
        ProgramError::InvalidAccountData => builtin(4),
        ProgramError::AccountDataTooSmall => builtin(5),
        ProgramError::NotEnoughAccountKeys => builtin(11),
        ProgramError::AccountBorrowFailed => builtin(12),
        ProgramError::Immutable => builtin(25),
    }
}

} // verus!

