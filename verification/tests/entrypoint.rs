use abiv2::account::Account;
use abiv2::context::InstructionContext;
use abiv2::entrypoint::{process_entrypoint, SUCCESS};
use abiv2::error::ProgramError;

fn context() -> InstructionContext {
    InstructionContext::new(0, 0, u16::MAX, vec![Account::readonly(1)], vec![1, 2, 3])
}

fn code_of(error: ProgramError) -> u64 {
    let ctx = context();
    process_entrypoint(&ctx, ctx.accounts(), ctx.data(), |_, _, _| Err(error))
}

#[test]
fn success_is_zero() {
    let ctx = context();
    let code = process_entrypoint(&ctx, ctx.accounts(), ctx.data(), |_, accounts, data| {
        assert_eq!(accounts.len(), 1);
        assert_eq!(data, &[1, 2, 3]);
        Ok(())
    });
    assert_eq!(code, SUCCESS);
}

#[test]
fn builtin_errors_use_the_upper_bits() {
    assert_eq!(code_of(ProgramError::InvalidArgument), 2 << 32);
    assert_eq!(code_of(ProgramError::InvalidInstructionData), 3 << 32);
    assert_eq!(code_of(ProgramError::InvalidAccountData), 4 << 32);
    assert_eq!(code_of(ProgramError::AccountDataTooSmall), 5 << 32);
    assert_eq!(code_of(ProgramError::NotEnoughAccountKeys), 11 << 32);
    assert_eq!(code_of(ProgramError::AccountBorrowFailed), 12 << 32);
    assert_eq!(code_of(ProgramError::Immutable), 25 << 32);
}

#[test]
fn custom_errors_keep_their_code() {
    assert_eq!(code_of(ProgramError::Custom(42)), 42);
    assert_eq!(code_of(ProgramError::Custom(0)), 1 << 32);
    assert_ne!(code_of(ProgramError::Custom(0)), SUCCESS);
}
