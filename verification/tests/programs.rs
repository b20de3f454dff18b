use abiv2::account::{Account, TransactionAccount};
use abiv2::context::InstructionContext;
use abiv2::cpi::{Parameters, ReturnData};
use abiv2::error::ProgramError;
use abiv2::programs;
use abiv2::sysvar::rent::Rent;
use abiv2::syscall::Syscall;
use abiv2::{BorrowFlags, HEAP_ADDRESS, MAX_IMMUTABLE_BORROWS, MUTABLY_BORROWED, NOT_BORROWED};

const DATA_ADDRESS: u64 = 0x8_0000_0000;
const CPI_DATA_ADDRESS: u64 = 0x4_0000_2000;
const CPI_ACCOUNTS_ADDRESS: u64 = 0x4_0000_1000;
const RETURN_DATA_ADDRESS: u64 = 0x4_0000_3000;

fn transaction_accounts(data: &[&[u8]]) -> Vec<TransactionAccount> {
    data.iter()
        .enumerate()
        .map(|(i, bytes)| {
            TransactionAccount::new(
                [i as u8 + 7; 32],
                [0; 32],
                1_000,
                DATA_ADDRESS + i as u64 * 0x1_0000_0000,
                bytes.to_vec(),
            )
        })
        .collect()
}

fn context() -> InstructionContext {
    InstructionContext::new(0, 0, u16::MAX, vec![], vec![])
}

fn data_of(accounts: &[TransactionAccount], index: u16) -> Vec<u8> {
    let mut flags = BorrowFlags::new();
    let guard = Account::readonly(index).try_borrow(accounts, &mut flags).unwrap();
    let bytes = guard.deref().to_vec();
    guard.release(&mut flags);
    bytes
}

fn all_clear(flags: &BorrowFlags, indices: &[u64]) -> bool {
    indices.iter().all(|i| flags.get(HEAP_ADDRESS + i) == NOT_BORROWED)
}

#[test]
fn account_borrow_copies_first_into_second() {
    let mut accounts = transaction_accounts(&[&[1, 2, 3], &[0, 0, 0]]);
    let mut flags = BorrowFlags::new();
    let view = [Account::readonly(0), Account::writable(1)];
    let r = programs::account_borrow::process_instruction(&context(), &view, &[], &mut accounts, &mut flags);
    assert_eq!(r, Ok(()));
    assert_eq!(data_of(&accounts, 1), vec![1, 2, 3]);
    assert_eq!(data_of(&accounts, 0), vec![1, 2, 3]);
    assert!(all_clear(&flags, &[0, 1]));
}

#[test]
fn account_borrow_refuses_duplicated_account() {
    let mut accounts = transaction_accounts(&[&[1, 2, 3]]);
    let mut flags = BorrowFlags::new();
    let view = [Account::readonly(0), Account::writable(0)];
    let r = programs::account_borrow::process_instruction(&context(), &view, &[], &mut accounts, &mut flags);
    assert_eq!(r, Err(ProgramError::AccountBorrowFailed));
    assert!(all_clear(&flags, &[0]));
    assert_eq!(data_of(&accounts, 0), vec![1, 2, 3]);
}

#[test]
fn account_borrow_needs_two_accounts() {
    let mut accounts = transaction_accounts(&[&[1]]);
    let mut flags = BorrowFlags::new();
    let view = [Account::readonly(0)];
    let r = programs::account_borrow::process_instruction(&context(), &view, &[], &mut accounts, &mut flags);
    assert_eq!(r, Err(ProgramError::NotEnoughAccountKeys));
}

#[test]
fn account_borrow_refuses_mutably_borrowed_first() {
    let mut accounts = transaction_accounts(&[&[1], &[2]]);
    let mut flags = BorrowFlags::new();
    flags.set(HEAP_ADDRESS, MUTABLY_BORROWED);
    let view = [Account::readonly(0), Account::writable(1)];
    let r = programs::account_borrow::process_instruction(&context(), &view, &[], &mut accounts, &mut flags);
    assert_eq!(r, Err(ProgramError::AccountBorrowFailed));
    assert_eq!(flags.get(HEAP_ADDRESS), MUTABLY_BORROWED);
    assert_eq!(data_of(&accounts, 1), vec![2]);
}

#[test]
fn assign_owner_requests_the_new_owner() {
    let mut syscalls = Vec::new();
    let view = [Account::writable_signer(3)];
    let r = programs::assign_owner::process_instruction(&context(), &view, &[9u8; 32], &mut syscalls);
    assert_eq!(r, Ok(()));
    assert_eq!(syscalls, vec![Syscall::AssignOwner { account_index: 3, owner: [9u8; 32] }]);
}

#[test]
fn assign_owner_checks_its_input() {
    let mut syscalls = Vec::new();
    let view = [Account::writable_signer(3)];
    let r = programs::assign_owner::process_instruction(&context(), &view, &[9u8; 31], &mut syscalls);
    assert_eq!(r, Err(ProgramError::InvalidInstructionData));
    let r = programs::assign_owner::process_instruction(&context(), &[], &[9u8; 32], &mut syscalls);
    assert_eq!(r, Err(ProgramError::NotEnoughAccountKeys));
    assert!(syscalls.is_empty());
}

#[test]
fn account_resize_requests_the_length() {
    let mut accounts = transaction_accounts(&[&[]]);
    let flags = BorrowFlags::new();
    let mut syscalls = Vec::new();
    let view = [Account::writable(0)];
    let r = programs::account_resize::process_instruction(
        &context(),
        &view,
        &8u64.to_le_bytes(),
        &mut accounts,
        &flags,
        &mut syscalls,
    );
    assert_eq!(r, Ok(()));
    assert_eq!(syscalls, vec![Syscall::SetBufferLength { address: DATA_ADDRESS, length: 8 }]);
    assert_eq!(data_of(&accounts, 0), vec![0; 8]);
}

#[test]
fn account_resize_errors() {
    let mut flags = BorrowFlags::new();
    let mut syscalls = Vec::new();
    let view = [Account::writable(0)];
    let data = 8u64.to_le_bytes();
    let run = |accounts: &mut Vec<TransactionAccount>, flags: &BorrowFlags, bytes: &[u8], syscalls: &mut Vec<Syscall>| {
        programs::account_resize::process_instruction(&context(), &view, bytes, accounts, flags, syscalls)
    };
    let mut empty = transaction_accounts(&[&[]]);
    let mut full = transaction_accounts(&[&[1]]);
    assert_eq!(run(&mut empty, &flags, &[1, 2], &mut syscalls), Err(ProgramError::InvalidInstructionData));
    assert_eq!(run(&mut full, &flags, &data, &mut syscalls), Err(ProgramError::InvalidAccountData));
    assert!(syscalls.is_empty());
    assert_eq!(run(&mut empty, &flags, &0u64.to_le_bytes(), &mut syscalls), Err(ProgramError::AccountDataTooSmall));
    assert_eq!(syscalls, vec![Syscall::SetBufferLength { address: DATA_ADDRESS, length: 0 }]);
    flags.set(HEAP_ADDRESS, 1);
    assert_eq!(run(&mut empty, &flags, &data, &mut syscalls), Err(ProgramError::AccountBorrowFailed));
    assert_eq!(syscalls.len(), 1);
    assert_eq!(data_of(&empty, 0), Vec::<u8>::new());
    assert_eq!(
        programs::account_resize::process_instruction(&context(), &[], &data, &mut empty, &flags, &mut syscalls),
        Err(ProgramError::NotEnoughAccountKeys)
    );
}

#[test]
fn return_data_program_writes_its_input() {
    let mut return_data = ReturnData::new([4u8; 32], RETURN_DATA_ADDRESS, vec![]);
    let mut flags = BorrowFlags::new();
    let mut syscalls = Vec::new();
    let r = programs::return_data::process_instruction(
        &context(),
        &[],
        &[1, 2, 3],
        &mut return_data,
        &mut flags,
        &mut syscalls,
    );
    assert_eq!(r, Ok(()));
    assert_eq!(return_data.as_slice(), &[1, 2, 3]);
    assert_eq!(syscalls, vec![Syscall::SetBufferLength { address: RETURN_DATA_ADDRESS, length: 3 }]);
    assert_eq!(flags.get(HEAP_ADDRESS + 4089), NOT_BORROWED);
}

#[test]
fn return_data_program_refused_while_borrowed() {
    let mut return_data = ReturnData::new([4u8; 32], RETURN_DATA_ADDRESS, vec![0; 3]);
    let mut flags = BorrowFlags::new();
    flags.set(HEAP_ADDRESS + 4089, 1);
    let mut syscalls = Vec::new();
    let r = programs::return_data::process_instruction(
        &context(),
        &[],
        &[1, 2, 3],
        &mut return_data,
        &mut flags,
        &mut syscalls,
    );
    assert_eq!(r, Err(ProgramError::InvalidArgument));
    assert_eq!(return_data.as_slice(), &[0, 0, 0]);
    assert!(syscalls.is_empty());
    assert_eq!(flags.get(HEAP_ADDRESS + 4089), 1);
}

fn rent_account(lamports_per_byte: u64) -> Vec<TransactionAccount> {
    let mut data = lamports_per_byte.to_le_bytes().to_vec();
    data.extend_from_slice(&[0; 9]);
    transaction_accounts(&[&data])
}

#[test]
fn rent_sysvar_matches_the_account() {
    let accounts = rent_account(6960);
    let rent = Rent { lamports_per_byte: 6960 };
    let mut flags = BorrowFlags::new();
    let r = programs::rent_sysvar::process_instruction(&context(), &[Account::readonly(0)], &[], &rent, &accounts, &mut flags);
    assert_eq!(r, Ok(()));
    assert_eq!(rent.try_minimum_balance(0), Ok(programs::rent_sysvar::EMPTY_ACCOUNT_RENT));
    assert!(all_clear(&flags, &[0, 4083]));
}

#[test]
fn rent_sysvar_errors() {
    let rent = Rent { lamports_per_byte: 6960 };
    let accounts = rent_account(6960);
    let mut flags = BorrowFlags::new();
    let r = programs::rent_sysvar::process_instruction(&context(), &[], &[], &rent, &accounts, &mut flags);
    assert_eq!(r, Err(ProgramError::NotEnoughAccountKeys));

    flags.set(HEAP_ADDRESS + 4083, MAX_IMMUTABLE_BORROWS);
    let r = programs::rent_sysvar::process_instruction(&context(), &[Account::readonly(0)], &[], &rent, &accounts, &mut flags);
    assert_eq!(r, Err(ProgramError::AccountBorrowFailed));
    assert_eq!(flags.get(HEAP_ADDRESS + 4083), MAX_IMMUTABLE_BORROWS);

    let mut flags = BorrowFlags::new();
    flags.set(HEAP_ADDRESS, MUTABLY_BORROWED);
    let r = programs::rent_sysvar::process_instruction(&context(), &[Account::readonly(0)], &[], &rent, &accounts, &mut flags);
    assert_eq!(r, Err(ProgramError::AccountBorrowFailed));
    assert_eq!(flags.get(HEAP_ADDRESS + 4083), NOT_BORROWED);

    let large = 1_759_197_129_868u64;
    let accounts = rent_account(large);
    let mut flags = BorrowFlags::new();
    let r = programs::rent_sysvar::process_instruction(
        &context(),
        &[Account::readonly(0)],
        &[],
        &Rent { lamports_per_byte: large },
        &accounts,
        &mut flags,
    );
    assert_eq!(r, Err(ProgramError::InvalidArgument));
    assert!(all_clear(&flags, &[0, 4083]));
}

fn cpi_parameters(accounts: usize, data: usize) -> Parameters {
    Parameters::new(CPI_DATA_ADDRESS, vec![0; data], CPI_ACCOUNTS_ADDRESS, vec![Account::readonly(0); accounts])
}

#[test]
fn cpi_create_account_writes_the_instruction() {
    let accounts = transaction_accounts(&[&[], &[], &[], &[]]);
    let mut flags = BorrowFlags::new();
    let mut parameters = cpi_parameters(5, 3);
    let return_data = ReturnData::new([0; 32], RETURN_DATA_ADDRESS, vec![]);
    let mut syscalls = Vec::new();
    let view = [Account::writable_signer(1), Account::writable_signer(2), Account::readonly(3)];
    let r = programs::cpi::process_instruction(
        &context(),
        &view,
        &[0],
        &accounts,
        &mut flags,
        &mut parameters,
        &return_data,
        &mut syscalls,
    );
    assert_eq!(r, Ok(()));
    let mut expected = 0u32.to_le_bytes().to_vec();
    expected.extend_from_slice(&1_000_000_000u64.to_le_bytes());
    expected.extend_from_slice(&100u64.to_le_bytes());
    expected.extend_from_slice(&[7u8; 32]);
    assert_eq!(parameters.instruction_data(), expected.as_slice());
    let written: Vec<(u16, bool, bool)> = parameters
        .accounts()
        .iter()
        .map(|a| (a.transaction_index(), a.is_signer(), a.is_writable()))
        .collect();
    assert_eq!(written, vec![(1, true, true), (2, true, true)]);
    assert_eq!(
        syscalls,
        vec![
            Syscall::SetBufferLength { address: CPI_ACCOUNTS_ADDRESS, length: 8 },
            Syscall::SetBufferLength { address: CPI_DATA_ADDRESS, length: 52 },
            Syscall::InvokeSigned { program_index: 3, signers: vec![] },
        ]
    );
    assert!(all_clear(&flags, &[1, 2, 4088]));
}

#[test]
fn cpi_create_account_refused_while_borrowed() {
    let accounts = transaction_accounts(&[&[], &[], &[], &[]]);
    let mut parameters = cpi_parameters(2, 52);
    let return_data = ReturnData::new([0; 32], RETURN_DATA_ADDRESS, vec![]);
    let mut syscalls = Vec::new();
    let view = [Account::writable_signer(1), Account::writable_signer(2), Account::readonly(3)];
    let mut flags = BorrowFlags::new();
    flags.set(HEAP_ADDRESS + 2, 1);
    let r = programs::cpi::process_instruction(&context(), &view, &[0], &accounts, &mut flags, &mut parameters, &return_data, &mut syscalls);
    assert_eq!(r, Err(ProgramError::AccountBorrowFailed));
    let mut flags = BorrowFlags::new();
    flags.set(HEAP_ADDRESS + 4088, MUTABLY_BORROWED);
    let r = programs::cpi::process_instruction(&context(), &view, &[0], &accounts, &mut flags, &mut parameters, &return_data, &mut syscalls);
    assert_eq!(r, Err(ProgramError::Immutable));
    assert!(syscalls.is_empty());
    assert_eq!(parameters.instruction_data(), &[0u8; 52]);
}

#[test]
fn cpi_trace_invokes_the_program() {
    let accounts = transaction_accounts(&[&[]]);
    let mut flags = BorrowFlags::new();
    let mut parameters = cpi_parameters(0, 0);
    let return_data = ReturnData::new([0; 32], RETURN_DATA_ADDRESS, vec![]);
    let mut syscalls = Vec::new();
    let r = programs::cpi::process_instruction(
        &context(),
        &[Account::readonly(5)],
        &[1],
        &accounts,
        &mut flags,
        &mut parameters,
        &return_data,
        &mut syscalls,
    );
    assert_eq!(r, Ok(()));
    assert_eq!(syscalls, vec![Syscall::InvokeSigned { program_index: 5, signers: vec![] }]);
}

#[test]
fn cpi_write_return_checks_the_return_data() {
    let accounts = transaction_accounts(&[&[], &[]]);
    let mut parameters = cpi_parameters(3, 0);
    let mut syscalls = Vec::new();
    let view = [Account::readonly(1)];

    let written = ReturnData::new([8u8; 32], RETURN_DATA_ADDRESS, vec![7u8; 32]);
    let mut flags = BorrowFlags::new();
    let r = programs::cpi::process_instruction(&context(), &view, &[2], &accounts, &mut flags, &mut parameters, &written, &mut syscalls);
    assert_eq!(r, Ok(()));
    assert_eq!(parameters.instruction_data(), &[7u8; 32]);
    assert!(parameters.accounts().is_empty());
    assert_eq!(
        syscalls,
        vec![
            Syscall::SetBufferLength { address: CPI_ACCOUNTS_ADDRESS, length: 0 },
            Syscall::SetBufferLength { address: CPI_DATA_ADDRESS, length: 32 },
            Syscall::InvokeSigned { program_index: 1, signers: vec![] },
        ]
    );
    assert!(all_clear(&flags, &[4088, 4089]));

    let other_writer = ReturnData::new([9u8; 32], RETURN_DATA_ADDRESS, vec![7u8; 32]);
    let r = programs::cpi::process_instruction(&context(), &view, &[2], &accounts, &mut flags, &mut parameters, &other_writer, &mut syscalls);
    assert_eq!(r, Err(ProgramError::InvalidArgument));
    let other_data = ReturnData::new([8u8; 32], RETURN_DATA_ADDRESS, vec![6u8; 32]);
    let r = programs::cpi::process_instruction(&context(), &view, &[2], &accounts, &mut flags, &mut parameters, &other_data, &mut syscalls);
    assert_eq!(r, Err(ProgramError::InvalidArgument));
}

#[test]
fn cpi_rejects_unknown_instructions() {
    let accounts = transaction_accounts(&[&[]]);
    let mut flags = BorrowFlags::new();
    let mut parameters = cpi_parameters(0, 0);
    let return_data = ReturnData::new([0; 32], RETURN_DATA_ADDRESS, vec![]);
    let mut syscalls = Vec::new();
    for data in [&[3][..], &[200][..]] {
        let r = programs::cpi::process_instruction(&context(), &[], data, &accounts, &mut flags, &mut parameters, &return_data, &mut syscalls);
        assert_eq!(r, Err(ProgramError::InvalidInstructionData));
    }
    for data in [&[][..], &[0][..], &[1][..], &[2][..]] {
        let r = programs::cpi::process_instruction(&context(), &[], data, &accounts, &mut flags, &mut parameters, &return_data, &mut syscalls);
        assert_eq!(r, Err(ProgramError::NotEnoughAccountKeys));
    }
    assert!(syscalls.is_empty());
}
