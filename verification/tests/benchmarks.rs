//! The sample programs on the instructions that the runtime benchmarks send
//! them. The runtime's part (applying the requests) is played by the test:
//! where a program reads a region after a request, the test hands it the
//! region as the runtime leaves it.
use abiv2::account::{Account, TransactionAccount};
use abiv2::context::InstructionContext;
use abiv2::cpi::{Parameters, ReturnData};
use abiv2::error::ProgramError;
use abiv2::programs;
use abiv2::sysvar::rent::Rent;
use abiv2::syscall::Syscall;
use abiv2::BorrowFlags;

/// Base lamports for accounts, used to ensure accounts are rent-exempt.
const BASE_LAMPORTS: u64 = 2_000_000_000;

const PROGRAM_ID: [u8; 32] = [255u8; 32];

const DATA_ADDRESS: u64 = 0x8_0000_0000;

fn account(address: [u8; 32], lamports: u64, data: Vec<u8>, owner: [u8; 32], index: u64) -> TransactionAccount {
    TransactionAccount::new(address, owner, lamports, DATA_ADDRESS + index * 0x1_0000_0000, data)
}

fn context() -> InstructionContext {
    InstructionContext::new(0, 0, u16::MAX, vec![], vec![])
}

fn data_of(accounts: &[TransactionAccount], index: u16) -> Vec<u8> {
    Account::readonly(index).borrow_unchecked(accounts).to_vec()
}

#[test]
fn test_account_borrow() {
    let mut accounts = vec![
        account([1; 32], BASE_LAMPORTS, vec![5; 20], PROGRAM_ID, 0),
        account([2; 32], BASE_LAMPORTS, vec![0; 20], PROGRAM_ID, 1),
    ];
    let metas = [Account::new(0, false, false), Account::new(1, false, true)];
    let mut flags = BorrowFlags::new();
    let r = programs::account_borrow::process_instruction(&context(), &metas, &[], &mut accounts, &mut flags);
    assert_eq!(r, Ok(()));

    // The account data must be equal.
    assert_eq!(data_of(&accounts, 0), data_of(&accounts, 1));
}

#[test]
fn fail_account_borrow_with_duplicated_account() {
    let mut accounts = vec![account([1; 32], BASE_LAMPORTS, vec![5; 20], PROGRAM_ID, 0)];
    let metas = [Account::new(0, false, false), Account::new(0, false, true)];
    let mut flags = BorrowFlags::new();
    let r = programs::account_borrow::process_instruction(&context(), &metas, &[], &mut accounts, &mut flags);
    assert_eq!(r, Err(ProgramError::AccountBorrowFailed));
}

fn resize(new_len: usize) -> (Result<(), ProgramError>, Vec<Syscall>, usize) {
    let mut accounts = vec![account([1; 32], BASE_LAMPORTS, vec![], PROGRAM_ID, 0)];
    let flags = BorrowFlags::new();
    let metas = [Account::new(0, false, true)];
    let mut syscalls = Vec::new();
    let r = programs::account_resize::process_instruction(
        &context(),
        &metas,
        &new_len.to_le_bytes(),
        &mut accounts,
        &flags,
        &mut syscalls,
    );
    (r, syscalls, Account::readonly(0).data_len(&accounts))
}

#[test]
fn account_resize_test_account_resize() {
    let (r, syscalls, len) = resize(72);
    assert_eq!(r, Ok(()));
    assert_eq!(syscalls, vec![Syscall::SetBufferLength { address: DATA_ADDRESS, length: 72 }]);

    // The account data length should have increased.
    assert_eq!(len, 72);
}

#[test]
fn test_account_resize_max_data_len() {
    // Maximum account data length.
    const MAX_ACCOUNT_DATA_LEN: usize = 10 * 1024 * 1024;

    let (r, syscalls, len) = resize(MAX_ACCOUNT_DATA_LEN);
    assert_eq!(r, Ok(()));
    assert_eq!(
        syscalls,
        vec![Syscall::SetBufferLength { address: DATA_ADDRESS, length: MAX_ACCOUNT_DATA_LEN as u64 }]
    );

    // The account data length should have increased.
    assert_eq!(len, MAX_ACCOUNT_DATA_LEN);
}

#[test]
fn test_assign_owner() {
    let owner = [42u8; 32];
    let metas = [Account::new(0, false, true)];
    let mut syscalls = Vec::new();
    let r = programs::assign_owner::process_instruction(&context(), &metas, &owner, &mut syscalls);
    assert_eq!(r, Ok(()));

    // The owner is changed to `owner`.
    assert_ne!(owner, PROGRAM_ID);
    assert_eq!(syscalls, vec![Syscall::AssignOwner { account_index: 0, owner }]);
}

#[test]
fn test_rent_sysvar() {
    // The default rent sysvar: the rate, then the exemption threshold and
    // the burn percent.
    let mut data = 6960u64.to_le_bytes().to_vec();
    data.extend_from_slice(&2.0f64.to_le_bytes());
    data.push(50);
    let accounts = vec![account([6; 32], 1_009_200, data, [0; 32], 0)];
    let metas = [Account::new(0, false, false)];
    let mut flags = BorrowFlags::new();
    let rent = Rent { lamports_per_byte: 6960 };
    let r = programs::rent_sysvar::process_instruction(&context(), &metas, &[], &rent, &accounts, &mut flags);
    assert_eq!(r, Ok(()));
}

#[test]
fn test_return_data() {
    let address = [77u8; 32];
    let mut return_data = ReturnData::new(PROGRAM_ID, 0x4_0000_3000, vec![0; 32]);
    let mut flags = BorrowFlags::new();
    let mut syscalls = Vec::new();
    let r = programs::return_data::process_instruction(
        &context(),
        &[],
        &address,
        &mut return_data,
        &mut flags,
        &mut syscalls,
    );
    assert_eq!(r, Ok(()));
    assert_eq!(return_data.as_slice(), &address);
}

#[test]
fn test_cpi() {
    let accounts = vec![
        account([1; 32], BASE_LAMPORTS, vec![], [0; 32], 0),
        account([2; 32], 0, vec![], [0; 32], 1),
        account([0; 32], 1, vec![], [0; 32], 2),
        account(PROGRAM_ID, 1, vec![], [0; 32], 3),
    ];
    let metas = [Account::new(0, true, true), Account::new(1, true, true), Account::new(2, false, false)];
    let context = InstructionContext::new(3, 0, u16::MAX, metas.to_vec(), vec![]);
    let mut flags = BorrowFlags::new();
    let mut parameters = Parameters::new(0x4_0000_2000, vec![], 0x4_0000_1000, vec![]);
    let return_data = ReturnData::new([0; 32], 0x4_0000_3000, vec![]);
    let mut syscalls = Vec::new();
    let r = programs::cpi::process_instruction(
        &context,
        &metas,
        &[],
        &accounts,
        &mut flags,
        &mut parameters,
        &return_data,
        &mut syscalls,
    );
    assert_eq!(r, Ok(()));

    // The system program is asked to move half of `from`'s lamports to `to`,
    // allocate 100 bytes and make the program its owner.
    let data = parameters.instruction_data();
    assert_eq!(&data[0..4], &0u32.to_le_bytes());
    assert_eq!(&data[4..12], &(BASE_LAMPORTS / 2).to_le_bytes());
    assert_eq!(&data[12..20], &100u64.to_le_bytes());
    assert_eq!(&data[20..52], &PROGRAM_ID);
    let signers: Vec<(u16, bool, bool)> =
        parameters.accounts().iter().map(|a| (a.transaction_index(), a.is_signer(), a.is_writable())).collect();
    assert_eq!(signers, vec![(0, true, true), (1, true, true)]);
    assert_eq!(
        syscalls,
        vec![
            Syscall::SetBufferLength { address: 0x4_0000_1000, length: 8 },
            Syscall::SetBufferLength { address: 0x4_0000_2000, length: 52 },
            Syscall::InvokeSigned { program_index: 2, signers: vec![] },
        ]
    );
}
