use abiv2::account::Account;
use abiv2::cpi::{Parameters, ReturnData, Seed, Signer};
use abiv2::error::ProgramError;
use abiv2::syscall::{sol_invoke_signed, Syscall};
use abiv2::{BorrowFlags, HEAP_ADDRESS, MUTABLY_BORROWED};

const ACCOUNTS_ADDRESS: u64 = 0x4_0000_1000;
const DATA_ADDRESS: u64 = 0x4_0000_2000;

#[test]
fn for_invocation_sizes_both_scratchpads() {
    let mut parameters = Parameters::new(DATA_ADDRESS, vec![0; 52], ACCOUNTS_ADDRESS, vec![Account::readonly(0); 2]);
    let mut flags = BorrowFlags::new();
    let (mut guard, requests) = Parameters::for_invocation(&mut parameters, &mut flags, 2, 52).unwrap();
    assert_eq!(
        requests,
        (
            Syscall::SetBufferLength { address: ACCOUNTS_ADDRESS, length: 8 },
            Syscall::SetBufferLength { address: DATA_ADDRESS, length: 52 },
        )
    );
    assert_eq!(flags.get(HEAP_ADDRESS + 4088), MUTABLY_BORROWED);
    guard.get_mut().accounts_mut()[1] = Account::writable_signer(9);
    guard.get_mut().instruction_data_mut()[0] = 7;
    guard.release(&mut flags);
    assert_eq!(parameters.accounts()[1].transaction_index(), 9);
    assert_eq!(parameters.instruction_data()[0], 7);
}

#[test]
fn for_invocation_is_refused_while_borrowed() {
    let mut parameters = Parameters::new(DATA_ADDRESS, vec![], ACCOUNTS_ADDRESS, vec![]);
    let mut flags = BorrowFlags::new();
    flags.set(HEAP_ADDRESS + 4088, MUTABLY_BORROWED);
    assert!(matches!(
        Parameters::for_invocation(&mut parameters, &mut flags, 0, 0),
        Err(ProgramError::Immutable)
    ));
}

#[test]
fn return_data_borrows() {
    let mut return_data = ReturnData::new([4u8; 32], 0x4_0000_3000, vec![1, 2, 3]);
    let mut flags = BorrowFlags::new();
    {
        let guard = ReturnData::borrow(&return_data, &mut flags).unwrap();
        assert_eq!(guard.deref().as_slice(), &[1, 2, 3]);
        assert!(guard.deref().written_by(&[4u8; 32]));
        assert!(!guard.deref().written_by(&[5u8; 32]));
        assert!(!guard.deref().is_empty());
        assert_eq!(guard.deref().program(), [4u8; 32]);
        guard.release(&mut flags);
    }
    let (mut guard, request) = ReturnData::borrow_mut(&mut return_data, &mut flags, 3).unwrap();
    assert_eq!(request, Syscall::SetBufferLength { address: 0x4_0000_3000, length: 3 });
    guard.get_mut().as_mut_slice().copy_from_slice(&[7, 7, 7]);
    assert!(matches!(
        ReturnData::borrow(&ReturnData::new([0; 32], 0, vec![]), &mut flags),
        Err(ProgramError::InvalidArgument)
    ));
    guard.release(&mut flags);
    assert_eq!(return_data.as_slice(), &[7, 7, 7]);
}

#[test]
fn invoke_signed_carries_the_seeds() {
    let bump = [255u8];
    let seeds = [Seed::from(b"seed".as_slice()), Seed::from(bump.as_slice())];
    let signers = [Signer::from(seeds.as_slice())];
    match sol_invoke_signed(3, &signers) {
        Syscall::InvokeSigned { program_index, signers } => {
            assert_eq!(program_index, 3);
            assert_eq!(signers, vec![vec![b"seed".to_vec(), vec![255u8]]]);
        }
        other => panic!("unexpected request {other:?}"),
    }
}

#[test]
fn account_requests() {
    let from = Account::writable_signer(1);
    let to = Account::writable(2);
    assert_eq!(
        from.transfer_lamports(&to, 10),
        Syscall::TransferLamports { to: 2, from: 1, lamports: 10 }
    );
    assert_eq!(
        from.assign(&[9u8; 32]),
        Syscall::AssignOwner { account_index: 1, owner: [9u8; 32] }
    );
}

#[test]
fn for_invocation_sizes_the_scratchpad() {
    let mut parameters = Parameters::new(DATA_ADDRESS, vec![9; 3], ACCOUNTS_ADDRESS, vec![Account::writable(4); 5]);
    let mut flags = BorrowFlags::new();
    let (guard, _) = Parameters::for_invocation(&mut parameters, &mut flags, 2, 6).unwrap();
    assert_eq!(guard.get().accounts().len(), 2);
    assert_eq!(guard.get().instruction_data(), &[9, 9, 9, 0, 0, 0]);
    guard.release(&mut flags);
    assert_eq!(parameters.accounts()[1].transaction_index(), 4);
}

#[test]
fn return_data_borrow_mut_sizes_the_data() {
    let mut return_data = ReturnData::new([4u8; 32], 0x4_0000_3000, vec![]);
    let mut flags = BorrowFlags::new();
    let (guard, _) = ReturnData::borrow_mut(&mut return_data, &mut flags, 5).unwrap();
    assert_eq!(guard.get().as_slice(), &[0; 5]);
    guard.release(&mut flags);
    assert_eq!(return_data.as_slice().len(), 5);
}
