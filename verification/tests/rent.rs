use abiv2::error::ProgramError;
use abiv2::sysvar::rent::{Rent, MAX_LAMPORTS_PER_BYTE, MAX_PERMITTED_DATA_LENGTH};
use abiv2::{BorrowFlags, HEAP_ADDRESS};

#[test]
fn rent_for_an_empty_account() {
    let rent = Rent { lamports_per_byte: 6960 };
    assert_eq!(rent.try_minimum_balance(0), Ok(890880));
    assert_eq!(rent.minimum_balance_unchecked(0), 890880);
}

#[test]
fn rent_counts_the_storage_overhead() {
    let rent = Rent { lamports_per_byte: 10 };
    assert_eq!(rent.try_minimum_balance(100), Ok(2280));
}

#[test]
fn rent_rejects_oversized_data() {
    let rent = Rent { lamports_per_byte: 1 };
    let too_long = (MAX_PERMITTED_DATA_LENGTH + 1) as usize;
    assert_eq!(rent.try_minimum_balance(too_long), Err(ProgramError::InvalidArgument));
    assert!(rent.try_minimum_balance(MAX_PERMITTED_DATA_LENGTH as usize).is_ok());
}

#[test]
fn rent_rejects_excessive_rates() {
    let rent = Rent { lamports_per_byte: MAX_LAMPORTS_PER_BYTE + 1 };
    assert_eq!(rent.try_minimum_balance(0), Err(ProgramError::InvalidArgument));
    let rent = Rent { lamports_per_byte: MAX_LAMPORTS_PER_BYTE };
    let largest = rent.try_minimum_balance(MAX_PERMITTED_DATA_LENGTH as usize).unwrap();
    assert_eq!(largest, 18_446_744_073_706_816_896);
}

#[test]
fn exemption_threshold() {
    let rent = Rent { lamports_per_byte: 6960 };
    assert!(rent.is_exempt(890880, 0));
    assert!(!rent.is_exempt(890879, 0));
    assert!(rent.is_exempt(u64::MAX, 10));
}

#[test]
fn rent_sysvar_borrow_counts_in_its_state_byte() {
    let rent = Rent { lamports_per_byte: 1 };
    let mut flags = BorrowFlags::new();
    let state = HEAP_ADDRESS + 4088 - 5;
    let guard = Rent::get(&rent, &mut flags).unwrap();
    assert_eq!(guard.deref().lamports_per_byte, 1);
    assert_eq!(flags.get(state), 1);
    guard.release(&mut flags);
    assert_eq!(flags.get(state), 0);
    flags.set(state, 255);
    assert!(matches!(Rent::get(&rent, &mut flags), Err(ProgramError::AccountBorrowFailed)));
}
