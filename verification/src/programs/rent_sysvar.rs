//! A program that reads the rent sysvar and checks it against the data of
//! the rent sysvar account.
use crate::account::{borrow_state_address, Account, TransactionAccount};
use crate::context::InstructionContext;
use crate::error::{ProgramError, ProgramResult};
use crate::sysvar::rent::{minimum_balance, Rent, MAX_LAMPORTS_PER_BYTE, RENT_SYSVAR_INDEX};
use crate::sysvar::sysvar_borrow_state;
use crate::{BorrowFlags, MAX_IMMUTABLE_BORROWS};
use vstd::bytes::spec_u64_to_le_bytes;
use vstd::prelude::*;

verus! {

/// Rent required for an empty account.
pub const EMPTY_ACCOUNT_RENT: u64 = 890880;

/// Whether both borrows of the program are granted: the rent sysvar's,
/// then the first account's data (which shares the sysvar's state byte
/// when it is the rent sysvar account).
pub open spec fn borrows_granted(flags: BorrowFlags, account: Account) -> bool {
    let rent_state = sysvar_borrow_state(RENT_SYSVAR_INDEX);
    let account_state = borrow_state_address(account.index());
    let before_rent = flags.state(rent_state as int);
    let before_account = if account_state == rent_state {
        before_rent + 1
    } else {
        flags.state(account_state as int) as int
    };
    before_rent < MAX_IMMUTABLE_BORROWS && before_account < MAX_IMMUTABLE_BORROWS
}

/// Processes an instruction: borrows the rent sysvar and the first
/// account's data, and checks that the data starts with the sysvar's rate
/// (little-endian) and that an empty account needs
/// [`EMPTY_ACCOUNT_RENT`] lamports. Both borrows are given back at the end.
///
/// The checks are the program's assertions: `requires` states them for the
/// runs that reach them.
pub fn process_instruction(
    context: &InstructionContext,
    accounts: &[Account],
    instruction_data: &[u8],
    rent: &Rent,
    transaction_accounts: &[TransactionAccount],
    flags: &mut BorrowFlags,
) -> (r: ProgramResult)
    requires
        old(flags).has_state(sysvar_borrow_state(RENT_SYSVAR_INDEX) as int),
        accounts@.len() >= 1 ==> {
            let index = accounts@[0].index();
            let data = transaction_accounts@[index as int]@.data;
            &&& index < transaction_accounts@.len()
            &&& old(flags).has_state(borrow_state_address(index) as int)
            &&& borrows_granted(*old(flags), accounts@[0]) ==> {
                &&& data.len() >= 8
                &&& data.subrange(0, 8) == spec_u64_to_le_bytes(rent.lamports_per_byte)
                &&& rent.lamports_per_byte <= MAX_LAMPORTS_PER_BYTE ==> minimum_balance(
                    rent.lamports_per_byte,
                    0,
                ) == EMPTY_ACCOUNT_RENT
            }
        },
    ensures
        final(flags)@ == old(flags)@,
        r == if accounts@.len() < 1 {
            Err::<(), ProgramError>(ProgramError::NotEnoughAccountKeys)
        } else if !borrows_granted(*old(flags), accounts@[0]) {
            Err::<(), ProgramError>(ProgramError::AccountBorrowFailed)
        } else if rent.lamports_per_byte > MAX_LAMPORTS_PER_BYTE {
            Err::<(), ProgramError>(ProgramError::InvalidArgument)
        } else {
            Ok::<(), ProgramError>(())
        },
{
    if accounts.len() < 1 {
        return Err(ProgramError::NotEnoughAccountKeys);
    }
    let rent_account = accounts[0];
    let ghost flags0 = *flags;
    let rent_guard = match Rent::get(rent, flags) {
        Ok(guard) => guard,
        Err(e) => return Err(e),
    };
    let rent_data = match rent_account.try_borrow(transaction_accounts, flags) {
        Ok(guard) => guard,
        Err(e) => {
            rent_guard.release(flags);
            assert(flags@ =~= flags0@);
            return Err(e);
        },
    };
    assert(rent_data.value()@.len() >= 8);
    assert(rent_data.value()@.subrange(0, 8) == spec_u64_to_le_bytes(
        rent_guard.value().lamports_per_byte,
    ));
    let balance = rent_guard.deref().try_minimum_balance(0);
    rent_data.release(flags);
    rent_guard.release(flags);
    assert(flags@ =~= flags0@);
    match balance {
        Ok(lamports) => {
            assert(lamports == EMPTY_ACCOUNT_RENT);
            Ok(())
        },
        Err(e) => Err(e),
    }
}

} // verus!
