//! A program that copies the data of its first account into its second.
//!
//! When the two accounts are the same account, the mutable borrow of the
//! second fails, so the program never holds two aliasing borrows.
use crate::account::{borrow_state_address, Account, TransactionAccount, TransactionAccountView};
use crate::context::InstructionContext;
use crate::error::{ProgramError, ProgramResult};
use crate::memory::HEAP_ADDRESS;
use crate::programs::{copy_bytes, copy_into};
use crate::{BorrowFlags, MAX_IMMUTABLE_BORROWS, NOT_BORROWED};
use vstd::prelude::*;

verus! {

/// Whether both borrows of the program are granted: the immutable borrow
/// of the first account's data, then the mutable borrow of the second's
/// (which fails when the two are the same account).
pub open spec fn borrows_granted(flags: BorrowFlags, first: Account, second: Account) -> bool {
    let first_state = flags.state(borrow_state_address(first.index()) as int);
    let second_state = if first.index() == second.index() {
        first_state + 1
    } else {
        flags.state(borrow_state_address(second.index()) as int) as int
    };
    first_state < MAX_IMMUTABLE_BORROWS && second_state == NOT_BORROWED
}

/// What the program does: with fewer than two accounts it fails with
/// `NotEnoughAccountKeys`; when a borrow is refused it fails with
/// `AccountBorrowFailed`; either way the transaction accounts stay as they
/// were. Else the second account's data becomes a copy of the first's and
/// nothing else changes.
pub open spec fn copied(
    accounts: Seq<Account>,
    before: Seq<TransactionAccount>,
    after: Seq<TransactionAccount>,
    flags: BorrowFlags,
    r: ProgramResult,
) -> bool {
    let first = accounts[0].index();
    let second = accounts[1].index();
    if accounts.len() < 2 {
        r == Err::<(), ProgramError>(ProgramError::NotEnoughAccountKeys) && after == before
    } else if !borrows_granted(flags, accounts[0], accounts[1]) {
        r == Err::<(), ProgramError>(ProgramError::AccountBorrowFailed) && after == before
    } else {
        &&& r == Ok::<(), ProgramError>(())
        &&& after == before.update(second as int, after[second as int])
        &&& after[second as int]@ == (TransactionAccountView {
            data: before[first as int]@.data,
            ..before[second as int]@
        })
    }
}

/// The program never writes to data that is borrowed, and never aliases:
/// when the two accounts are the same account, when the first account's
/// data is mutably borrowed or out of shared borrows, or when the second
/// account's data is borrowed in any form, it fails with
/// `AccountBorrowFailed` and leaves every transaction account as it was.
/// When it succeeds, the second account's data is a copy of the first's,
/// its other fields and every other account are as they were.
pub proof fn lemma_copy_needs_free_accounts(
    accounts: Seq<Account>,
    before: Seq<TransactionAccount>,
    after: Seq<TransactionAccount>,
    flags: BorrowFlags,
    r: ProgramResult,
)
    requires
        copied(accounts, before, after, flags, r),
        accounts.len() >= 2,
        accounts[0].index() < flags@.len(),
        accounts[1].index() < flags@.len(),
        accounts[0].index() < before.len(),
        accounts[1].index() < before.len(),
    ensures
        accounts[0].index() == accounts[1].index() || flags@[accounts[0].index() as int] >= 254
            || flags@[accounts[1].index() as int] != 0 ==> {
            &&& r == Err::<(), ProgramError>(ProgramError::AccountBorrowFailed)
            &&& after == before
        },
        r is Ok ==> {
            &&& accounts[0].index() != accounts[1].index()
            &&& flags@[accounts[0].index() as int] < 254
            &&& flags@[accounts[1].index() as int] == 0
            &&& after.len() == before.len()
            &&& after[accounts[1].index() as int]@.data == before[accounts[0].index() as int]@.data
            &&& after[accounts[1].index() as int]@.address == before[accounts[1].index() as int]@.address
            &&& after[accounts[1].index() as int]@.owner == before[accounts[1].index() as int]@.owner
            &&& after[accounts[1].index() as int]@.lamports == before[accounts[1].index() as int]@.lamports
            &&& forall|i: int|
                0 <= i < before.len() && i != accounts[1].index() ==> after[i] == before[i]
        },
{
    if r is Ok {
        let second = accounts[1].index() as int;
        assert forall|i: int| 0 <= i < before.len() && i != second implies after[i] == before[i] by {
            assert(after[i] == before.update(second, after[second])[i]);
        }
    }
}

/// Processes an instruction: borrows the first account's data immutably
/// and the second's mutably, and copies the first into the second; both
/// borrows are given back at the end.
pub fn process_instruction(
    context: &InstructionContext,
    accounts: &[Account],
    instruction_data: &[u8],
    transaction_accounts: &mut [TransactionAccount],
    flags: &mut BorrowFlags,
) -> (r: ProgramResult)
    requires
        accounts@.len() >= 2 ==> {
            &&& accounts@[0].index() < old(transaction_accounts)@.len()
            &&& accounts@[1].index() < old(transaction_accounts)@.len()
            &&& old(flags).has_state(borrow_state_address(accounts@[0].index()) as int)
            &&& old(flags).has_state(borrow_state_address(accounts@[1].index()) as int)
            &&& borrows_granted(*old(flags), accounts@[0], accounts@[1]) ==> old(
                transaction_accounts,
            )@[accounts@[0].index() as int]@.data.len() == old(
                transaction_accounts,
            )@[accounts@[1].index() as int]@.data.len()
        },
    ensures
        final(flags)@ == old(flags)@,
        copied(accounts@, old(transaction_accounts)@, final(transaction_accounts)@, *old(flags), r),
{
    if accounts.len() < 2 {
        return Err(ProgramError::NotEnoughAccountKeys);
    }
    let first = accounts[0];
    let mut second = accounts[1];
    let ghost flags0 = *flags;
    let (copy, first_state) = {
        let data1 = match first.try_borrow(transaction_accounts, flags) {
            Ok(guard) => guard,
            Err(e) => return Err(e),
        };
        (copy_bytes(data1.deref()), HEAP_ADDRESS + first.transaction_index() as u64)
    };
    let mut data2 = match second.try_borrow_mut(transaction_accounts, flags) {
        Ok(guard) => guard,
        Err(e) => {
            let count = flags.get(first_state);
            flags.set(first_state, count - 1);
            assert(flags@ =~= flags0@);
            return Err(e);
        },
    };
    copy_into(data2.as_mut_slice(), 0, copy.as_slice());
    data2.release(flags);
    let count = flags.get(first_state);
    flags.set(first_state, count - 1);
    assert(flags@ =~= flags0@);
    Ok(())
}

} // verus!
