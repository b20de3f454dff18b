//! Instruction-facing accounts that carry their flags as bytes.
use crate::account::{borrow_state_address, TransactionAccount, TransactionAccountView};
use crate::error::ProgramError;
use crate::memory::HEAP_ADDRESS;
use crate::{BorrowFlags, Ref, RefMut, MAX_IMMUTABLE_BORROWS, MUTABLY_BORROWED, NOT_BORROWED};
use vstd::prelude::*;

verus! {

/// Instruction-facing view of a transaction account: its transaction index
/// and the access flags supplied to the current instruction.
#[derive(Clone, Copy, Debug, PartialEq, Eq, Structural)]
pub struct Account {
    /// The index of the account in the transaction's account list.
    pub transaction_index: u16,
    /// Nonzero when the account is a signer in the instruction.
    signer: u8,
    /// Nonzero when the account can be modified by the instruction.
    writable: u8,
}

impl Account {
    /// The transaction index, as a spec value.
    pub closed spec fn index(self) -> u16 {
        self.transaction_index
    }

    /// The signer byte.
    pub closed spec fn signer_byte(self) -> u8 {
        self.signer
    }

    /// The writable byte.
    pub closed spec fn writable_byte(self) -> u8 {
        self.writable
    }

    /// An account as the runtime lays it out.
    pub fn new(transaction_index: u16, signer: u8, writable: u8) -> (r: Self)
        ensures
            r.index() == transaction_index,
            r.signer_byte() == signer,
            r.writable_byte() == writable,
    {
        Account { transaction_index, signer, writable }
    }

    /// Returns the metadata of the account, from the array of transaction
    /// account metadata.
    fn transaction_account<'a>(&self, accounts: &'a [TransactionAccount]) -> (r:
        &'a TransactionAccount)
        requires
            self.index() < accounts@.len(),
        ensures
            *r == accounts@[self.index() as int],
    {
        &accounts[self.transaction_index as usize]
    }

    /// Returns the address of this account's borrow-state byte.
    fn borrow_state(&self) -> (r: u64)
        ensures
            r == borrow_state_address(self.index()),
    {
        HEAP_ADDRESS + self.transaction_index as u64
    }

    /// Returns the address of the account.
    pub fn address<'a>(&self, accounts: &'a [TransactionAccount]) -> (r: &'a [u8; 32])
        requires
            self.index() < accounts@.len(),
        ensures
            *r == accounts@[self.index() as int]@.address,
    {
        crate::account::Account::readonly(self.transaction_index).address(accounts)
    }

    /// Returns the account data without updating the borrow state.
    pub fn borrow_unchecked<'a>(&self, accounts: &'a [TransactionAccount]) -> (r: &'a [u8])
        requires
            self.index() < accounts@.len(),
        ensures
            r@ == accounts@[self.index() as int]@.data,
    {
        crate::account::Account::readonly(self.transaction_index).borrow_unchecked(accounts)
    }

    /// Returns the account data for writing, without updating the borrow
    /// state.
    pub fn borrow_unchecked_mut<'a>(&mut self, accounts: &'a mut [TransactionAccount]) -> (r:
        &'a mut [u8])
        requires
            old(self).index() < old(accounts)@.len(),
        ensures
            *final(self) == *old(self),
            r@ == old(accounts)@[old(self).index() as int]@.data,
            final(accounts)@ == old(accounts)@.update(
                old(self).index() as int,
                final(accounts)@[old(self).index() as int],
            ),
            final(accounts)@[old(self).index() as int]@ == (TransactionAccountView {
                data: final(r)@,
                ..old(accounts)@[old(self).index() as int]@
            }),
    {
        let mut view = crate::account::Account::readonly(self.transaction_index);
        view.borrow_unchecked_mut(accounts)
    }

    /// Checks whether the account data can be borrowed immutably: it is not
    /// mutably borrowed and an immutable borrow is still available.
    pub fn check_borrow(&self, flags: &BorrowFlags) -> (r: Result<(), ProgramError>)
        requires
            flags.has_state(borrow_state_address(self.index()) as int),
        ensures
            r is Ok <==> flags.state(borrow_state_address(self.index()) as int)
                < MAX_IMMUTABLE_BORROWS,
            r is Err ==> r == Err::<(), ProgramError>(ProgramError::AccountBorrowFailed),
    {
        if flags.get(self.borrow_state()) > MUTABLY_BORROWED - 2 {
            return Err(ProgramError::AccountBorrowFailed);
        }
        Ok(())
    }

    /// Checks whether the account data can be borrowed mutably: it is not
    /// borrowed in any form.
    pub fn check_borrow_mut(&self, flags: &BorrowFlags) -> (r: Result<(), ProgramError>)
        requires
            flags.has_state(borrow_state_address(self.index()) as int),
        ensures
            r is Ok <==> flags.state(borrow_state_address(self.index()) as int)
                == NOT_BORROWED,
            r is Err ==> r == Err::<(), ProgramError>(ProgramError::AccountBorrowFailed),
    {
        if flags.get(self.borrow_state()) != NOT_BORROWED {
            return Err(ProgramError::AccountBorrowFailed);
        }
        Ok(())
    }

    /// Returns the length of the account data in bytes.
    pub fn data_len(&self, accounts: &[TransactionAccount]) -> (r: usize)
        requires
            self.index() < accounts@.len(),
        ensures
            r == accounts@[self.index() as int]@.data.len(),
    {
        self.borrow_unchecked(accounts).len()
    }

    /// Returns `true` if the account data is borrowed in any form.
    pub fn is_borrowed(&self, flags: &BorrowFlags) -> (r: bool)
        requires
            flags.has_state(borrow_state_address(self.index()) as int),
        ensures
            r == (flags.state(borrow_state_address(self.index()) as int)
                != NOT_BORROWED),
    {
        flags.get(self.borrow_state()) != NOT_BORROWED
    }

    /// Returns `true` if the account data is empty.
    pub fn is_empty(&self, accounts: &[TransactionAccount]) -> (r: bool)
        requires
            self.index() < accounts@.len(),
        ensures
            r == (accounts@[self.index() as int]@.data.len() == 0),
    {
        self.data_len(accounts) == 0
    }

    /// Returns `true` if the account data is mutably borrowed.
    pub fn is_mutably_borrowed(&self, flags: &BorrowFlags) -> (r: bool)
        requires
            flags.has_state(borrow_state_address(self.index()) as int),
        ensures
            r == (flags.state(borrow_state_address(self.index()) as int)
                == MUTABLY_BORROWED),
    {
        flags.get(self.borrow_state()) == MUTABLY_BORROWED
    }

    /// Returns `true` if the account signed the instruction.
    pub fn is_signer(&self) -> (r: bool)
        ensures
            r == (self.signer_byte() != 0),
    {
        self.signer != 0
    }

    /// Returns `true` if the account can be modified by the instruction.
    pub fn is_writable(&self) -> (r: bool)
        ensures
            r == (self.writable_byte() != 0),
    {
        self.writable != 0
    }

    /// Returns the account lamport balance.
    pub fn lamports(&self, accounts: &[TransactionAccount]) -> (r: u64)
        requires
            self.index() < accounts@.len(),
        ensures
            r == accounts@[self.index() as int]@.lamports,
    {
        self.transaction_account(accounts).lamports()
    }

    /// Returns the address of the program that owns the account.
    pub fn owner(&self, accounts: &[TransactionAccount]) -> (r: [u8; 32])
        requires
            self.index() < accounts@.len(),
        ensures
            r == accounts@[self.index() as int]@.owner,
    {
        self.transaction_account(accounts).owner()
    }

    /// Returns `true` if the account is owned by `program`.
    pub fn owned_by(&self, accounts: &[TransactionAccount], program: &[u8; 32]) -> (r: bool)
        requires
            self.index() < accounts@.len(),
        ensures
            r == (accounts@[self.index() as int]@.owner@ == program@),
    {
        self.transaction_account(accounts).owned_by(program)
    }

    /// Tries to borrow the account data immutably: fails if the account is
    /// mutably borrowed or no immutable borrow is left, else counts one
    /// more immutable borrow.
    pub fn try_borrow<'a>(&self, accounts: &'a [TransactionAccount], flags: &mut BorrowFlags) -> (r:
        Result<Ref<'a, [u8]>, ProgramError>)
        requires
            self.index() < accounts@.len(),
            old(flags).has_state(borrow_state_address(self.index()) as int),
        ensures
            ({
                let address = borrow_state_address(self.index());
                let before = old(flags).state(address as int);
                match r {
                    Ok(data) => {
                        &&& before < MAX_IMMUTABLE_BORROWS
                        &&& final(flags)@ == old(flags)@.update(
                            address - HEAP_ADDRESS,
                            (before + 1) as u8,
                        )
                        &&& data.value()@ == accounts@[self.index() as int]@.data
                        &&& data.state() == address
                    },
                    Err(e) => {
                        &&& before >= MAX_IMMUTABLE_BORROWS
                        &&& e == ProgramError::AccountBorrowFailed
                        &&& final(flags)@ == old(flags)@
                    },
                }
            }),
    {
        if let Err(e) = self.check_borrow(flags) {
            return Err(e);
        }
        let borrow_state = self.borrow_state();
        let current = flags.get(borrow_state);
        flags.set(borrow_state, current + 1);
        Ok(Ref::new_shared(self.borrow_unchecked(accounts), borrow_state))
    }

    /// Tries to borrow the account data mutably: fails if the account is
    /// borrowed in any form, else marks it mutably borrowed.
    pub fn try_borrow_mut<'a>(
        &mut self,
        accounts: &'a mut [TransactionAccount],
        flags: &mut BorrowFlags,
    ) -> (r: Result<RefMut<'a, [u8]>, ProgramError>)
        requires
            old(self).index() < old(accounts)@.len(),
            old(flags).has_state(borrow_state_address(old(self).index()) as int),
        ensures
            *final(self) == *old(self),
            ({
                let address = borrow_state_address(old(self).index());
                let before = old(flags).state(address as int);
                match r {
                    Ok(data) => {
                        &&& before == NOT_BORROWED
                        &&& final(flags)@ == old(flags)@.update(
                            address - HEAP_ADDRESS,
                            MUTABLY_BORROWED,
                        )
                        &&& data.value()@ == old(accounts)@[old(self).index() as int]@.data
                        &&& data.state() == address
                        &&& final(accounts)@ == old(accounts)@.update(
                            old(self).index() as int,
                            final(accounts)@[old(self).index() as int],
                        )
                        &&& final(accounts)@[old(self).index() as int]@ == (TransactionAccountView {
                            data: final(data.value())@,
                            ..old(accounts)@[old(self).index() as int]@
                        })
                    },
                    Err(e) => {
                        &&& before != NOT_BORROWED
                        &&& e == ProgramError::AccountBorrowFailed
                        &&& final(flags)@ == old(flags)@
                        &&& final(accounts)@ == old(accounts)@
                    },
                }
            }),
    {
        if let Err(e) = self.check_borrow_mut(flags) {
            return Err(e);
        }
        let borrow_state = self.borrow_state();
        flags.set(borrow_state, MUTABLY_BORROWED);
        let data = self.borrow_unchecked_mut(accounts);
        Ok(RefMut::new_bytes(data, borrow_state))
    }
}

} // verus!
