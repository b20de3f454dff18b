//! Types representing account information.
//!
//! Programs see two account types:
//!
//! - [`Account`]: an account passed to an instruction, with the access
//!   flags of that instruction. Each one names a [`TransactionAccount`].
//!
//! - [`TransactionAccount`]: the runtime's metadata for an account of the
//!   transaction (address, owner, lamports and data).
//!
//! The metadata of all transaction accounts is one array, indexed by
//! transaction index; functions that read it take that array. Borrows of
//! account data are tracked in [`BorrowFlags`], one state byte per
//! transaction index.
use crate::error::ProgramError;
use crate::memory::{resized, MemoryMapping, HEAP_ADDRESS};
use crate::syscall::{assign_owner, set_buffer_length, sol_transfer_lamports, Syscall};
use crate::{
    BorrowFlags, Ref, RefMut, Volatile, MAX_IMMUTABLE_BORROWS, MUTABLY_BORROWED, NOT_BORROWED,
};
use vstd::prelude::*;

verus! {

/// Mask for the signer flag.
pub const SIGNER_MASK: u32 = 0x1_0000;

/// Mask for the writable flag.
pub const WRITABLE_MASK: u32 = 0x100_0000;

/// Mask for both the writable and the signer flags.
pub const WRITABLE_SIGNER_MASK: u32 = 0x101_0000;

/// The packed form of an account: the transaction index in the low 16
/// bits, the signer flag at bit 16 and the writable flag at bit 24.
pub open spec fn pack(transaction_index: u16, is_signer: bool, is_writable: bool) -> u32 {
    (transaction_index as u32) | (if is_signer {
        SIGNER_MASK
    } else {
        0u32
    }) | (if is_writable {
        WRITABLE_MASK
    } else {
        0u32
    })
}

/// The transaction index held in a packed account.
pub open spec fn index_of(bits: u32) -> u16 {
    (bits & 0xffff) as u16
}

/// The signer flag held in a packed account.
pub open spec fn signer_of(bits: u32) -> bool {
    bits & SIGNER_MASK != 0
}

/// The writable flag held in a packed account.
pub open spec fn writable_of(bits: u32) -> bool {
    bits & WRITABLE_MASK != 0
}

/// Unpacking a packed account gives back the index and the two flags it was
/// packed from.
pub proof fn lemma_pack_unpack(transaction_index: u16, is_signer: bool, is_writable: bool)
    ensures
        index_of(pack(transaction_index, is_signer, is_writable)) == transaction_index,
        signer_of(pack(transaction_index, is_signer, is_writable)) == is_signer,
        writable_of(pack(transaction_index, is_signer, is_writable)) == is_writable,
{
    let i = transaction_index as u32;
    let s = if is_signer {
        SIGNER_MASK
    } else {
        0u32
    };
    let w = if is_writable {
        WRITABLE_MASK
    } else {
        0u32
    };
    assert(i <= 0xffff);
    assert((((i | s | w) & 0xffff) == i) && (((i | s | w) & 0x1_0000 != 0) == (s != 0)) && (((i
        | s | w) & 0x100_0000 != 0) == (w != 0))) by (bit_vector)
        requires
            i <= 0xffff,
            s == 0 || s == 0x1_0000,
            w == 0 || w == 0x100_0000,
    ;
}

/// The runtime's layout of an account: the transaction index is the low 16
/// bits of the packed word, the signer flag is bit 16 and the writable flag
/// is bit 24, whatever the other bits hold; packing puts each part there.
pub proof fn lemma_account_layout(
    bits: u32,
    transaction_index: u16,
    is_signer: bool,
    is_writable: bool,
)
    ensures
        index_of(bits) == bits % 0x1_0000,
        signer_of(bits) == ((bits >> 16u32) % 2 == 1),
        writable_of(bits) == ((bits >> 24u32) % 2 == 1),
        pack(transaction_index, is_signer, is_writable) == transaction_index + (if is_signer {
            0x1_0000int
        } else {
            0int
        }) + (if is_writable {
            0x100_0000int
        } else {
            0int
        }),
{
    let b = bits;
    assert((b & 0xffff) == b % 0x1_0000 && ((b & 0xffff) as u16) as u32 == (b & 0xffff))
        by (bit_vector);
    assert(((b & 0x1_0000) != 0) == ((b >> 16u32) % 2 == 1)) by (bit_vector);
    assert(((b & 0x100_0000) != 0) == ((b >> 24u32) % 2 == 1)) by (bit_vector);
    let i = transaction_index as u32;
    assert(i | 0u32 | 0u32 == i) by (bit_vector);
    assert(i <= 0xffff ==> i | 0x1_0000u32 | 0u32 == i + 0x1_0000) by (bit_vector);
    assert(i <= 0xffff ==> i | 0u32 | 0x100_0000u32 == i + 0x100_0000) by (bit_vector);
    assert(i <= 0xffff ==> i | 0x1_0000u32 | 0x100_0000u32 == i + 0x101_0000) by (bit_vector);
}

/// Instruction-facing account information: the account's transaction index
/// and the access flags supplied to the current instruction, packed in a
/// `u32` as the runtime lays it out.
#[derive(Clone, Copy, Debug)]
pub struct Account(u32);

impl View for Account {
    type V = u32;

    closed spec fn view(&self) -> u32 {
        self.0
    }
}

impl Account {
    /// The account whose packed form is zero (transaction index 0, neither
    /// signer nor writable): what a newly sized account scratchpad holds.
    pub closed spec fn zeroed() -> Account {
        Account(0)
    }
}

/// Two accounts with the same packed form are the same account.
pub proof fn lemma_account_determined_by_bits(first: Account, second: Account)
    requires
        first@ == second@,
    ensures
        first == second,
{
}

/// An account is determined by its packed form; the zeroed account's is 0.
pub proof fn lemma_zeroed(account: Account)
    ensures
        Account::zeroed()@ == 0,
        account@ == 0 ==> account == Account::zeroed(),
{
}

/// Address of the borrow-state byte of the account with this transaction
/// index.
pub open spec fn borrow_state_address(transaction_index: u16) -> u64 {
    (HEAP_ADDRESS + transaction_index) as u64
}

/// `after` is `before` with the data of the account at `index` resized to
/// `new_len` bytes (the first bytes kept, new bytes zero) and nothing else
/// changed.
pub open spec fn resized_at(
    before: Seq<TransactionAccount>,
    after: Seq<TransactionAccount>,
    index: u16,
    new_len: usize,
) -> bool {
    &&& after.len() == before.len()
    &&& forall|i: int| 0 <= i < before.len() && i != index ==> after[i] == before[i]
    &&& after[index as int]@ == (TransactionAccountView {
        data: resized(before[index as int]@.data, new_len as nat, 0u8),
        ..before[index as int]@
    })
}

impl Account {
    /// The transaction index, as a spec value.
    pub open spec fn index(self) -> u16 {
        index_of(self@)
    }

    /// Creates an account from its transaction index and instruction flags.
    pub fn new(transaction_index: u16, is_signer: bool, is_writable: bool) -> (r: Self)
        ensures
            r@ == pack(transaction_index, is_signer, is_writable),
            r.index() == transaction_index,
            signer_of(r@) == is_signer,
            writable_of(r@) == is_writable,
    {
        proof {
            lemma_pack_unpack(transaction_index, is_signer, is_writable);
        }
        let signer: u32 = if is_signer {
            SIGNER_MASK
        } else {
            0
        };
        let writable: u32 = if is_writable {
            WRITABLE_MASK
        } else {
            0
        };
        Account(transaction_index as u32 | signer | writable)
    }

    /// The account whose packed form (as the runtime lays it out) is `bits`.
    pub fn from_bits(bits: u32) -> (r: Self)
        ensures
            r@ == bits,
    {
        Account(bits)
    }

    /// The packed form of the account, as the runtime lays it out.
    pub fn bits(&self) -> (r: u32)
        ensures
            r == self@,
    {
        self.0
    }

    /// Creates a read-only, non-signer account for the transaction index.
    pub fn readonly(transaction_index: u16) -> (r: Self)
        ensures
            r@ == pack(transaction_index, false, false),
            r.index() == transaction_index,
            !signer_of(r@),
            !writable_of(r@),
    {
        proof {
            lemma_pack_unpack(transaction_index, false, false);
            assert(transaction_index as u32 | 0u32 | 0u32 == transaction_index as u32)
                by (bit_vector);
        }
        Account(transaction_index as u32)
    }

    /// Creates a read-only signer account for the transaction index.
    pub fn readonly_signer(transaction_index: u16) -> (r: Self)
        ensures
            r@ == pack(transaction_index, true, false),
            r.index() == transaction_index,
            signer_of(r@),
            !writable_of(r@),
    {
        proof {
            lemma_pack_unpack(transaction_index, true, false);
            assert(transaction_index as u32 | SIGNER_MASK | 0u32 == transaction_index as u32
                | SIGNER_MASK) by (bit_vector);
        }
        Account(transaction_index as u32 | SIGNER_MASK)
    }

    /// Creates a writable, non-signer account for the transaction index.
    pub fn writable(transaction_index: u16) -> (r: Self)
        ensures
            r@ == pack(transaction_index, false, true),
            r.index() == transaction_index,
            !signer_of(r@),
            writable_of(r@),
    {
        proof {
            lemma_pack_unpack(transaction_index, false, true);
            assert(transaction_index as u32 | 0u32 | WRITABLE_MASK == transaction_index as u32
                | WRITABLE_MASK) by (bit_vector);
        }
        Account(transaction_index as u32 | WRITABLE_MASK)
    }

    /// Creates a writable signer account for the transaction index.
    pub fn writable_signer(transaction_index: u16) -> (r: Self)
        ensures
            r@ == pack(transaction_index, true, true),
            r.index() == transaction_index,
            signer_of(r@),
            writable_of(r@),
    {
        proof {
            lemma_pack_unpack(transaction_index, true, true);
            assert(transaction_index as u32 | SIGNER_MASK | WRITABLE_MASK == transaction_index
                as u32 | WRITABLE_SIGNER_MASK) by (bit_vector);
        }
        Account(transaction_index as u32 | WRITABLE_SIGNER_MASK)
    }

    /// Returns the index of the account in the transaction.
    pub fn transaction_index(&self) -> (r: u16)
        ensures
            r == self.index(),
    {
        let bits = self.0;
        assert(bits as u16 == (bits & 0xffff) as u16) by (bit_vector);
        bits as u16
    }

    /// Returns `true` if the account signed the instruction.
    pub fn is_signer(&self) -> (r: bool)
        ensures
            r == signer_of(self@),
    {
        (self.0 & SIGNER_MASK) != 0
    }

    /// Returns `true` if the account can be modified by the instruction.
    pub fn is_writable(&self) -> (r: bool)
        ensures
            r == writable_of(self@),
    {
        (self.0 & WRITABLE_MASK) != 0
    }

    /// Returns the metadata of the account, from the array of transaction
    /// account metadata.
    pub fn transaction_account<'a>(&self, accounts: &'a [TransactionAccount]) -> (r:
        &'a TransactionAccount)
        requires
            self.index() < accounts@.len(),
        ensures
            *r == accounts@[self.index() as int],
    {
        &accounts[self.transaction_index() as usize]
    }

    /// Returns the address of this account's borrow-state byte.
    fn borrow_state(&self) -> (r: u64)
        ensures
            r == borrow_state_address(self.index()),
    {
        HEAP_ADDRESS + self.transaction_index() as u64
    }

    /// Returns the address of the account.
    pub fn address<'a>(&self, accounts: &'a [TransactionAccount]) -> (r: &'a [u8; 32])
        requires
            self.index() < accounts@.len(),
        ensures
            *r == accounts@[self.index() as int]@.address,
    {
        &self.transaction_account(accounts).address
    }

    /// Changes the owner of the account: the request for the runtime.
    pub fn assign(&self, program: &[u8; 32]) -> (r: Syscall)
        ensures
            r == (Syscall::AssignOwner { account_index: self.index() as u64, owner: *program }),
    {
        assign_owner(self.transaction_index() as u64, program)
    }

    /// Returns the account data without updating the borrow state.
    pub fn borrow_unchecked<'a>(&self, accounts: &'a [TransactionAccount]) -> (r: &'a [u8])
        requires
            self.index() < accounts@.len(),
        ensures
            r@ == accounts@[self.index() as int]@.data,
    {
        self.transaction_account(accounts).data.as_slice()
    }

    /// Returns the account data for writing, without updating the borrow
    /// state.
    pub fn borrow_unchecked_mut<'a>(&mut self, accounts: &'a mut [TransactionAccount]) -> (r:
        &'a mut [u8])
        requires
            old(self).index() < old(accounts)@.len(),
        ensures
            *final(self) == *old(self),
            r@ == old(accounts)@[old(self).index() as int]@.data,
            final(accounts)@ == old(accounts)@.update(
                old(self).index() as int,
                final(accounts)@[old(self).index() as int],
            ),
            final(accounts)@[old(self).index() as int]@ == (TransactionAccountView {
                data: final(r)@,
                ..old(accounts)@[old(self).index() as int]@
            }),
    {
        let index = self.transaction_index() as usize;
        accounts[index].data_mut()
    }

    /// Checks whether the account data can be borrowed immutably: it is not
    /// mutably borrowed and an immutable borrow is still available.
    pub fn check_borrow(&self, flags: &BorrowFlags) -> (r: Result<(), ProgramError>)
        requires
            flags.has_state(borrow_state_address(self.index()) as int),
        ensures
            r is Ok <==> flags.state(borrow_state_address(self.index()) as int)
                < MAX_IMMUTABLE_BORROWS,
            r is Err ==> r == Err::<(), ProgramError>(ProgramError::AccountBorrowFailed),
    {
        if flags.get(self.borrow_state()) >= MAX_IMMUTABLE_BORROWS {
            return Err(ProgramError::AccountBorrowFailed);
        }
        Ok(())
    }

    /// Checks whether the account data can be borrowed mutably: it is not
    /// borrowed in any form.
    pub fn check_borrow_mut(&self, flags: &BorrowFlags) -> (r: Result<(), ProgramError>)
        requires
            flags.has_state(borrow_state_address(self.index()) as int),
        ensures
            r is Ok <==> flags.state(borrow_state_address(self.index()) as int) == NOT_BORROWED,
            r is Err ==> r == Err::<(), ProgramError>(ProgramError::AccountBorrowFailed),
    {
        if flags.get(self.borrow_state()) != NOT_BORROWED {
            return Err(ProgramError::AccountBorrowFailed);
        }
        Ok(())
    }

    /// Returns the length of the account data in bytes.
    pub fn data_len(&self, accounts: &[TransactionAccount]) -> (r: usize)
        requires
            self.index() < accounts@.len(),
        ensures
            r == accounts@[self.index() as int]@.data.len(),
    {
        self.transaction_account(accounts).data.len()
    }

    /// Returns `true` if the account data is borrowed in any form.
    pub fn is_borrowed(&self, flags: &BorrowFlags) -> (r: bool)
        requires
            flags.has_state(borrow_state_address(self.index()) as int),
        ensures
            r == (flags.state(borrow_state_address(self.index()) as int) != NOT_BORROWED),
    {
        flags.get(self.borrow_state()) != NOT_BORROWED
    }

    /// Returns `true` if the account data is empty.
    pub fn is_empty(&self, accounts: &[TransactionAccount]) -> (r: bool)
        requires
            self.index() < accounts@.len(),
        ensures
            r == (accounts@[self.index() as int]@.data.len() == 0),
    {
        self.data_len(accounts) == 0
    }

    /// Returns `true` if the account data is mutably borrowed.
    pub fn is_mutably_borrowed(&self, flags: &BorrowFlags) -> (r: bool)
        requires
            flags.has_state(borrow_state_address(self.index()) as int),
        ensures
            r == (flags.state(borrow_state_address(self.index()) as int) == MUTABLY_BORROWED),
    {
        flags.get(self.borrow_state()) == MUTABLY_BORROWED
    }

    /// Returns the account lamport balance.
    pub fn lamports(&self, accounts: &[TransactionAccount]) -> (r: u64)
        requires
            self.index() < accounts@.len(),
        ensures
            r == accounts@[self.index() as int]@.lamports,
    {
        self.transaction_account(accounts).lamports()
    }

    /// Returns the address of the program that owns the account.
    pub fn owner(&self, accounts: &[TransactionAccount]) -> (r: [u8; 32])
        requires
            self.index() < accounts@.len(),
        ensures
            r == accounts@[self.index() as int]@.owner,
    {
        self.transaction_account(accounts).owner()
    }

    /// Returns `true` if the account is owned by `program`.
    pub fn owned_by(&self, accounts: &[TransactionAccount], program: &[u8; 32]) -> (r: bool)
        requires
            self.index() < accounts@.len(),
        ensures
            r == (accounts@[self.index() as int]@.owner@ == program@),
    {
        self.transaction_account(accounts).owned_by(program)
    }

    /// Transfers lamports to another account: the request for the runtime,
    /// with the destination first and this account as the source.
    pub fn transfer_lamports(&self, destination: &Account, lamports: u64) -> (r: Syscall)
        ensures
            r == (Syscall::TransferLamports {
                to: destination.index() as u64,
                from: self.index() as u64,
                lamports,
            }),
    {
        sol_transfer_lamports(
            destination.transaction_index() as u64,
            self.transaction_index() as u64,
            lamports,
        )
    }

    /// Resizes (truncating or zero-extending) the account's data: fails if
    /// the data is borrowed, else returns the request for the runtime and
    /// leaves the account's data as the runtime does after it.
    pub fn resize(
        &mut self,
        accounts: &mut [TransactionAccount],
        flags: &BorrowFlags,
        new_len: usize,
    ) -> (r: Result<Syscall, ProgramError>)
        requires
            old(self).index() < old(accounts)@.len(),
            flags.has_state(borrow_state_address(old(self).index()) as int),
        ensures
            *final(self) == *old(self),
            flags.state(borrow_state_address(old(self).index()) as int) != NOT_BORROWED ==> {
                &&& r == Err::<Syscall, ProgramError>(ProgramError::AccountBorrowFailed)
                &&& final(accounts)@ == old(accounts)@
            },
            flags.state(borrow_state_address(old(self).index()) as int) == NOT_BORROWED ==> {
                &&& r == Ok::<Syscall, ProgramError>(
                    Syscall::SetBufferLength {
                        address: old(accounts)@[old(self).index() as int]@.data_address,
                        length: new_len as u64,
                    },
                )
                &&& resized_at(old(accounts)@, final(accounts)@, old(self).index(), new_len)
            },
    {
        if self.is_borrowed(flags) {
            return Err(ProgramError::AccountBorrowFailed);
        }
        Ok(self.resize_unchecked(accounts, new_len))
    }

    /// Resizes (truncating or zero-extending) the account's data without
    /// looking at the borrow state: returns the request for the runtime and
    /// leaves the account's data as the runtime does after it.
    pub fn resize_unchecked(&mut self, accounts: &mut [TransactionAccount], new_len: usize) -> (r:
        Syscall)
        requires
            old(self).index() < old(accounts)@.len(),
        ensures
            *final(self) == *old(self),
            r == (Syscall::SetBufferLength {
                address: old(accounts)@[old(self).index() as int]@.data_address,
                length: new_len as u64,
            }),
            resized_at(old(accounts)@, final(accounts)@, old(self).index(), new_len),
    {
        let index = self.transaction_index() as usize;
        let request = set_buffer_length(accounts[index].data.ptr(), new_len as u64);
        accounts[index].resize_data(new_len);
        request
    }

    /// Tries to borrow the account data immutably: fails if the account is
    /// mutably borrowed or no immutable borrow is left, else counts one
    /// more immutable borrow.
    pub fn try_borrow<'a>(&self, accounts: &'a [TransactionAccount], flags: &mut BorrowFlags) -> (r:
        Result<Ref<'a, [u8]>, ProgramError>)
        requires
            self.index() < accounts@.len(),
            old(flags).has_state(borrow_state_address(self.index()) as int),
        ensures
            ({
                let address = borrow_state_address(self.index());
                let before = old(flags).state(address as int);
                match r {
                    Ok(data) => {
                        &&& before < MAX_IMMUTABLE_BORROWS
                        &&& final(flags)@ == old(flags)@.update(
                            address - HEAP_ADDRESS,
                            (before + 1) as u8,
                        )
                        &&& data.value()@ == accounts@[self.index() as int]@.data
                        &&& data.state() == address
                    },
                    Err(e) => {
                        &&& before >= MAX_IMMUTABLE_BORROWS
                        &&& e == ProgramError::AccountBorrowFailed
                        &&& final(flags)@ == old(flags)@
                    },
                }
            }),
    {
        if let Err(e) = self.check_borrow(flags) {
            return Err(e);
        }
        let borrow_state = self.borrow_state();
        let current = flags.get(borrow_state);
        flags.set(borrow_state, current + 1);
        Ok(Ref::new_shared(self.transaction_account(accounts).data.as_slice(), borrow_state))
    }

    /// Tries to borrow the account data mutably: fails if the account is
    /// borrowed in any form, else marks it mutably borrowed.
    pub fn try_borrow_mut<'a>(
        &mut self,
        accounts: &'a mut [TransactionAccount],
        flags: &mut BorrowFlags,
    ) -> (r: Result<RefMut<'a, [u8]>, ProgramError>)
        requires
            old(self).index() < old(accounts)@.len(),
            old(flags).has_state(borrow_state_address(old(self).index()) as int),
        ensures
            *final(self) == *old(self),
            ({
                let address = borrow_state_address(old(self).index());
                let before = old(flags).state(address as int);
                match r {
                    Ok(data) => {
                        &&& before == NOT_BORROWED
                        &&& final(flags)@ == old(flags)@.update(
                            address - HEAP_ADDRESS,
                            MUTABLY_BORROWED,
                        )
                        &&& data.value()@ == old(accounts)@[old(self).index() as int]@.data
                        &&& data.state() == address
                        &&& final(accounts)@ == old(accounts)@.update(
                            old(self).index() as int,
                            final(accounts)@[old(self).index() as int],
                        )
                        &&& final(accounts)@[old(self).index() as int]@ == (TransactionAccountView {
                            data: final(data.value())@,
                            ..old(accounts)@[old(self).index() as int]@
                        })
                    },
                    Err(e) => {
                        &&& before != NOT_BORROWED
                        &&& e == ProgramError::AccountBorrowFailed
                        &&& final(flags)@ == old(flags)@
                        &&& final(accounts)@ == old(accounts)@
                    },
                }
            }),
    {
        if let Err(e) = self.check_borrow_mut(flags) {
            return Err(e);
        }
        let borrow_state = self.borrow_state();
        flags.set(borrow_state, MUTABLY_BORROWED);
        let index = self.transaction_index() as usize;
        Ok(RefMut::new_bytes(accounts[index].data_mut(), borrow_state))
    }
}

/// Compares two 32-byte addresses.
pub(crate) fn addresses_equal(a: &[u8; 32], b: &[u8; 32]) -> (r: bool)
    ensures
        r == (a@ == b@),
{
    let mut i: usize = 0;
    while i < 32
        invariant
            i <= 32,
            forall|j: int| 0 <= j < i ==> a@[j] == b@[j],
        decreases 32 - i,
    {
        if a[i] != b[i] {
            assert(a@[i as int] != b@[i as int]);
            return false;
        }
        i += 1;
    }
    assert(a@ =~= b@);
    true
}

/// What a [`TransactionAccount`] holds.
pub struct TransactionAccountView {
    pub address: [u8; 32],
    pub owner: [u8; 32],
    pub lamports: u64,
    pub data_address: u64,
    pub data: Seq<u8>,
}

/// Runtime metadata for an account in a transaction.
pub struct TransactionAccount {
    /// The address of the account.
    pub address: [u8; 32],
    /// The program that owns the account.
    owner: Volatile<[u8; 32]>,
    /// The account lamport balance.
    lamports: Volatile<u64>,
    /// Mapped account data payload.
    data: MemoryMapping<u8>,
}

impl View for TransactionAccount {
    type V = TransactionAccountView;

    closed spec fn view(&self) -> TransactionAccountView {
        TransactionAccountView {
            address: self.address,
            owner: self.owner@,
            lamports: self.lamports@,
            data_address: self.data.address(),
            data: self.data@,
        }
    }
}

impl TransactionAccount {
    /// Metadata as the runtime lays it out for an account.
    pub fn new(
        address: [u8; 32],
        owner: [u8; 32],
        lamports: u64,
        data_address: u64,
        data: Vec<u8>,
    ) -> (r: Self)
        ensures
            r@ == (TransactionAccountView {
                address,
                owner,
                lamports,
                data_address,
                data: data@,
            }),
    {
        TransactionAccount {
            address,
            owner: Volatile::new(owner),
            lamports: Volatile::new(lamports),
            data: MemoryMapping::new(data_address, data),
        }
    }

    /// Returns the address of the account.
    pub fn address(&self) -> (r: &[u8; 32])
        ensures
            *r == self@.address,
    {
        &self.address
    }

    /// Returns the account lamport balance.
    pub fn lamports(&self) -> (r: u64)
        ensures
            r == self@.lamports,
    {
        self.lamports.get()
    }

    /// Returns the address of the program that owns the account.
    pub fn owner(&self) -> (r: [u8; 32])
        ensures
            r == self@.owner,
    {
        self.owner.get()
    }

    /// Returns `true` if the account is owned by `program`.
    pub fn owned_by(&self, program: &[u8; 32]) -> (r: bool)
        ensures
            r == (self@.owner@ == program@),
    {
        let owner = self.owner.get();
        addresses_equal(&owner, program)
    }

    /// Resizes the data to `len` bytes, as the runtime does on a resize
    /// request.
    fn resize_data(&mut self, len: usize)
        ensures
            final(self)@ == (TransactionAccountView {
                data: resized(old(self)@.data, len as nat, 0u8),
                ..old(self)@
            }),
    {
        self.data.resize(len, 0);
    }

    /// The account data for writing; what is written lands in the data.
    fn data_mut(&mut self) -> (r: &mut [u8])
        ensures
            r@ == old(self)@.data,
            final(self)@ == (TransactionAccountView { data: final(r)@, ..old(self)@ }),
    {
        self.data.as_mut_slice()
    }
}

} // verus!
