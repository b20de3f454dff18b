//! Types for cross-program invocation.
//!
//! Programs pass parameters to a cross-program invocation by writing them
//! to a scratchpad region ([`Parameters`]), and read and write return data
//! in another scratchpad ([`ReturnData`]). Both scratchpads have a borrow
//! state byte in [`BorrowFlags`].
use crate::account::{addresses_equal, borrow_state_address, lemma_zeroed, Account};
use crate::error::ProgramError;
use crate::memory::{resized, MemoryMapping, BORROW_FLAGS_SIZE, HEAP_ADDRESS, MAX_TRANSACTION_ACCOUNTS};
use crate::syscall::{set_buffer_length, Syscall};
use crate::{
    BorrowFlags, Ref, RefMut, Volatile, MAX_IMMUTABLE_BORROWS, MUTABLY_BORROWED, NOT_BORROWED,
};
use vstd::prelude::*;

verus! {

/// Index of the borrow flag for the CPI invoke parameters.
pub const CPI_BORROW_FLAG_INDEX: u64 = 4088;

/// Index of the borrow flag for the return data.
pub const RETURN_DATA_BORROW_FLAG_INDEX: u64 = 4089;

/// Size in bytes of an [`Account`] in the runtime's layout.
pub const ACCOUNT_SIZE: u64 = 4;

/// Address of the borrow-state byte of the CPI parameters.
pub open spec fn cpi_borrow_state() -> u64 {
    (HEAP_ADDRESS + CPI_BORROW_FLAG_INDEX) as u64
}

/// Address of the borrow-state byte of the return data.
pub open spec fn return_data_borrow_state() -> u64 {
    (HEAP_ADDRESS + RETURN_DATA_BORROW_FLAG_INDEX) as u64
}

/// The borrow-state bytes of the transaction's accounts, of the CPI
/// parameters and of the return data all lie in the borrow-flag region and
/// are pairwise distinct, so a borrow of one never blocks another.
pub proof fn lemma_borrow_states_distinct(index: u16, other: u16)
    requires
        index < MAX_TRANSACTION_ACCOUNTS,
        other < MAX_TRANSACTION_ACCOUNTS,
    ensures
        HEAP_ADDRESS <= borrow_state_address(index) < HEAP_ADDRESS + BORROW_FLAGS_SIZE,
        HEAP_ADDRESS <= cpi_borrow_state() < HEAP_ADDRESS + BORROW_FLAGS_SIZE,
        HEAP_ADDRESS <= return_data_borrow_state() < HEAP_ADDRESS + BORROW_FLAGS_SIZE,
        borrow_state_address(index) != cpi_borrow_state(),
        borrow_state_address(index) != return_data_borrow_state(),
        cpi_borrow_state() != return_data_borrow_state(),
        index != other ==> borrow_state_address(index) != borrow_state_address(other),
{
}

/// What a [`Parameters`] scratchpad holds.
pub struct ParametersView {
    pub instruction_data_address: u64,
    pub instruction_data: Seq<u8>,
    pub accounts_address: u64,
    pub accounts: Seq<Account>,
}

/// Runtime scratchpad for writing CPI invocation parameters.
pub struct Parameters {
    /// Instruction data passed to the CPI being invoked.
    instruction_data: MemoryMapping<u8>,
    /// Accounts passed to the CPI being invoked.
    accounts: MemoryMapping<Account>,
}

impl View for Parameters {
    type V = ParametersView;

    closed spec fn view(&self) -> ParametersView {
        ParametersView {
            instruction_data_address: self.instruction_data.address(),
            instruction_data: self.instruction_data@,
            accounts_address: self.accounts.address(),
            accounts: self.accounts@,
        }
    }
}

/// The requests that size the scratchpads for `accounts_len` accounts and
/// `data_len` bytes of instruction data: accounts first, then data.
pub open spec fn invocation_requests(
    parameters: ParametersView,
    accounts_len: usize,
    data_len: usize,
) -> (Syscall, Syscall) {
    (
        Syscall::SetBufferLength {
            address: parameters.accounts_address,
            length: (accounts_len * ACCOUNT_SIZE) as u64,
        },
        Syscall::SetBufferLength {
            address: parameters.instruction_data_address,
            length: data_len as u64,
        },
    )
}

/// The scratchpad as the runtime leaves it after the requests of an
/// invocation: `accounts_len` accounts and `data_len` bytes of instruction
/// data, the first ones kept and new ones zero.
pub open spec fn sized_for_invocation(
    parameters: ParametersView,
    accounts_len: usize,
    data_len: usize,
) -> ParametersView {
    ParametersView {
        accounts: resized(parameters.accounts, accounts_len as nat, Account::zeroed()),
        instruction_data: resized(parameters.instruction_data, data_len as nat, 0u8),
        ..parameters
    }
}

/// A scratchpad sized for an invocation holds `accounts_len` accounts and
/// `data_len` bytes of instruction data at the same addresses: what a
/// program writes to it after borrowing it for the invocation is what the
/// invoked program reads.
pub proof fn lemma_sized_for_invocation(
    parameters: ParametersView,
    accounts_len: usize,
    data_len: usize,
)
    ensures
        sized_for_invocation(parameters, accounts_len, data_len).accounts.len() == accounts_len,
        sized_for_invocation(parameters, accounts_len, data_len).instruction_data.len()
            == data_len,
        sized_for_invocation(parameters, accounts_len, data_len).accounts_address
            == parameters.accounts_address,
        sized_for_invocation(parameters, accounts_len, data_len).instruction_data_address
            == parameters.instruction_data_address,
{
}

/// Once a scratchpad is sized for an invocation, accounts and instruction
/// data that fill it (written through [`Parameters::accounts_mut`] and
/// [`Parameters::instruction_data_mut`]) are exactly what
/// [`Parameters::accounts`] and [`Parameters::instruction_data`] read back,
/// at the scratchpad's addresses, with the requested lengths.
pub proof fn lemma_invocation_read_back(
    parameters: ParametersView,
    accounts_len: usize,
    data_len: usize,
    accounts: Seq<Account>,
    data: Seq<u8>,
)
    requires
        accounts.len() == sized_for_invocation(parameters, accounts_len, data_len).accounts.len(),
        data.len() == sized_for_invocation(parameters, accounts_len, data_len).instruction_data.len(),
    ensures
        ({
            let written = ParametersView {
                accounts,
                instruction_data: data,
                ..sized_for_invocation(parameters, accounts_len, data_len)
            };
            &&& written.accounts == accounts
            &&& written.accounts.len() == accounts_len
            &&& written.instruction_data == data
            &&& written.instruction_data.len() == data_len
            &&& written.accounts_address == parameters.accounts_address
            &&& written.instruction_data_address == parameters.instruction_data_address
        }),
{
}

/// The requests of an invocation size the runtime's regions to what the
/// scratchpad holds after them: the accounts region to 4 bytes (one `u32`,
/// an account as the runtime lays it out) for each account, the instruction
/// data region to one byte for each byte, each at its own address.
pub proof fn lemma_invocation_requests_size_the_regions(
    parameters: ParametersView,
    accounts_len: usize,
    data_len: usize,
)
    requires
        accounts_len * 4 <= u64::MAX,
    ensures
        invocation_requests(parameters, accounts_len, data_len).0 == (Syscall::SetBufferLength {
            address: parameters.accounts_address,
            length: (sized_for_invocation(parameters, accounts_len, data_len).accounts.len()
                * vstd::layout::size_of::<u32>()) as u64,
        }),
        invocation_requests(parameters, accounts_len, data_len).1 == (Syscall::SetBufferLength {
            address: parameters.instruction_data_address,
            length: sized_for_invocation(parameters, accounts_len, data_len).instruction_data.len()
                as u64,
        }),
{
    broadcast use vstd::layout::layout_of_primitives;
}

impl Parameters {
    /// A scratchpad as the runtime lays it out.
    pub fn new(
        instruction_data_address: u64,
        instruction_data: Vec<u8>,
        accounts_address: u64,
        accounts: Vec<Account>,
    ) -> (r: Self)
        ensures
            r@ == (ParametersView {
                instruction_data_address,
                instruction_data: instruction_data@,
                accounts_address,
                accounts: accounts@,
            }),
    {
        Parameters {
            instruction_data: MemoryMapping::new(instruction_data_address, instruction_data),
            accounts: MemoryMapping::new(accounts_address, accounts),
        }
    }

    /// Borrows the scratchpad for an invocation: fails with `Immutable` if
    /// it is borrowed in any form, else marks it mutably borrowed and
    /// returns it with the requests that size it for `accounts_len`
    /// accounts and `data_len` bytes of instruction data.
    pub fn for_invocation<'a>(
        parameters: &'a mut Parameters,
        flags: &mut BorrowFlags,
        accounts_len: usize,
        data_len: usize,
    ) -> (r: Result<(RefMut<'a, Parameters>, (Syscall, Syscall)), ProgramError>)
        requires
            old(flags).has_state(cpi_borrow_state() as int),
            accounts_len * ACCOUNT_SIZE <= u64::MAX,
        ensures
            ({
                let before = old(flags).state(cpi_borrow_state() as int);
                match r {
                    Ok((guard, requests)) => {
                        &&& before == NOT_BORROWED
                        &&& final(flags)@ == old(flags)@.update(
                            CPI_BORROW_FLAG_INDEX as int,
                            MUTABLY_BORROWED,
                        )
                        &&& guard.value()@ == sized_for_invocation(
                            old(parameters)@,
                            accounts_len,
                            data_len,
                        )
                        &&& *final(parameters) == *final(guard.value())
                        &&& guard.state() == cpi_borrow_state()
                        &&& requests == invocation_requests(
                            old(parameters)@,
                            accounts_len,
                            data_len,
                        )
                    },
                    Err(e) => {
                        &&& before != NOT_BORROWED
                        &&& e == ProgramError::Immutable
                        &&& final(flags)@ == old(flags)@
                        &&& *final(parameters) == *old(parameters)
                    },
                }
            }),
    {
        let borrow_state = HEAP_ADDRESS + CPI_BORROW_FLAG_INDEX;
        if flags.get(borrow_state) != NOT_BORROWED {
            return Err(ProgramError::Immutable);
        }
        flags.set(borrow_state, MUTABLY_BORROWED);
        let (parameters, requests) = Self::for_invocation_unchecked(
            parameters,
            accounts_len,
            data_len,
        );
        Ok((RefMut::new_value(parameters, borrow_state), requests))
    }

    /// Returns the scratchpad for an invocation with the requests that size
    /// it, without looking at or updating its borrow state; the scratchpad
    /// is returned sized as the runtime leaves it after the requests.
    pub fn for_invocation_unchecked<'a>(
        parameters: &'a mut Parameters,
        accounts_len: usize,
        data_len: usize,
    ) -> (r: (&'a mut Parameters, (Syscall, Syscall)))
        requires
            accounts_len * ACCOUNT_SIZE <= u64::MAX,
        ensures
            r.0@ == sized_for_invocation(old(parameters)@, accounts_len, data_len),
            *final(parameters) == *final(r.0),
            r.1 == invocation_requests(old(parameters)@, accounts_len, data_len),
    {
        let accounts = set_buffer_length(
            parameters.accounts.ptr(),
            accounts_len as u64 * ACCOUNT_SIZE,
        );
        let data = set_buffer_length(parameters.instruction_data.ptr(), data_len as u64);
        let blank = Account::from_bits(0);
        proof {
            lemma_zeroed(blank);
        }
        parameters.accounts.resize(accounts_len, blank);
        parameters.instruction_data.resize(data_len, 0);
        (parameters, (accounts, data))
    }

    /// Returns the accounts passed to the CPI being invoked.
    pub fn accounts(&self) -> (r: &[Account])
        ensures
            r@ == self@.accounts,
    {
        self.accounts.as_slice()
    }

    /// Returns the accounts for writing; what is written lands in the
    /// scratchpad.
    pub fn accounts_mut(&mut self) -> (r: &mut [Account])
        ensures
            r@ == old(self)@.accounts,
            final(self)@ == (ParametersView { accounts: final(r)@, ..old(self)@ }),
    {
        self.accounts.as_mut_slice()
    }

    /// Returns the instruction data passed to the CPI being invoked.
    pub fn instruction_data(&self) -> (r: &[u8])
        ensures
            r@ == self@.instruction_data,
    {
        self.instruction_data.as_slice()
    }

    /// Returns the instruction data for writing; what is written lands in
    /// the scratchpad.
    pub fn instruction_data_mut(&mut self) -> (r: &mut [u8])
        ensures
            r@ == old(self)@.instruction_data,
            final(self)@ == (ParametersView { instruction_data: final(r)@, ..old(self)@ }),
    {
        self.instruction_data.as_mut_slice()
    }
}

/// What a [`ReturnData`] scratchpad holds.
pub struct ReturnDataView {
    pub program: [u8; 32],
    pub data_address: u64,
    pub data: Seq<u8>,
}

/// Runtime return-data state.
pub struct ReturnData {
    /// Address of the program that last wrote data to the scratchpad.
    program: Volatile<[u8; 32]>,
    /// Return-data bytes.
    data: MemoryMapping<u8>,
}

impl View for ReturnData {
    type V = ReturnDataView;

    closed spec fn view(&self) -> ReturnDataView {
        ReturnDataView { program: self.program@, data_address: self.data.address(), data: self.data@ }
    }
}

impl ReturnData {
    /// A return-data scratchpad as the runtime lays it out.
    pub fn new(program: [u8; 32], data_address: u64, data: Vec<u8>) -> (r: Self)
        ensures
            r@ == (ReturnDataView { program, data_address, data: data@ }),
    {
        ReturnData { program: Volatile::new(program), data: MemoryMapping::new(data_address, data) }
    }

    /// Borrows the return data immutably: fails with `InvalidArgument` if it
    /// is mutably borrowed or no immutable borrow is left, else counts one
    /// more immutable borrow.
    pub fn borrow<'a>(return_data: &'a ReturnData, flags: &mut BorrowFlags) -> (r: Result<
        Ref<'a, ReturnData>,
        ProgramError,
    >)
        requires
            old(flags).has_state(return_data_borrow_state() as int),
        ensures
            ({
                let before = old(flags).state(return_data_borrow_state() as int);
                match r {
                    Ok(guard) => {
                        &&& before < MAX_IMMUTABLE_BORROWS
                        &&& final(flags)@ == old(flags)@.update(
                            RETURN_DATA_BORROW_FLAG_INDEX as int,
                            (before + 1) as u8,
                        )
                        &&& guard.value() == return_data
                        &&& guard.state() == return_data_borrow_state()
                    },
                    Err(e) => {
                        &&& before >= MAX_IMMUTABLE_BORROWS
                        &&& e == ProgramError::InvalidArgument
                        &&& final(flags)@ == old(flags)@
                    },
                }
            }),
    {
        let borrow_state = HEAP_ADDRESS + RETURN_DATA_BORROW_FLAG_INDEX;
        let current = flags.get(borrow_state);
        if current >= MAX_IMMUTABLE_BORROWS {
            return Err(ProgramError::InvalidArgument);
        }
        flags.set(borrow_state, current + 1);
        Ok(Ref::new_shared(return_data, borrow_state))
    }

    /// Borrows the return data mutably for `len` bytes: fails with
    /// `InvalidArgument` if it is borrowed in any form, else marks it
    /// mutably borrowed and returns it with the request that sizes it.
    pub fn borrow_mut<'a>(return_data: &'a mut ReturnData, flags: &mut BorrowFlags, len: usize) -> (r:
        Result<(RefMut<'a, ReturnData>, Syscall), ProgramError>)
        requires
            old(flags).has_state(return_data_borrow_state() as int),
        ensures
            ({
                let before = old(flags).state(return_data_borrow_state() as int);
                match r {
                    Ok((guard, request)) => {
                        &&& before == NOT_BORROWED
                        &&& final(flags)@ == old(flags)@.update(
                            RETURN_DATA_BORROW_FLAG_INDEX as int,
                            MUTABLY_BORROWED,
                        )
                        &&& guard.value()@ == (ReturnDataView {
                            data: resized(old(return_data)@.data, len as nat, 0u8),
                            ..old(return_data)@
                        })
                        &&& *final(return_data) == *final(guard.value())
                        &&& guard.state() == return_data_borrow_state()
                        &&& request == (Syscall::SetBufferLength {
                            address: old(return_data)@.data_address,
                            length: len as u64,
                        })
                    },
                    Err(e) => {
                        &&& before != NOT_BORROWED
                        &&& e == ProgramError::InvalidArgument
                        &&& final(flags)@ == old(flags)@
                        &&& *final(return_data) == *old(return_data)
                    },
                }
            }),
    {
        let borrow_state = HEAP_ADDRESS + RETURN_DATA_BORROW_FLAG_INDEX;
        if flags.get(borrow_state) != NOT_BORROWED {
            return Err(ProgramError::InvalidArgument);
        }
        flags.set(borrow_state, MUTABLY_BORROWED);
        let (return_data, request) = Self::borrow_mut_unchecked(return_data, len);
        Ok((RefMut::new_value(return_data, borrow_state), request))
    }

    /// Returns the return data for writing with the request that sizes it
    /// for `len` bytes, without looking at or updating its borrow state; the
    /// return data is returned sized as the runtime leaves it after the
    /// request (the first bytes kept, new bytes zero).
    pub fn borrow_mut_unchecked<'a>(return_data: &'a mut ReturnData, len: usize) -> (r: (
        &'a mut ReturnData,
        Syscall,
    ))
        ensures
            r.0@ == (ReturnDataView {
                data: resized(old(return_data)@.data, len as nat, 0u8),
                ..old(return_data)@
            }),
            *final(return_data) == *final(r.0),
            r.1 == (Syscall::SetBufferLength {
                address: old(return_data)@.data_address,
                length: len as u64,
            }),
    {
        let request = set_buffer_length(return_data.data.ptr(), len as u64);
        return_data.data.resize(len, 0);
        (return_data, request)
    }

    /// Returns the current return-data bytes.
    pub fn as_slice(&self) -> (r: &[u8])
        ensures
            r@ == self@.data,
    {
        self.data.as_slice()
    }

    /// Returns the return-data bytes for writing; what is written lands in
    /// the scratchpad.
    pub fn as_mut_slice(&mut self) -> (r: &mut [u8])
        ensures
            r@ == old(self)@.data,
            final(self)@ == (ReturnDataView { data: final(r)@, ..old(self)@ }),
    {
        self.data.as_mut_slice()
    }

    /// Returns `true` if the return data is empty.
    pub fn is_empty(&self) -> (r: bool)
        ensures
            r == (self@.data.len() == 0),
    {
        self.data.len() == 0
    }

    /// Returns the address of the program that last wrote return data.
    pub fn program(&self) -> (r: [u8; 32])
        ensures
            r == self@.program,
    {
        self.program.get()
    }

    /// Returns `true` if the return data was written by `program`.
    pub fn written_by(&self, program: &[u8; 32]) -> (r: bool)
        ensures
            r == (self@.program@ == program@),
    {
        let writer = self.program.get();
        addresses_equal(&writer, program)
    }
}

/// A signer seed: a byte string that, with the others of its signer,
/// derives the address of a program derived account.
#[derive(Clone, Copy)]
pub struct Seed<'bytes> {
    seed: &'bytes [u8],
}

impl<'bytes> View for Seed<'bytes> {
    type V = Seq<u8>;

    closed spec fn view(&self) -> Seq<u8> {
        self.seed@
    }
}

impl<'bytes> Seed<'bytes> {
    /// A seed of the bytes `value`.
    pub fn from(value: &'bytes [u8]) -> (r: Self)
        ensures
            r@ == value@,
    {
        Seed { seed: value }
    }

    /// The seed's bytes.
    pub fn deref(&self) -> (r: &'bytes [u8])
        ensures
            r@ == self@,
    {
        self.seed
    }
}

/// A program derived address (PDA) signer controlled by the calling
/// program: the seeds that derive the address.
#[derive(Clone, Copy)]
pub struct Signer<'bytes, 'seeds> {
    seeds: &'seeds [Seed<'bytes>],
}

impl<'bytes, 'seeds> View for Signer<'bytes, 'seeds> {
    type V = Seq<Seq<u8>>;

    closed spec fn view(&self) -> Seq<Seq<u8>> {
        self.seeds@.map_values(|s: Seed<'bytes>| s@)
    }
}

impl<'bytes, 'seeds> Signer<'bytes, 'seeds> {
    /// A signer with the seeds `value`.
    pub fn from(value: &'seeds [Seed<'bytes>]) -> (r: Self)
        ensures
            r@ == value@.map_values(|s: Seed<'bytes>| s@),
    {
        Signer { seeds: value }
    }

    /// The signer's seeds.
    pub fn seeds(&self) -> (r: &'seeds [Seed<'bytes>])
        ensures
            r@.map_values(|s: Seed<'bytes>| s@) == self@,
    {
        self.seeds
    }
}

} // verus!
