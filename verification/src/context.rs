//! Transaction and instruction context.
//!
//! The runtime exposes transaction metadata as a [`TransactionContext`] and
//! the instructions of the transaction as an array of
//! [`InstructionContext`]. Functions that look up an instruction or a
//! transaction account take the array they read from.
use crate::account::{Account, TransactionAccount};
use crate::Volatile;
use vstd::prelude::*;

verus! {

/// Value of the parent index of a top-level instruction.
pub const NO_PARENT: u16 = 0xffff;

/// What an [`InstructionContext`] holds.
pub struct InstructionContextView {
    pub program_account_index: u16,
    pub nesting_level: u16,
    pub parent_instruction_index: u16,
    pub accounts: Seq<Account>,
    pub data: Seq<u8>,
}

/// The instruction execution context provided by the runtime.
pub struct InstructionContext {
    /// Index of the program account being executed.
    pub program_account_index: u16,
    /// Cross-program invocation nesting level for this instruction.
    pub nesting_level: u16,
    /// Index of the parent instruction in the transaction; [`NO_PARENT`]
    /// for top-level instructions.
    parent_instruction_index: u16,
    /// Accounts passed to the instruction.
    accounts: Vec<Account>,
    /// Instruction data bytes.
    data: Vec<u8>,
}

impl View for InstructionContext {
    type V = InstructionContextView;

    closed spec fn view(&self) -> InstructionContextView {
        InstructionContextView {
            program_account_index: self.program_account_index,
            nesting_level: self.nesting_level,
            parent_instruction_index: self.parent_instruction_index,
            accounts: self.accounts@,
            data: self.data@,
        }
    }
}

impl InstructionContext {
    /// An instruction as the runtime lays it out.
    pub fn new(
        program_account_index: u16,
        nesting_level: u16,
        parent_instruction_index: u16,
        accounts: Vec<Account>,
        data: Vec<u8>,
    ) -> (r: Self)
        ensures
            r@ == (InstructionContextView {
                program_account_index,
                nesting_level,
                parent_instruction_index,
                accounts: accounts@,
                data: data@,
            }),
    {
        InstructionContext {
            program_account_index,
            nesting_level,
            parent_instruction_index,
            accounts,
            data,
        }
    }

    /// Returns the accounts passed to this instruction.
    pub fn accounts(&self) -> (r: &[Account])
        ensures
            r@ == self@.accounts,
    {
        self.accounts.as_slice()
    }

    /// Returns the instruction data bytes.
    pub fn data(&self) -> (r: &[u8])
        ensures
            r@ == self@.data,
    {
        self.data.as_slice()
    }

    /// Returns `true` if the instruction has a parent instruction.
    pub fn has_parent(&self) -> (r: bool)
        ensures
            r == (self@.parent_instruction_index != NO_PARENT),
    {
        self.parent_instruction_index != NO_PARENT
    }

    /// Returns the parent instruction, from the array of instructions, if
    /// there is one.
    pub fn parent<'a>(&self, instructions: &'a [InstructionContext]) -> (r: Option<
        &'a InstructionContext,
    >)
        requires
            self@.parent_instruction_index != NO_PARENT ==> self@.parent_instruction_index
                < instructions@.len(),
        ensures
            self@.parent_instruction_index == NO_PARENT ==> r is None,
            self@.parent_instruction_index != NO_PARENT ==> r is Some && *r->0
                == instructions@[self@.parent_instruction_index as int],
    {
        if self.has_parent() {
            Some(&instructions[self.parent_instruction_index as usize])
        } else {
            None
        }
    }

    /// Returns the transaction account of the executing program, from the
    /// array of transaction account metadata.
    pub fn program_account<'a>(&self, accounts: &'a [TransactionAccount]) -> (r:
        &'a TransactionAccount)
        requires
            self@.program_account_index < accounts@.len(),
        ensures
            *r == accounts@[self@.program_account_index as int],
    {
        &accounts[self.program_account_index as usize]
    }
}

/// What a [`TransactionContext`] holds.
pub struct TransactionContextView {
    pub current_instruction_index: u16,
    pub instruction_count: u16,
    pub cpi_count: u16,
    pub account_count: u16,
}

/// The transaction execution context provided by the runtime.
pub struct TransactionContext {
    /// Index of the currently executing instruction.
    pub current_instruction_index: u16,
    /// Total number of instructions in the transaction, including CPIs and
    /// top-level instructions; the runtime updates it as CPIs are invoked.
    instruction_count: Volatile<u16>,
    /// Current number of CPIs in the transaction, executing or completed.
    cpi_count: Volatile<u16>,
    /// Total number of accounts in the transaction.
    pub account_count: u16,
}

impl View for TransactionContext {
    type V = TransactionContextView;

    closed spec fn view(&self) -> TransactionContextView {
        TransactionContextView {
            current_instruction_index: self.current_instruction_index,
            instruction_count: self.instruction_count@,
            cpi_count: self.cpi_count@,
            account_count: self.account_count,
        }
    }
}

impl TransactionContext {
    /// A transaction context as the runtime lays it out.
    pub fn new(
        current_instruction_index: u16,
        instruction_count: u16,
        cpi_count: u16,
        account_count: u16,
    ) -> (r: Self)
        ensures
            r@ == (TransactionContextView {
                current_instruction_index,
                instruction_count,
                cpi_count,
                account_count,
            }),
    {
        TransactionContext {
            current_instruction_index,
            instruction_count: Volatile::new(instruction_count),
            cpi_count: Volatile::new(cpi_count),
            account_count,
        }
    }

    /// Returns all accounts of the transaction: the first `account_count`
    /// entries of the array of transaction account metadata.
    pub fn accounts<'a>(&self, accounts: &'a [TransactionAccount]) -> (r: &'a [TransactionAccount])
        requires
            self@.account_count <= accounts@.len(),
        ensures
            r@ == accounts@.subrange(0, self@.account_count as int),
    {
        &accounts[0..self.account_count as usize]
    }

    /// Returns the number of CPIs in the transaction, executing or
    /// completed.
    pub fn cpi_count(&self) -> (r: u16)
        ensures
            r == self@.cpi_count,
    {
        self.cpi_count.get()
    }

    /// Returns the instruction currently being executed, from the array of
    /// instructions.
    pub fn current_instruction<'a>(&self, instructions: &'a [InstructionContext]) -> (r:
        &'a InstructionContext)
        requires
            self@.current_instruction_index < instructions@.len(),
        ensures
            *r == instructions@[self@.current_instruction_index as int],
    {
        &instructions[self.current_instruction_index as usize]
    }

    /// Returns the current number of instructions in the transaction.
    pub fn instruction_count(&self) -> (r: u16)
        ensures
            r == self@.instruction_count,
    {
        self.instruction_count.get()
    }

    /// Returns the current list of instructions: the first
    /// `instruction_count` entries of the array of instructions.
    pub fn instructions<'a>(&self, instructions: &'a [InstructionContext]) -> (r:
        &'a [InstructionContext])
        requires
            self@.instruction_count <= instructions@.len(),
        ensures
            r@ == instructions@.subrange(0, self@.instruction_count as int),
    {
        &instructions[0..self.instruction_count() as usize]
    }

    /// Returns the transaction fee payer account: the first account of the
    /// transaction.
    pub fn payer<'a>(accounts: &'a [TransactionAccount]) -> (r: &'a TransactionAccount)
        requires
            accounts@.len() > 0,
        ensures
            *r == accounts@[0],
    {
        &accounts[0]
    }
}

} // verus!
