//! Runtime metadata for an instruction of the transaction.
use crate::context::NO_PARENT;
use crate::region::account::Account;
use vstd::prelude::*;

verus! {

/// What an [`Instruction`] holds.
pub struct InstructionView {
    pub program_account_index: u16,
    pub nesting_level: u16,
    pub parent_instruction: u16,
    pub accounts: Seq<Account>,
    pub data: Seq<u8>,
}

/// Runtime metadata for an instruction in the transaction.
pub struct Instruction {
    /// Index of the program account being executed.
    pub program_account_index: u16,
    /// Cross-program invocation nesting level for this instruction.
    pub nesting_level: u16,
    /// Index of the parent instruction in the transaction; `u16::MAX` for
    /// top-level instructions.
    pub parent_instruction: u16,
    /// Accounts passed to the instruction.
    accounts: Vec<Account>,
    /// Instruction data bytes.
    data: Vec<u8>,
}

impl View for Instruction {
    type V = InstructionView;

    closed spec fn view(&self) -> InstructionView {
        InstructionView {
            program_account_index: self.program_account_index,
            nesting_level: self.nesting_level,
            parent_instruction: self.parent_instruction,
            accounts: self.accounts@,
            data: self.data@,
        }
    }
}

impl Instruction {
    /// An instruction as the runtime lays it out.
    pub fn new(
        program_account_index: u16,
        nesting_level: u16,
        parent_instruction: u16,
        accounts: Vec<Account>,
        data: Vec<u8>,
    ) -> (r: Self)
        ensures
            r@ == (InstructionView {
                program_account_index,
                nesting_level,
                parent_instruction,
                accounts: accounts@,
                data: data@,
            }),
    {
        Instruction { program_account_index, nesting_level, parent_instruction, accounts, data }
    }

    /// Returns the accounts passed to this instruction.
    pub fn accounts(&self) -> (r: &[Account])
        ensures
            r@ == self@.accounts,
    {
        self.accounts.as_slice()
    }

    /// Returns the instruction data bytes.
    pub fn data(&self) -> (r: &[u8])
        ensures
            r@ == self@.data,
    {
        self.data.as_slice()
    }

    /// Returns `true` if this is a top-level instruction.
    pub fn is_top_level(&self) -> (r: bool)
        ensures
            r == (self@.parent_instruction == NO_PARENT),
    {
        self.parent_instruction == NO_PARENT
    }
}

} // verus!
