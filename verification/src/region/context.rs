//! The transaction context, holding the return data and the CPI
//! parameters scratchpads.
use crate::account::TransactionAccount;
use crate::memory::MemoryMapping;
use crate::region::account::Account;
use crate::region::instruction::Instruction;
use crate::Volatile;
use vstd::prelude::*;

pub use crate::cpi::ReturnData;

verus! {

/// What a [`Context`] holds besides its scratchpads.
pub struct ContextView {
    pub current_instruction_index: u16,
    pub instruction_count: u16,
    pub cpi_count: u16,
    pub account_count: u16,
}

/// The transaction execution context provided by the runtime.
pub struct Context {
    return_data: ReturnData,
    cpi_invoke_params: CpiInvokeParams,
    /// Index of the currently executing instruction.
    pub current_instruction_index: u16,
    /// Total number of instructions in the transaction, including CPIs and
    /// top-level instructions; the runtime updates it as CPIs are invoked.
    instruction_count_in_trace: Volatile<u16>,
    /// Current number of CPIs in the transaction, executing or completed.
    cpi_count_in_trace: Volatile<u16>,
    /// Total number of accounts in the transaction.
    pub account_count: u16,
}

impl View for Context {
    type V = ContextView;

    closed spec fn view(&self) -> ContextView {
        ContextView {
            current_instruction_index: self.current_instruction_index,
            instruction_count: self.instruction_count_in_trace@,
            cpi_count: self.cpi_count_in_trace@,
            account_count: self.account_count,
        }
    }
}

impl Context {
    /// A transaction context as the runtime lays it out.
    pub fn new(
        return_data: ReturnData,
        cpi_invoke_params: CpiInvokeParams,
        current_instruction_index: u16,
        instruction_count: u16,
        cpi_count: u16,
        account_count: u16,
    ) -> (r: Self)
        ensures
            r@ == (ContextView {
                current_instruction_index,
                instruction_count,
                cpi_count,
                account_count,
            }),
    {
        Context {
            return_data,
            cpi_invoke_params,
            current_instruction_index,
            instruction_count_in_trace: Volatile::new(instruction_count),
            cpi_count_in_trace: Volatile::new(cpi_count),
            account_count,
        }
    }

    /// Returns all accounts of the transaction: the first `account_count`
    /// entries of the array of transaction account metadata.
    pub fn accounts<'a>(&self, accounts: &'a [TransactionAccount]) -> (r: &'a [TransactionAccount])
        requires
            self@.account_count <= accounts@.len(),
        ensures
            r@ == accounts@.subrange(0, self@.account_count as int),
    {
        &accounts[0..self.account_count as usize]
    }

    /// Returns the number of CPIs in the transaction, executing or
    /// completed.
    pub fn cpi_count(&self) -> (r: u16)
        ensures
            r == self@.cpi_count,
    {
        self.cpi_count_in_trace.get()
    }

    /// Returns the instruction currently being executed, from the array of
    /// instructions.
    pub fn current_instruction<'a>(&self, instructions: &'a [Instruction]) -> (r: &'a Instruction)
        requires
            self@.current_instruction_index < instructions@.len(),
        ensures
            *r == instructions@[self@.current_instruction_index as int],
    {
        &instructions[self.current_instruction_index as usize]
    }

    /// Returns the current number of instructions in the transaction.
    pub fn instruction_count(&self) -> (r: u16)
        ensures
            r == self@.instruction_count,
    {
        self.instruction_count_in_trace.get()
    }

    /// Returns the current list of instructions: the first
    /// `instruction_count` entries of the array of instructions.
    pub fn instructions<'a>(&self, instructions: &'a [Instruction]) -> (r: &'a [Instruction])
        requires
            self@.instruction_count <= instructions@.len(),
        ensures
            r@ == instructions@.subrange(0, self@.instruction_count as int),
    {
        &instructions[0..self.instruction_count() as usize]
    }

    /// Returns the transaction fee payer account: the first account of the
    /// transaction.
    pub fn payer<'a>(&self, accounts: &'a [TransactionAccount]) -> (r: &'a TransactionAccount)
        requires
            accounts@.len() > 0,
        ensures
            *r == accounts@[0],
    {
        &accounts[0]
    }
}

/// What a [`CpiInvokeParams`] scratchpad holds.
pub struct CpiInvokeParamsView {
    pub accounts_address: u64,
    pub accounts: Seq<Account>,
    pub instruction_data_address: u64,
    pub instruction_data: Seq<u8>,
}

/// Runtime scratch area for CPI invocation parameters.
pub struct CpiInvokeParams {
    /// Accounts passed to the CPI being invoked.
    accounts: MemoryMapping<Account>,
    /// Instruction data passed to the CPI being invoked.
    instruction_data: MemoryMapping<u8>,
}

impl View for CpiInvokeParams {
    type V = CpiInvokeParamsView;

    closed spec fn view(&self) -> CpiInvokeParamsView {
        CpiInvokeParamsView {
            accounts_address: self.accounts.address(),
            accounts: self.accounts@,
            instruction_data_address: self.instruction_data.address(),
            instruction_data: self.instruction_data@,
        }
    }
}

impl CpiInvokeParams {
    /// A scratchpad as the runtime lays it out.
    pub fn new(
        accounts_address: u64,
        accounts: Vec<Account>,
        instruction_data_address: u64,
        instruction_data: Vec<u8>,
    ) -> (r: Self)
        ensures
            r@ == (CpiInvokeParamsView {
                accounts_address,
                accounts: accounts@,
                instruction_data_address,
                instruction_data: instruction_data@,
            }),
    {
        CpiInvokeParams {
            accounts: MemoryMapping::new(accounts_address, accounts),
            instruction_data: MemoryMapping::new(instruction_data_address, instruction_data),
        }
    }

    /// Returns the accounts passed to the CPI being invoked.
    pub fn accounts(&self) -> (r: &[Account])
        ensures
            r@ == self@.accounts,
    {
        self.accounts.as_slice()
    }

    /// Returns the instruction data passed to the CPI being invoked.
    pub fn instruction_data(&self) -> (r: &[u8])
        ensures
            r@ == self@.instruction_data,
    {
        self.instruction_data.as_slice()
    }
}

} // verus!
