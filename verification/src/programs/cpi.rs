//! A program that performs cross-program invocations (CPI).
//!
//! The first byte of the instruction data selects the instruction:
//!   0. `CreateAccount`: creates a new account by invoking the system
//!      program; empty instruction data selects it too.
//!   1. `Trace`: invokes a trace program.
//!   2. `WriteReturn`: invokes a program that writes this program's address
//!      as return data, then checks the return data.
use crate::account::{pack, Account, TransactionAccount};
use crate::context::InstructionContext;
use crate::cpi::{
    CPI_BORROW_FLAG_INDEX, cpi_borrow_state, invocation_requests, return_data_borrow_state, Parameters, ParametersView,
    ReturnData, ReturnDataView, Signer,
};
use crate::account::{borrow_state_address, lemma_account_determined_by_bits};
use crate::error::{ProgramError, ProgramResult};
use crate::programs::copy_into;
use crate::syscall::{signer_seeds, sol_invoke_signed, Syscall};
use crate::{BorrowFlags, MAX_IMMUTABLE_BORROWS, NOT_BORROWED};
use vstd::bytes::{spec_u32_to_le_bytes, spec_u64_to_le_bytes, u32_to_le_bytes, u64_to_le_bytes};
use vstd::prelude::*;

verus! {

/// Discriminator of the system program's create-account instruction.
pub const CREATE_ACCOUNT_DISCRIMINATOR: u32 = 0;

/// Length of the create-account instruction data.
pub const CREATE_ACCOUNT_DATA_LEN: usize = 52;

/// The create-account instruction data: the discriminator, the lamports and
/// the space (little endian), then the owner's address.
pub open spec fn create_account_data(lamports: u64, space: u64, owner: [u8; 32]) -> Seq<u8> {
    spec_u32_to_le_bytes(CREATE_ACCOUNT_DISCRIMINATOR) + spec_u64_to_le_bytes(lamports)
        + spec_u64_to_le_bytes(space) + owner@
}

/// The requests of an invocation, appended to `syscalls`: size the CPI
/// accounts scratchpad for `accounts_len` accounts, size the instruction
/// data scratchpad for `data_len` bytes, invoke the program at
/// `program_index` signing with `seeds`.
pub open spec fn invocation_issued(
    parameters: ParametersView,
    accounts_len: usize,
    data_len: usize,
    program_index: u16,
    seeds: Seq<Seq<Seq<u8>>>,
    syscalls: Seq<Syscall>,
    final_syscalls: Seq<Syscall>,
) -> bool {
    &&& final_syscalls.len() == syscalls.len() + 3
    &&& final_syscalls.subrange(0, syscalls.len() as int) == syscalls
    &&& final_syscalls[syscalls.len() as int] == invocation_requests(
        parameters,
        accounts_len,
        data_len,
    ).0
    &&& final_syscalls[syscalls.len() + 1int] == invocation_requests(
        parameters,
        accounts_len,
        data_len,
    ).1
    &&& final_syscalls[syscalls.len() + 2int] matches Syscall::InvokeSigned {
        program_index: p,
        signers: s,
    } && p == program_index as u64 && s.deep_view() == seeds
}

/// What invoking the system program's create-account instruction does: it
/// fails with `AccountBorrowFailed` when `from` or `to` is borrowed, and
/// with `Immutable` when the CPI scratchpad is borrowed, changing nothing;
/// else it writes the two accounts as writable signers and
/// [`create_account_data`] to the scratchpad, issues the requests of the
/// invocation, and leaves the borrow flags as they were.
pub open spec fn create_account_invoked(
    system_program: Account,
    from: Account,
    to: Account,
    lamports: u64,
    space: u64,
    owner: [u8; 32],
    seeds: Seq<Seq<Seq<u8>>>,
    flags: BorrowFlags,
    final_flags: BorrowFlags,
    parameters: ParametersView,
    final_parameters: ParametersView,
    syscalls: Seq<Syscall>,
    final_syscalls: Seq<Syscall>,
    r: ProgramResult,
) -> bool {
    let from_state = flags.state(borrow_state_address(from.index()) as int);
    let to_state = flags.state(borrow_state_address(to.index()) as int);
    let cpi_state = flags.state(cpi_borrow_state() as int);
    if from_state != NOT_BORROWED || to_state != NOT_BORROWED {
        &&& r == Err::<(), ProgramError>(ProgramError::AccountBorrowFailed)
        &&& final_flags@ == flags@
        &&& final_parameters == parameters
        &&& final_syscalls == syscalls
    } else if cpi_state != NOT_BORROWED {
        &&& r == Err::<(), ProgramError>(ProgramError::Immutable)
        &&& final_flags@ == flags@
        &&& final_parameters == parameters
        &&& final_syscalls == syscalls
    } else {
        &&& r == Ok::<(), ProgramError>(())
        &&& final_flags@ == flags@
        &&& final_parameters.accounts.len() == 2
        &&& final_parameters.accounts[0]@ == pack(from.index(), true, true)
        &&& final_parameters.accounts[1]@ == pack(to.index(), true, true)
        &&& final_parameters.instruction_data == create_account_data(lamports, space, owner)
        &&& final_parameters.accounts_address == parameters.accounts_address
        &&& final_parameters.instruction_data_address == parameters.instruction_data_address
        &&& invocation_issued(
            parameters,
            2,
            CREATE_ACCOUNT_DATA_LEN,
            system_program.index(),
            seeds,
            syscalls,
            final_syscalls,
        )
    }
}

/// A create-account invocation is refused with `AccountBorrowFailed`
/// while the funding account's or the new account's data is borrowed in any
/// form, and is then refused before anything is done: the flags, the
/// scratchpad and the requests stay as they were. Else it succeeds exactly
/// when the CPI scratchpad is free, and leaves the flags as they were.
pub proof fn lemma_create_account_needs_free_accounts(
    system_program: Account,
    from: Account,
    to: Account,
    lamports: u64,
    space: u64,
    owner: [u8; 32],
    seeds: Seq<Seq<Seq<u8>>>,
    flags: BorrowFlags,
    final_flags: BorrowFlags,
    parameters: ParametersView,
    final_parameters: ParametersView,
    syscalls: Seq<Syscall>,
    final_syscalls: Seq<Syscall>,
    r: ProgramResult,
)
    requires
        create_account_invoked(
            system_program,
            from,
            to,
            lamports,
            space,
            owner,
            seeds,
            flags,
            final_flags,
            parameters,
            final_parameters,
            syscalls,
            final_syscalls,
            r,
        ),
    ensures
        flags@[from.index() as int] != 0 || flags@[to.index() as int] != 0 ==> {
            &&& r == Err::<(), ProgramError>(ProgramError::AccountBorrowFailed)
            &&& final_flags@ == flags@
            &&& final_parameters == parameters
            &&& final_syscalls == syscalls
        },
        flags@[from.index() as int] == 0 && flags@[to.index() as int] == 0 ==> {
            &&& r is Ok <==> flags@[CPI_BORROW_FLAG_INDEX as int] == 0
            &&& final_flags@ == flags@
        },
        r is Ok ==> final_syscalls.len() == syscalls.len() + 3,
{
}

/// Creates a new account.
///
/// Accounts of the invoked instruction: the funding account and the new
/// account, both writable signers. Its data is [`create_account_data`].
pub struct CreateAccount<'address> {
    /// Callee program account.
    pub system_program: Account,
    /// Funding account.
    pub from: Account,
    /// New account.
    pub to: Account,
    /// Number of lamports to transfer to the new account.
    pub lamports: u64,
    /// Number of bytes of memory to allocate.
    pub space: u64,
    /// Address of the program that will own the new account.
    pub owner: &'address [u8; 32],
}

impl<'address> CreateAccount<'address> {
    /// Invokes the system program without signers.
    pub fn invoke(
        &self,
        flags: &mut BorrowFlags,
        parameters: &mut Parameters,
        syscalls: &mut Vec<Syscall>,
    ) -> (r: ProgramResult)
        requires
            old(flags).has_state(borrow_state_address(self.from.index()) as int),
            old(flags).has_state(borrow_state_address(self.to.index()) as int),
            old(flags).has_state(cpi_borrow_state() as int),
        ensures
            create_account_invoked(
                self.system_program,
                self.from,
                self.to,
                self.lamports,
                self.space,
                *self.owner,
                Seq::empty(),
                *old(flags),
                *final(flags),
                old(parameters)@,
                final(parameters)@,
                old(syscalls)@,
                final(syscalls)@,
                r,
            ),
    {
        let no_signers: Vec<Signer> = Vec::new();
        let r = self.invoke_signed(no_signers.as_slice(), flags, parameters, syscalls);
        assert(signer_seeds(no_signers@) =~= Seq::empty());
        r
    }

    /// Invokes the system program, signing with `signers`.
    pub fn invoke_signed(
        &self,
        signers: &[Signer],
        flags: &mut BorrowFlags,
        parameters: &mut Parameters,
        syscalls: &mut Vec<Syscall>,
    ) -> (r: ProgramResult)
        requires
            old(flags).has_state(borrow_state_address(self.from.index()) as int),
            old(flags).has_state(borrow_state_address(self.to.index()) as int),
            old(flags).has_state(cpi_borrow_state() as int),
        ensures
            create_account_invoked(
                self.system_program,
                self.from,
                self.to,
                self.lamports,
                self.space,
                *self.owner,
                signer_seeds(signers@),
                *old(flags),
                *final(flags),
                old(parameters)@,
                final(parameters)@,
                old(syscalls)@,
                final(syscalls)@,
                r,
            ),
    {
        let from_borrowed = self.from.is_borrowed(flags);
        let to_borrowed = self.to.is_borrowed(flags);
        if from_borrowed || to_borrowed {
            return Err(ProgramError::AccountBorrowFailed);
        }
        let ghost flags0 = *flags;
        let (mut guard, sizes) = match Parameters::for_invocation(parameters, flags, 2, 52) {
            Ok(granted) => granted,
            Err(e) => return Err(e),
        };
        let (accounts_size, data_size) = sizes;
        syscalls.push(accounts_size);
        syscalls.push(data_size);
        {
            let params = guard.get_mut();
            let accounts = params.accounts_mut();
            accounts[0] = Account::writable_signer(self.from.transaction_index());
            accounts[1] = Account::writable_signer(self.to.transaction_index());
        }
        {
            let params = guard.get_mut();
            let data = params.instruction_data_mut();
            let discriminator = u32_to_le_bytes(CREATE_ACCOUNT_DISCRIMINATOR);
            let lamports = u64_to_le_bytes(self.lamports);
            let space = u64_to_le_bytes(self.space);
            proof {
                vstd::bytes::lemma_auto_spec_u32_to_from_le_bytes();
                vstd::bytes::lemma_auto_spec_u64_to_from_le_bytes();
            }
            copy_into(data, 0, discriminator.as_slice());
            copy_into(data, 4, lamports.as_slice());
            copy_into(data, 12, space.as_slice());
            copy_into(data, 20, self.owner.as_slice());
        }
        assert(guard.value()@.instruction_data =~= create_account_data(self.lamports, self.space, *self.owner));
        syscalls.push(sol_invoke_signed(self.system_program.transaction_index() as u64, signers));
        guard.release(flags);
        assert(flags@ =~= flags0@);
        assert(syscalls@.subrange(0, old(syscalls)@.len() as int) =~= old(syscalls)@);
        Ok(())
    }
}

/// Logs instruction and transaction information by invoking a trace
/// program.
pub struct Trace {
    /// Callee program account.
    pub trace_program: Account,
}

impl Trace {
    /// Invokes the trace program, without signers and with whatever the CPI
    /// scratchpad holds.
    pub fn invoke(&self, syscalls: &mut Vec<Syscall>) -> (r: ProgramResult)
        ensures
            r == Ok::<(), ProgramError>(()),
            final(syscalls)@.len() == old(syscalls)@.len() + 1,
            final(syscalls)@.subrange(0, old(syscalls)@.len() as int) == old(syscalls)@,
            final(syscalls)@[old(syscalls)@.len() as int] matches Syscall::InvokeSigned {
                program_index,
                signers,
            } && program_index == self.trace_program.index() as u64 && signers.deep_view()
                == Seq::<Seq<Seq<u8>>>::empty(),
    {
        let no_signers: Vec<Signer> = Vec::new();
        let request = sol_invoke_signed(self.trace_program.transaction_index() as u64, no_signers.as_slice());
        let ghost before = syscalls@;
        syscalls.push(request);
        assert(syscalls@.subrange(0, before.len() as int) =~= before);
        assert(signer_seeds(no_signers@) =~= Seq::empty());
        Ok(())
    }
}

/// What invoking a program that writes `data` as return data does: it fails
/// with `Immutable` when the CPI scratchpad is borrowed, changing nothing;
/// else it sizes the scratchpad for no accounts, writes `data` as the
/// instruction data, issues the requests of the invocation (no signers) and
/// leaves the borrow flags as they were.
pub open spec fn write_return_invoked(
    return_data_program: Account,
    data: Seq<u8>,
    flags: BorrowFlags,
    final_flags: BorrowFlags,
    parameters: ParametersView,
    final_parameters: ParametersView,
    syscalls: Seq<Syscall>,
    final_syscalls: Seq<Syscall>,
    r: ProgramResult,
) -> bool {
    if flags.state(cpi_borrow_state() as int) != NOT_BORROWED {
        &&& r == Err::<(), ProgramError>(ProgramError::Immutable)
        &&& final_flags@ == flags@
        &&& final_parameters == parameters
        &&& final_syscalls == syscalls
    } else {
        &&& r == Ok::<(), ProgramError>(())
        &&& final_flags@ == flags@
        &&& final_parameters == (ParametersView {
            accounts: Seq::empty(),
            instruction_data: data,
            ..parameters
        })
        &&& invocation_issued(
            parameters,
            0,
            data.len() as usize,
            return_data_program.index(),
            Seq::empty(),
            syscalls,
            final_syscalls,
        )
    }
}

/// Writes `data` as return data by invoking a return-data program.
pub struct WriteReturn<'data> {
    /// Callee program account.
    pub return_data_program: Account,
    /// The return data to write.
    pub data: &'data [u8],
}

impl<'data> WriteReturn<'data> {
    /// Passes the data to the return-data program and invokes it.
    pub fn invoke(
        &self,
        flags: &mut BorrowFlags,
        parameters: &mut Parameters,
        syscalls: &mut Vec<Syscall>,
    ) -> (r: ProgramResult)
        requires
            old(flags).has_state(cpi_borrow_state() as int),
        ensures
            write_return_invoked(
                self.return_data_program,
                self.data@,
                *old(flags),
                *final(flags),
                old(parameters)@,
                final(parameters)@,
                old(syscalls)@,
                final(syscalls)@,
                r,
            ),
    {
        let ghost flags0 = *flags;
        let (mut guard, sizes) = match Parameters::for_invocation(parameters, flags, 0, self.data.len()) {
            Ok(granted) => granted,
            Err(e) => return Err(e),
        };
        let (accounts_size, data_size) = sizes;
        let ghost before = syscalls@;
        syscalls.push(accounts_size);
        syscalls.push(data_size);
        {
            let params = guard.get_mut();
            let instruction_data = params.instruction_data_mut();
            copy_into(instruction_data, 0, self.data);
        }
        let no_signers: Vec<Signer> = Vec::new();
        syscalls.push(
            sol_invoke_signed(self.return_data_program.transaction_index() as u64, no_signers.as_slice()),
        );
        guard.release(flags);
        assert(flags@ =~= flags0@);
        assert(parameters@.instruction_data =~= self.data@);
        assert(parameters@.accounts =~= Seq::<Account>::empty());
        assert(signer_seeds(no_signers@) =~= Seq::empty());
        assert(syscalls@.subrange(0, before.len() as int) =~= before);
        Ok(())
    }
}

/// Lamports that the create-account instruction moves to the new account.
pub const CREATE_ACCOUNT_LAMPORTS: u64 = 1_000_000_000;

/// Space that the create-account instruction allocates.
pub const CREATE_ACCOUNT_SPACE: u64 = 100;

/// What the program does, by the first byte of the instruction data; every
/// failure before a request leaves the flags, the scratchpad and the
/// requests as they were.
pub open spec fn processed(
    program: [u8; 32],
    accounts: Seq<Account>,
    instruction_data: Seq<u8>,
    transaction_accounts: Seq<TransactionAccount>,
    return_data: ReturnDataView,
    flags: BorrowFlags,
    final_flags: BorrowFlags,
    parameters: ParametersView,
    final_parameters: ParametersView,
    syscalls: Seq<Syscall>,
    final_syscalls: Seq<Syscall>,
    r: ProgramResult,
) -> bool {
    let unchanged = final_flags@ == flags@ && final_parameters == parameters && final_syscalls
        == syscalls;
    if instruction_data.len() > 0 && instruction_data[0] > 2 {
        r == Err::<(), ProgramError>(ProgramError::InvalidInstructionData) && unchanged
    } else if instruction_data.len() == 0 || instruction_data[0] == 0 {
        if accounts.len() < 3 {
            r == Err::<(), ProgramError>(ProgramError::NotEnoughAccountKeys) && unchanged
        } else {
            create_account_invoked(
                accounts[2],
                accounts[0],
                accounts[1],
                CREATE_ACCOUNT_LAMPORTS,
                CREATE_ACCOUNT_SPACE,
                program,
                Seq::empty(),
                flags,
                final_flags,
                parameters,
                final_parameters,
                syscalls,
                final_syscalls,
                r,
            )
        }
    } else if instruction_data[0] == 1 {
        if accounts.len() < 1 {
            r == Err::<(), ProgramError>(ProgramError::NotEnoughAccountKeys) && unchanged
        } else {
            &&& r == Ok::<(), ProgramError>(())
            &&& final_flags@ == flags@
            &&& final_parameters == parameters
            &&& final_syscalls.len() == syscalls.len() + 1
            &&& final_syscalls.subrange(0, syscalls.len() as int) == syscalls
            &&& final_syscalls[syscalls.len() as int] matches Syscall::InvokeSigned {
                program_index,
                signers,
            } && program_index == accounts[0].index() as u64 && signers.deep_view()
                == Seq::<Seq<Seq<u8>>>::empty()
        }
    } else if accounts.len() < 1 {
        r == Err::<(), ProgramError>(ProgramError::NotEnoughAccountKeys) && unchanged
    } else {
        let invoked = if flags.state(cpi_borrow_state() as int) != NOT_BORROWED {
            Err::<(), ProgramError>(ProgramError::Immutable)
        } else {
            Ok::<(), ProgramError>(())
        };
        let checked = if flags.state(return_data_borrow_state() as int) >= MAX_IMMUTABLE_BORROWS {
            Err::<(), ProgramError>(ProgramError::InvalidArgument)
        } else if return_data.program@ != transaction_accounts[accounts[0].index() as int]@.address@
            || return_data.data != program@ {
            Err::<(), ProgramError>(ProgramError::InvalidArgument)
        } else {
            Ok::<(), ProgramError>(())
        };
        &&& write_return_invoked(
            accounts[0],
            program@,
            flags,
            final_flags,
            parameters,
            final_parameters,
            syscalls,
            final_syscalls,
            invoked,
        )
        &&& r == if invoked is Err {
            invoked
        } else {
            checked
        }
    }
}

/// The same request, comparing the signers of an invocation by their seed
/// bytes.
pub open spec fn same_request(first: Syscall, second: Syscall) -> bool {
    match (first, second) {
        (
            Syscall::InvokeSigned { program_index: p1, signers: s1 },
            Syscall::InvokeSigned { program_index: p2, signers: s2 },
        ) => p1 == p2 && s1.deep_view() == s2.deep_view(),
        _ => first == second,
    }
}

/// What the program leaves in the flags and the scratchpad, and the
/// requests it issues, do not depend on the return data it reads after an
/// invocation: two runs on the same inputs that read different return data
/// issue the same requests.
pub proof fn lemma_requests_independent_of_return_data(
    program: [u8; 32],
    accounts: Seq<Account>,
    instruction_data: Seq<u8>,
    transaction_accounts: Seq<TransactionAccount>,
    flags: BorrowFlags,
    parameters: ParametersView,
    syscalls: Seq<Syscall>,
    first_return_data: ReturnDataView,
    first_flags: BorrowFlags,
    first_parameters: ParametersView,
    first_syscalls: Seq<Syscall>,
    first_result: ProgramResult,
    second_return_data: ReturnDataView,
    second_flags: BorrowFlags,
    second_parameters: ParametersView,
    second_syscalls: Seq<Syscall>,
    second_result: ProgramResult,
)
    requires
        processed(
            program,
            accounts,
            instruction_data,
            transaction_accounts,
            first_return_data,
            flags,
            first_flags,
            parameters,
            first_parameters,
            syscalls,
            first_syscalls,
            first_result,
        ),
        processed(
            program,
            accounts,
            instruction_data,
            transaction_accounts,
            second_return_data,
            flags,
            second_flags,
            parameters,
            second_parameters,
            syscalls,
            second_syscalls,
            second_result,
        ),
    ensures
        first_flags@ == second_flags@,
        first_parameters == second_parameters,
        first_syscalls.len() == second_syscalls.len(),
        forall|i: int|
            0 <= i < first_syscalls.len() ==> same_request(
                #[trigger] first_syscalls[i],
                second_syscalls[i],
            ),
{
    if first_parameters.accounts.len() == 2 && second_parameters.accounts.len() == 2 {
        lemma_account_determined_by_bits(first_parameters.accounts[0], second_parameters.accounts[0]);
        lemma_account_determined_by_bits(first_parameters.accounts[1], second_parameters.accounts[1]);
    }
    assert(first_parameters.accounts =~= second_parameters.accounts);
    assert forall|i: int| 0 <= i < first_syscalls.len() implies same_request(
        #[trigger] first_syscalls[i],
        second_syscalls[i],
    ) by {
        if i < syscalls.len() {
            assert(first_syscalls[i] == first_syscalls.subrange(0, syscalls.len() as int)[i]);
            assert(second_syscalls[i] == second_syscalls.subrange(0, syscalls.len() as int)[i]);
        }
    }
}

/// Processes an instruction of the program.
///
/// `transaction_accounts` is the array of transaction account metadata,
/// `parameters` the CPI scratchpad as it stands when the program starts
/// (the program's requests size it), and `return_data` the return data as
/// the program reads it after the invocation.
pub fn process_instruction(
    context: &InstructionContext,
    accounts: &[Account],
    instruction_data: &[u8],
    transaction_accounts: &[TransactionAccount],
    flags: &mut BorrowFlags,
    parameters: &mut Parameters,
    return_data: &ReturnData,
    syscalls: &mut Vec<Syscall>,
) -> (r: ProgramResult)
    requires
        (instruction_data@.len() == 0 || instruction_data@[0] == 0) && accounts@.len() >= 3 ==> {
            &&& context@.program_account_index < transaction_accounts@.len()
            &&& old(flags).has_state(borrow_state_address(accounts@[0].index()) as int)
            &&& old(flags).has_state(borrow_state_address(accounts@[1].index()) as int)
            &&& old(flags).has_state(cpi_borrow_state() as int)
        },
        instruction_data@.len() > 0 && instruction_data@[0] == 2 && accounts@.len() >= 1 ==> {
            &&& context@.program_account_index < transaction_accounts@.len()
            &&& old(flags).has_state(cpi_borrow_state() as int)
            &&& old(flags).has_state(return_data_borrow_state() as int)
            &&& accounts@[0].index() < transaction_accounts@.len()
        },
    ensures
        processed(
            transaction_accounts@[context@.program_account_index as int]@.address,
            accounts@,
            instruction_data@,
            transaction_accounts@,
            return_data@,
            *old(flags),
            *final(flags),
            old(parameters)@,
            final(parameters)@,
            old(syscalls)@,
            final(syscalls)@,
            r,
        ),
{
    let selector: Option<u8> = match instruction_data.first() {
        Some(b) => Some(*b),
        None => None,
    };
    match selector {
        None | Some(0) => {
            if accounts.len() < 3 {
                return Err(ProgramError::NotEnoughAccountKeys);
            }
            let program = context.program_account(transaction_accounts).address();
            CreateAccount {
                from: accounts[0],
                to: accounts[1],
                system_program: accounts[2],
                lamports: CREATE_ACCOUNT_LAMPORTS,
                space: CREATE_ACCOUNT_SPACE,
                owner: program,
            }.invoke(flags, parameters, syscalls)
        },
        Some(1) => {
            if accounts.len() < 1 {
                return Err(ProgramError::NotEnoughAccountKeys);
            }
            Trace { trace_program: accounts[0] }.invoke(syscalls)
        },
        Some(2) => {
            if accounts.len() < 1 {
                return Err(ProgramError::NotEnoughAccountKeys);
            }
            let program = context.program_account(transaction_accounts).address();
            let return_data_program = accounts[0];
            let written = WriteReturn {
                return_data_program,
                data: program.as_slice(),
            }.invoke(flags, parameters, syscalls);
            if let Err(e) = written {
                return Err(e);
            }
            let ghost flags_written = *flags;
            let guard = match ReturnData::borrow(return_data, flags) {
                Ok(guard) => guard,
                Err(e) => return Err(e),
            };
            let writer = guard.deref().program();
            let expected = return_data_program.address(transaction_accounts);
            let same_writer = crate::account::addresses_equal(&writer, expected);
            let same_data = bytes_equal(guard.deref().as_slice(), program.as_slice());
            guard.release(flags);
            assert(flags@ =~= flags_written@);
            if !same_writer || !same_data {
                return Err(ProgramError::InvalidArgument);
            }
            Ok(())
        },
        _ => Err(ProgramError::InvalidInstructionData),
    }
}

/// Compares two byte strings.
fn bytes_equal(a: &[u8], b: &[u8]) -> (r: bool)
    ensures
        r == (a@ == b@),
{
    if a.len() != b.len() {
        return false;
    }
    let mut i: usize = 0;
    while i < a.len()
        invariant
            i <= a@.len(),
            a@.len() == b@.len(),
            forall|j: int| 0 <= j < i ==> a@[j] == b@[j],
        decreases a@.len() - i,
    {
        if a[i] != b[i] {
            return false;
        }
        i += 1;
    }
    assert(a@ =~= b@);
    true
}

} // verus!
