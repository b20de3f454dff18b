//! The rent sysvar: what an account must hold to be exempt from rent.
use crate::error::ProgramError;
use crate::memory::HEAP_ADDRESS;
use crate::sysvar::sysvar_borrow_state;
use crate::{BorrowFlags, Ref, MAX_IMMUTABLE_BORROWS};
use vstd::prelude::*;

verus! {

/// Account storage overhead for the calculation of the minimum balance: the
/// bytes required to store an account with no data.
pub const ACCOUNT_STORAGE_OVERHEAD: u64 = 128;

/// Maximum permitted size of account data (10 MiB).
pub const MAX_PERMITTED_DATA_LENGTH: u64 = 10 * 1024 * 1024;

/// Maximum lamports per byte: the largest rate for which the minimum
/// balance of the largest permitted account fits in a `u64`.
pub const MAX_LAMPORTS_PER_BYTE: u64 = 1_759_197_129_867;

/// Index of the rent sysvar.
pub const RENT_SYSVAR_INDEX: u64 = 5;

/// The rent sysvar.
pub struct Rent {
    /// Rental rate in lamports per byte.
    pub lamports_per_byte: u64,
}

/// The minimum balance for an account with `data_len` bytes of data to be
/// exempt from rent, at `lamports_per_byte`.
pub open spec fn minimum_balance(lamports_per_byte: u64, data_len: int) -> int {
    (ACCOUNT_STORAGE_OVERHEAD + data_len) * lamports_per_byte
}

/// Within the permitted limits, the minimum balance fits in a `u64`.
pub proof fn lemma_minimum_balance_bounded(lamports_per_byte: u64, data_len: int)
    requires
        0 <= data_len <= MAX_PERMITTED_DATA_LENGTH,
        lamports_per_byte <= MAX_LAMPORTS_PER_BYTE,
    ensures
        0 <= minimum_balance(lamports_per_byte, data_len) <= u64::MAX,
{
    vstd::arithmetic::mul::lemma_mul_upper_bound(
        ACCOUNT_STORAGE_OVERHEAD + data_len,
        ACCOUNT_STORAGE_OVERHEAD + MAX_PERMITTED_DATA_LENGTH,
        lamports_per_byte as int,
        MAX_LAMPORTS_PER_BYTE as int,
    );
    vstd::arithmetic::mul::lemma_mul_nonnegative(
        ACCOUNT_STORAGE_OVERHEAD + data_len,
        lamports_per_byte as int,
    );
}

/// The minimum balance grows with the data length.
pub proof fn lemma_minimum_balance_monotonic(lamports_per_byte: u64, smaller: int, larger: int)
    requires
        0 <= smaller <= larger,
    ensures
        minimum_balance(lamports_per_byte, smaller) <= minimum_balance(lamports_per_byte, larger),
{
    vstd::arithmetic::mul::lemma_mul_inequality(
        ACCOUNT_STORAGE_OVERHEAD + smaller,
        ACCOUNT_STORAGE_OVERHEAD + larger,
        lamports_per_byte as int,
    );
}

impl Rent {
    /// Calculates the minimum balance for rent exemption without checking
    /// the limits; the caller keeps the product within a `u64`.
    pub fn minimum_balance_unchecked(&self, data_len: usize) -> (r: u64)
        requires
            ACCOUNT_STORAGE_OVERHEAD + data_len <= u64::MAX,
            minimum_balance(self.lamports_per_byte, data_len as int) <= u64::MAX,
        ensures
            r == minimum_balance(self.lamports_per_byte, data_len as int),
    {
        proof {
            vstd::arithmetic::mul::lemma_mul_nonnegative(
                ACCOUNT_STORAGE_OVERHEAD + data_len,
                self.lamports_per_byte as int,
            );
            vstd::arithmetic::mul::lemma_mul_inequality(
                1,
                ACCOUNT_STORAGE_OVERHEAD + data_len,
                self.lamports_per_byte as int,
            );
        }
        (ACCOUNT_STORAGE_OVERHEAD + data_len as u64) * self.lamports_per_byte
    }

    /// Calculates the minimum balance for rent exemption; fails with
    /// `InvalidArgument` if `data_len` exceeds the maximum permitted data
    /// length or the rate exceeds [`MAX_LAMPORTS_PER_BYTE`].
    pub fn try_minimum_balance(&self, data_len: usize) -> (r: Result<u64, ProgramError>)
        ensures
            data_len > MAX_PERMITTED_DATA_LENGTH || self.lamports_per_byte > MAX_LAMPORTS_PER_BYTE
                ==> r == Err::<u64, ProgramError>(ProgramError::InvalidArgument),
            data_len <= MAX_PERMITTED_DATA_LENGTH && self.lamports_per_byte
                <= MAX_LAMPORTS_PER_BYTE ==> r is Ok && r->Ok_0 == minimum_balance(
                self.lamports_per_byte,
                data_len as int,
            ),
    {
        if data_len as u64 > MAX_PERMITTED_DATA_LENGTH {
            return Err(ProgramError::InvalidArgument);
        }
        if self.lamports_per_byte > MAX_LAMPORTS_PER_BYTE {
            return Err(ProgramError::InvalidArgument);
        }
        proof {
            lemma_minimum_balance_bounded(self.lamports_per_byte, data_len as int);
        }
        Ok(self.minimum_balance_unchecked(data_len))
    }

    /// Determines whether an account with `lamports` and `data_len` bytes
    /// of data is rent exempt.
    pub fn is_exempt(&self, lamports: u64, data_len: usize) -> (r: bool)
        requires
            ACCOUNT_STORAGE_OVERHEAD + data_len <= u64::MAX,
            minimum_balance(self.lamports_per_byte, data_len as int) <= u64::MAX,
        ensures
            r == (lamports >= minimum_balance(self.lamports_per_byte, data_len as int)),
    {
        lamports >= self.minimum_balance_unchecked(data_len)
    }

    /// Borrows the rent sysvar immutably: fails with `AccountBorrowFailed`
    /// if it is mutably borrowed or no immutable borrow is left, else
    /// counts one more immutable borrow.
    pub fn get<'a>(rent: &'a Rent, flags: &mut BorrowFlags) -> (r: Result<
        Ref<'a, Rent>,
        ProgramError,
    >)
        requires
            old(flags).has_state(sysvar_borrow_state(RENT_SYSVAR_INDEX) as int),
        ensures
            ({
                let address = sysvar_borrow_state(RENT_SYSVAR_INDEX);
                let before = old(flags).state(address as int);
                match r {
                    Ok(guard) => {
                        &&& before < MAX_IMMUTABLE_BORROWS
                        &&& final(flags)@ == old(flags)@.update(
                            address - HEAP_ADDRESS,
                            (before + 1) as u8,
                        )
                        &&& guard.value() == rent
                        &&& guard.state() == address
                    },
                    Err(e) => {
                        &&& before >= MAX_IMMUTABLE_BORROWS
                        &&& e == ProgramError::AccountBorrowFailed
                        &&& final(flags)@ == old(flags)@
                    },
                }
            }),
    {
        let borrow_state = HEAP_ADDRESS + (crate::memory::MAX_TRANSACTION_ACCOUNTS as u64
            - RENT_SYSVAR_INDEX);
        let current = flags.get(borrow_state);
        if current >= MAX_IMMUTABLE_BORROWS {
            return Err(ProgramError::AccountBorrowFailed);
        }
        flags.set(borrow_state, current + 1);
        Ok(Ref::new_shared(rent, borrow_state))
    }
}

} // verus!
