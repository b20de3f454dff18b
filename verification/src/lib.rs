//! A verified model of the ABIv2 program interface for Solana programs.
//!
//! Programs see the runtime through memory regions mapped at fixed
//! addresses. This crate describes those regions as plain values, and
//! states and proves what the program-side logic does with them: the access
//! flags of accounts, the borrow-state protocol that keeps account data from
//! being aliased, the rent arithmetic, the bump allocator and the encoding
//! of cross-program invocation parameters. Requests to the runtime
//! (syscalls) are produced as values of [`syscall::Syscall`].
use vstd::prelude::*;

pub mod account;
pub mod context;
pub mod cpi;
pub mod entrypoint;
pub mod error;
pub mod hint;
pub mod memory;
pub mod programs;
pub mod region;
pub mod syscall;
pub mod sysvar;

pub use memory::{BORROW_FLAGS_SIZE, HEAP_ADDRESS, HEAP_START_ADDRESS};

verus! {

/// Borrow-state sentinel used when data is mutably borrowed.
pub const MUTABLY_BORROWED: u8 = 255;

/// Borrow-state value representing the maximum number of immutable borrows.
pub const MAX_IMMUTABLE_BORROWS: u8 = 254;

/// Borrow-state value used when data is not borrowed in any form.
pub const NOT_BORROWED: u8 = 0;

/// Wrapper for values that the runtime may update behind the program's back
/// (read and written with volatile loads and stores).
#[derive(Copy)]
pub struct Volatile<T: Copy>(T);

impl<T: Copy> Clone for Volatile<T> {
    fn clone(&self) -> (r: Self)
        ensures
            r == *self,
    {
        Volatile(self.0)
    }
}

impl<T: Copy> View for Volatile<T> {
    type V = T;

    closed spec fn view(&self) -> T {
        self.0
    }
}

impl<T: Copy> Volatile<T> {
    /// Creates a volatile wrapper around a `T` value.
    pub fn new(value: T) -> (r: Self)
        ensures
            r@ == value,
    {
        Volatile(value)
    }

    /// Reads the value.
    pub fn get(&self) -> (r: T)
        ensures
            r == self@,
    {
        self.0
    }

    /// Writes `value`.
    pub fn set(&mut self, value: T)
        ensures
            final(self)@ == value,
    {
        self.0 = value;
    }
}

/// The borrow-state bytes kept at the start of the heap region
/// ([`HEAP_ADDRESS`], [`BORROW_FLAGS_SIZE`] bytes), and, where a program
/// makes static allocations, the heap bytes past them that hold the
/// allocations' borrow words.
///
/// Each byte tracks the borrows of one piece of runtime data (an account's
/// data, a sysvar, the CPI parameters, the return data or a static
/// allocation):
/// [`NOT_BORROWED`], a count of immutable borrows up to
/// [`MAX_IMMUTABLE_BORROWS`], or [`MUTABLY_BORROWED`].
pub struct BorrowFlags {
    states: Vec<u8>,
}

impl View for BorrowFlags {
    type V = Seq<u8>;

    closed spec fn view(&self) -> Seq<u8> {
        self.states@
    }
}

impl BorrowFlags {
    /// Whether the region holds a state byte at `address`.
    pub open spec fn has_state(self, address: int) -> bool {
        HEAP_ADDRESS <= address < HEAP_ADDRESS + self@.len()
    }

    /// The state byte at `address`.
    pub open spec fn state(self, address: int) -> u8 {
        self@[address - HEAP_ADDRESS]
    }

    /// The region as the runtime hands it over: [`BORROW_FLAGS_SIZE`] bytes,
    /// every one [`NOT_BORROWED`].
    pub fn new() -> (r: Self)
        ensures
            r@.len() == BORROW_FLAGS_SIZE,
            forall|i: int| 0 <= i < BORROW_FLAGS_SIZE ==> r@[i] == NOT_BORROWED,
    {
        let mut states: Vec<u8> = Vec::new();
        while states.len() < BORROW_FLAGS_SIZE
            invariant
                states@.len() <= BORROW_FLAGS_SIZE,
                forall|i: int| 0 <= i < states@.len() ==> states@[i] == NOT_BORROWED,
            decreases BORROW_FLAGS_SIZE - states@.len(),
        {
            states.push(NOT_BORROWED);
        }
        BorrowFlags { states }
    }

    /// The first `len` bytes of the heap, every one [`NOT_BORROWED`]: the
    /// borrow-state bytes and, past them, the heap that holds the borrow
    /// words of static allocations.
    pub fn with_len(len: usize) -> (r: Self)
        ensures
            r@.len() == len,
            forall|i: int| 0 <= i < len ==> r@[i] == NOT_BORROWED,
    {
        let mut states: Vec<u8> = Vec::new();
        while states.len() < len
            invariant
                states@.len() <= len,
                forall|i: int| 0 <= i < states@.len() ==> states@[i] == NOT_BORROWED,
            decreases len - states@.len(),
        {
            states.push(NOT_BORROWED);
        }
        BorrowFlags { states }
    }

    /// Reads the state byte at `address`.
    pub fn get(&self, address: u64) -> (r: u8)
        requires
            self.has_state(address as int),
        ensures
            r == self.state(address as int),
    {
        // The length of a vector fits in a `usize`, so the offset does too.
        let _len = self.states.len();
        self.states[(address - HEAP_ADDRESS) as usize]
    }

    /// Writes the state byte at `address`.
    pub fn set(&mut self, address: u64, value: u8)
        requires
            old(self).has_state(address as int),
        ensures
            final(self)@ == old(self)@.update(address - HEAP_ADDRESS, value),
    {
        // The length of a vector fits in a `usize`, so the offset does too.
        let _len = self.states.len();
        let offset = (address - HEAP_ADDRESS) as usize;
        self.states.set(offset, value);
    }
}

/// Once a state byte is marked mutably borrowed, neither an immutable nor a
/// mutable borrow of that data is granted, no other state byte changed, and
/// releasing the borrow brings the region back to what it was.
pub proof fn lemma_mutable_borrow_is_exclusive(before: BorrowFlags, after: Seq<u8>, address: int)
    requires
        before.has_state(address),
        before.state(address) == NOT_BORROWED,
        after == before@.update(address - HEAP_ADDRESS, MUTABLY_BORROWED),
    ensures
        !(after[address - HEAP_ADDRESS] < MAX_IMMUTABLE_BORROWS),
        after[address - HEAP_ADDRESS] != NOT_BORROWED,
        forall|other: int|
            0 <= other < before@.len() && other != address - HEAP_ADDRESS ==> after[other]
                == before@[other],
        after.update(address - HEAP_ADDRESS, NOT_BORROWED) == before@,
{
    assert(after.update(address - HEAP_ADDRESS, NOT_BORROWED) =~= before@);
}

/// While data is immutably borrowed, no mutable borrow of it is granted; no
/// other state byte changed, and releasing the borrow brings the region
/// back to what it was.
pub proof fn lemma_immutable_borrow_excludes_mutable(
    before: BorrowFlags,
    after: Seq<u8>,
    address: int,
)
    requires
        before.has_state(address),
        before.state(address) < MAX_IMMUTABLE_BORROWS,
        after == before@.update(address - HEAP_ADDRESS, (before.state(address) + 1) as u8),
    ensures
        after[address - HEAP_ADDRESS] != NOT_BORROWED,
        after[address - HEAP_ADDRESS] != MUTABLY_BORROWED,
        forall|other: int|
            0 <= other < before@.len() && other != address - HEAP_ADDRESS ==> after[other]
                == before@[other],
        after.update(address - HEAP_ADDRESS, (after[address - HEAP_ADDRESS] - 1) as u8)
            == before@,
{
    assert(after.update(address - HEAP_ADDRESS, (after[address - HEAP_ADDRESS] - 1) as u8)
        =~= before@);
}

/// A shared borrow of runtime data, counted in the state byte at
/// [`Ref::state`].
///
/// The borrow is given back with [`Ref::release`], which decrements the
/// count.
pub struct Ref<'value, T: ?Sized> {
    value: &'value T,
    state: u64,
}

impl<'value, T: ?Sized> Ref<'value, T> {
    /// The borrowed value.
    pub closed spec fn value(&self) -> &'value T {
        self.value
    }

    /// Address of the borrow-state byte that counts this borrow.
    pub closed spec fn state(&self) -> u64 {
        self.state
    }

    /// Creates a guard from its parts; the state byte is left as it is.
    pub(crate) fn new_shared(value: &'value T, state: u64) -> (r: Self)
        ensures
            r.value() == value,
            r.state() == state,
    {
        Ref { value, state }
    }

    /// Maps this guard to a component of `T`.
    pub fn map<U: ?Sized, F: FnOnce(&'value T) -> &'value U>(orig: Ref<'value, T>, f: F) -> (r:
        Ref<'value, U>)
        requires
            f.requires((orig.value(),)),
        ensures
            f.ensures((orig.value(),), r.value()),
            r.state() == orig.state(),
    {
        Ref { value: f(orig.value), state: orig.state }
    }

    /// Tries to make a new guard for a component of `T`; on failure the
    /// guard passed in comes back with the error.
    pub fn try_map<U: ?Sized, E, F: FnOnce(&'value T) -> Result<&'value U, E>>(
        orig: Ref<'value, T>,
        f: F,
    ) -> (r: Result<Ref<'value, U>, (Self, E)>)
        requires
            f.requires((orig.value(),)),
        ensures
            match r {
                Ok(mapped) => f.ensures((orig.value(),), Ok(mapped.value())) && mapped.state()
                    == orig.state(),
                Err((back, e)) => f.ensures((orig.value(),), Err(e)) && back == orig,
            },
    {
        let value = orig.value;
        match f(value) {
            Ok(v) => Ok(Ref { value: v, state: orig.state }),
            Err(e) => Err((orig, e)),
        }
    }

    /// Maps this guard to a component of `T` if the closure returns one; on
    /// failure the guard passed in comes back.
    pub fn filter_map<U: ?Sized, F: FnOnce(&'value T) -> Option<&'value U>>(
        orig: Ref<'value, T>,
        f: F,
    ) -> (r: Result<Ref<'value, U>, Self>)
        requires
            f.requires((orig.value(),)),
        ensures
            match r {
                Ok(mapped) => f.ensures((orig.value(),), Some(mapped.value())) && mapped.state()
                    == orig.state(),
                Err(back) => f.ensures((orig.value(),), None) && back == orig,
            },
    {
        let value = orig.value;
        match f(value) {
            Some(v) => Ok(Ref { value: v, state: orig.state }),
            None => Err(orig),
        }
    }

    /// The borrowed value.
    pub fn deref(&self) -> (r: &T)
        ensures
            r == self.value(),
    {
        self.value
    }

    /// Gives the borrow back: decrements the count of shared borrows in the
    /// state byte.
    pub fn release(self, flags: &mut BorrowFlags)
        requires
            old(flags).has_state(self.state() as int),
            old(flags).state(self.state() as int) > NOT_BORROWED,
        ensures
            final(flags)@ == old(flags)@.update(
                self.state() - HEAP_ADDRESS,
                (old(flags).state(self.state() as int) - 1) as u8,
            ),
    {
        let current = flags.get(self.state);
        flags.set(self.state, current - 1);
    }
}


/// An exclusive borrow of runtime data, marked by [`MUTABLY_BORROWED`] in
/// the state byte at [`RefMut::state`].
///
/// The borrow is given back with [`RefMut::release`], which clears the
/// state byte.
pub struct RefMut<'value, T: ?Sized> {
    value: &'value mut T,
    state: u64,
}

impl<'value, T: ?Sized> RefMut<'value, T> {
    /// The borrowed value.
    pub closed spec fn value(&self) -> &'value mut T {
        self.value
    }

    /// Address of the borrow-state byte that marks this borrow.
    pub closed spec fn state(&self) -> u64 {
        self.state
    }

    /// Creates a guard from its parts; the state byte is left as it is.
    pub fn new_unchecked(value: &'value mut T, state: u64) -> (r: Self)
        ensures
            &*r.value() == &*old(value),
            &*final(value) == &*final(r.value()),
            r.state() == state,
    {
        RefMut { value, state }
    }

    /// Maps this guard to a component of `T`: the closure is called on the
    /// borrowed value, and the new guard borrows what it returns, under the
    /// same state byte.
    pub fn map<U: ?Sized, F: FnOnce(&'value mut T) -> &'value mut U>(
        orig: RefMut<'value, T>,
        f: F,
    ) -> (r: RefMut<'value, U>)
        requires
            forall|x: &'value mut T| &*x == &*orig.value() ==> f.requires((x,)),
        ensures
            exists|x: &'value mut T, y: &'value mut U|
                #[trigger] f.ensures((x,), y)
                    && &*x == &*orig.value()
                    && &*final(x) == &*final(orig.value())
                    && &*y == &*r.value()
                    && &*final(y) == &*final(r.value()),
            r.state() == orig.state(),
    {
        let RefMut { value, state } = orig;
        let mapped = f(value);
        RefMut { value: mapped, state }
    }

    /// Tries to make a new guard for a component of `T`: the closure is
    /// called on the borrowed value; on success the new guard borrows what it
    /// returns, on failure the guard comes back over the borrow the closure
    /// hands back, with the error.
    pub fn try_map<U: ?Sized, E, F: FnOnce(&'value mut T) -> Result<&'value mut U, (&'value mut T, E)>>(
        orig: RefMut<'value, T>,
        f: F,
    ) -> (r: Result<RefMut<'value, U>, (Self, E)>)
        requires
            forall|x: &'value mut T| &*x == &*orig.value() ==> f.requires((x,)),
            forall|x: &'value mut T, res: Result<&'value mut U, (&'value mut T, E)>|
                #[trigger] f.ensures((x,), res) ==> (res matches Err((y, _)) ==> &*final(y)
                    == &*final(x)),
        ensures
            match r {
                Ok(mapped) => {
                    &&& mapped.state() == orig.state()
                    &&& exists|x: &'value mut T, res: Result<&'value mut U, (&'value mut T, E)>|
                        #[trigger] f.ensures((x,), res)
                            && &*x == &*orig.value()
                            && &*final(x) == &*final(orig.value())
                            && (res matches Ok(y) && &*y == &*mapped.value() && &*final(y)
                                == &*final(mapped.value()))
                },
                Err((back, e)) => {
                    &&& back.state() == orig.state()
                    &&& &*final(back.value()) == &*final(orig.value())
                    &&& exists|x: &'value mut T, res: Result<&'value mut U, (&'value mut T, E)>|
                        #[trigger] f.ensures((x,), res)
                            && &*x == &*orig.value()
                            && &*final(x) == &*final(orig.value())
                            && (res matches Err((y, e2)) && e2 == e && &*y == &*back.value()
                                && &*final(y) == &*final(back.value()))
                },
            },
    {
        let RefMut { value, state } = orig;
        match f(value) {
            Ok(v) => Ok(RefMut { value: v, state }),
            Err((back, e)) => Err((RefMut { value: back, state }, e)),
        }
    }

    /// Maps this guard to a component of `T` if the closure finds one; on
    /// failure the closure hands the borrow back and the guard passed in
    /// comes back.
    pub fn filter_map<U: ?Sized, F: FnOnce(&'value mut T) -> Result<&'value mut U, &'value mut T>>(
        orig: RefMut<'value, T>,
        f: F,
    ) -> (r: Result<RefMut<'value, U>, Self>)
        requires
            forall|x: &'value mut T| &*x == &*orig.value() ==> f.requires((x,)),
            forall|x: &'value mut T, res: Result<&'value mut U, &'value mut T>|
                #[trigger] f.ensures((x,), res) ==> (res matches Err(y) ==> &*final(y)
                    == &*final(x)),
        ensures
            match r {
                Ok(mapped) => {
                    &&& mapped.state() == orig.state()
                    &&& exists|x: &'value mut T, y: &'value mut U|
                        #[trigger] f.ensures((x,), Ok(y))
                            && &*x == &*orig.value()
                            && &*final(x) == &*final(orig.value())
                            && &*y == &*mapped.value()
                            && &*final(y) == &*final(mapped.value())
                },
                Err(back) => {
                    &&& back.state() == orig.state()
                    &&& &*final(back.value()) == &*final(orig.value())
                    &&& exists|x: &'value mut T, y: &'value mut T|
                        #[trigger] f.ensures((x,), Err(y))
                            && &*x == &*orig.value()
                            && &*final(x) == &*final(orig.value())
                            && &*y == &*back.value()
                            && &*final(y) == &*final(back.value())
                },
            },
    {
        let RefMut { value, state } = orig;
        match f(value) {
            Ok(v) => Ok(RefMut { value: v, state }),
            Err(back) => Err(RefMut { value: back, state }),
        }
    }

    /// The borrowed value.
    pub fn deref(&self) -> (r: &T)
        ensures
            r == &*self.value(),
    {
        &*self.value
    }

    /// The borrowed value, for writing; what is written lands in the
    /// borrowed value.
    pub fn deref_mut(&mut self) -> (r: &mut T)
        ensures
            &*r == &*old(self).value(),
            &*final(self).value() == &*final(r),
            &*final(final(self).value()) == &*final(old(self).value()),
            final(self).state() == old(self).state(),
    {
        self.value
    }

    /// Gives the borrow back: clears the state byte.
    pub fn release(self, flags: &mut BorrowFlags)
        requires
            old(flags).has_state(self.state() as int),
        ensures
            final(flags)@ == old(flags)@.update(self.state() - HEAP_ADDRESS, NOT_BORROWED),
            has_resolved(self.value()),
    {
        flags.set(self.state, NOT_BORROWED);
    }
}

impl<'value, T> RefMut<'value, T> {
    /// Creates a guard over `value`; the state byte is left as it is.
    pub(crate) fn new_value(value: &'value mut T, state: u64) -> (r: Self)
        ensures
            *r.value() == *old(value),
            *final(value) == *final(r.value()),
            r.state() == state,
    {
        RefMut { value, state }
    }

    /// The borrowed value.
    pub fn get(&self) -> (r: &T)
        ensures
            *r == *self.value(),
    {
        &*self.value
    }

    /// The borrowed value, for writing; what is written lands in the
    /// borrowed value.
    pub fn get_mut(&mut self) -> (r: &mut T)
        ensures
            *r == *old(self).value(),
            *final(self).value() == *final(r),
            *final(final(self).value()) == *final(old(self).value()),
            final(self).state() == old(self).state(),
    {
        self.value
    }
}

impl<'value> RefMut<'value, [u8]> {
    /// Creates a guard over `value`; the state byte is left as it is.
    pub(crate) fn new_bytes(value: &'value mut [u8], state: u64) -> (r: Self)
        ensures
            r.value()@ == old(value)@,
            final(value)@ == final(r.value())@,
            r.state() == state,
    {
        RefMut { value, state }
    }

    /// The borrowed bytes.
    pub fn as_slice(&self) -> (r: &[u8])
        ensures
            r@ == self.value()@,
    {
        &*self.value
    }

    /// The borrowed bytes, for writing; what is written lands in the
    /// borrowed data.
    pub fn as_mut_slice(&mut self) -> (r: &mut [u8])
        ensures
            r@ == old(self).value()@,
            final(r)@ == final(self).value()@,
            final(self).state() == old(self).state(),
            final(final(self).value())@ == final(old(self).value())@,
    {
        self.value
    }
}

} // verus!
