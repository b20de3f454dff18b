//! Static allocations laid out at the start of the program heap.
//!
//! A program can reserve values of fixed size at the start of the heap.
//! Each allocation takes a borrow-state word, aligned to 8 bytes, followed
//! by its value; the bump allocator gets the rest of the heap.
use crate::entrypoint::allocator::{align_up, lemma_align_up, MAX_HEAP_LENGTH};
use crate::error::ProgramError;
use crate::memory::{HEAP_ADDRESS, HEAP_START_ADDRESS};
use crate::{BorrowFlags, RefMut, MUTABLY_BORROWED, NOT_BORROWED};
use vstd::prelude::*;

verus! {

/// Alignment of each static allocation, and size of its borrow-state word.
pub const STATIC_ALIGN: u64 = 8;

/// Where the next allocation would start after the first `n` allocations of
/// `sizes` bytes.
pub open spec fn static_end(sizes: Seq<usize>, n: nat) -> int
    decreases n,
{
    if n == 0 {
        HEAP_START_ADDRESS as int
    } else {
        align_up(static_end(sizes, (n - 1) as nat), STATIC_ALIGN as int) + STATIC_ALIGN + sizes[n
            - 1]
    }
}

/// Address of the borrow-state word of allocation `i`.
pub open spec fn static_state(sizes: Seq<usize>, i: int) -> int {
    align_up(static_end(sizes, i as nat), STATIC_ALIGN as int)
}

/// Address of the value of allocation `i`.
pub open spec fn static_value(sizes: Seq<usize>, i: int) -> int {
    static_state(sizes, i) + STATIC_ALIGN
}

/// Number of heap bytes that the static allocations take, up to the next
/// multiple of the alignment.
pub open spec fn static_len(sizes: Seq<usize>) -> int {
    align_up(static_end(sizes, sizes.len()), STATIC_ALIGN as int) - HEAP_START_ADDRESS
}

/// The layout of the static allocations and of the heap left for the bump
/// allocator.
pub struct StaticAllocator {
    /// Start of the heap left for the bump allocator.
    pub start: u64,
    /// Length of the heap left for the bump allocator.
    pub len: u64,
    /// For each allocation, the address of its borrow-state word and the
    /// address of its value.
    pub allocations: Vec<(u64, u64)>,
}

/// Later allocations never start before earlier ones end, and none starts
/// before the heap.
proof fn lemma_static_end_monotonic(sizes: Seq<usize>, a: nat, b: nat)
    requires
        a <= b <= sizes.len(),
    ensures
        HEAP_START_ADDRESS <= static_end(sizes, a) <= static_end(sizes, b),
    decreases b,
{
    if b > 0 {
        if a < b {
            lemma_static_end_monotonic(sizes, a, (b - 1) as nat);
        } else {
            lemma_static_end_monotonic(sizes, (b - 1) as nat, (b - 1) as nat);
        }
        lemma_align_up(static_end(sizes, (b - 1) as nat), STATIC_ALIGN as int);
    }
}

impl StaticAllocator {
    /// Lays out allocations of `sizes` bytes from the start of the heap:
    /// `None` when they take more than [`MAX_HEAP_LENGTH`] bytes, else the
    /// address of each allocation's borrow-state word and value, and the
    /// rest of the heap, up to [`MAX_HEAP_LENGTH`] bytes in all.
    pub fn new(sizes: &[usize]) -> (r: Option<StaticAllocator>)
        ensures
            r is None <==> static_len(sizes@) > MAX_HEAP_LENGTH,
            r matches Some(layout) ==> {
                &&& layout.start == HEAP_START_ADDRESS + static_len(sizes@)
                &&& layout.len == MAX_HEAP_LENGTH - static_len(sizes@)
                &&& layout.allocations@.len() == sizes@.len()
                &&& forall|i: int|
                    0 <= i < sizes@.len() ==> #[trigger] layout.allocations@[i] == (
                        static_state(sizes@, i) as u64,
                        static_value(sizes@, i) as u64,
                    )
            },
    {
        let limit: u64 = HEAP_START_ADDRESS + MAX_HEAP_LENGTH as u64;
        let mut end: u64 = HEAP_START_ADDRESS;
        let mut allocations: Vec<(u64, u64)> = Vec::new();
        let mut i: usize = 0;
        while i < sizes.len()
            invariant
                i <= sizes@.len(),
                end == static_end(sizes@, i as nat),
                HEAP_START_ADDRESS <= end <= limit,
                limit == HEAP_START_ADDRESS + MAX_HEAP_LENGTH,
                allocations@.len() == i,
                forall|k: int|
                    0 <= k < i ==> #[trigger] allocations@[k] == (
                        static_state(sizes@, k) as u64,
                        static_value(sizes@, k) as u64,
                    ),
            decreases sizes@.len() - i,
        {
            proof {
                lemma_align_up(end as int, STATIC_ALIGN as int);
                lemma_static_end_monotonic(sizes@, (i + 1) as nat, sizes@.len());
                lemma_align_up(static_end(sizes@, sizes@.len()), STATIC_ALIGN as int);
            }
            let boundary = (end + STATIC_ALIGN - 1) / STATIC_ALIGN * STATIC_ALIGN;
            if sizes[i] as u64 > MAX_HEAP_LENGTH as u64 {
                return None;
            }
            let next = boundary + STATIC_ALIGN + sizes[i] as u64;
            if next > limit {
                return None;
            }
            allocations.push((boundary, boundary + STATIC_ALIGN));
            end = next;
            i += 1;
        }
        proof {
            lemma_align_up(end as int, STATIC_ALIGN as int);
        }
        let used = (end + STATIC_ALIGN - 1) / STATIC_ALIGN * STATIC_ALIGN - HEAP_START_ADDRESS;
        if used > MAX_HEAP_LENGTH as u64 {
            return None;
        }
        Some(
            StaticAllocator {
                start: HEAP_START_ADDRESS + used,
                len: MAX_HEAP_LENGTH as u64 - used,
                allocations,
            },
        )
    }
}

impl StaticAllocator {
    /// Borrows `value`, the value of static allocation `index`, mutably:
    /// fails with `InvalidArgument` if the allocation's borrow word is set,
    /// else marks it [`MUTABLY_BORROWED`] and returns a guard over the
    /// value that clears the word when released.
    pub fn borrow_mut<'a, T>(&self, index: usize, value: &'a mut T, flags: &mut BorrowFlags) -> (r:
        Result<RefMut<'a, T>, ProgramError>)
        requires
            index < self.allocations@.len(),
            old(flags).has_state(self.allocations@[index as int].0 as int),
        ensures
            ({
                let state = self.allocations@[index as int].0;
                let before = old(flags).state(state as int);
                match r {
                    Ok(guard) => {
                        &&& before == NOT_BORROWED
                        &&& final(flags)@ == old(flags)@.update(
                            state - HEAP_ADDRESS,
                            MUTABLY_BORROWED,
                        )
                        &&& *guard.value() == *old(value)
                        &&& *final(value) == *final(guard.value())
                        &&& guard.state() == state
                    },
                    Err(e) => {
                        &&& before != NOT_BORROWED
                        &&& e == ProgramError::InvalidArgument
                        &&& final(flags)@ == old(flags)@
                        &&& *final(value) == *old(value)
                    },
                }
            }),
    {
        let state = self.allocations[index].0;
        if flags.get(state) != NOT_BORROWED {
            return Err(ProgramError::InvalidArgument);
        }
        flags.set(state, MUTABLY_BORROWED);
        Ok(RefMut::new_value(value, state))
    }
}

/// Static allocations are aligned, lie in the heap in the order given, do
/// not overlap, and end before the heap left for the bump allocator.
pub proof fn lemma_static_allocations_disjoint(sizes: Seq<usize>, i: int, j: int)
    requires
        0 <= i < j < sizes.len(),
    ensures
        static_state(sizes, i) % STATIC_ALIGN as int == 0,
        HEAP_START_ADDRESS <= static_state(sizes, i),
        static_value(sizes, i) + sizes[i] <= static_state(sizes, j),
        static_value(sizes, j) + sizes[j] <= HEAP_START_ADDRESS + static_len(sizes),
{
    lemma_static_end_monotonic(sizes, 0, i as nat);
    lemma_align_up(static_end(sizes, i as nat), STATIC_ALIGN as int);
    lemma_static_end_monotonic(sizes, (i + 1) as nat, j as nat);
    lemma_align_up(static_end(sizes, j as nat), STATIC_ALIGN as int);
    lemma_static_end_monotonic(sizes, (j + 1) as nat, sizes.len());
    lemma_align_up(static_end(sizes, sizes.len()), STATIC_ALIGN as int);
}

} // verus!
