//! The bump allocator that serves as a program's heap.
use crate::hint::unlikely;
use vstd::prelude::*;

verus! {

/// Maximum heap length in bytes that a program can request.
pub const MAX_HEAP_LENGTH: u32 = 256 * 1024;

/// Whether `align` is a power of two (as every `Layout` alignment is).
pub open spec fn is_power_of_two(align: usize) -> bool {
    align != 0 && align & ((align - 1) as usize) == 0
}

/// The smallest multiple of `align` that is at least `position`.
pub open spec fn align_up(position: int, align: int) -> int {
    (position + align - 1) / align * align
}

/// For a power of two `align`, masking with `align - 1` keeps the remainder
/// of the division by `align`.
proof fn lemma_low_mask_is_mod(x: usize, align: usize)
    requires
        is_power_of_two(align),
    ensures
        x & ((align - 1) as usize) == x % align,
    decreases align,
{
    if align == 1 {
        assert(x & 0usize == 0usize) by (bit_vector);
    } else {
        let half = align >> 1;
        assert(half != 0 && half & ((half - 1) as usize) == 0 && align == half * 2) by (bit_vector)
            requires
                align != 0,
                align & ((align - 1) as usize) == 0,
                align != 1,
                half == align >> 1,
        ;
        lemma_low_mask_is_mod(x / 2, half);
        assert(x & ((align - 1) as usize) == 2 * ((x / 2) & ((half - 1) as usize)) + x % 2)
            by (bit_vector)
            requires
                align == half * 2,
                half != 0,
        ;
        vstd::arithmetic::div_mod::lemma_mod_breakdown(x as int, 2, half as int);
    }
}

/// Rounding a position up to a power of two by masking gives the smallest
/// multiple of the alignment at or above the position.
proof fn lemma_mask_rounds_up(position: usize, align: usize)
    requires
        is_power_of_two(align),
        position + align - 1 <= usize::MAX,
    ensures
        ((position + align - 1) as usize) & !((align - 1) as usize) == align_up(
            position as int,
            align as int,
        ),
{
    let x = (position + align - 1) as usize;
    let m = (align - 1) as usize;
    assert(x & !m == x - (x & m)) by (bit_vector);
    lemma_low_mask_is_mod(x, align);
    vstd::arithmetic::div_mod::lemma_fundamental_div_mod(x as int, align as int);
    assert(x - x % align == (x as int / align as int) * align) by (nonlinear_arith)
        requires
            x == align * (x as int / align as int) + x % align,
    ;
}

/// The bump allocator used as the default heap when running programs.
///
/// Memory is allocated by moving a position forward through the region
/// `[start, end)`. The position is kept in the first word of the region and
/// is zero before the first allocation.
#[derive(Clone, Debug)]
pub struct BumpAllocator {
    start: usize,
    end: usize,
}

impl BumpAllocator {
    /// Start of the region.
    pub closed spec fn start(&self) -> usize {
        self.start
    }

    /// End of the region.
    pub closed spec fn end(&self) -> usize {
        self.end
    }

    /// Where allocation continues from a stored position: after the stored
    /// position word on the first allocation, else at the stored position.
    pub open spec fn next_position(&self, position: usize) -> int {
        if position == 0 {
            self.start() + vstd::layout::size_of::<usize>()
        } else {
            position as int
        }
    }

    /// The address an allocation aligned to `align` gets when the stored
    /// position is `position`.
    pub open spec fn allocation(&self, position: usize, align: usize) -> int {
        align_up(self.next_position(position), align as int)
    }

    /// Whether an allocation of `size` bytes aligned to `align` is granted
    /// when the stored position is `position`.
    pub open spec fn fits(&self, position: usize, size: usize, align: usize) -> bool {
        size <= MAX_HEAP_LENGTH && self.allocation(position, align) + size <= self.end()
    }

    /// Creates the allocator for the region of `len` bytes at `start`.
    pub fn new_unchecked(start: usize, len: usize) -> (r: Self)
        requires
            start + len <= usize::MAX,
        ensures
            r.start() == start,
            r.end() == start + len,
    {
        BumpAllocator { start, end: start + len }
    }

    /// Allocates `size` bytes aligned to `align`: returns the address of
    /// the allocation and moves `position` past it, or returns `0` and
    /// leaves `position` alone when the size exceeds [`MAX_HEAP_LENGTH`] or
    /// the allocation does not fit before the end of the region.
    ///
    /// `position` is the word stored at the start of the region.
    pub fn allocate(&self, position: &mut usize, size: usize, align: usize) -> (r: usize)
        requires
            is_power_of_two(align),
            self.start() + vstd::layout::size_of::<usize>() <= usize::MAX,
            self.next_position(*old(position)) + align - 1 + MAX_HEAP_LENGTH <= usize::MAX,
        ensures
            self.fits(*old(position), size, align) ==> r == self.allocation(*old(position), align)
                && *final(position) == r + size,
            !self.fits(*old(position), size, align) ==> r == 0 && *final(position)
                == *old(position),
    {
        let mut pos = *position;
        if unlikely(pos == 0) {
            pos = self.start + core::mem::size_of::<usize>();
        }
        proof {
            lemma_mask_rounds_up(pos, align);
            lemma_align_up(pos as int, align as int);
        }
        let allocation = (pos + align - 1) & !(align - 1);
        if unlikely(size > MAX_HEAP_LENGTH as usize) || unlikely(self.end < allocation + size) {
            return 0;
        }
        *position = allocation + size;
        allocation
    }

    /// Behaves like [`BumpAllocator::allocate`]; the runtime hands over the
    /// heap zeroed, so the memory is already zero.
    pub fn alloc_zeroed(&self, position: &mut usize, size: usize, align: usize) -> (r: usize)
        requires
            is_power_of_two(align),
            self.start() + vstd::layout::size_of::<usize>() <= usize::MAX,
            self.next_position(*old(position)) + align - 1 + MAX_HEAP_LENGTH <= usize::MAX,
        ensures
            self.fits(*old(position), size, align) ==> r == self.allocation(*old(position), align)
                && *final(position) == r + size,
            !self.fits(*old(position), size, align) ==> r == 0 && *final(position)
                == *old(position),
    {
        self.allocate(position, size, align)
    }
}

/// An allocator that denies dynamic memory allocations: a program that
/// installs it as its heap stops at its first request for heap memory.
#[derive(Clone, Debug)]
pub struct DenyAllocator;

/// The allocation `align_up(p, a)` is aligned and lies in `[p, p + a)`.
pub proof fn lemma_align_up(position: int, align: int)
    requires
        position >= 0,
        align > 0,
    ensures
        align_up(position, align) % align == 0,
        position <= align_up(position, align) < position + align,
{
    let x = position + align - 1;
    vstd::arithmetic::div_mod::lemma_fundamental_div_mod(x, align);
    vstd::arithmetic::div_mod::lemma_mod_pos_bound(x, align);
    vstd::arithmetic::div_mod::lemma_mod_multiples_basic(x / align, align);
    assert(x / align * align == align * (x / align)) by (nonlinear_arith);
}

/// A granted allocation is non-zero (so `0` only ever signals failure),
/// aligned, at or after the stored position and ends before the end of the
/// region.
pub proof fn lemma_allocation_in_region(
    allocator: BumpAllocator,
    position: usize,
    size: usize,
    align: usize,
)
    requires
        is_power_of_two(align),
        allocator.fits(position, size, align),
    ensures
        allocator.allocation(position, align) != 0,
        allocator.allocation(position, align) % align as int == 0,
        allocator.next_position(position) <= allocator.allocation(position, align),
        allocator.allocation(position, align) + size <= allocator.end(),
{
    broadcast use vstd::layout::layout_of_primitives;
    lemma_align_up(allocator.next_position(position), align as int);
}

/// The bound [`BumpAllocator::allocate`] asks for holds at every position
/// the allocator reaches (none yet, or the end of an allocation inside the
/// region) when the region ends at least `align - 1` plus
/// [`MAX_HEAP_LENGTH`] bytes below the top of the address space.
pub proof fn lemma_allocate_bound(allocator: BumpAllocator, position: usize, align: usize)
    requires
        allocator.start() + vstd::layout::size_of::<usize>() <= allocator.end(),
        allocator.end() + align - 1 + MAX_HEAP_LENGTH <= usize::MAX,
        position == 0 || position <= allocator.end(),
    ensures
        allocator.start() + vstd::layout::size_of::<usize>() <= usize::MAX,
        allocator.next_position(position) + align - 1 + MAX_HEAP_LENGTH <= usize::MAX,
{
}

/// Two allocations granted one after the other lie forward of the stored
/// position and do not overlap: the second starts at or after the end of
/// the first and ends inside the region.
pub proof fn lemma_successive_allocations_disjoint(
    allocator: BumpAllocator,
    position: usize,
    first_size: usize,
    first_align: usize,
    second_size: usize,
    second_align: usize,
)
    requires
        is_power_of_two(first_align),
        is_power_of_two(second_align),
        allocator.fits(position, first_size, first_align),
        allocator.fits(
            (allocator.allocation(position, first_align) + first_size) as usize,
            second_size,
            second_align,
        ),
    ensures
        allocator.next_position(position) <= allocator.allocation(position, first_align),
        allocator.allocation(position, first_align) + first_size <= allocator.allocation(
            (allocator.allocation(position, first_align) + first_size) as usize,
            second_align,
        ),
        allocator.allocation(
            (allocator.allocation(position, first_align) + first_size) as usize,
            second_align,
        ) + second_size <= allocator.end(),
{
    lemma_allocation_in_region(allocator, position, first_size, first_align);
    let next = (allocator.allocation(position, first_align) + first_size) as usize;
    lemma_align_up(allocator.next_position(next), second_align as int);
}

} // verus!
