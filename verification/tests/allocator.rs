use abiv2::entrypoint::allocator::MAX_HEAP_LENGTH;
use abiv2::entrypoint::BumpAllocator;
use abiv2::entrypoint::static_alloc::StaticAllocator;
use abiv2::error::ProgramError;
use abiv2::{BorrowFlags, HEAP_ADDRESS, HEAP_START_ADDRESS, MUTABLY_BORROWED, NOT_BORROWED};

const START: usize = 0x300001000;

#[test]
fn first_allocation_starts_after_the_position_word() {
    let allocator = BumpAllocator::new_unchecked(START, 1024);
    let mut position = 0usize;
    let address = allocator.allocate(&mut position, 16, 8);
    assert_eq!(address, START + 8);
    assert_eq!(position, START + 24);
}

#[test]
fn allocations_are_aligned_and_do_not_overlap() {
    let allocator = BumpAllocator::new_unchecked(START, 4096);
    let mut position = 0usize;
    let first = allocator.allocate(&mut position, 3, 1);
    let second = allocator.allocate(&mut position, 10, 16);
    let third = allocator.allocate(&mut position, 1, 64);
    assert_eq!(first, START + 8);
    assert_eq!(second, START + 16);
    assert_eq!(third, START + 64);
    assert!(first + 3 <= second && second + 10 <= third);
    assert_eq!(position, START + 65);
}

#[test]
fn allocation_fails_past_the_end() {
    let allocator = BumpAllocator::new_unchecked(START, 32);
    let mut position = 0usize;
    assert_eq!(allocator.allocate(&mut position, 24, 8), START + 8);
    assert_eq!(allocator.allocate(&mut position, 1, 1), 0);
    assert_eq!(position, START + 32);
}

#[test]
fn allocation_fails_above_the_heap_limit() {
    let allocator = BumpAllocator::new_unchecked(START, 1 << 20);
    let mut position = 0usize;
    assert_eq!(allocator.allocate(&mut position, MAX_HEAP_LENGTH as usize + 1, 8), 0);
    assert_eq!(position, 0);
    assert_ne!(allocator.allocate(&mut position, MAX_HEAP_LENGTH as usize, 8), 0);
}

#[test]
fn zeroed_allocation_behaves_like_allocate() {
    let allocator = BumpAllocator::new_unchecked(START, 64);
    let mut position = 0usize;
    assert_eq!(allocator.alloc_zeroed(&mut position, 8, 8), START + 8);
    assert_eq!(position, START + 16);
}

#[test]
fn static_allocations_are_laid_out_in_order() {
    let layout = StaticAllocator::new(&[5000, 8, 4]).unwrap();
    assert_eq!(
        layout.allocations,
        vec![
            (0x3_0000_1000, 0x3_0000_1008),
            (0x3_0000_2390, 0x3_0000_2398),
            (0x3_0000_23a0, 0x3_0000_23a8),
        ]
    );
    assert_eq!(layout.start, 0x3_0000_23b0);
    assert_eq!(layout.len, 256 * 1024 - 5040);
}

#[test]
fn static_allocations_without_values_leave_the_whole_heap() {
    let layout = StaticAllocator::new(&[]).unwrap();
    assert!(layout.allocations.is_empty());
    assert_eq!(layout.start, HEAP_START_ADDRESS);
    assert_eq!(layout.len, 256 * 1024);
}

#[test]
fn static_allocations_must_fit_in_the_heap() {
    let full = StaticAllocator::new(&[256 * 1024 - 8]).unwrap();
    assert_eq!(full.len, 0);
    assert_eq!(full.start, HEAP_START_ADDRESS + 256 * 1024);
    assert!(StaticAllocator::new(&[256 * 1024 - 7]).is_none());
    assert!(StaticAllocator::new(&[256 * 1024, 1]).is_none());
    assert!(StaticAllocator::new(&[usize::MAX]).is_none());
}

#[test]
fn static_allocation_borrows_are_exclusive() {
    let layout = StaticAllocator::new(&[8, 4]).unwrap();
    let mut flags = BorrowFlags::with_len(4096 + 64);
    let mut counter = 5u64;
    let state = layout.allocations[0].0;
    {
        let mut guard = layout.borrow_mut(0, &mut counter, &mut flags).unwrap();
        assert_eq!(flags.get(state), MUTABLY_BORROWED);
        *guard.get_mut() = 6;
        let mut other = 0u64;
        assert!(matches!(layout.borrow_mut(0, &mut other, &mut flags), Err(ProgramError::InvalidArgument)));
        assert_eq!(flags.get(HEAP_ADDRESS + 4096 + 16), NOT_BORROWED);
        guard.release(&mut flags);
    }
    assert_eq!(counter, 6);
    assert_eq!(flags.get(state), NOT_BORROWED);
    let mut value = 1u32;
    let guard = layout.borrow_mut(1, &mut value, &mut flags).unwrap();
    assert_eq!(*guard.get(), 1);
    guard.release(&mut flags);
}
