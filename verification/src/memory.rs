//! The runtime memory map: the fixed addresses of the regions that the
//! runtime maps for a program, and the arithmetic that locates values in
//! them.
use vstd::prelude::*;

verus! {

/// Reserved bytes for borrow flags at the start of the heap.
pub const BORROW_FLAGS_SIZE: usize = 4096;

/// Maximum number of accounts (including sysvars) in a transaction.
pub const MAX_TRANSACTION_ACCOUNTS: usize = 4088;

/// Address of the heap memory region; its first [`BORROW_FLAGS_SIZE`]
/// bytes hold borrow flags.
pub const HEAP_ADDRESS: u64 = 0x3_0000_0000;

/// Address of the heap region available to programs.
pub const HEAP_START_ADDRESS: u64 = 0x3_0000_1000;

/// Address of the runtime-managed transaction metadata region: return
/// data, then CPI parameters, then the transaction context.
pub const TRANSACTION_METADATA_ADDRESS: u64 = 0x4_0000_0000;

/// Address of the array of transaction account metadata.
pub const TRANSACTION_ACCOUNTS_ADDRESS: u64 = 0x5_0000_0000;

/// Address of the array of instruction metadata.
pub const INSTRUCTION_ADDRESS: u64 = 0x6_0000_0000;

/// Address of the transaction accounts' data payloads.
pub const TRANSACTION_ACCOUNTS_PAYLOAD_ADDRESS: u64 = 0x8_0000_0000;

/// Address of the return-data scratchpad.
pub const RETURN_DATA_ADDRESS: u64 = 0x4_0000_0000;

/// Address of the CPI parameters scratchpad.
pub const CPI_PARAMETERS_ADDRESS: u64 = 0x4_0000_0030;

/// Address of the transaction context.
pub const TRANSACTION_CONTEXT_ADDRESS: u64 = 0x4_0000_0050;

/// Length of a mapping page: the distance between two account mappings.
pub const MAPPING_PAGE_LENGTH: u64 = 0x1_0000_0000;

/// Address of element `index` of a runtime array of `T` at `base`.
pub fn element_address<T>(base: u64, index: u64) -> (r: u64)
    requires
        base + index * vstd::layout::size_of::<T>() <= u64::MAX,
    ensures
        r == base + index * vstd::layout::size_of::<T>(),
{
    let size = core::mem::size_of::<T>() as u64;
    proof {
        vstd::arithmetic::mul::lemma_mul_upper_bound(index as int, index as int, size as int, size as int);
    }
    base + index * size
}

/// Address of mapping `index` in a runtime region of mappings at `base`.
pub fn mapping_ptr(base: u64, index: u64) -> (r: u64)
    requires
        base + index * MAPPING_PAGE_LENGTH <= u64::MAX,
    ensures
        r == base + index * MAPPING_PAGE_LENGTH,
{
    base + index * MAPPING_PAGE_LENGTH
}

/// `elements` resized to `len` elements, as the runtime resizes a region on
/// a `SetBufferLength` request: the first elements are kept, elements past
/// `len` are dropped, and new elements are `fill`.
pub open spec fn resized<T>(elements: Seq<T>, len: nat, fill: T) -> Seq<T> {
    Seq::new(len, |i: int| if i < elements.len() { elements[i] } else { fill })
}

/// A runtime-provided region of `T` values: where it is mapped and what it
/// holds.
///
/// The runtime may change the length through a `SetBufferLength` request
/// on [`MemoryMapping::address`].
pub struct MemoryMapping<T> {
    ptr: u64,
    elements: Vec<T>,
}

impl<T> View for MemoryMapping<T> {
    type V = Seq<T>;

    closed spec fn view(&self) -> Seq<T> {
        self.elements@
    }
}

impl<T> MemoryMapping<T> {
    /// Address at which the region is mapped.
    pub closed spec fn address(&self) -> u64 {
        self.ptr
    }

    /// A region mapped at `ptr` holding `elements`.
    pub fn new(ptr: u64, elements: Vec<T>) -> (r: Self)
        ensures
            r.address() == ptr,
            r@ == elements@,
    {
        MemoryMapping { ptr, elements }
    }

    /// Address at which the region is mapped.
    pub fn ptr(&self) -> (r: u64)
        ensures
            r == self.address(),
    {
        self.ptr
    }

    /// Number of elements in the region.
    pub fn len(&self) -> (r: usize)
        ensures
            r == self@.len(),
    {
        self.elements.len()
    }

    /// The region as an immutable slice.
    pub fn as_slice(&self) -> (r: &[T])
        ensures
            r@ == self@,
    {
        self.elements.as_slice()
    }

    /// The region as a mutable slice; what is written lands in the region.
    pub fn as_mut_slice(&mut self) -> (r: &mut [T])
        ensures
            r@ == old(self)@,
            final(r)@ == final(self)@,
            final(self).address() == old(self).address(),
    {
        self.elements.as_mut_slice()
    }
}

impl<T: Copy> MemoryMapping<T> {
    /// Resizes the region to `len` elements, new elements being `fill`: the
    /// region as the runtime leaves it after a `SetBufferLength` request.
    pub fn resize(&mut self, len: usize, fill: T)
        ensures
            final(self).address() == old(self).address(),
            final(self)@ == resized(old(self)@, len as nat, fill),
    {
        if len <= self.elements.len() {
            self.elements.truncate(len);
        } else {
            while self.elements.len() < len
                invariant
                    old(self)@.len() <= self.elements@.len() <= len,
                    self.ptr == old(self).ptr,
                    forall|i: int|
                        0 <= i < self.elements@.len() ==> self.elements@[i] == (if i < old(
                            self,
                        )@.len() {
                            old(self)@[i]
                        } else {
                            fill
                        }),
                decreases len - self.elements@.len(),
            {
                self.elements.push(fill);
            }
        }
        assert(self.elements@ =~= resized(old(self)@, len as nat, fill));
    }
}

} // verus!
