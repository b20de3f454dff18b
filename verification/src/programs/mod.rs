//! Sample programs built on this library.
//!
//! Each program is a `process_instruction` over the runtime regions it
//! reads. A region argument holds what the program reads from it at that
//! point of its run: the runtime performs each request synchronously, so a
//! scratchpad that the program asks to be sized has that size when the
//! program writes to it. Requests are appended to `syscalls` in the order
//! the program issues them.
use vstd::prelude::*;

pub mod account_borrow;
pub mod account_resize;
pub mod assign_owner;
pub mod cpi;
pub mod rent_sysvar;
pub mod return_data;

verus! {

/// Copies `src` into `dst` at `offset`, leaving the other bytes alone.
pub(crate) fn copy_into(dst: &mut [u8], offset: usize, src: &[u8])
    requires
        offset + src@.len() <= old(dst)@.len(),
    ensures
        final(dst)@ == old(dst)@.subrange(0, offset as int) + src@ + old(dst)@.subrange(
            offset + src@.len(),
            old(dst)@.len() as int,
        ),
{
    let n = dst.len();
    let mut i: usize = 0;
    while i < src.len()
        invariant
            n == dst@.len(),
            i <= src@.len(),
            offset + src@.len() <= old(dst)@.len(),
            dst@.len() == old(dst)@.len(),
            forall|k: int| 0 <= k < offset ==> dst@[k] == old(dst)@[k],
            forall|k: int| 0 <= k < i ==> dst@[offset + k] == src@[k],
            forall|k: int| offset + i <= k < dst@.len() ==> dst@[k] == old(dst)@[k],
        decreases src@.len() - i,
    {
        dst[offset + i] = src[i];
        i += 1;
    }
    assert(dst@ =~= old(dst)@.subrange(0, offset as int) + src@ + old(dst)@.subrange(
        offset + src@.len(),
        old(dst)@.len() as int,
    ));
}

/// Copies the bytes of `src`.
pub(crate) fn copy_bytes(src: &[u8]) -> (r: Vec<u8>)
    ensures
        r@ == src@,
{
    let mut out: Vec<u8> = Vec::new();
    let mut i: usize = 0;
    while i < src.len()
        invariant
            i <= src@.len(),
            out@ == src@.subrange(0, i as int),
        decreases src@.len() - i,
    {
        out.push(src[i]);
        i += 1;
    }
    assert(out@ =~= src@);
    out
}

/// Reads a 32-byte address from `bytes`: `None` unless `bytes` holds
/// exactly 32 bytes (as `solana_address::Address::try_from` does).
pub fn address_from_slice(bytes: &[u8]) -> (r: Option<[u8; 32]>)
    ensures
        bytes@.len() == 32 ==> r is Some && r->0@ == bytes@,
        bytes@.len() != 32 ==> r is None,
{
    if bytes.len() != 32 {
        return None;
    }
    let mut address = [0u8; 32];
    let mut i: usize = 0;
    while i < 32
        invariant
            bytes@.len() == 32,
            i <= 32,
            forall|j: int| 0 <= j < i ==> address@[j] == bytes@[j],
        decreases 32 - i,
    {
        address[i] = bytes[i];
        i += 1;
    }
    assert(address@ =~= bytes@);
    Some(address)
}

} // verus!
