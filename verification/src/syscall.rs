//! Requests that a program makes to the runtime.
//!
//! The runtime performs a request when the program issues the matching
//! syscall; functions of this library that end in a syscall return the
//! request as a [`Syscall`] value for the caller to issue.
use crate::cpi::{Seed, Signer};
use vstd::prelude::*;

verus! {

/// A syscall with its arguments.
#[derive(Debug, PartialEq, Eq)]
pub enum Syscall {
    /// Changes the owner of the account at `account_index` in the
    /// transaction to `owner`.
    AssignOwner { account_index: u64, owner: [u8; 32] },
    /// Changes the length of the memory region that starts at `address`.
    SetBufferLength { address: u64, length: u64 },
    /// Invokes the program at `program_index` with the parameters written
    /// to the CPI scratchpad, signing with the given seeds.
    InvokeSigned { program_index: u64, signers: Vec<Vec<Vec<u8>>> },
    /// Moves `lamports` from the account at `from` to the account at `to`.
    TransferLamports { to: u64, from: u64, lamports: u64 },
}

/// The request that changes the owner of the account at `account_idx` to
/// `new_owner`.
pub fn assign_owner(account_idx: u64, new_owner: &[u8; 32]) -> (r: Syscall)
    ensures
        r == (Syscall::AssignOwner { account_index: account_idx, owner: *new_owner }),
{
    Syscall::AssignOwner { account_index: account_idx, owner: *new_owner }
}

/// The request that changes the length of the region at `base_address` to
/// `new_length`.
pub fn set_buffer_length(base_address: u64, new_length: u64) -> (r: Syscall)
    ensures
        r == (Syscall::SetBufferLength { address: base_address, length: new_length }),
{
    Syscall::SetBufferLength { address: base_address, length: new_length }
}

/// The seeds of each signer, as byte strings.
pub open spec fn signer_seeds(signers: Seq<Signer>) -> Seq<Seq<Seq<u8>>> {
    signers.map_values(|s: Signer| s@)
}

/// An invocation request carries one seed list per signer, in the order of
/// the signers, each holding that signer's seeds.
pub proof fn lemma_signer_seeds(signers: Seq<Signer>)
    ensures
        signer_seeds(signers).len() == signers.len(),
        forall|i: int| 0 <= i < signers.len() ==> #[trigger] signer_seeds(signers)[i] == signers[i]@,
{
}

/// Copies the bytes of `seed`.
fn seed_bytes(seed: &Seed) -> (r: Vec<u8>)
    ensures
        r@ == seed@,
{
    let bytes = seed.deref();
    let mut out: Vec<u8> = Vec::new();
    let mut i: usize = 0;
    while i < bytes.len()
        invariant
            i <= bytes@.len(),
            out@ == bytes@.subrange(0, i as int),
        decreases bytes@.len() - i,
    {
        out.push(bytes[i]);
        i += 1;
    }
    assert(out@ =~= bytes@);
    out
}

/// Copies the seeds of `signer`.
fn signer_seed_list(signer: &Signer) -> (r: Vec<Vec<u8>>)
    ensures
        r.deep_view() == signer@,
{
    let seeds = signer.seeds();
    let mut out: Vec<Vec<u8>> = Vec::new();
    let mut i: usize = 0;
    while i < seeds.len()
        invariant
            i <= seeds@.len(),
            out.deep_view() == seeds@.map_values(|s: Seed| s@).subrange(0, i as int),
        decreases seeds@.len() - i,
    {
        let bytes = seed_bytes(&seeds[i]);
        assert(bytes.deep_view() =~= seeds@[i as int]@);
        let ghost prev = out.deep_view();
        out.push(bytes);
        assert(out.deep_view() =~= prev.push(seeds@[i as int]@));
        i += 1;
        assert(out.deep_view() =~= seeds@.map_values(|s: Seed| s@).subrange(0, i as int));
    }
    assert(out.deep_view() =~= seeds@.map_values(|s: Seed| s@));
    out
}

/// The request that invokes the program at `program_idx` with the
/// parameters in the CPI scratchpad, signing with `signers`.
pub fn sol_invoke_signed(program_idx: u64, signers: &[Signer]) -> (r: Syscall)
    ensures
        r matches Syscall::InvokeSigned { program_index, signers: seeds } && program_index
            == program_idx && seeds.deep_view() == signer_seeds(signers@),
{
    let mut out: Vec<Vec<Vec<u8>>> = Vec::new();
    let mut i: usize = 0;
    while i < signers.len()
        invariant
            i <= signers@.len(),
            out.deep_view() == signer_seeds(signers@).subrange(0, i as int),
        decreases signers@.len() - i,
    {
        let seeds = signer_seed_list(&signers[i]);
        let ghost prev = out.deep_view();
        out.push(seeds);
        assert(out.deep_view() =~= prev.push(signers@[i as int]@));
        i += 1;
        assert(out.deep_view() =~= signer_seeds(signers@).subrange(0, i as int));
    }
    assert(out.deep_view() =~= signer_seeds(signers@));
    Syscall::InvokeSigned { program_index: program_idx, signers: out }
}

/// The request that moves `lamports` from the account at
/// `from_account_tx_idx` to the account at `to_account_tx_idx`.
pub fn sol_transfer_lamports(to_account_tx_idx: u64, from_account_tx_idx: u64, lamports: u64) -> (r:
    Syscall)
    ensures
        r == (Syscall::TransferLamports {
            to: to_account_tx_idx,
            from: from_account_tx_idx,
            lamports,
        }),
{
    Syscall::TransferLamports { to: to_account_tx_idx, from: from_account_tx_idx, lamports }
}

} // verus!
