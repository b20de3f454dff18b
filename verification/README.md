# abiv2

A verified library for writing Solana programs against the ABIv2 program
interface, in Verus.

Under ABIv2 a program reads the runtime's state from memory regions mapped
at fixed addresses, tracks borrows of that state in a region of borrow-state
bytes at the start of the heap, and asks the runtime for changes through
syscalls. The library holds those regions as plain values and proves what
the program-side logic does with them.

## Layout

- `src/` — the library, every function verified:
  - `account`: packed account flags, transaction account metadata, and the
    borrow protocol on account data (`try_borrow`, `try_borrow_mut`, ...).
  - `lib.rs`: the borrow-state region (`BorrowFlags`), the `Ref` / `RefMut`
    guards and the laws of the borrow protocol.
  - `context`: instruction and transaction contexts.
  - `cpi`: the CPI parameters and return-data scratchpads, signer seeds.
  - `syscall`: requests to the runtime, as values.
  - `sysvar`: sysvar mappings and the rent sysvar's arithmetic.
  - `entrypoint`: the entrypoint's result codes, the bump allocator and the
    layout of static heap allocations.
  - `memory`: the runtime memory map.
  - `region`: the layout where the transaction context holds the
    scratchpads and an account carries its flags as bytes.
  - `programs`: the sample programs, each a `process_instruction` over the
    regions it reads.
- `tests/` — tests of the library on concrete values.
- `app/` — the runtime glue: copying regions in and out of runtime memory,
  issuing syscalls, the global allocators, conversions to the Solana types,
  and the programs that only log or allocate.
