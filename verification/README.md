# escrow

Verified account layouts and instruction logic for a small family of Solana escrow programs.

- `src/` is the Verus library:
  - `state` — the escrow program's account state (`Escrow`), its 105-byte layout, and the
    read/write laws of that layout;
  - `steps` — the steps an instruction asks of the runtime (rent lookup, create-account call,
    account data write) and how each instruction goes on from their outcomes;
  - `instructions` — the make instruction, as a sequence of such steps, with the law for its
    result;
  - `processor` — the escrow program's entrypoint logic and the law for its result;
  - `fundraiser` — the fundraiser program's id, its initialize instruction (rent lookup, signed
    account creation, then the data write) with the law for its outcome, and its `IxHandler`
    arguments;
  - `anchor_escrow` — the time-locked escrow account of the Anchor program: discriminator,
    field layout, checked reading and writing, and their laws;
  - `codec`, `account`, `error` — byte helpers, the account model and program errors.
- `app/` connects the library to the runtime: entrypoint, account and error conversion, and a
  loop that performs the steps (sysvar reads, cross-program invocations, data writes); also the
  plain-old-data copy of `IxHandler`.
- `tests/` runs the library on concrete values.
