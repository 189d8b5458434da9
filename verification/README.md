# token_bank

A lamport deposit bank for a Solana program, as a verified Verus library.

- `src/state.rs`: the bank and user accounts, addresses and wallets.
- `src/instructions/`: one module per instruction (creating users and the
  bank, deposit, withdrawal, and the director's instructions: granting roles,
  updating the bank, role-based withdrawal). Each handler's contract is an
  equality with a spec function that describes the whole transition.
- `src/runtime.rs`: the transfer requests handlers hand to the runtime, the
  step/progress protocol by which they are driven, and the one call into
  `anchor_lang` (program-address search).
- `src/program.rs`: the entry points, which report success whatever the
  handler decided.
- `src/laws.rs`: properties across instructions (refusals change nothing,
  user invariants, accounting, lock period, roles).
- `app/`: the Anchor program itself — account constraints, the clock, the
  system-program transfers — driving the library.

Instructions that move lamports are called first with `Progress::Begin`; when
they answer `Step::Transfer`, the caller performs it and calls again with the
outcome.
