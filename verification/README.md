# pinocchio_stake

A verified model of the Solana stake program. The instruction handlers run
over a plain value model of the accounts an instruction receives (address,
owner, balance, data bytes, signer and writable flags), and every handler's
result is stated exactly, error by error, by a specification over those
values.

Layout:

- `src/` — the library, checked by Verus.
  - `entrypoint.rs` — the instruction set, dispatch of a decoded instruction
    or of a discriminant byte with its payload, and the laws that no
    instruction creates or destroys lamports or reshapes an account, and
    that a refused instruction leaves every account as it was.
  - `instruction/` — one handler per instruction, each with its
    specification and the laws about it.
  - `state/` — stake account states, their 194-byte encoding (with the
    encode/decode round trip), metadata, lockups, delegations, merge kinds.
  - `helpers/` — signer collection, state loading and storing, lamport
    moves, weighted credits, shared move checks.
  - `sysvars.rs`, `vote_state.rs`, `bytes.rs`, `pubkey.rs`, `error.rs`.
- `app/` — the on-chain shell: the program entrypoint, bincode decoding of
  instructions, sysvar syscalls, the SHA-256 of seed derivation, and the
  floating-point computations whose results the library takes as inputs:
  the warmup/cooldown steps behind activation statuses, and the rent
  sysvar's minimum balance behind rent-exempt reserves.
- `tests/` — unit and scenario tests of the library.
