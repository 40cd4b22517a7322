# magics

The verified core of the magics Solana programs: session-key seals, the
agent registry, the per-agent token ledger with its cast entry point, a toy
yield vault, and the reference yield strategy.

- `src/` — the library, checked by Verus. Each on-chain instruction is a
  function from account state and runtime inputs (the clock, the
  transaction's instructions) to the next state and the emitted event, with
  a contract that says exactly when it fails and with which error.
  - `bytes`, `crypto` — byte helpers; Keccak-256, SHA-256 and program-address
    derivation taken from the Solana program library.
  - `domain`, `seal`, `ed25519` — the signed cast message, seal ids, and the
    check that a transaction carries the session key's Ed25519 signature.
  - `vault`, `registry`, `router` — the seal vault, the agent registry and
    the router.
  - `mock_yield`, `passive_yield` — the toy yield vault and the reference
    strategy.
- `tests/` — tests of the library on concrete values.
- `app/` — the runtime edges: clock and sysvar reads, account encoding,
  token transfers and cross-program calls.
