# snowboard_depin

The logic of the snowboard DePIN Solana programs, written in Verus and proved
against contracts.

- `src/` is the verified library. Its modules are the hardware payload decoder,
  signed-message framing with checks of the Ed25519 verify instruction, the
  telemetry points engine, the motion staking pool and the motion registry.
  Each instruction is a function from account state and plain inputs (clock,
  balances, instructions sysvar bytes) to the new state or an error. Public
  proof functions state the laws that connect these functions.
- `app/` is the Anchor program around the library. It holds account
  validation, reads of the clock and the sysvar, token transfers and burns,
  and events. It turns account data into library values and back.
- `tests/` runs the library on concrete values.

Calls into `anchor-lang` that compute (the Ed25519 program address, loading an
instruction from the sysvar, the current instruction index) go through
trusted wrappers in `src/crypto.rs`. Each wrapper's doc comment says what its
contract claims.
