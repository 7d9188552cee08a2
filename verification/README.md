# solana-validator-dao

A Solana program that lets governances (SPL governance DAOs) stake with validators
and contract validator service providers, with its decisions verified in Verus.

- `src/` is the verified library. Account addresses are plain 32-byte values
  (`address`); the records the program stores are plain structs (`states`); each
  instruction's declared account checks (`instructions`) and its work
  (`processors`) are functions from those values to new records, errors, or the
  stake delegation and token payment to perform. `program` runs checks and work
  together, as the on-chain entry points do; its `checked_` functions answer `None`
  where an instruction aborts. `laws` proves properties that span
  instructions. Calls into `solana-program` (program ids, program derived
  addresses) and `spl-governance` (governance account check, native treasury
  seeds) go through small trusted wrappers in `ids`, `pda` and `governance`.
- `app/` is the Anchor program around the library: it loads accounts, reads the
  clock, writes records back and invokes the stake and token programs.
- `tests/` exercises the library with the real outside crates linked.
