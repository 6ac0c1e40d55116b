# amm_dice

Verified decision logic of two Solana programs, written in Verus:

- `src/amm/`: a constant-product liquidity pool. Each instruction
  (`initialize`, `deposit`, `swap`, `withdraw`, `withdraw_with_introspection`,
  `burn_lp`, `mint_lp`) is a function from what it reads of its accounts
  (and, for the paired instructions, of the neighbouring instruction in the
  transaction) to either the program's error or the ordered list of token
  operations to perform. `laws.rs` proves properties across instructions:
  slippage bounds, refusals of a locked pool and of zero amounts, and that
  paired instructions move the same LP amount.
- `src/dice/`: the dice game's bet checks, bet record and lamport transfers.
- `app/`: the Anchor programs around the library: account validation,
  sysvar and clock reads, pricing on the constant-product curve, and the
  cross-program invocations.
