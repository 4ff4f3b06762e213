# solana_anchor

An NFT-gated staking pool for Solana. A user stakes an NFT that the pool's
ledger lists, then deposits the pool's token; the ledger slot of the NFT sets
the yearly reward rate, and the reward accrues per second. Withdrawals are
either instant, for a fee, or requested and released after a lock period.

- `src/` is the library, verified with Verus: the byte layout of the
  reward-rate ledger (`ledger`), the reward arithmetic (`reward`), the pool's
  administrative instructions (`admin`), the staking instructions
  (`staking`), the token transfers that the instructions order (`transfer`),
  and properties that hold across instructions (`properties`). SHA-256, used
  for the ledger's account discriminator, comes from `solana_program`
  (`digest`).
- `app/` is the Anchor program: it validates and (de)serializes the accounts,
  reads the clock, performs the ordered transfers through the token program,
  and aborts where an instruction's arithmetic or indexing would leave range.
- `tests/` runs the library on concrete inputs.
