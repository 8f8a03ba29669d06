# token_vesting

The rules of a Solana token-vesting program, verified with Verus.

A vestor sets tokens aside for a consumer (`initialize_vestmet`); the
consumer claims what the release schedule has freed so far
(`claim_vested_tokens`); a cancel authority can end the vesting and send the
tokens back (`cancel_vestment`). NFTs can be vested one by one for dedicated
consumers (`vest_nfts`, `vest_nft_record`) and claimed after their cliff date
(`claim_vested_nft`), and tokens can be offered in escrow
(`initialize_escrow`).

Layout:

- `src/` is the verified library. Each instruction is a function from the
  accounts it reads (and the clock) to the new account data and the list of
  token-program and system-program calls to make (`accounts::CpiAction`).
  `src/outside.rs` holds the few calls into outside crates (SHA-256 and
  program-address derivation from `anchor-lang`, grouping from `itertools`),
  whose contracts are trusted.
- `app/` is the Anchor program around it: account validation, the clock and
  rent sysvars, and the cross-program calls.
- `tests/` runs the library on concrete accounts.
