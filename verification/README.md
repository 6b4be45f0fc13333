# nest_protocol

The accounting and decision logic of the Nest stablecoin protocol on Solana —
collateralised debt positions in xStock tokens, the nUSD peg stability module
with its Kamino deployment, liquidations, staker and protocol revenue routing,
and the sNUSD staking pool — written in Verus and proved against its
contracts.

Layout:

- `src/` — the verified library. `cdp`, `liquidation`, `oracle`, `feeds`,
  `psm`, `psm_ledger`, `revenue`, `staking`, `calendar` and `math` hold the
  protocol's rules; `ix/` holds one verified function per nest-core
  instruction, from the accounts as plain values to the new account state and
  the token moves to perform; `stake` does the same for nest-stake. `pda` and
  `lazer` are the two places where the library calls an outside crate
  (program-address derivation and Pyth Lazer payload decoding), each behind a
  small trusted wrapper.
- `tests/` — tests of the library on concrete values.
- `app/` — the Anchor programs around the library: account declarations,
  the clock and instructions sysvar, and the token, Kamino and Pyth Lazer
  CPIs that the library's results ask for.
