# tokenwrapper

A CosmWasm contract that wraps the native token of a chain, and cw20 tokens that
its governer approves, into one cw20 token. Wrapping costs a fee, which goes to a
fee recipient; unwrapping is free. How much may be issued in all is limited.

The library in `src/` is written in Rust and verified with Verus:

- `contract` holds the entries `instantiate`, `execute` and `query`. What `execute`
  does is stated by `refusal`, `effect`, `leavings` and `reply`.
- `wrapping` wraps and unwraps, `governance` sets the contract up and governs it.
- `utils` has the fee formulas and the tests on addresses and amounts.
- `limits` has entries without conditions: they test first whether every number
  and storage key fits, and stop where one does not.
- `laws` proves what holds of the contract as a whole: that wrapped tokens are
  covered by deposits, that unwrapping undoes wrapping, that only the governer
  governs, that a nonce serves once.
- `state`, `token`, `reply` and `text` call `cosmwasm_std`, `cw_storage_plus`,
  `cw2` and `cw20_base`. The contracts of these calls are not proved. They speak
  of a `Ledger`, which is what the storage holds once it is decoded.

`app/` has the entry points that the chain calls, with the messages in the form in
which the chain carries them. `tests/` runs the contract on a mocked chain.
