# anvil_executor

The block-execution bookkeeping of Anvil's EVM backend and Foundry's transaction-request
fields, verified with Verus.

- `src/primitives.rs` — addresses, words, logs and the post-transaction account state
  as plain values.
- `src/receipt.rs` — execution results, receipts and the receipt builder.
- `src/executor.rs` — the block executor: the EIP-2935 system call under Prague, the
  per-transaction gas limit test, committing transactions (gas, blob gas, receipts), and the
  block-accounting laws, stated for every run a driver makes (whatever it does to the EVM
  between commits).
- `src/tx_env.rs` — EIP-7702 signer overrides and the optimism envelope of a pending
  transaction's environment, and the choice of EVM.
- `src/transaction.rs` — transaction requests (Ethereum, with other fields, Tempo), blob
  sidecars and versioned hashes, and the `FoundryTxRequest` / `FoundryTransactionBuilder`
  traits.
- `app/` — runs the executor over an `alloy_evm::Evm`, creates the Ethereum EVM and
  finishes transaction environments from the library's decisions, applies the request
  extensions to alloy requests, and converts alloy/revm values.
