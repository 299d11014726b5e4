# rocksdb — verified decision layer

The library in `src/` decides, for environments, encrypted environments, SST
file managers and transactions, what each operation asks of the RocksDB
engine and what the engine's reply comes to. Every function there is checked
by Verus against its contract.

- `src/env.rs` — environments, thread-pool settings, and the three steps that
  build an AES-256-CTR encrypted environment (key check, provider, env), with
  the key zeroed once the engine has it.
- `src/sst_file_manager.rs` — the two steps that build an SST file manager,
  and its calls.
- `src/transactions/transaction.rs` — the requests of a transaction (reads,
  locking reads, batched reads, writes, iterators, savepoints, timestamps) and
  the `finish` steps that turn the engine's replies into results.
- `src/options.rs` — read options, iterator modes, column family handles.
- `src/decimal.rs` — decimal rendering used in error messages.
- `src/error.rs` — the error type.

`app/` holds the C declarations of the engine and the native wrappers that
perform the requests and own the engine's objects.
