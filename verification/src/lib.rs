//! The decision layer of a RocksDB binding: what each operation on an
//! environment, an SST file manager or a transaction asks of the storage
//! engine, and how the engine's raw replies become the values the caller sees.
//!
//! The engine itself lives behind a C interface. The functions here never
//! touch it: each operation returns the request to hand to the engine, and a
//! `finish` step turns the engine's reply into the result.

pub mod decimal;
pub mod env;
pub mod error;
pub mod options;
pub mod sst_file_manager;
pub mod transactions;

pub use env::{EncryptedEnv, Env};
pub use error::Error;
pub use options::{ColumnFamilyRef, Direction, IteratorMode, ReadOptions};
pub use sst_file_manager::SstFileManager;
pub use transactions::transaction::{DBPinnableSlice, Transaction, WriteBatchWithTransaction};
