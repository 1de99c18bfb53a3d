//! A retry-on-conflict transaction executor: it runs a caller-supplied unit of
//! database work inside an open transaction and restarts that unit of work,
//! under a fresh savepoint, whenever the store reports a transient
//! serialization conflict.  Permanent errors are surfaced unchanged, and a
//! failed attempt never leaks partial writes into the parent transaction.

pub mod classify;
pub mod ledger;
pub mod txn;
pub mod executor;
pub mod transfer;

pub use classify::{classify, Classification, DbError};
pub use executor::{run, Contended, Operation, Outcome};
pub use ledger::{Account, Ledger};
pub use transfer::{transfer_funds, TransferOp};
pub use txn::{Savepoint, Txn};
