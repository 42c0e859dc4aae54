//! Block-template construction for a proof-of-work node.
//!
//! Given the current chain head, a pool of pending transactions and a source
//! of coinbase reward (a local burn key or a remote wallet), the library
//! assembles a mineable block template, classifies build failures and retries
//! until a template exists.

pub mod assemble;
pub mod coinbase;
pub mod env;
pub mod hex;
pub mod mine;
pub mod retry;
pub mod reward;
pub mod ser;
pub mod sys;
pub mod types;
