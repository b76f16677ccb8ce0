//! The state-transition core of a ledger: a store of resource blobs addressed
//! by access paths, and the mock engine that executes transactions
//! against it.

pub mod access_path;
pub mod account;
pub mod account_address;
pub mod chain_state;
pub mod memory_state;
pub mod mock_vm;
pub mod show_cmd;
pub mod theorems;
pub mod transaction;
pub mod write_set;
