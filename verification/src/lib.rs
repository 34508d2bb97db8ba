//! A consistency-race harness for an embedded transactional store accessed
//! through role-partitioned connection pools.
//!
//! The library models the core of the harness: a store table with unique
//! integer primary keys, a pool that owns exactly one write-capable and one
//! read-only connection, atomic transactions, and the race of an unbounded
//! unrelated write loop against a single bounded read of freshly committed
//! data. Everything here is verified; the surrounding process (filesystem
//! provisioning, the async driver against a real store engine) lives outside.

pub mod errors;
pub mod pool;
pub mod race;
pub mod table;
pub mod trial;

pub use errors::{HarnessError, TxError};
pub use pool::{Acquire, Durability, Pool};
pub use race::race_delete_loop_vs_read;
pub use table::Statement;
pub use trial::{
    check_read_result, create_schema, provision_location, run_trial, seed_range, seeding_keys,
    StoreId,
};
