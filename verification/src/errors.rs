use vstd::prelude::*;

verus! {

/// Errors raised by a statement executed inside a transaction, or by a
/// statement attempted on a read-only connection.
#[derive(Clone, Copy, Debug, PartialEq, Eq, Structural)]
pub enum TxError {
    /// The statement addressed the store's table before it was created.
    NoTable,
    /// A table creation was attempted while the table already exists.
    TableExists,
    /// An insert would duplicate an existing primary key.
    DuplicateKey,
    /// A mutating statement was attempted on a read-only connection.
    ReadOnly,
}

/// The harness's error taxonomy. Every variant is fatal to the run: nothing
/// is retried or recovered locally, so the first failure is the one reported.
#[derive(Clone, Copy, Debug, PartialEq, Eq, Structural)]
pub enum HarnessError {
    /// A store location was already occupied, or could not be set up.
    Provisioning,
    /// A pool could not be opened, configured, or closed.
    Connection,
    /// A begin/execute/commit failed on either connection.
    Transaction(TxError),
    /// A read issued after a commit failed to observe the committed write;
    /// carries the index of the trial in which the violation was detected.
    ConsistencyViolation(u32),
}

} // verus!
