use vstd::prelude::*;

use crate::errors::TxError;
use crate::table::{
    select_eq_spec, stmt_err, stmt_is_mutating, stmt_next, stmt_ok, stmt_rows, table_wf, Statement,
    Table, TableView,
};

verus! {

/// How strongly a commit is flushed to durable storage. The harness runs with
/// `Normal`: flush on commit without forcing the strongest, slowest mode.
#[derive(Clone, Copy, Debug, PartialEq, Eq, Structural)]
pub enum Durability {
    /// No flush on commit.
    Off,
    /// Flush on commit without the strongest sync mode.
    Normal,
    /// The strongest, slowest sync mode.
    Full,
}

/// Outcome of borrowing the sole connection of one role.
#[derive(Clone, Copy, Debug, PartialEq, Eq, Structural)]
pub enum Acquire {
    /// The connection was free and is now borrowed by the caller.
    Granted,
    /// The connection is borrowed elsewhere; the caller suspends and retries.
    Busy,
}

/// The mathematical state of a role-partitioned pool and the store instance
/// it owns: the committed table, the open write transaction's working table
/// if one is open, the snapshot captured by the read connection while it is
/// borrowed, the borrow state of the sole write connection, and the pool's
/// configuration.
#[verifier::ext_equal]
pub struct PoolView {
    pub committed: TableView,
    pub tx: Option<TableView>,
    pub snapshot: Option<TableView>,
    pub write_held: bool,
    pub closed: bool,
    pub durability: Durability,
}

/// Well-formedness of a pool: every table state it holds is well-formed, a
/// transaction is open only while the write connection is borrowed, and a
/// closed pool has no outstanding borrows or transactions.
pub open spec fn pool_wf(p: PoolView) -> bool {
    &&& table_wf(p.committed)
    &&& (p.tx matches Some(t) ==> table_wf(t))
    &&& (p.snapshot matches Some(t) ==> table_wf(t))
    &&& (p.tx is Some ==> p.write_held)
    &&& (p.closed ==> !p.write_held && p.tx is None && p.snapshot is None)
}

/// The state of a freshly created pool over an empty store.
pub open spec fn fresh_pool(d: Durability) -> PoolView {
    PoolView {
        committed: TableView { schema: false, rows: Seq::empty() },
        tx: None,
        snapshot: None,
        write_held: false,
        closed: false,
        durability: d,
    }
}

/// The sole write connection can be granted: it is free and the pool is open.
pub open spec fn can_grant_write(p: PoolView) -> bool {
    !p.write_held && !p.closed
}

/// The sole read connection can be granted: it is free and the pool is open.
pub open spec fn can_grant_read(p: PoolView) -> bool {
    p.snapshot is None && !p.closed
}

/// A transaction can be begun: the caller holds the write connection and no
/// transaction is open on it.
pub open spec fn can_begin(p: PoolView) -> bool {
    p.write_held && p.tx is None && !p.closed
}

pub open spec fn acquire_write_spec(p: PoolView) -> PoolView {
    PoolView { write_held: true, ..p }
}

pub open spec fn release_write_spec(p: PoolView) -> PoolView {
    PoolView { write_held: false, ..p }
}

/// Acquiring the read connection captures the committed state at that moment:
/// reads issued through the handle observe this snapshot.
pub open spec fn acquire_read_spec(p: PoolView) -> PoolView {
    PoolView { snapshot: Some(p.committed), ..p }
}

pub open spec fn release_read_spec(p: PoolView) -> PoolView {
    PoolView { snapshot: None, ..p }
}

/// Beginning a transaction takes a working copy of the committed table.
pub open spec fn begin_spec(p: PoolView) -> PoolView {
    PoolView { tx: Some(p.committed), ..p }
}

/// Committing installs the working table as the committed state, atomically.
/// A snapshot captured earlier by the read connection is left as it was.
pub open spec fn commit_spec(p: PoolView) -> PoolView {
    PoolView { committed: p.tx->Some_0, tx: None, ..p }
}

/// Abandoning a transaction drops the working table; the committed state and
/// any captured snapshot are exactly as they were.
pub open spec fn abandon_spec(p: PoolView) -> PoolView {
    PoolView { tx: None, ..p }
}

/// A successful statement inside the open transaction advances only the
/// working table.
pub open spec fn exec_spec(p: PoolView, s: Statement) -> PoolView {
    PoolView { tx: Some(stmt_next(p.tx->Some_0, s)), ..p }
}

pub open spec fn close_spec(p: PoolView) -> PoolView {
    PoolView { closed: true, ..p }
}

/// A role-partitioned pool over one store instance: exactly one write-capable
/// connection and one read-only connection, each of capacity one.
pub struct Pool {
    committed: Table,
    tx_open: bool,
    tx_table: Table,
    read_held: bool,
    snap_table: Table,
    write_held: bool,
    closed: bool,
    durability: Durability,
}

impl View for Pool {
    type V = PoolView;

    closed spec fn view(&self) -> PoolView {
        PoolView {
            committed: self.committed@,
            tx: if self.tx_open {
                Some(self.tx_table@)
            } else {
                None
            },
            snapshot: if self.read_held {
                Some(self.snap_table@)
            } else {
                None
            },
            write_held: self.write_held,
            closed: self.closed,
            durability: self.durability,
        }
    }
}

impl Pool {
    /// Open a pool over a fresh, empty store with the given durability mode.
    pub fn create(durability: Durability) -> (p: Pool)
        ensures
            p@ == fresh_pool(durability),
            pool_wf(p@),
    {
        Pool {
            committed: Table::new(),
            tx_open: false,
            tx_table: Table::new(),
            read_held: false,
            snap_table: Table::new(),
            write_held: false,
            closed: false,
            durability,
        }
    }

    /// Borrow the sole write connection. Granted exactly when it is free;
    /// otherwise the caller must suspend, and the pool is unchanged.
    pub fn acquire_write(&mut self) -> (r: Acquire)
        requires
            !old(self)@.closed,
        ensures
            r == Acquire::Granted <==> can_grant_write(old(self)@),
            r == Acquire::Granted ==> final(self)@ == acquire_write_spec(old(self)@),
            r == Acquire::Busy ==> final(self)@ == old(self)@,
    {
        if self.write_held {
            Acquire::Busy
        } else {
            self.write_held = true;
            Acquire::Granted
        }
    }

    /// Return the write connection to the pool. An open transaction must be
    /// committed or abandoned first.
    pub fn release_write(&mut self)
        requires
            old(self)@.write_held,
            old(self)@.tx is None,
        ensures
            final(self)@ == release_write_spec(old(self)@),
    {
        self.write_held = false;
    }

    /// Borrow the sole read connection. Granted exactly when it is free; on
    /// grant the handle captures the committed state at this moment, and
    /// every read through it observes that snapshot.
    pub fn acquire_read(&mut self) -> (r: Acquire)
        requires
            !old(self)@.closed,
        ensures
            r == Acquire::Granted <==> can_grant_read(old(self)@),
            r == Acquire::Granted ==> final(self)@ == acquire_read_spec(old(self)@),
            r == Acquire::Busy ==> final(self)@ == old(self)@,
    {
        if self.read_held {
            Acquire::Busy
        } else {
            self.snap_table = self.committed.duplicate();
            self.read_held = true;
            Acquire::Granted
        }
    }

    /// Return the read connection to the pool, dropping its snapshot.
    pub fn release_read(&mut self)
        requires
            old(self)@.snapshot is Some,
        ensures
            final(self)@ == release_read_spec(old(self)@),
    {
        self.read_held = false;
    }

    /// Begin a transaction on the borrowed write connection: the working
    /// table starts as a copy of the committed state.
    pub fn begin(&mut self)
        requires
            pool_wf(old(self)@),
            can_begin(old(self)@),
        ensures
            final(self)@ == begin_spec(old(self)@),
            pool_wf(final(self)@),
    {
        self.tx_table = self.committed.duplicate();
        self.tx_open = true;
    }

    /// Run one statement inside the open transaction. On success only the
    /// working table advances; on failure nothing changes at all. The
    /// committed state is untouched either way.
    pub fn execute(&mut self, s: Statement) -> (r: Result<Vec<i64>, TxError>)
        requires
            pool_wf(old(self)@),
            old(self)@.tx is Some,
        ensures
            pool_wf(final(self)@),
            r is Ok <==> stmt_ok(old(self)@.tx->Some_0, s),
            (r matches Ok(rows) ==> final(self)@ == exec_spec(old(self)@, s) && rows@ == stmt_rows(
                old(self)@.tx->Some_0,
                s,
            )),
            (r matches Err(e) ==> final(self)@ == old(self)@ && e == stmt_err(
                old(self)@.tx->Some_0,
                s,
            )),
    {
        self.tx_table.apply(s)
    }

    /// Commit the open transaction: all statements issued since `begin` take
    /// effect together, and from this moment a newly acquired read connection
    /// observes them. A snapshot captured earlier stays as it was.
    pub fn commit(&mut self)
        requires
            pool_wf(old(self)@),
            old(self)@.tx is Some,
        ensures
            final(self)@ == commit_spec(old(self)@),
            pool_wf(final(self)@),
    {
        self.committed = self.tx_table.duplicate();
        self.tx_open = false;
    }

    /// Abandon the open transaction without committing, as happens when the
    /// operation driving it is cancelled: none of its statements has any
    /// effect on the committed state or on any captured snapshot.
    pub fn abandon(&mut self)
        requires
            pool_wf(old(self)@),
            old(self)@.tx is Some,
        ensures
            final(self)@ == abandon_spec(old(self)@),
            final(self)@.committed == old(self)@.committed,
            pool_wf(final(self)@),
    {
        self.tx_open = false;
    }

    /// Run one statement on the borrowed read connection. The connection is
    /// read-only at the connection level: every mutating statement is
    /// rejected, and only the filtered select can succeed, answered from the
    /// snapshot the handle captured when it was acquired.
    pub fn execute_read(&self, s: Statement) -> (r: Result<Vec<i64>, TxError>)
        requires
            self@.snapshot is Some,
        ensures
            stmt_is_mutating(s) ==> r == Err::<Vec<i64>, TxError>(TxError::ReadOnly),
            r is Ok <==> !stmt_is_mutating(s) && self@.snapshot->Some_0.schema,
            (s matches Statement::SelectEq(id) ==> (r matches Ok(rows) ==> rows@ == select_eq_spec(
                self@.snapshot->Some_0.rows,
                id,
            ))),
            (r matches Err(e) ==> e == if stmt_is_mutating(s) {
                TxError::ReadOnly
            } else {
                TxError::NoTable
            }),
    {
        match s {
            Statement::SelectEq(id) => {
                if self.snap_table.schema_exists() {
                    Ok(self.snap_table.select_eq(id))
                } else {
                    Err(TxError::NoTable)
                }
            },
            _ => Err(TxError::ReadOnly),
        }
    }

    /// Close both sub-pools. The caller sequences this after all work: no
    /// outstanding borrow or open transaction may remain.
    pub fn close(&mut self)
        requires
            pool_wf(old(self)@),
            !old(self)@.closed,
            !old(self)@.write_held,
            old(self)@.snapshot is None,
        ensures
            final(self)@ == close_spec(old(self)@),
            pool_wf(final(self)@),
    {
        self.closed = true;
    }

    /// Number of rows in the committed table.
    pub fn committed_row_count(&self) -> (n: usize)
        ensures
            n == self@.committed.rows.len(),
    {
        self.committed.row_count()
    }

    /// Whether the committed table holds a row with the given key.
    pub fn committed_contains(&self, id: i64) -> (b: bool)
        ensures
            b == self@.committed.rows.contains(id),
    {
        self.committed.contains_id(id)
    }
}

/// Capacity invariant: each role wraps exactly one connection, and the sole
/// connection of a role can be granted only while no handle of that role is
/// outstanding, and a transaction can be begun only while none is open — so a
/// pool never permits two concurrently held write handles, two concurrently
/// held read handles, or two concurrently open write transactions.
pub proof fn lemma_handle_capacity(p: PoolView)
    ensures
        p.write_held ==> !can_grant_write(p),
        p.snapshot is Some ==> !can_grant_read(p),
        p.tx is Some ==> !can_begin(p),
{
}

/// Atomicity under cancellation: abandoning an open, uncommitted transaction
/// leaves the committed table and any captured snapshot exactly as they were,
/// so a read issued afterwards — through a snapshot captured either before
/// the abandonment or after it — returns exactly what it would have returned
/// had the transaction never been begun.
pub proof fn lemma_abandon_no_effect(p: PoolView, id: i64)
    requires
        p.tx is Some,
    ensures
        abandon_spec(p).committed == p.committed,
        abandon_spec(p).snapshot == p.snapshot,
        select_eq_spec(acquire_read_spec(abandon_spec(p)).snapshot->Some_0.rows, id)
            == select_eq_spec(p.committed.rows, id),
{
}

/// Read-after-commit visibility: once a transaction whose working table holds
/// key `id` commits, a read connection acquired afterwards captures the new
/// committed state, and its select filtered on `id` returns exactly one row.
pub proof fn lemma_read_after_commit(p: PoolView, id: i64)
    requires
        pool_wf(p),
        p.tx matches Some(t) && t.rows.contains(id),
    ensures
        ({
            let q = acquire_read_spec(commit_spec(p));
            &&& q.snapshot is Some
            &&& select_eq_spec(q.snapshot->Some_0.rows, id) == seq![id]
        }),
{
}

/// A stale read handle misses a later commit: a snapshot captured before the
/// commit is left untouched by it, so a select for a key absent from the
/// snapshot returns no rows even though the commit has made the key durable.
pub proof fn lemma_stale_snapshot_misses_commit(p: PoolView, id: i64)
    requires
        p.snapshot matches Some(s) && !s.rows.contains(id),
        p.tx matches Some(t) && t.rows.contains(id),
    ensures
        commit_spec(p).committed.rows.contains(id),
        commit_spec(p).snapshot == p.snapshot,
        select_eq_spec(commit_spec(p).snapshot->Some_0.rows, id) == Seq::<i64>::empty(),
{
}

} // verus!
