use vstd::prelude::*;

use crate::errors::{HarnessError, TxError};
use crate::pool::{pool_wf, Acquire, Durability, Pool, PoolView};
use crate::race::race_delete_loop_vs_read;
use crate::table::{unique_rows, Statement, TableView};

verus! {

/// The two store instances of one trial. Store A receives the seed and the
/// single read; store B receives the unrelated delete loop.
#[derive(Clone, Copy, Debug, PartialEq, Eq, Structural)]
pub enum StoreId {
    A,
    B,
}

/// The name of the single table each store holds.
pub open spec fn store_table_name(s: StoreId) -> Seq<char> {
    match s {
        StoreId::A => "a_table"@,
        StoreId::B => "b_table"@,
    }
}

impl StoreId {
    /// The name of this store's table, for rendering statements against it.
    pub fn table_name(&self) -> (r: &'static str)
        ensures
            r@ == store_table_name(*self),
    {
        match self {
            StoreId::A => "a_table",
            StoreId::B => "b_table",
        }
    }
}

/// The rows of a table seeded with keys `0..n`, in ascending insertion order.
pub open spec fn seeded_rows(n: nat) -> Seq<i64> {
    Seq::new(n, |k: int| k as i64)
}

/// The keys the seeding transaction inserts, in insertion order: exactly
/// `0..=highest_id`, ascending. The driver that seeds a real store binds
/// these keys, one insert each, inside one transaction.
pub fn seeding_keys(highest_id: u32) -> (v: Vec<i64>)
    requires
        highest_id < 0xffff_ffff,
    ensures
        v@ == seeded_rows(highest_id as nat + 1),
{
    let mut v: Vec<i64> = Vec::new();
    proof {
        assert(v@ =~= seeded_rows(0));
    }
    let mut i: u32 = 0;
    while i <= highest_id
        invariant
            i <= highest_id + 1,
            highest_id < 0xffff_ffff,
            v@ == seeded_rows(i as nat),
        decreases highest_id + 1 - i,
    {
        v.push(i as i64);
        proof {
            assert(seeded_rows(i as nat).push(i as i64) =~= seeded_rows(i as nat + 1));
        }
        i = i + 1;
    }
    v
}

/// Bulk-insert correctness: seeding keys `0..n` yields exactly `n` rows whose
/// primary keys are exactly the integers `0..n` — no duplicates, no gaps.
pub proof fn lemma_seeded_rows_keys(n: nat)
    requires
        n <= 0x1_0000_0000,
    ensures
        seeded_rows(n).len() == n,
        forall|x: i64| #[trigger] seeded_rows(n).contains(x) <==> 0 <= x < n,
        unique_rows(seeded_rows(n)),
{
    assert forall|x: i64| #[trigger] seeded_rows(n).contains(x) <==> 0 <= x < n by {
        if 0 <= x < n {
            assert(seeded_rows(n)[x as int] == x);
        }
        if seeded_rows(n).contains(x) {
            let k = choose|k: int| 0 <= k < seeded_rows(n).len() && seeded_rows(n)[k] == x;
            assert(0 <= k < n && k as i64 == x);
        }
    }
}

/// Decide provisioning of a store location: the provisioner never overwrites,
/// so an already occupied location is a provisioning error and nothing else
/// is.
pub fn provision_location(occupied: bool) -> (r: Result<(), HarnessError>)
    ensures
        r is Ok <==> !occupied,
        r is Err ==> r == Err::<(), HarnessError>(HarnessError::Provisioning),
{
    if occupied {
        Err(HarnessError::Provisioning)
    } else {
        Ok(())
    }
}

/// Decide the outcome of the read captured during the race: the trial passes
/// exactly when the read observed at least one row. An empty result is the
/// consistency violation the harness exists to catch, reported with the index
/// of the failing trial.
pub fn check_read_result(rows: &Vec<i64>, trial: u32) -> (r: Result<(), HarnessError>)
    ensures
        r is Ok <==> rows@.len() > 0,
        r is Err ==> r == Err::<(), HarnessError>(HarnessError::ConsistencyViolation(trial)),
{
    if rows.len() > 0 {
        Ok(())
    } else {
        Err(HarnessError::ConsistencyViolation(trial))
    }
}

/// Create the store's table in its own committed transaction, before any data
/// operation: borrow the write connection, begin, create the table, commit,
/// and return the connection. Succeeds exactly when the table did not exist.
pub fn create_schema(pool: &mut Pool) -> (r: Result<(), HarnessError>)
    requires
        pool_wf(old(pool)@),
        !old(pool)@.closed,
        !old(pool)@.write_held,
    ensures
        pool_wf(final(pool)@),
        r is Ok <==> !old(pool)@.committed.schema,
        (r matches Ok(_) ==> final(pool)@ == (PoolView {
            committed: TableView { schema: true, rows: old(pool)@.committed.rows },
            ..old(pool)@
        })),
        (r is Err ==> final(pool)@ == old(pool)@ && r == Err::<(), HarnessError>(
            HarnessError::Transaction(TxError::TableExists),
        )),
{
    let a = pool.acquire_write();
    proof {
        assert(a == Acquire::Granted);
    }
    pool.begin();
    match pool.execute(Statement::CreateTable) {
        Ok(_) => {
            pool.commit();
            pool.release_write();
            Ok(())
        },
        Err(e) => {
            pool.abandon();
            pool.release_write();
            Err(HarnessError::Transaction(e))
        },
    }
}

/// Seed a fresh table with keys `0..=highest_id` in ascending order, all
/// inside one transaction that commits them together: borrow the write
/// connection, begin, insert each key and read the inserted key back, commit,
/// and return the connection. On a fresh table every insert succeeds, so the
/// whole seeding is owed to succeed; afterwards the committed table holds
/// exactly the keys `0..=highest_id`.
pub fn seed_range(pool: &mut Pool, highest_id: u32) -> (r: Result<(), HarnessError>)
    requires
        pool_wf(old(pool)@),
        !old(pool)@.closed,
        !old(pool)@.write_held,
        old(pool)@.committed.schema,
        old(pool)@.committed.rows.len() == 0,
        highest_id < 0xffff_ffff,
    ensures
        pool_wf(final(pool)@),
        r is Ok,
        final(pool)@ == (PoolView {
            committed: TableView { schema: true, rows: seeded_rows(highest_id as nat + 1) },
            ..old(pool)@
        }),
{
    let a = pool.acquire_write();
    proof {
        assert(a == Acquire::Granted);
    }
    pool.begin();
    proof {
        assert(pool@.tx->Some_0.rows =~= seeded_rows(0));
    }
    let mut i: u32 = 0;
    while i <= highest_id
        invariant
            pool_wf(pool@),
            pool@.tx is Some,
            pool@.tx->Some_0.schema,
            pool@.tx->Some_0.rows == seeded_rows(i as nat),
            i <= highest_id + 1,
            highest_id < 0xffff_ffff,
            pool@.committed == old(pool)@.committed,
            pool@.snapshot == old(pool)@.snapshot,
            pool@.write_held,
            !pool@.closed,
            pool@.durability == old(pool)@.durability,
        decreases highest_id + 1 - i,
    {
        proof {
            lemma_seeded_rows_keys(i as nat);
            assert(!seeded_rows(i as nat).contains(i as i64));
        }
        match pool.execute(Statement::Insert(i as i64)) {
            Ok(_) => {},
            Err(e) => {
                return Err(HarnessError::Transaction(e));
            },
        }
        proof {
            assert(seeded_rows(i as nat).push(i as i64) =~= seeded_rows(i as nat + 1));
        }
        i = i + 1;
    }
    pool.commit();
    pool.release_write();
    Ok(())
}

/// One complete trial against two fresh store instances, strictly in order:
/// provision two pools, create one table in each store in its own committed
/// transaction, seed keys `0..=highest_id` into the first store as one
/// committed transaction, race an unbounded delete loop on the second store
/// against a single read of the highest key from the first store, require the
/// read to be non-empty, and tear both pools down.
///
/// The trial index is passed in by the sequential outer driver and names the
/// trial in a consistency violation. The race's schedule — how many of the
/// cancelled loop's transactions committed first, and whether one more was in
/// flight — is arbitrary, and the outcome is the same for every schedule:
/// the read observes exactly one row, holding the highest seeded key, and the
/// trial passes.
pub fn run_trial(trial: u32, highest_id: u32, loop_commits: u32, loop_in_flight: bool) -> (r:
    Result<Vec<i64>, HarnessError>)
    requires
        highest_id < 0xffff_ffff,
    ensures
        r is Ok,
        (r matches Ok(rows) ==> rows@ == seq![highest_id as i64]),
{
    let mut store_a = Pool::create(Durability::Normal);
    let mut store_b = Pool::create(Durability::Normal);

    match create_schema(&mut store_a) {
        Ok(_) => {},
        Err(e) => {
            return Err(e);
        },
    }
    match create_schema(&mut store_b) {
        Ok(_) => {},
        Err(e) => {
            return Err(e);
        },
    }
    match seed_range(&mut store_a, highest_id) {
        Ok(_) => {},
        Err(e) => {
            return Err(e);
        },
    }
    let rows = match race_delete_loop_vs_read(
        &mut store_b,
        &mut store_a,
        highest_id as i64,
        loop_commits,
        loop_in_flight,
    ) {
        Ok(rows) => rows,
        Err(e) => {
            return Err(e);
        },
    };
    proof {
        lemma_seeded_rows_keys(highest_id as nat + 1);
        assert(seeded_rows(highest_id as nat + 1).contains(highest_id as i64));
    }
    match check_read_result(&rows, trial) {
        Ok(_) => {},
        Err(e) => {
            return Err(e);
        },
    }
    store_a.close();
    store_b.close();
    Ok(rows)
}

} // verus!
