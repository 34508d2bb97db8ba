use consistency_harness::{
    check_read_result, create_schema, provision_location, race_delete_loop_vs_read, run_trial,
    seed_range, seeding_keys, Acquire, Durability, HarnessError, Pool, Statement, StoreId, TxError,
};

const HIGHEST_ID: u32 = 200;

fn seeded_store() -> Pool {
    let mut pool = Pool::create(Durability::Normal);
    assert_eq!(create_schema(&mut pool), Ok(()));
    assert_eq!(seed_range(&mut pool, HIGHEST_ID), Ok(()));
    pool
}

#[test]
fn trial_passes_once() {
    assert_eq!(run_trial(0, HIGHEST_ID, 3, true), Ok(vec![HIGHEST_ID as i64]));
}

#[test]
fn trial_passes_across_all_repetitions() {
    for trial in 0..1000u32 {
        let loop_commits = trial % 5;
        let in_flight = trial % 2 == 0;
        assert_eq!(
            run_trial(trial, HIGHEST_ID, loop_commits, in_flight),
            Ok(vec![HIGHEST_ID as i64])
        );
    }
}

#[test]
fn race_returns_exactly_the_highest_key() {
    let mut store_a = seeded_store();
    let mut store_b = Pool::create(Durability::Normal);
    assert_eq!(create_schema(&mut store_b), Ok(()));
    let rows = race_delete_loop_vs_read(&mut store_b, &mut store_a, HIGHEST_ID as i64, 4, true)
        .expect("the bounded read resolves the race");
    assert_eq!(rows, vec![HIGHEST_ID as i64]);
    assert_eq!(check_read_result(&rows, 0), Ok(()));
}

#[test]
fn race_outcome_is_the_same_for_every_schedule() {
    for commits in 0..4u32 {
        for &in_flight in &[false, true] {
            let mut store_a = seeded_store();
            let mut store_b = Pool::create(Durability::Normal);
            assert_eq!(create_schema(&mut store_b), Ok(()));
            let rows = race_delete_loop_vs_read(
                &mut store_b,
                &mut store_a,
                HIGHEST_ID as i64,
                commits,
                in_flight,
            )
            .expect("the bounded read resolves the race");
            assert_eq!(rows, vec![HIGHEST_ID as i64]);
        }
    }
}

#[test]
fn race_loop_failure_is_fatal_and_propagates() {
    let mut store_a = seeded_store();
    // Store B never had its table created, so the delete loop's first
    // transaction fails and the failure propagates unchanged.
    let mut store_b = Pool::create(Durability::Normal);
    let r = race_delete_loop_vs_read(&mut store_b, &mut store_a, HIGHEST_ID as i64, 1, false);
    assert_eq!(r, Err(HarnessError::Transaction(TxError::NoTable)));
}

#[test]
fn seeding_yields_exactly_the_key_range() {
    let pool = seeded_store();
    assert_eq!(pool.committed_row_count(), 201);
    for id in 0..=HIGHEST_ID {
        assert!(pool.committed_contains(id as i64));
    }
    assert!(!pool.committed_contains(201));
    assert!(!pool.committed_contains(-1));
}

#[test]
fn every_seeded_key_is_readable() {
    let mut pool = seeded_store();
    assert_eq!(pool.acquire_read(), Acquire::Granted);
    for id in [0i64, 1, 73, 199, 200] {
        assert_eq!(pool.execute_read(Statement::SelectEq(id)), Ok(vec![id]));
    }
    assert_eq!(pool.execute_read(Statement::SelectEq(201)), Ok(vec![]));
}

#[test]
fn read_connection_rejects_mutating_statements() {
    let mut pool = seeded_store();
    assert_eq!(pool.acquire_read(), Acquire::Granted);
    assert_eq!(
        pool.execute_read(Statement::Insert(7)),
        Err(TxError::ReadOnly)
    );
    assert_eq!(
        pool.execute_read(Statement::DeleteAll),
        Err(TxError::ReadOnly)
    );
    assert_eq!(
        pool.execute_read(Statement::CreateTable),
        Err(TxError::ReadOnly)
    );
    // The rejected statements had no effect: the whole seed is still there.
    assert_eq!(
        pool.execute_read(Statement::SelectEq(HIGHEST_ID as i64)),
        Ok(vec![HIGHEST_ID as i64])
    );
}

#[test]
fn abandoned_transaction_has_no_observable_effect() {
    let mut pool = seeded_store();
    assert_eq!(pool.acquire_write(), Acquire::Granted);
    pool.begin();
    assert_eq!(pool.execute(Statement::DeleteAll), Ok(vec![]));
    assert_eq!(pool.execute(Statement::Insert(999)), Ok(vec![999]));
    // Cancelled before commit: the transaction is abandoned, not rolled back
    // by hand, and must leave no durable trace.
    pool.abandon();
    pool.release_write();
    assert_eq!(pool.committed_row_count(), 201);
    assert_eq!(pool.acquire_read(), Acquire::Granted);
    assert_eq!(
        pool.execute_read(Statement::SelectEq(HIGHEST_ID as i64)),
        Ok(vec![HIGHEST_ID as i64])
    );
    assert_eq!(pool.execute_read(Statement::SelectEq(999)), Ok(vec![]));
}

#[test]
fn uncommitted_statements_are_invisible_until_commit() {
    let mut pool = Pool::create(Durability::Normal);
    assert_eq!(create_schema(&mut pool), Ok(()));
    assert_eq!(pool.acquire_write(), Acquire::Granted);
    pool.begin();
    assert_eq!(pool.execute(Statement::Insert(1)), Ok(vec![1]));
    assert_eq!(pool.execute(Statement::Insert(2)), Ok(vec![2]));
    // Nothing is committed yet: all statements commit together or not at all.
    assert_eq!(pool.committed_row_count(), 0);
    pool.commit();
    pool.release_write();
    assert_eq!(pool.committed_row_count(), 2);
}

#[test]
fn stale_read_connection_misses_the_commit() {
    let mut pool = Pool::create(Durability::Normal);
    assert_eq!(create_schema(&mut pool), Ok(()));
    // Wrong sequencing: the read connection is opened and cached before the
    // seeding transaction commits, so it observes the pre-commit state.
    assert_eq!(pool.acquire_read(), Acquire::Granted);
    assert_eq!(seed_range(&mut pool, HIGHEST_ID), Ok(()));
    let rows = pool
        .execute_read(Statement::SelectEq(HIGHEST_ID as i64))
        .expect("a filtered select succeeds on the read connection");
    assert_eq!(rows, vec![]);
    assert_eq!(
        check_read_result(&rows, 12),
        Err(HarnessError::ConsistencyViolation(12))
    );
}

#[test]
fn each_role_grants_at_most_one_handle() {
    let mut pool = Pool::create(Durability::Normal);
    assert_eq!(pool.acquire_write(), Acquire::Granted);
    assert_eq!(pool.acquire_write(), Acquire::Busy);
    // The read role is independent of the write role.
    assert_eq!(pool.acquire_read(), Acquire::Granted);
    assert_eq!(pool.acquire_read(), Acquire::Busy);
    pool.release_write();
    assert_eq!(pool.acquire_write(), Acquire::Granted);
    pool.release_read();
    assert_eq!(pool.acquire_read(), Acquire::Granted);
}

#[test]
fn insert_returns_the_inserted_key() {
    let mut pool = Pool::create(Durability::Normal);
    assert_eq!(create_schema(&mut pool), Ok(()));
    assert_eq!(pool.acquire_write(), Acquire::Granted);
    pool.begin();
    assert_eq!(pool.execute(Statement::Insert(7)), Ok(vec![7]));
    pool.commit();
    pool.release_write();
}

#[test]
fn duplicate_key_is_rejected() {
    let mut pool = Pool::create(Durability::Normal);
    assert_eq!(create_schema(&mut pool), Ok(()));
    assert_eq!(pool.acquire_write(), Acquire::Granted);
    pool.begin();
    assert_eq!(pool.execute(Statement::Insert(5)), Ok(vec![5]));
    assert_eq!(
        pool.execute(Statement::Insert(5)),
        Err(TxError::DuplicateKey)
    );
    pool.commit();
    pool.release_write();
    assert_eq!(pool.committed_row_count(), 1);
}

#[test]
fn statements_before_table_creation_fail() {
    let mut pool = Pool::create(Durability::Normal);
    assert_eq!(pool.acquire_write(), Acquire::Granted);
    pool.begin();
    assert_eq!(pool.execute(Statement::Insert(1)), Err(TxError::NoTable));
    assert_eq!(pool.execute(Statement::DeleteAll), Err(TxError::NoTable));
    assert_eq!(pool.execute(Statement::SelectEq(1)), Err(TxError::NoTable));
    pool.abandon();
    pool.release_write();
    assert_eq!(pool.acquire_read(), Acquire::Granted);
    assert_eq!(
        pool.execute_read(Statement::SelectEq(1)),
        Err(TxError::NoTable)
    );
}

#[test]
fn creating_the_table_twice_fails() {
    let mut pool = Pool::create(Durability::Normal);
    assert_eq!(create_schema(&mut pool), Ok(()));
    assert_eq!(
        create_schema(&mut pool),
        Err(HarnessError::Transaction(TxError::TableExists))
    );
    // The failed attempt was abandoned and left the table intact.
    assert_eq!(seed_range(&mut pool, HIGHEST_ID), Ok(()));
    assert_eq!(pool.committed_row_count(), 201);
}

#[test]
fn occupied_location_is_a_provisioning_error() {
    assert_eq!(provision_location(false), Ok(()));
    assert_eq!(provision_location(true), Err(HarnessError::Provisioning));
}

#[test]
fn empty_read_is_a_consistency_violation_naming_the_trial() {
    let empty: Vec<i64> = vec![];
    assert_eq!(
        check_read_result(&empty, 41),
        Err(HarnessError::ConsistencyViolation(41))
    );
    assert_eq!(check_read_result(&vec![200], 41), Ok(()));
}

#[test]
fn every_durability_mode_runs_a_trial() {
    for durability in [Durability::Off, Durability::Normal, Durability::Full] {
        let mut pool = Pool::create(durability);
        assert_eq!(create_schema(&mut pool), Ok(()));
        assert_eq!(seed_range(&mut pool, 9), Ok(()));
        assert_eq!(pool.acquire_read(), Acquire::Granted);
        assert_eq!(pool.execute_read(Statement::SelectEq(9)), Ok(vec![9]));
        pool.release_read();
        pool.close();
    }
}

#[test]
fn statements_render_to_the_store_engine_sql() {
    assert_eq!(
        Statement::CreateTable.sql_text(StoreId::A.table_name()),
        "CREATE TABLE a_table (id INTEGER PRIMARY KEY)"
    );
    assert_eq!(
        Statement::CreateTable.sql_text(StoreId::B.table_name()),
        "CREATE TABLE b_table (id INTEGER PRIMARY KEY)"
    );
    assert_eq!(
        Statement::Insert(5).sql_text(StoreId::A.table_name()),
        "INSERT INTO a_table (id) VALUES (?) RETURNING id"
    );
    assert_eq!(
        Statement::DeleteAll.sql_text(StoreId::B.table_name()),
        "DELETE FROM b_table"
    );
    assert_eq!(
        Statement::SelectEq(200).sql_text(StoreId::A.table_name()),
        "SELECT id FROM a_table WHERE id = ?"
    );
}

#[test]
fn statement_parameters_carry_the_key() {
    assert_eq!(Statement::Insert(7).bound_key(), Some(7));
    assert_eq!(Statement::SelectEq(200).bound_key(), Some(200));
    assert_eq!(Statement::CreateTable.bound_key(), None);
    assert_eq!(Statement::DeleteAll.bound_key(), None);
}

#[test]
fn seeding_keys_are_the_ascending_range() {
    let keys = seeding_keys(HIGHEST_ID);
    assert_eq!(keys.len(), 201);
    for (i, key) in keys.iter().enumerate() {
        assert_eq!(*key, i as i64);
    }
}

#[test]
fn smallest_seed_holds_one_row() {
    let mut pool = Pool::create(Durability::Normal);
    assert_eq!(create_schema(&mut pool), Ok(()));
    assert_eq!(seed_range(&mut pool, 0), Ok(()));
    assert_eq!(pool.committed_row_count(), 1);
    assert!(pool.committed_contains(0));
    assert!(!pool.committed_contains(1));
}
