use vstd::prelude::*;

use crate::errors::{HarnessError, TxError};
use crate::pool::{pool_wf, Acquire, Pool};
use crate::table::{select_eq_spec, Statement};

verus! {

/// Race an unbounded write loop on one store against a single bounded read on
/// another, under first-completion-wins scheduling with cancellation of the
/// loser.
///
/// The loop side repeatedly begins a transaction on `loop_pool`'s write
/// connection, deletes every row of its table, and commits — forever, until
/// cancelled. The read side borrows `read_pool`'s read connection once,
/// issues one select filtered on `id`, and returns. Because the read is
/// bounded and the loop is not, the read always resolves the race; the loop
/// is cancelled at its next suspension point, and a transaction it still has
/// in flight is abandoned, never committed.
///
/// The schedule is arbitrary and is passed in: `loop_commits` whole loop
/// transactions committed before the read finished, and `loop_in_flight` says
/// whether the loop was cancelled with one more transaction open. The result
/// of the read is the same for every schedule, because the two stores are
/// disjoint: the read returns exactly the select's answer over `read_pool`'s
/// committed table as it stood when the race began.
///
/// A failure of the loop's own transaction is fatal and propagates at once
/// rather than being absorbed; the only error either side can raise here is
/// that its store's table was never created.
pub fn race_delete_loop_vs_read(
    loop_pool: &mut Pool,
    read_pool: &mut Pool,
    id: i64,
    loop_commits: u32,
    loop_in_flight: bool,
) -> (r: Result<Vec<i64>, HarnessError>)
    requires
        pool_wf(old(loop_pool)@),
        pool_wf(old(read_pool)@),
        !old(loop_pool)@.closed,
        !old(loop_pool)@.write_held,
        !old(read_pool)@.closed,
        old(read_pool)@.snapshot is None,
    ensures
        pool_wf(final(loop_pool)@),
        pool_wf(final(read_pool)@),
        final(read_pool)@ == old(read_pool)@,
        r is Ok <==> ((loop_commits == 0 || old(loop_pool)@.committed.schema) && old(
            read_pool,
        )@.committed.schema),
        (r matches Ok(rows) ==> rows@ == select_eq_spec(old(read_pool)@.committed.rows, id)),
        (r is Err ==> r == Err::<Vec<i64>, HarnessError>(
            HarnessError::Transaction(TxError::NoTable),
        )),
        !final(loop_pool)@.write_held,
        final(loop_pool)@.tx is None,
        !final(loop_pool)@.closed,
        final(loop_pool)@.snapshot == old(loop_pool)@.snapshot,
        final(loop_pool)@.durability == old(loop_pool)@.durability,
        final(loop_pool)@.committed.schema == old(loop_pool)@.committed.schema,
        final(loop_pool)@.committed.rows == (if loop_commits > 0 && old(
            loop_pool,
        )@.committed.schema {
            Seq::<i64>::empty()
        } else {
            old(loop_pool)@.committed.rows
        }),
{
    let mut k: u32 = 0;
    while k < loop_commits
        invariant
            pool_wf(loop_pool@),
            !loop_pool@.write_held,
            loop_pool@.tx is None,
            !loop_pool@.closed,
            loop_pool@.snapshot == old(loop_pool)@.snapshot,
            loop_pool@.durability == old(loop_pool)@.durability,
            loop_pool@.committed.schema == old(loop_pool)@.committed.schema,
            k <= loop_commits,
            pool_wf(read_pool@),
            read_pool@ == old(read_pool)@,
            k == 0 ==> loop_pool@.committed == old(loop_pool)@.committed,
            k > 0 ==> old(loop_pool)@.committed.schema && loop_pool@.committed.rows
                == Seq::<i64>::empty(),
        decreases loop_commits - k,
    {
        let a = loop_pool.acquire_write();
        proof {
            assert(a == Acquire::Granted);
        }
        loop_pool.begin();
        match loop_pool.execute(Statement::DeleteAll) {
            Ok(_) => {},
            Err(e) => {
                loop_pool.abandon();
                loop_pool.release_write();
                return Err(HarnessError::Transaction(e));
            },
        }
        loop_pool.commit();
        loop_pool.release_write();
        k = k + 1;
    }
    if loop_in_flight {
        let a = loop_pool.acquire_write();
        proof {
            assert(a == Acquire::Granted);
        }
        loop_pool.begin();
        let _ = loop_pool.execute(Statement::DeleteAll);
        loop_pool.abandon();
        loop_pool.release_write();
    }
    let a = read_pool.acquire_read();
    proof {
        assert(a == Acquire::Granted);
    }
    match read_pool.execute_read(Statement::SelectEq(id)) {
        Ok(rows) => {
            read_pool.release_read();
            Ok(rows)
        },
        Err(e) => {
            read_pool.release_read();
            Err(HarnessError::Transaction(e))
        },
    }
}

} // verus!
