use vstd::prelude::*;
use vstd::string::StringExecFns;

use crate::errors::TxError;

verus! {

/// A statement issued against a store's single table, whose one column is an
/// integer primary key.
#[derive(Clone, Copy, Debug, PartialEq, Eq, Structural)]
pub enum Statement {
    /// Create the table; fails if it already exists.
    CreateTable,
    /// Insert one row with the given key and hand the key back, confirming
    /// that the statement executed.
    Insert(i64),
    /// Delete every row of the table.
    DeleteAll,
    /// Return the rows whose key equals the given value.
    SelectEq(i64),
}

/// The SQL text a statement renders to against the named table. The key of an
/// insert or a filtered select is not part of the text: it travels as the
/// statement's single bound parameter.
pub open spec fn statement_sql(s: Statement, table: Seq<char>) -> Seq<char> {
    match s {
        Statement::CreateTable => "CREATE TABLE "@ + table + " (id INTEGER PRIMARY KEY)"@,
        Statement::Insert(_) => "INSERT INTO "@ + table + " (id) VALUES (?) RETURNING id"@,
        Statement::DeleteAll => "DELETE FROM "@ + table,
        Statement::SelectEq(_) => "SELECT id FROM "@ + table + " WHERE id = ?"@,
    }
}

/// The key a statement binds as its single parameter, if it has one.
pub open spec fn statement_key(s: Statement) -> Option<i64> {
    match s {
        Statement::CreateTable => None,
        Statement::Insert(id) => Some(id),
        Statement::DeleteAll => None,
        Statement::SelectEq(id) => Some(id),
    }
}

impl Statement {
    /// Render this statement as SQL against the named table, for the driver
    /// that performs it against a real store engine.
    pub fn sql_text(&self, table: &str) -> (r: String)
        ensures
            r@ == statement_sql(*self, table@),
    {
        match self {
            Statement::CreateTable => {
                let mut s = String::from_str("CREATE TABLE ");
                s.append(table);
                s.append(" (id INTEGER PRIMARY KEY)");
                s
            },
            Statement::Insert(_) => {
                let mut s = String::from_str("INSERT INTO ");
                s.append(table);
                s.append(" (id) VALUES (?) RETURNING id");
                s
            },
            Statement::DeleteAll => {
                let mut s = String::from_str("DELETE FROM ");
                s.append(table);
                s
            },
            Statement::SelectEq(_) => {
                let mut s = String::from_str("SELECT id FROM ");
                s.append(table);
                s.append(" WHERE id = ?");
                s
            },
        }
    }

    /// The key this statement hands to the driver as its single bound
    /// parameter, if it has one.
    pub fn bound_key(&self) -> (r: Option<i64>)
        ensures
            r == statement_key(*self),
    {
        match self {
            Statement::CreateTable => None,
            Statement::Insert(id) => Some(*id),
            Statement::DeleteAll => None,
            Statement::SelectEq(id) => Some(*id),
        }
    }
}

/// The mathematical state of one table: whether it has been created, and its
/// rows in insertion order.
#[verifier::ext_equal]
pub struct TableView {
    pub schema: bool,
    pub rows: Seq<i64>,
}

/// Primary-key uniqueness: no key occurs twice.
pub open spec fn unique_rows(rows: Seq<i64>) -> bool {
    forall|i: int, j: int| 0 <= i < j < rows.len() ==> rows[i] != rows[j]
}

/// Well-formedness of a table: keys are unique, and a table that was never
/// created holds no rows.
pub open spec fn table_wf(t: TableView) -> bool {
    &&& unique_rows(t.rows)
    &&& !t.schema ==> t.rows.len() == 0
}

/// Whether a statement mutates the table. Only the filtered select is
/// read-only; everything else writes schema or rows.
pub open spec fn stmt_is_mutating(s: Statement) -> bool {
    !(s is SelectEq)
}

/// Whether a statement succeeds against the given table state.
pub open spec fn stmt_ok(t: TableView, s: Statement) -> bool {
    match s {
        Statement::CreateTable => !t.schema,
        Statement::Insert(id) => t.schema && !t.rows.contains(id),
        Statement::DeleteAll => t.schema,
        Statement::SelectEq(_) => t.schema,
    }
}

/// The error a failing statement raises.
pub open spec fn stmt_err(t: TableView, s: Statement) -> TxError
    recommends
        !stmt_ok(t, s),
{
    match s {
        Statement::CreateTable => TxError::TableExists,
        Statement::Insert(_) => if !t.schema {
            TxError::NoTable
        } else {
            TxError::DuplicateKey
        },
        Statement::DeleteAll => TxError::NoTable,
        Statement::SelectEq(_) => TxError::NoTable,
    }
}

/// The table state after a successful statement.
pub open spec fn stmt_next(t: TableView, s: Statement) -> TableView
    recommends
        stmt_ok(t, s),
{
    match s {
        Statement::CreateTable => TableView { schema: true, rows: t.rows },
        Statement::Insert(id) => TableView { schema: t.schema, rows: t.rows.push(id) },
        Statement::DeleteAll => TableView { schema: t.schema, rows: Seq::empty() },
        Statement::SelectEq(_) => t,
    }
}

/// What a select filtered on one key returns from a table with unique keys:
/// exactly one row holding the key if it is present, and no rows otherwise.
pub open spec fn select_eq_spec(rows: Seq<i64>, id: i64) -> Seq<i64>
    recommends
        unique_rows(rows),
{
    if rows.contains(id) {
        seq![id]
    } else {
        Seq::empty()
    }
}

/// The rows a successful statement returns to its caller.
pub open spec fn stmt_rows(t: TableView, s: Statement) -> Seq<i64>
    recommends
        stmt_ok(t, s),
{
    match s {
        Statement::CreateTable => Seq::empty(),
        Statement::Insert(id) => seq![id],
        Statement::DeleteAll => Seq::empty(),
        Statement::SelectEq(id) => select_eq_spec(t.rows, id),
    }
}

/// Executable table state. Kept well-formed by every operation.
pub struct Table {
    schema: bool,
    rows: Vec<i64>,
}

impl View for Table {
    type V = TableView;

    closed spec fn view(&self) -> TableView {
        TableView { schema: self.schema, rows: self.rows@ }
    }
}

impl Table {
    /// A fresh store location: no table yet, no rows.
    pub fn new() -> (t: Table)
        ensures
            t@ == (TableView { schema: false, rows: Seq::<i64>::empty() }),
    {
        Table { schema: false, rows: Vec::new() }
    }

    /// An independent copy with the same state, as a transaction's working
    /// table or a read connection's captured snapshot.
    pub fn duplicate(&self) -> (t: Table)
        ensures
            t@ == self@,
    {
        let mut rows: Vec<i64> = Vec::new();
        let mut i: usize = 0;
        while i < self.rows.len()
            invariant
                i <= self.rows.len(),
                rows@ == self.rows@.take(i as int),
            decreases self.rows.len() - i,
        {
            rows.push(self.rows[i]);
            proof {
                assert(self.rows@.take(i as int).push(self.rows@[i as int]) =~= self.rows@.take(
                    i as int + 1,
                ));
            }
            i = i + 1;
        }
        proof {
            assert(self.rows@.take(self.rows@.len() as int) =~= self.rows@);
        }
        Table { schema: self.schema, rows }
    }

    /// Whether a row with the given key is present.
    pub fn contains_id(&self, id: i64) -> (b: bool)
        ensures
            b == self@.rows.contains(id),
    {
        let mut i: usize = 0;
        while i < self.rows.len()
            invariant
                i <= self.rows.len(),
                forall|j: int| 0 <= j < i ==> self.rows@[j] != id,
            decreases self.rows.len() - i,
        {
            if self.rows[i] == id {
                proof {
                    assert(self.rows@[i as int] == id);
                }
                return true;
            }
            i = i + 1;
        }
        false
    }

    /// Whether the table has been created.
    pub fn schema_exists(&self) -> (b: bool)
        ensures
            b == self@.schema,
    {
        self.schema
    }

    /// Number of rows currently in the table.
    pub fn row_count(&self) -> (n: usize)
        ensures
            n == self@.rows.len(),
    {
        self.rows.len()
    }

    /// The rows a select filtered on `id` returns.
    pub fn select_eq(&self, id: i64) -> (r: Vec<i64>)
        ensures
            r@ == select_eq_spec(self@.rows, id),
    {
        let mut out: Vec<i64> = Vec::new();
        if self.contains_id(id) {
            out.push(id);
            proof {
                assert(out@ =~= seq![id]);
            }
        }
        out
    }

    /// Apply one statement to this table state: exactly the statement's
    /// effect on success, and no effect at all on failure.
    pub fn apply(&mut self, s: Statement) -> (r: Result<Vec<i64>, TxError>)
        requires
            table_wf(old(self)@),
        ensures
            table_wf(final(self)@),
            r is Ok <==> stmt_ok(old(self)@, s),
            (r matches Ok(rows) ==> final(self)@ == stmt_next(old(self)@, s) && rows@ == stmt_rows(
                old(self)@,
                s,
            )),
            (r matches Err(e) ==> final(self)@ == old(self)@ && e == stmt_err(old(self)@, s)),
    {
        match s {
            Statement::CreateTable => {
                if self.schema {
                    Err(TxError::TableExists)
                } else {
                    self.schema = true;
                    Ok(Vec::new())
                }
            },
            Statement::Insert(id) => {
                if !self.schema {
                    Err(TxError::NoTable)
                } else if self.contains_id(id) {
                    Err(TxError::DuplicateKey)
                } else {
                    self.rows.push(id);
                    proof {
                        let rows = self@.rows;
                        assert forall|i: int, j: int| 0 <= i < j < rows.len() implies rows[i]
                            != rows[j] by {
                            if j == rows.len() - 1 {
                                assert(rows[i] == old(self)@.rows[i]);
                                assert(old(self)@.rows.contains(rows[i]));
                            }
                        }
                    }
                    let mut out: Vec<i64> = Vec::new();
                    out.push(id);
                    proof {
                        assert(out@ =~= seq![id]);
                    }
                    Ok(out)
                }
            },
            Statement::DeleteAll => {
                if !self.schema {
                    Err(TxError::NoTable)
                } else {
                    self.rows = Vec::new();
                    Ok(Vec::new())
                }
            },
            Statement::SelectEq(id) => {
                if !self.schema {
                    Err(TxError::NoTable)
                } else {
                    Ok(self.select_eq(id))
                }
            },
        }
    }
}

} // verus!
