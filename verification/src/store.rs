//! The storage backend and task repository.
//!
//! A `Store` owns one connection to a local SQLite database file. Its
//! observable state is modelled by two spec-level observations: whether the
//! `tasks` table exists, and the table's contents as a map from task id to
//! the stored row. Every operation's contract is stated against that model.
//!
//! The model assumes the database file is managed by this library alone,
//! so that a `tasks` table, when present, has the schema `create_tables`
//! establishes (in particular, ids are unique and required columns are
//! non-null at rest).

use vstd::prelude::*;

use crate::task::Task;
use crate::task::TaskRow;
use crate::task::TaskView;
use crate::task::RowView;
use crate::task::row_of;
use crate::task::row_complete;
use crate::task::task_of_row;
use crate::task::lemma_row_round_trip;

verus! {

/// A live handle to one local database file.
#[verifier::external_body]
pub struct Store {
    conn: rusqlite::Connection,
}

/// The contents of the store's `tasks` table: the stored row of each task,
/// keyed by the task's id. A store without the table holds no rows.
pub uninterp spec fn store_tasks(s: Store) -> Map<Seq<char>, RowView>;

/// Whether the store's database holds the `tasks` table.
pub uninterp spec fn has_tasks_table(s: Store) -> bool;

/// The contents of a store that holds no rows.
pub open spec fn no_rows() -> Map<Seq<char>, RowView> {
    Map::empty()
}

/// Why a storage operation failed. Each variant carries the storage
/// engine's description of the failure.
#[derive(Debug)]
pub enum StoreError {
    /// The database file could not be opened or created.
    Connection(String),
    /// The schema-creating statement failed.
    Schema(String),
    /// An insert violated the `id` primary-key uniqueness constraint.
    DuplicateKey(String),
    /// An insert left a required (NOT NULL) column null.
    Constraint(String),
    /// Any other storage-engine failure.
    Io(String),
}

impl StoreError {
    /// The storage engine's description of the failure.
    pub open spec fn text(self) -> Seq<char> {
        match self {
            StoreError::Connection(m) => m@,
            StoreError::Schema(m) => m@,
            StoreError::DuplicateKey(m) => m@,
            StoreError::Constraint(m) => m@,
            StoreError::Io(m) => m@,
        }
    }

    /// A human-readable description of the failure.
    pub fn message(&self) -> (r: &str)
        ensures
            r@ == self.text(),
    {
        match self {
            StoreError::Connection(m) => m.as_str(),
            StoreError::Schema(m) => m.as_str(),
            StoreError::DuplicateKey(m) => m.as_str(),
            StoreError::Constraint(m) => m.as_str(),
            StoreError::Io(m) => m.as_str(),
        }
    }
}

/// Relies on rusqlite's `Connection::open`: opens the database file at
/// `path`, creating it if absent, and fails when the file cannot be
/// created or opened (permissions, disk, corruption).
#[verifier::external_body]
fn open_at(path: &str) -> (r: Result<Store, StoreError>)
    ensures
        r matches Err(e) ==> e is Connection,
{
    match rusqlite::Connection::open(path) {
        Ok(conn) => Ok(Store { conn }),
        Err(e) => Err(StoreError::Connection(e.to_string())),
    }
}

/// Relies on rusqlite's `Connection::open_in_memory`: a freshly opened
/// in-memory database holds no tables and therefore no rows.
#[verifier::external_body]
fn open_mem() -> (r: Result<Store, StoreError>)
    ensures
        r matches Ok(s) ==> !has_tasks_table(s) && store_tasks(s) == no_rows(),
        r matches Err(e) ==> e is Connection,
{
    match rusqlite::Connection::open_in_memory() {
        Ok(conn) => Ok(Store { conn }),
        Err(e) => Err(StoreError::Connection(e.to_string())),
    }
}

/// Relies on rusqlite's `Connection::execute` running one
/// `CREATE TABLE IF NOT EXISTS` statement: on success the table exists and
/// no stored row is touched (creating an absent table yields an empty one,
/// and an existing table is left as it is); a failed DDL statement changes
/// nothing.
#[verifier::external_body]
fn exec_create(s: &mut Store) -> (r: Result<(), StoreError>)
    ensures
        r matches Ok(()) ==> has_tasks_table(*final(s)) && store_tasks(*final(s)) == store_tasks(*old(s)),
        r matches Err(e) ==> e is Schema
            && has_tasks_table(*final(s)) == has_tasks_table(*old(s))
            && store_tasks(*final(s)) == store_tasks(*old(s)),
{
    let q = "CREATE TABLE IF NOT EXISTS tasks (\
         id TEXT PRIMARY KEY NOT NULL, title TEXT NOT NULL, description TEXT,\
         document_id TEXT, priority TEXT NOT NULL, created_at TEXT NOT NULL,\
         updated_at TEXT NOT NULL, column_id TEXT NOT NULL, deadline TEXT)";
    match s.conn.execute(q, ()) {
        Ok(_) => Ok(()),
        Err(e) => Err(StoreError::Schema(e.to_string())),
    }
}

/// Relies on rusqlite's `Connection::execute` running one parameterized
/// INSERT with each column bound positionally: success adds exactly the
/// bound row under its id; a primary-key conflict reports extended code
/// `SQLITE_CONSTRAINT_PRIMARYKEY` and a null in a NOT NULL column
/// `SQLITE_CONSTRAINT_NOTNULL`; a failed statement writes nothing
/// (single-statement atomicity).
#[verifier::external_body]
fn exec_insert(s: &mut Store, row: &TaskRow) -> (r: Result<(), StoreError>)
    ensures
        r matches Ok(()) ==> ({
            &&& has_tasks_table(*old(s))
            &&& row_complete(row@)
            &&& !store_tasks(*old(s)).contains_key(row@.id->0)
            &&& has_tasks_table(*final(s))
            &&& store_tasks(*final(s)) == store_tasks(*old(s)).insert(row@.id->0, row@)
        }),
        r matches Err(e) ==> ({
            &&& store_tasks(*final(s)) == store_tasks(*old(s))
            &&& has_tasks_table(*final(s)) == has_tasks_table(*old(s))
            &&& e is DuplicateKey || e is Constraint || e is Io
            &&& e is DuplicateKey ==> row@.id is Some && store_tasks(*old(s)).contains_key(row@.id->0)
            &&& e is Constraint ==> !row_complete(row@)
        }),
{
    let q = "INSERT INTO tasks (id, title, description, document_id, priority,\
         created_at, updated_at, column_id, deadline)\
         VALUES (?1, ?2, ?3, ?4, ?5, ?6, ?7, ?8, ?9)";
    match s.conn.execute(q, (&row.id, &row.title, &row.description,
            &row.document_id, &row.priority, &row.created_at, &row.updated_at,
            &row.column_id, &row.deadline)) {
        Ok(_) => Ok(()),
        Err(e) => Err(match &e {
            rusqlite::Error::SqliteFailure(f, _) if f.extended_code == rusqlite::ffi::SQLITE_CONSTRAINT_PRIMARYKEY => StoreError::DuplicateKey(e.to_string()),
            rusqlite::Error::SqliteFailure(f, _) if f.extended_code == rusqlite::ffi::SQLITE_CONSTRAINT_NOTNULL => StoreError::Constraint(e.to_string()),
            _ => StoreError::Io(e.to_string()),
        }),
    }
}

/// Relies on rusqlite's `Connection::query_row` running one SELECT by id:
/// it hands back the stored columns of the matching row unchanged, or
/// reports `QueryReturnedNoRows` when no row has that id.
#[verifier::external_body]
fn fetch_row(s: &Store, id: &str) -> (r: Result<Option<TaskRow>, StoreError>)
    ensures
        r matches Ok(Some(t)) ==> store_tasks(*s).contains_key(id@) && store_tasks(*s)[id@] == t@,
        r matches Ok(None) ==> !store_tasks(*s).contains_key(id@),
        r matches Err(e) ==> e is Io,
{
    let q = "SELECT id, title, description, document_id, priority, created_at,\
         updated_at, column_id, deadline FROM tasks WHERE id = ?1";
    let res = s.conn.query_row(q, (id,), |w| Ok(TaskRow {
        id: w.get(0)?, title: w.get(1)?, description: w.get(2)?,
        document_id: w.get(3)?, priority: w.get(4)?, created_at: w.get(5)?,
        updated_at: w.get(6)?, column_id: w.get(7)?, deadline: w.get(8)?,
    }));
    match res {
        Ok(t) => Ok(Some(t)),
        Err(rusqlite::Error::QueryReturnedNoRows) => Ok(None),
        Err(e) => Err(StoreError::Io(e.to_string())),
    }
}

/// Relies on rusqlite's `Connection::query_row` running `SELECT COUNT(*)`:
/// the number of rows of the `tasks` table, one row per stored id.
#[verifier::external_body]
fn exec_count(s: &Store) -> (r: Result<usize, StoreError>)
    ensures
        r matches Ok(n) ==> has_tasks_table(*s) && n as nat == store_tasks(*s).dom().len(),
        r matches Err(e) ==> e is Io,
{
    match s.conn.query_row("SELECT COUNT(*) FROM tasks", (), |w| w.get::<usize, i64>(0)) {
        Ok(n) => Ok(n as usize),
        Err(e) => Err(StoreError::Io(e.to_string())),
    }
}

/// Open the storage backend on its fixed local database file, creating the
/// file if absent. Fails with `Connection` when the file cannot be opened.
pub fn establish_connection() -> (r: Result<Store, StoreError>)
    ensures
        r matches Err(e) ==> e is Connection,
{
    open_at("kanban.db")
}

/// Open the storage backend on the database file at `path`, creating the
/// file if absent. Fails with `Connection` when the file cannot be opened.
pub fn open_store(path: &str) -> (r: Result<Store, StoreError>)
    ensures
        r matches Err(e) ==> e is Connection,
{
    open_at(path)
}

/// Open a storage backend that holds no tables and no rows, backed by
/// memory instead of a file. Fails with `Connection` when the database
/// cannot be created.
pub fn open_store_in_memory() -> (r: Result<Store, StoreError>)
    ensures
        r matches Ok(s) ==> !has_tasks_table(s) && store_tasks(s) == no_rows(),
        r matches Err(e) ==> e is Connection,
{
    open_mem()
}

/// Idempotently ensure the `tasks` table exists: safe to call on every
/// startup. Success leaves the table present and every stored row exactly
/// as it was — whether the table already existed or was just created — so
/// a second call in sequence changes nothing either. Fails with `Schema`
/// on DDL failure, changing nothing.
pub fn create_tables(store: &mut Store) -> (r: Result<(), StoreError>)
    ensures
        r matches Ok(()) ==> has_tasks_table(*final(store))
            && store_tasks(*final(store)) == store_tasks(*old(store)),
        r matches Err(e) ==> e is Schema
            && has_tasks_table(*final(store)) == has_tasks_table(*old(store))
            && store_tasks(*final(store)) == store_tasks(*old(store)),
{
    exec_create(store)
}

/// Persist one row exactly as bound. This is the repository's binding
/// layer: a row missing a required column is rejected by the schema's NOT
/// NULL constraints with `Constraint`, a row whose id is already stored is
/// rejected with `DuplicateKey`, and every failure writes nothing.
pub fn insert_task_row(store: &mut Store, row: &TaskRow) -> (r: Result<(), StoreError>)
    ensures
        r matches Ok(()) ==> ({
            &&& has_tasks_table(*old(store))
            &&& row_complete(row@)
            &&& !store_tasks(*old(store)).contains_key(row@.id->0)
            &&& has_tasks_table(*final(store))
            &&& store_tasks(*final(store)) == store_tasks(*old(store)).insert(row@.id->0, row@)
        }),
        r matches Err(e) ==> ({
            &&& store_tasks(*final(store)) == store_tasks(*old(store))
            &&& has_tasks_table(*final(store)) == has_tasks_table(*old(store))
            &&& e is DuplicateKey || e is Constraint || e is Io
            &&& e is DuplicateKey ==> row@.id is Some && store_tasks(*old(store)).contains_key(row@.id->0)
            &&& e is Constraint ==> !row_complete(row@)
        }),
        !row_complete(row@) ==> r matches Err(_),
{
    exec_insert(store, row)
}

/// Durably persist one task as one row: every attribute is bound
/// positionally and written atomically as a single row-insert. Success
/// adds exactly the task's row under its id; a task whose id is already
/// stored is rejected with `DuplicateKey`; every failure writes nothing.
/// A task can never violate a NOT NULL constraint (all required
/// attributes are present by construction), so `Constraint` never comes.
pub fn insert_task(store: &mut Store, task: &Task) -> (r: Result<(), StoreError>)
    ensures
        r matches Ok(()) ==> ({
            &&& has_tasks_table(*old(store))
            &&& !store_tasks(*old(store)).contains_key(task@.id)
            &&& has_tasks_table(*final(store))
            &&& store_tasks(*final(store)) == store_tasks(*old(store)).insert(task@.id, row_of(task@))
        }),
        r matches Err(e) ==> ({
            &&& store_tasks(*final(store)) == store_tasks(*old(store))
            &&& has_tasks_table(*final(store)) == has_tasks_table(*old(store))
            &&& e is DuplicateKey || e is Io
            &&& e is DuplicateKey ==> store_tasks(*old(store)).contains_key(task@.id)
        }),
{
    let row = task.to_row();
    insert_task_row(store, &row)
}

/// Read back the stored row with the given id, or `Ok(None)` when no row
/// has that id.
pub fn fetch_task_row(store: &Store, id: &str) -> (r: Result<Option<TaskRow>, StoreError>)
    ensures
        r matches Ok(Some(t)) ==> store_tasks(*store).contains_key(id@)
            && store_tasks(*store)[id@] == t@,
        r matches Ok(None) ==> !store_tasks(*store).contains_key(id@),
        r matches Err(e) ==> e is Io,
{
    fetch_row(store, id)
}

/// Read back the task stored under the given id: `Ok(Some)` exactly when a
/// row with that id is stored and describes a task (all required columns
/// present).
pub fn fetch_task(store: &Store, id: &str) -> (r: Result<Option<Task>, StoreError>)
    ensures
        r matches Ok(Some(t)) ==> store_tasks(*store).contains_key(id@)
            && task_of_row(store_tasks(*store)[id@]) == Some(t@),
        r matches Ok(None) ==> !store_tasks(*store).contains_key(id@)
            || task_of_row(store_tasks(*store)[id@]) is None,
        r matches Err(e) ==> e is Io,
{
    match fetch_row(store, id) {
        Ok(Some(row)) => Ok(row.into_task()),
        Ok(None) => Ok(None),
        Err(e) => Err(e),
    }
}

/// The number of rows currently stored in the `tasks` table.
pub fn task_count(store: &Store) -> (r: Result<usize, StoreError>)
    ensures
        r matches Ok(n) ==> has_tasks_table(*store) && n as nat == store_tasks(*store).dom().len(),
        r matches Err(e) ==> e is Io,
{
    exec_count(store)
}

/// Uniqueness enforcement: once a task's row is stored under its id, the
/// table's model contains that id, so a later insert of any task sharing
/// the id cannot succeed (`insert_task` returns `Ok` only when the id is
/// absent from the model), and since every failed insert leaves the model
/// unchanged, the first task's row is unaffected.
pub proof fn lemma_duplicate_id_occupied(m: Map<Seq<char>, RowView>, t: TaskView, u: TaskView)
    requires
        u.id == t.id,
    ensures
        m.insert(t.id, row_of(t)).contains_key(u.id),
        m.insert(t.id, row_of(t))[u.id] == row_of(t),
{
}

/// Round-trip fidelity at the store: after a task's row is inserted, the
/// row stored under the task's id reads back as exactly that task.
pub proof fn lemma_store_round_trip(m: Map<Seq<char>, RowView>, t: TaskView)
    ensures
        m.insert(t.id, row_of(t)).contains_key(t.id),
        task_of_row(m.insert(t.id, row_of(t))[t.id]) == Some(t),
{
    lemma_row_round_trip(t);
}

} // verus!
