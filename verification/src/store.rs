//! The encrypted store: one database file, unlocked by a passphrase, holding
//! one table of entries.

use vstd::prelude::*;
use rusqlite::Connection;
use std::path::PathBuf;
use crate::entry::{views, well_formed, Entry, EntryView};

verus! {

/// An open connection of the database engine.
#[verifier::external_type_specification]
#[verifier::external_body]
pub struct ExConnection(rusqlite::Connection);

/// The database engine's error.
#[verifier::external_type_specification]
#[verifier::external_body]
pub struct ExEngineError(rusqlite::Error);

/// A file system path.
#[verifier::external_type_specification]
#[verifier::external_body]
pub struct ExPathBuf(std::path::PathBuf);

/// Why a store operation failed.
#[derive(Clone, Copy, Debug, PartialEq, Eq, Structural)]
pub enum StoreError {
    /// The passphrase does not unlock the file.
    AuthError,
    /// The entry is not fit to be stored: its title is empty.
    ValidationError,
    /// No entry has the given id.
    NotFoundError,
    /// The file could not be opened, read or written.
    IOError,
}

impl StoreError {
    /// Whether the process can go on after this error.
    pub open spec fn recoverable(self) -> bool {
        self == StoreError::ValidationError || self == StoreError::NotFoundError
    }

    /// Whether the process can go on after this error.
    pub fn is_recoverable(&self) -> (r: bool)
        ensures
            r == self.recoverable(),
    {
        match self {
            StoreError::ValidationError => true,
            StoreError::NotFoundError => true,
            StoreError::AuthError => false,
            StoreError::IOError => false,
        }
    }

    /// A line of text that tells the user what went wrong.
    pub fn message(&self) -> (r: String)
        ensures
            r@ == match *self {
                StoreError::AuthError => "wrong passphrase"@,
                StoreError::ValidationError => "the title must not be empty"@,
                StoreError::NotFoundError => "no such entry"@,
                StoreError::IOError => "the database file could not be used"@,
            },
    {
        match self {
            StoreError::AuthError => "wrong passphrase".to_string(),
            StoreError::ValidationError => "the title must not be empty".to_string(),
            StoreError::NotFoundError => "no such entry".to_string(),
            StoreError::IOError => "the database file could not be used".to_string(),
        }
    }
}

/// The name of the database file inside the user's configuration directory.
pub const STORE_FILE: &'static str = "my_passmng";

/// The pragma that hands the passphrase to the engine.
pub const KEY_PRAGMA: &'static str = "KEY";

pub const CREATE_TABLE_SQL: &'static str =
    "CREATE TABLE IF NOT EXISTS passwords(
                    id INTEGER PRIMARY KEY,
                    title TEXT NOT NULL,
                    username TEXT NOT NULL,
                    password TEXT NOT NULL
                )
            ";

pub const SELECT_SQL: &'static str = "SELECT id, title, username, password FROM passwords ORDER BY id ASC";

pub const INSERT_SQL: &'static str =
    "INSERT INTO passwords(id, title, username, password) VALUES (?4, ?1, ?2, ?3)";

pub const UPDATE_SQL: &'static str =
    "UPDATE passwords SET title = ?1, username = ?2, password = ?3 WHERE id = ?4";

pub const DELETE_SQL: &'static str = "DELETE FROM passwords WHERE id = ?4";

/// Calls `dirs::config_dir`: the user's configuration directory, where the
/// platform and the environment name one. Nothing is claimed of the result.
#[verifier::external_body]
fn config_dir() -> (r: Option<PathBuf>) {
    dirs::config_dir()
}

/// Calls `Path::join`: the path of `name` inside `dir`. Nothing is claimed
/// of the result.
#[verifier::external_body]
fn join_path(dir: &PathBuf, name: &str) -> (r: PathBuf) {
    dir.join(name)
}

/// Calls `rusqlite::Connection::open`, which opens the file at `path` and
/// creates it where there is none. Nothing is claimed of the result.
#[verifier::external_body]
fn open_connection(path: &PathBuf) -> (r: Result<Connection, rusqlite::Error>) {
    Connection::open(path)
}

/// Calls `rusqlite::Connection::pragma_update` on the main database.
/// Nothing is claimed of the result.
#[verifier::external_body]
fn pragma_update(conn: &Connection, name: &str, value: String) -> (r: Result<(), rusqlite::Error>) {
    conn.pragma_update(Some(rusqlite::DatabaseName::Main), name, value)
}

/// Calls `rusqlite::Connection::execute_batch`. Nothing is claimed of the
/// result.
#[verifier::external_body]
fn execute_batch(conn: &Connection, sql: &str) -> (r: Result<(), rusqlite::Error>) {
    conn.execute_batch(sql)
}

/// Calls `rusqlite::Connection::execute` with the four values bound to the
/// statement's parameters 1 to 4, an absent id as NULL. On success the
/// engine reports how many rows the statement changed; nothing is claimed
/// of that number.
#[verifier::external_body]
fn execute(
    conn: &Connection,
    sql: &str,
    title: &str,
    username: &str,
    password: &str,
    id: Option<i64>,
) -> (r: Result<usize, rusqlite::Error>) {
    conn.execute(sql, (title, username, password, id))
}

/// Calls `rusqlite::Connection::last_insert_rowid`. Nothing is claimed of
/// the result.
#[verifier::external_body]
fn last_insert_rowid(conn: &Connection) -> (r: i64) {
    conn.last_insert_rowid()
}

/// Calls `rusqlite::Connection::prepare` and `Statement::query_map`, and
/// collects the four columns of every row. Nothing is claimed of the result.
#[verifier::external_body]
fn query_rows(conn: &Connection, sql: &str) -> (r: Result<
    Vec<(i64, String, String, String)>,
    rusqlite::Error,
>) {
    let mut stmt = conn.prepare(sql)?;
    let rows = stmt.query_map((), |row| Ok((row.get(0)?, row.get(1)?, row.get(2)?, row.get(3)?)))?;
    rows.collect()
}

/// Whether an error of the engine carries the code "not a database", which
/// is what the engine reports of a file that the key does not decrypt. The
/// code is part of the error's value: the same error always carries the same.
pub uninterp spec fn reports_not_a_database(e: rusqlite::Error) -> bool;

/// Calls `rusqlite::Error::sqlite_error_code` and tells whether the code is
/// `NotADatabase`. Claimed: the answer depends on the error alone.
#[verifier::external_body]
fn is_not_a_database(e: &rusqlite::Error) -> (r: bool)
    ensures
        r == reports_not_a_database(*e),
{
    e.sqlite_error_code() == Some(rusqlite::ErrorCode::NotADatabase)
}

/// The store's error for a failure of the engine: a file that is not
/// readable as a database under the given key is a wrong passphrase, all
/// else is I/O.
pub open spec fn fault_of(not_a_database: bool) -> StoreError {
    if not_a_database {
        StoreError::AuthError
    } else {
        StoreError::IOError
    }
}

/// The store's error for an engine failure: a file that is not readable as
/// a database under the given key is a wrong passphrase, all else is I/O.
pub fn classify(not_a_database: bool) -> (r: StoreError)
    ensures
        r == fault_of(not_a_database),
{
    if not_a_database {
        StoreError::AuthError
    } else {
        StoreError::IOError
    }
}

/// The store's error for this error of the engine: `AuthError` where it
/// carries the code "not a database", `IOError` for every other.
pub fn store_error(e: &rusqlite::Error) -> (r: StoreError)
    ensures
        r == fault_of(reports_not_a_database(*e)),
{
    classify(is_not_a_database(e))
}

/// What the store makes of the engine's result: a success is handed on as
/// it came, a failure comes back as the store's error for it.
pub open spec fn outcome_of<T>(result: Result<T, rusqlite::Error>) -> Result<T, StoreError> {
    match result {
        Ok(v) => Ok(v),
        Err(e) => Err(fault_of(reports_not_a_database(e))),
    }
}

/// Hands on what the engine returned, with its error turned into the
/// store's: a failure of the engine is never swallowed.
pub fn engine_outcome<T>(result: Result<T, rusqlite::Error>) -> (out: Result<T, StoreError>)
    ensures
        out == outcome_of(result),
{
    match result {
        Ok(v) => Ok(v),
        Err(e) => Err(store_error(&e)),
    }
}

/// What an insert returns once the engine has run the statement: the new
/// row's id where exactly one row was written.
pub fn insert_outcome(rows_changed: usize, row_id: i64) -> (r: Result<i64, StoreError>)
    ensures
        r == if rows_changed == 1 {
            Ok::<i64, StoreError>(row_id)
        } else {
            Err::<i64, StoreError>(StoreError::IOError)
        },
{
    if rows_changed == 1 {
        Ok(row_id)
    } else {
        Err(StoreError::IOError)
    }
}

/// What an update or a delete returns once the engine has run the
/// statement: no row changed means that no entry has the id.
pub fn change_outcome(rows_changed: usize) -> (r: Result<(), StoreError>)
    ensures
        r == if rows_changed == 1 {
            Ok::<(), StoreError>(())
        } else if rows_changed == 0 {
            Err::<(), StoreError>(StoreError::NotFoundError)
        } else {
            Err::<(), StoreError>(StoreError::IOError)
        },
{
    if rows_changed == 1 {
        Ok(())
    } else if rows_changed == 0 {
        Err(StoreError::NotFoundError)
    } else {
        Err(StoreError::IOError)
    }
}

/// The entry that a row of the table stands for.
pub open spec fn row_view(row: (i64, String, String, String)) -> EntryView {
    EntryView { id: row.0 as int, title: row.1@, username: row.2@, password: row.3@ }
}

/// The entries that the rows stand for, in the same order.
pub open spec fn row_views(rows: Seq<(i64, String, String, String)>) -> Seq<EntryView> {
    rows.map_values(|row: (i64, String, String, String)| row_view(row))
}

/// Turns the rows of the table into entries. The rows are taken whole or
/// not at all: one empty title, or one id that does not rise above the one
/// before it, fails the call.
pub fn entries_from_rows(rows: &Vec<(i64, String, String, String)>) -> (r: Result<
    Vec<Entry>,
    StoreError,
>)
    ensures
        well_formed(row_views(rows@)) ==> r is Ok && views(r->Ok_0@) == row_views(rows@),
        !well_formed(row_views(rows@)) ==> r == Err::<Vec<Entry>, StoreError>(StoreError::IOError),
{
    let mut out: Vec<Entry> = Vec::new();
    let mut i: usize = 0;
    let ghost all = row_views(rows@);
    while i < rows.len()
        invariant
            i <= rows.len(),
            all == row_views(rows@),
            out@.len() == i,
            forall|k: int| 0 <= k < i ==> out@[k]@ == all[k],
            well_formed(all.take(i as int)),
        decreases rows.len() - i,
    {
        let row = &rows[i];
        assert(all[i as int] == row_view(*row));
        if row.1.as_str().is_empty() {
            return Err(StoreError::IOError);
        }
        if i > 0 {
            assert(all[i - 1] == all.take(i as int)[i - 1]);
            if rows[i - 1].0 >= row.0 {
                assert(all[i - 1].id >= all[i as int].id);
                return Err(StoreError::IOError);
            }
        }
        out.push(
            Entry {
                id: row.0,
                title: row.1.clone(),
                username: row.2.clone(),
                password: row.3.clone(),
            },
        );
        proof {
            let before = all.take(i as int);
            let now = all.take(i + 1);
            assert forall|a: int, b: int| 0 <= a < b < now.len() implies now[a].id < now[b].id by {
                if b < i {
                    assert(before[a].id < before[b].id);
                } else if a < i - 1 {
                    assert(before[a].id < before[i - 1].id);
                }
            }
            assert forall|a: int| 0 <= a < now.len() implies (#[trigger] now[a]).title.len() > 0 by {
                if a < i {
                    assert(before[a].title.len() > 0);
                }
            }
        }
        i = i + 1;
    }
    proof {
        assert(all.take(rows.len() as int) =~= all);
        assert(views(out@) =~= all);
    }
    Ok(out)
}

/// The open store.
pub struct Database {
    conn: Connection,
}

impl Database {
    /// Opens the store in the user's configuration directory under the
    /// passphrase `key`, creating the file and the table where they are
    /// missing. Fails only with `AuthError` or `IOError`.
    pub fn new(key: String) -> (r: Result<Database, StoreError>)
        ensures
            r matches Err(e) ==> e == StoreError::AuthError || e == StoreError::IOError,
    {
        Database::open_in(config_dir(), key)
    }

    /// Opens the store in the directory `dir`, where there is one, under the
    /// passphrase `key`. Without a directory there is no place for the file:
    /// that is an `IOError`. Otherwise fails only with `AuthError` or
    /// `IOError`.
    pub fn open_in(dir: Option<PathBuf>, key: String) -> (r: Result<Database, StoreError>)
        ensures
            dir is None ==> (r matches Err(e) && e == StoreError::IOError),
            r matches Err(e) ==> e == StoreError::AuthError || e == StoreError::IOError,
    {
        match dir {
            None => Err(StoreError::IOError),
            Some(dir) => {
                let path = join_path(&dir, STORE_FILE);
                Database::open_at(&path, key)
            },
        }
    }

    /// Opens the store in the file at `path` under the passphrase `key`,
    /// creating the file and the table where they are missing. Fails only
    /// with `AuthError` or `IOError`.
    pub fn open_at(path: &PathBuf, key: String) -> (r: Result<Database, StoreError>)
        ensures
            r matches Err(e) ==> e == StoreError::AuthError || e == StoreError::IOError,
    {
        let conn = match engine_outcome(open_connection(path)) {
            Ok(conn) => conn,
            Err(e) => {
                return Err(e);
            },
        };
        // Without the passphrase the engine cannot read the file.
        match engine_outcome(pragma_update(&conn, KEY_PRAGMA, key)) {
            Ok(()) => {},
            Err(e) => {
                return Err(e);
            },
        }
        let db = Database { conn };
        match db.create_table() {
            Ok(()) => Ok(db),
            Err(e) => Err(e),
        }
    }

    /// Makes sure that the table of entries exists. Doing so a second time
    /// changes nothing. Fails only with `AuthError` or `IOError`.
    pub fn create_table(&self) -> (r: Result<(), StoreError>)
        ensures
            r matches Err(e) ==> e == StoreError::AuthError || e == StoreError::IOError,
    {
        engine_outcome(execute_batch(&self.conn, CREATE_TABLE_SQL))
    }

    /// Every stored entry, by rising id. An `Ok` list is well formed.
    pub fn load_all(&self) -> (r: Result<Vec<Entry>, StoreError>)
        ensures
            r matches Ok(entries) ==> well_formed(views(entries@)),
            r matches Err(e) ==> e == StoreError::AuthError || e == StoreError::IOError,
    {
        match engine_outcome(query_rows(&self.conn, SELECT_SQL)) {
            Ok(rows) => entries_from_rows(&rows),
            Err(e) => Err(e),
        }
    }

    /// Stores a new entry and returns the id that the store gave it. An
    /// empty title is refused with `ValidationError`, before the store is
    /// touched, and nothing else is.
    pub fn insert(&self, title: &str, username: &str, password: &str) -> (r: Result<
        i64,
        StoreError,
    >)
        ensures
            title@.len() == 0 <==> r == Err::<i64, StoreError>(StoreError::ValidationError),
            r matches Err(e) ==> e != StoreError::NotFoundError,
    {
        if title.is_empty() {
            return Err(StoreError::ValidationError);
        }
        match engine_outcome(execute(&self.conn, INSERT_SQL, title, username, password, None)) {
            Ok(rows_changed) => insert_outcome(rows_changed, last_insert_rowid(&self.conn)),
            Err(e) => Err(e),
        }
    }

    /// Replaces the three fields of the entry with this id. An empty title
    /// is refused with `ValidationError`, before the store is touched, and
    /// nothing else is.
    pub fn update(&self, id: i64, title: &str, username: &str, password: &str) -> (r: Result<
        (),
        StoreError,
    >)
        ensures
            title@.len() == 0 <==> r == Err::<(), StoreError>(StoreError::ValidationError),
    {
        if title.is_empty() {
            return Err(StoreError::ValidationError);
        }
        match engine_outcome(execute(&self.conn, UPDATE_SQL, title, username, password, Some(id))) {
            Ok(rows_changed) => change_outcome(rows_changed),
            Err(e) => Err(e),
        }
    }

    /// Removes the entry with this id. Never fails with `ValidationError`.
    pub fn delete(&self, id: i64) -> (r: Result<(), StoreError>)
        ensures
            r matches Err(e) ==> e != StoreError::ValidationError,
    {
        match engine_outcome(execute(&self.conn, DELETE_SQL, "", "", "", Some(id))) {
            Ok(rows_changed) => change_outcome(rows_changed),
            Err(e) => Err(e),
        }
    }
}

} // verus!
