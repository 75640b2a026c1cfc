use vstd::prelude::*;

verus! {

#[verifier::external_type_specification]
#[verifier::external_body]
pub struct ExConnection(rusqlite::Connection);

#[verifier::external_type_specification]
#[verifier::external_body]
pub struct ExSqliteError(rusqlite::Error);

/// A value bound to one parameter of a statement.
#[derive(Debug, Clone)]
pub enum SqlValue {
    Null,
    Integer(i64),
    Text(String),
}

/// The mathematical content of a [`SqlValue`].
pub enum SqlCell {
    Null,
    Integer(int),
    Text(Seq<char>),
}

impl View for SqlValue {
    type V = SqlCell;

    open spec fn view(&self) -> SqlCell {
        match self {
            SqlValue::Null => SqlCell::Null,
            SqlValue::Integer(i) => SqlCell::Integer(*i as int),
            SqlValue::Text(t) => SqlCell::Text(t@),
        }
    }
}

/// `row` binds, position by position, exactly the cells `c`.
pub open spec fn binds(row: Seq<SqlValue>, c: Seq<SqlCell>) -> bool {
    &&& row.len() == c.len()
    &&& forall|i: int| 0 <= i < row.len() ==> #[trigger] row[i]@ == c[i]
}

/// An optional text column: `NULL` when absent.
pub open spec fn text_or_null(t: Option<Seq<char>>) -> SqlCell {
    match t {
        Some(s) => SqlCell::Text(s),
        None => SqlCell::Null,
    }
}

/// What went wrong, by the layer that failed. Each variant carries the
/// message of the underlying failure.
#[derive(Debug, Clone)]
pub enum StoreError {
    /// The platform data directory could not be determined.
    PathResolution(String),
    /// The database file could not be opened.
    StorageOpen(String),
    /// A table-creation statement failed (most often: the table exists).
    Schema(String),
    /// A row insert failed.
    Insert(String),
    /// Creating or removing the data directory failed.
    Filesystem(String),
}

/// Name of the database file inside the data directory.
pub const DB_FILE_NAME: &'static str = "books.db";

pub const CREATE_BOOKS: &'static str = "CREATE TABLE books (
           id TEXT PRIMARY KEY,
           name TEXT NOT NULL,
           link TEXT
         );";

pub const CREATE_BOOKMARKS: &'static str = "CREATE TABLE bookmarks (
           id TEXT PRIMARY KEY,
           book_id TEXT,
           page INTEGER,
           section TEXT,
           link TEXT,
           FOREIGN KEY (book_id) REFERENCES books (id)
         );";

pub const CREATE_NOTES: &'static str = "CREATE TABLE notes (
           id TEXT PRIMARY KEY,
           book_id TEXT,
           note TEXT,
           FOREIGN KEY (book_id) REFERENCES books (id)
         );";

/// Relies on rusqlite::Connection::open: opens (creating if needed) the
/// database file at `path`; any failure comes back as an error.
#[verifier::external_body]
fn sqlite_open(path: &str) -> (r: Result<rusqlite::Connection, rusqlite::Error>) {
    rusqlite::Connection::open(path)
}

/// Relies on rusqlite::Connection::execute: runs one statement with the
/// given values bound to its parameters in order.
#[verifier::external_body]
fn sqlite_execute(conn: &rusqlite::Connection, sql: &str, row: &Vec<SqlValue>) -> (r: Result<
    usize,
    rusqlite::Error,
>) {
    let mut vals: std::vec::Vec<rusqlite::types::Value> = std::vec::Vec::new();
    for v in row.iter() {
        vals.push(
            match v {
                SqlValue::Null => rusqlite::types::Value::Null,
                SqlValue::Integer(i) => rusqlite::types::Value::Integer(*i),
                SqlValue::Text(t) => rusqlite::types::Value::Text(t.clone()),
            },
        );
    }
    conn.execute(sql, rusqlite::params_from_iter(vals))
}

/// Relies on the `Display` impl of rusqlite::Error: a human-readable message.
#[verifier::external_body]
fn sqlite_message(e: &rusqlite::Error) -> (r: String) {
    e.to_string()
}

/// Opens a connection to the database file at `db_path`.
pub fn open_connection(db_path: &str) -> (r: Result<rusqlite::Connection, StoreError>)
    ensures
        r matches Err(e) ==> e is StorageOpen,
{
    match sqlite_open(db_path) {
        Ok(c) => Ok(c),
        Err(e) => Err(StoreError::StorageOpen(sqlite_message(&e))),
    }
}

/// The three table definitions, in the order they are created.
pub fn schema_statements() -> (r: Vec<&'static str>)
    ensures
        r@.len() == 3,
        r@[0]@ == CREATE_BOOKS@,
        r@[1]@ == CREATE_BOOKMARKS@,
        r@[2]@ == CREATE_NOTES@,
{
    vec![CREATE_BOOKS, CREATE_BOOKMARKS, CREATE_NOTES]
}

/// Creates the `books`, `bookmarks` and `notes` tables, in that order,
/// stopping at the first statement that fails. Nothing is done to detect an
/// existing schema first: on a store that holds one, the first statement
/// fails and the error is a schema error.
pub fn create_schema(conn: &rusqlite::Connection) -> (r: Result<(), StoreError>)
    ensures
        r matches Err(e) ==> e is Schema,
{
    let stmts = schema_statements();
    let mut i: usize = 0;
    while i < stmts.len()
        invariant
            stmts@.len() == 3,
            i <= stmts@.len(),
        decreases stmts@.len() - i,
    {
        match sqlite_execute(conn, stmts[i], &Vec::new()) {
            Ok(_) => {},
            Err(e) => {
                return Err(StoreError::Schema(sqlite_message(&e)));
            },
        }
        i = i + 1;
    }
    Ok(())
}

/// Inserts one row: `sql` with `row` bound to its parameters.
pub(crate) fn insert_row(conn: &rusqlite::Connection, sql: &str, row: &Vec<SqlValue>) -> (r: Result<
    (),
    StoreError,
>)
    ensures
        r matches Err(e) ==> e is Insert,
{
    match sqlite_execute(conn, sql, row) {
        Ok(_) => Ok(()),
        Err(e) => Err(StoreError::Insert(sqlite_message(&e))),
    }
}

} // verus!
